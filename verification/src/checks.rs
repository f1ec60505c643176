//! Liveness probes: which query tells whether a service runs, how its answer
//! is read, and where a port is tried.
//!
//! Running a query and opening a connection are the caller's part: both are
//! handed in as functions, and a failure of either counts as "down".

use crate::metrics::Platform;
use crate::text::{contains, str_contains, trimmed, trimmed_equals};
use vstd::prelude::*;
use vstd::string::StringExecFns;

verus! {

/// The command that asks the operating system about a service.
pub struct ServiceQuery {
    pub program: String,
    pub args: Vec<String>,
}

/// What a command that ran to its end left behind.
pub struct CommandOutput {
    /// Whether it exited successfully.
    pub success: bool,
    /// Its standard output.
    pub stdout: String,
}

/// The program that is asked about services.
pub open spec fn query_program(platform: Platform) -> Seq<char> {
    match platform {
        Platform::Unix => "systemctl"@,
        Platform::Windows => "sc"@,
    }
}

/// The word that asks it for a service's state.
pub open spec fn query_verb(platform: Platform) -> Seq<char> {
    match platform {
        Platform::Unix => "is-active"@,
        Platform::Windows => "query"@,
    }
}

/// Whether `query` asks `platform` about `service`: the program, then the
/// verb and the service's name as its two arguments.
pub open spec fn asks_about(query: ServiceQuery, platform: Platform, service: Seq<char>) -> bool {
    &&& query.program@ == query_program(platform)
    &&& query.args.len() == 2
    &&& query.args[0]@ == query_verb(platform)
    &&& query.args[1]@ == service
}

/// Whether the outcome of a query shows a running service. `None` stands for
/// a query that could not be run. On Unix the command must have succeeded and
/// printed, whitespace aside, exactly `active`; on Windows it must have
/// printed `RUNNING` somewhere.
pub open spec fn shows_running(platform: Platform, outcome: Option<CommandOutput>) -> bool {
    match outcome {
        None => false,
        Some(out) => match platform {
            Platform::Unix => out.success && trimmed(out.stdout@) == "active"@,
            Platform::Windows => contains(out.stdout@, "RUNNING"@),
        },
    }
}

/// The address on which ports are tried.
pub open spec fn probe_host() -> Seq<char> {
    "127.0.0.1"@
}

/// The command that asks `platform` about `service`.
pub fn service_query(platform: Platform, service: &str) -> (query: ServiceQuery)
    ensures
        asks_about(query, platform, service@),
{
    let mut args: Vec<String> = Vec::new();
    match platform {
        Platform::Unix => {
            args.push(String::from_str("is-active"));
            args.push(String::from_str(service));
            ServiceQuery { program: String::from_str("systemctl"), args }
        },
        Platform::Windows => {
            args.push(String::from_str("query"));
            args.push(String::from_str(service));
            ServiceQuery { program: String::from_str("sc"), args }
        },
    }
}

/// Reads the outcome of a service query; `None` stands for a query that
/// could not be run.
pub fn service_state(platform: Platform, outcome: &Option<CommandOutput>) -> (up: bool)
    ensures
        up == shows_running(platform, *outcome),
{
    match outcome {
        None => false,
        Some(out) => match platform {
            Platform::Unix => out.success && trimmed_equals(out.stdout.as_str(), "active"),
            Platform::Windows => str_contains(out.stdout.as_str(), "RUNNING"),
        },
    }
}

/// Whether `up` is what a probe of `service` through `run` can give: `run`
/// was handed the query for this service, and `up` reads what it returned.
pub open spec fn service_probed<R: FnOnce(&ServiceQuery) -> Option<CommandOutput>>(
    run: R,
    platform: Platform,
    service: Seq<char>,
    up: bool,
) -> bool {
    exists|query: ServiceQuery, outcome: Option<CommandOutput>|
        asks_about(query, platform, service) && call_ensures(run, (&query,), outcome) && up
            == shows_running(platform, outcome)
}

/// Checks whether a service runs: asks the operating system through `run`,
/// once, and reads the answer.
pub fn check_service<R: FnOnce(&ServiceQuery) -> Option<CommandOutput>>(
    platform: Platform,
    service: &str,
    run: R,
) -> (up: bool)
    requires
        forall|query: &ServiceQuery| call_requires(run, (query,)),
    ensures
        service_probed(run, platform, service@, up),
{
    let query: ServiceQuery = service_query(platform, service);
    let outcome: Option<CommandOutput> = run(&query);
    service_state(platform, &outcome)
}

/// Whether `up` is what a probe of `port` through `connect` can give:
/// `connect` was handed the local host and this port, and `up` is what it
/// returned.
pub open spec fn port_probed<C: FnOnce(&str, u16) -> bool>(connect: C, port: u16, up: bool) -> bool {
    exists|host: &str| #[trigger] host@ == probe_host() && call_ensures(connect, (host, port), up)
}

/// Checks whether a port of the local host is open: tries, through
/// `connect`, once, to connect to it; `connect` says whether that succeeded.
pub fn check_http_port<C: FnOnce(&str, u16) -> bool>(port: u16, connect: C) -> (up: bool)
    requires
        forall|host: &str| call_requires(connect, (host, port)),
    ensures
        port_probed(connect, port, up),
{
    let host: &str = "127.0.0.1";
    let up: bool = connect(host, port);
    assert(host@ == probe_host() && call_ensures(connect, (host, port), up));
    up
}

} // verus!
