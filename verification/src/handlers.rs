//! The endpoints: what each answers, as a status code and a plaintext body.

use crate::config::Config;
use crate::health::{
    aggregate, aggregate_one_port, aggregate_one_service, aggregated, CheckResult, HealthReport,
    TargetModel,
};
use crate::metrics::{usage_models, Metrics};
use crate::report::{
    disk_listing, push_single_line, push_value_line, render_disks, render_report, report_text,
    single_line, value_line,
};
use vstd::prelude::*;
use vstd::string::StringExecFns;

verus! {

/// The status of an answer that found everything in order.
pub const STATUS_OK: u16 = 200;

/// The status of an answer about a name that the settings do not hold.
pub const STATUS_NOT_FOUND: u16 = 404;

/// The status of an answer that found something down.
pub const STATUS_DOWN: u16 = 500;

/// An answer: a status code and a plaintext body.
pub struct Response {
    pub status: u16,
    pub body: String,
}

/// The status that tells whether all is in order.
pub open spec fn status_of(ok: bool) -> u16 {
    if ok {
        STATUS_OK
    } else {
        STATUS_DOWN
    }
}

/// The body that says that no service `name` is configured.
pub open spec fn service_missing(name: Seq<char>) -> Seq<char> {
    "service "@ + name + " not in config\n"@
}

/// The body that says that no port is configured under `name`.
pub open spec fn port_missing(name: Seq<char>) -> Seq<char> {
    "port name '"@ + name + "' not in config\n"@
}

/// Whether `response` answers for a full report.
pub open spec fn answers_report(response: Response, report: HealthReport) -> bool {
    response.status == status_of(report.overall_ok) && response.body@ == report_text(report)
}

/// Whether `response` answers for a single check.
pub open spec fn answers_check(response: Response, check: CheckResult) -> bool {
    response.status == status_of(check.up) && response.body@ == single_line(check.target@, check.up)
}

/// The answer of the root: the agent is there.
pub fn root_handler() -> (response: Response)
    ensures
        response.status == STATUS_OK,
        response.body@ == "monitoring agent is running\n"@,
{
    Response { status: STATUS_OK, body: String::from_str("monitoring agent is running\n") }
}

/// The answer for a full report: its text, and whether all is in order.
pub fn report_response(report: &HealthReport) -> (response: Response)
    ensures
        answers_report(response, *report),
{
    let status: u16 = if report.overall_ok {
        STATUS_OK
    } else {
        STATUS_DOWN
    };
    Response { status, body: render_report(report) }
}

/// The answer for a single check: its line, and whether the target is up.
pub fn check_response(check: &CheckResult) -> (response: Response)
    ensures
        answers_check(response, *check),
{
    let status: u16 = if check.up {
        STATUS_OK
    } else {
        STATUS_DOWN
    };
    let mut body: String = String::new();
    push_single_line(&mut body, check);
    assert(body@ =~= single_line(check.target@, check.up));
    Response { status, body }
}

/// The full report: probes every target of `config` and answers with the
/// metrics and every check, and with whether all are up.
pub fn metrics_handler<S: Fn(&str) -> bool, P: Fn(u16) -> bool>(
    config: &Config,
    metrics: Metrics,
    service_probe: S,
    port_probe: P,
) -> (response: Response)
    requires
        forall|name: &str| call_requires(service_probe, (name,)),
        forall|port: u16| call_requires(port_probe, (port,)),
    ensures
        exists|report: HealthReport| #[trigger]
            aggregated(*config, metrics, service_probe, port_probe, report) && answers_report(
                response,
                report,
            ),
{
    let report: HealthReport = aggregate(config, metrics, service_probe, port_probe);
    report_response(&report)
}

/// One service: not found if `config` does not hold it, whatever its state;
/// else probed once, and the answer tells whether it runs.
pub fn service_handler<S: FnOnce(&str) -> bool>(config: &Config, name: &str, probe: S) -> (response:
    Response)
    requires
        call_requires(probe, (name,)),
    ensures
        !config.has_service(name@) ==> response.status == STATUS_NOT_FOUND && response.body@
            == service_missing(name@),
        config.has_service(name@) ==> exists|up: bool| #[trigger]
            call_ensures(probe, (name,), up) && response.status == status_of(up) && response.body@
                == single_line(TargetModel::Service(name@), up),
{
    match aggregate_one_service(config, name, probe) {
        Err(_) => {
            let mut body: String = String::from_str("service ");
            body.append(name);
            body.append(" not in config\n");
            assert(body@ =~= service_missing(name@));
            Response { status: STATUS_NOT_FOUND, body }
        },
        Ok(check) => {
            assert(call_ensures(probe, (name,), check.up));
            check_response(&check)
        },
    }
}

/// One port: not found if `config` holds none under `name`, whatever is
/// open; else tried once, and the answer tells whether it is open.
pub fn port_handler<P: FnOnce(u16) -> bool>(config: &Config, name: &str, probe: P) -> (response:
    Response)
    requires
        forall|port: u16| call_requires(probe, (port,)),
    ensures
        config.port_of(name@) is None ==> response.status == STATUS_NOT_FOUND && response.body@
            == port_missing(name@),
        config.port_of(name@) matches Some(port) ==> exists|up: bool| #[trigger]
            call_ensures(probe, (port,), up) && response.status == status_of(up) && response.body@
                == single_line(TargetModel::Port(name@, port), up),
{
    match aggregate_one_port(config, name, probe) {
        Err(_) => {
            let mut body: String = String::from_str("port name '");
            body.append(name);
            body.append("' not in config\n");
            assert(body@ =~= port_missing(name@));
            Response { status: STATUS_NOT_FOUND, body }
        },
        Ok(check) => {
            assert(call_ensures(probe, (config.port_of(name@)->0,), check.up));
            check_response(&check)
        },
    }
}

/// The processor utilisation alone.
pub fn cpu_handler(metrics: &Metrics) -> (response: Response)
    ensures
        response.status == STATUS_OK,
        response.body@ == value_line(metrics.cpu.hundredths as nat),
{
    let mut body: String = String::new();
    push_value_line(&mut body, metrics.cpu);
    assert(body@ =~= value_line(metrics.cpu.hundredths as nat));
    Response { status: STATUS_OK, body }
}

/// The memory in use alone.
pub fn memory_handler(metrics: &Metrics) -> (response: Response)
    ensures
        response.status == STATUS_OK,
        response.body@ == value_line(metrics.mem_percent.hundredths as nat),
{
    let mut body: String = String::new();
    push_value_line(&mut body, metrics.mem_percent);
    assert(body@ =~= value_line(metrics.mem_percent.hundredths as nat));
    Response { status: STATUS_OK, body }
}

/// The load alone: that over fifteen minutes.
pub fn load_handler(metrics: &Metrics) -> (response: Response)
    ensures
        response.status == STATUS_OK,
        response.body@ == value_line(metrics.load15.hundredths as nat),
{
    let mut body: String = String::new();
    push_value_line(&mut body, metrics.load15);
    assert(body@ =~= value_line(metrics.load15.hundredths as nat));
    Response { status: STATUS_OK, body }
}

/// The disks alone, one line each.
pub fn disk_handler(metrics: &Metrics) -> (response: Response)
    ensures
        response.status == STATUS_OK,
        response.body@ == disk_listing(usage_models(metrics.disk_stats@)),
{
    Response { status: STATUS_OK, body: render_disks(metrics) }
}

/// The bodies that say that a name is not configured end in a newline.
pub proof fn lemma_missing_lines_end(name: Seq<char>)
    ensures
        service_missing(name).len() > 0,
        service_missing(name).last() == '\n',
        port_missing(name).len() > 0,
        port_missing(name).last() == '\n',
{
    reveal_strlit(" not in config\n");
    reveal_strlit("' not in config\n");
}

} // verus!
