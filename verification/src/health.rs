//! The health report: one check for every configured target, and their
//! conjunction.

use crate::config::{Config, PortEntry};
use crate::metrics::Metrics;
use vstd::prelude::*;
use vstd::string::StringExecFns;

verus! {

/// What is probed: a service by its name, or a port under its logical name.
pub enum Target {
    Service(String),
    Port(String, u16),
}

/// What a `Target` says.
pub ghost enum TargetModel {
    Service(Seq<char>),
    Port(Seq<char>, u16),
}

impl View for Target {
    type V = TargetModel;

    open spec fn view(&self) -> TargetModel {
        match *self {
            Target::Service(name) => TargetModel::Service(name@),
            Target::Port(name, port) => TargetModel::Port(name@, port),
        }
    }
}

impl TargetModel {
    /// The name of the target.
    pub open spec fn name(self) -> Seq<char> {
        match self {
            TargetModel::Service(name) => name,
            TargetModel::Port(name, _) => name,
        }
    }
}

impl Target {
    /// The name of the target: the service's, or the logical name of the port.
    pub fn name(&self) -> (name: &str)
        ensures
            name@ == self@.name(),
    {
        match self {
            Target::Service(name) => name.as_str(),
            Target::Port(name, _) => name.as_str(),
        }
    }
}

/// The outcome of one probe.
pub struct CheckResult {
    pub target: Target,
    pub up: bool,
}

/// The lookup of a name that the settings do not hold. It says nothing of
/// the state of anything: nothing was probed.
#[derive(Clone, Copy, Debug, PartialEq, Eq, Structural)]
pub struct NotConfigured {}

/// A metrics snapshot with the outcome of every configured probe.
pub struct HealthReport {
    pub metrics: Metrics,
    pub checks: Vec<CheckResult>,
    /// Whether every check found its target up.
    pub overall_ok: bool,
}

/// Whether every one of `checks` found its target up.
pub open spec fn all_up(checks: Seq<CheckResult>) -> bool {
    forall|i: int| 0 <= i < checks.len() ==> (#[trigger] checks[i]).up
}

/// The targets of `checks`, in order.
pub open spec fn targets(checks: Seq<CheckResult>) -> Seq<TargetModel> {
    Seq::new(checks.len(), |i: int| checks[i].target@)
}

/// The targets that `config` asks for: its services in their order, then
/// its ports in theirs.
pub open spec fn plan(config: Config) -> Seq<TargetModel> {
    config.services@.map_values(|name: String| TargetModel::Service(name@))
        + config.http_ports@.map_values(|entry: PortEntry| TargetModel::Port(entry.name@, entry.port))
}

/// Whether `up` is what `probe` can return for the service `name`.
pub open spec fn service_says<S: Fn(&str) -> bool>(probe: S, name: Seq<char>, up: bool) -> bool {
    exists|n: &str| #[trigger] n@ == name && call_ensures(probe, (n,), up)
}

/// Whether `check` is what the probes can give for its target.
pub open spec fn observed<S: Fn(&str) -> bool, P: Fn(u16) -> bool>(
    service_probe: S,
    port_probe: P,
    check: CheckResult,
) -> bool {
    match check.target {
        Target::Service(name) => service_says(service_probe, name@, check.up),
        Target::Port(_, port) => call_ensures(port_probe, (port,), check.up),
    }
}

/// Whether `report` is what probing every target of `config` can give: it
/// carries `metrics`, holds one check for each target of the plan, in order,
/// each as its probe answered, and is in order exactly when all are up.
pub open spec fn aggregated<S: Fn(&str) -> bool, P: Fn(u16) -> bool>(
    config: Config,
    metrics: Metrics,
    service_probe: S,
    port_probe: P,
    report: HealthReport,
) -> bool {
    &&& report.metrics == metrics
    &&& targets(report.checks@) == plan(config)
    &&& forall|i: int|
        0 <= i < report.checks.len() ==> observed(service_probe, port_probe, #[trigger] report.checks[i])
    &&& report.overall_ok == all_up(report.checks@)
}

impl HealthReport {
    /// Whether the overall status is the conjunction of the checks.
    pub open spec fn well_formed(&self) -> bool {
        self.overall_ok == all_up(self.checks@)
    }

    /// The report of these metrics and checks.
    pub fn new(metrics: Metrics, checks: Vec<CheckResult>) -> (report: HealthReport)
        ensures
            report.metrics == metrics,
            report.checks == checks,
            report.overall_ok == all_up(checks@),
            report.well_formed(),
    {
        let mut ok: bool = true;
        let mut i: usize = 0;
        while i < checks.len()
            invariant
                i <= checks.len(),
                ok == all_up(checks@.subrange(0, i as int)),
            decreases checks.len() - i,
        {
            proof {
                let before = checks@.subrange(0, i as int);
                let upto = checks@.subrange(0, i + 1);
                assert(upto[i as int] == checks@[i as int]);
                assert forall|k: int| 0 <= k < before.len() implies before[k] == upto[k] by {}
                if all_up(upto) {
                    assert forall|k: int| 0 <= k < before.len() implies (#[trigger] before[k]).up by {
                        assert(upto[k].up);
                    }
                }
            }
            if !checks[i].up {
                ok = false;
            }
            i += 1;
        }
        assert(checks@.subrange(0, checks.len() as int) =~= checks@);
        HealthReport { metrics, checks, overall_ok: ok }
    }
}

/// Probes every target of `config`, once each and whatever the others gave,
/// and folds the outcomes into a report on `metrics`.
pub fn aggregate<S: Fn(&str) -> bool, P: Fn(u16) -> bool>(
    config: &Config,
    metrics: Metrics,
    service_probe: S,
    port_probe: P,
) -> (report: HealthReport)
    requires
        forall|name: &str| call_requires(service_probe, (name,)),
        forall|port: u16| call_requires(port_probe, (port,)),
    ensures
        aggregated(*config, metrics, service_probe, port_probe, report),
        config.services.len() == 0 && config.http_ports.len() == 0 ==> report.checks.len() == 0
            && report.overall_ok,
{
    let mut checks: Vec<CheckResult> = Vec::new();
    let services: usize = config.services.len();
    let mut i: usize = 0;
    while i < services
        invariant
            services == config.services.len(),
            i <= services,
            checks.len() == i,
            forall|name: &str| call_requires(service_probe, (name,)),
            forall|k: int| 0 <= k < i ==> (#[trigger] checks[k]).target@ == plan(*config)[k],
            forall|k: int| 0 <= k < i ==> observed(service_probe, port_probe, #[trigger] checks[k]),
        decreases services - i,
    {
        let name: &str = config.services[i].as_str();
        let up: bool = service_probe(name);
        let check = CheckResult { target: Target::Service(String::from_str(name)), up };
        assert(service_says(service_probe, name@, up));
        checks.push(check);
        i += 1;
    }
    let ports: usize = config.http_ports.len();
    let mut j: usize = 0;
    while j < ports
        invariant
            services == config.services.len(),
            ports == config.http_ports.len(),
            j <= ports,
            checks.len() == services + j,
            forall|port: u16| call_requires(port_probe, (port,)),
            forall|k: int| 0 <= k < services + j ==> (#[trigger] checks[k]).target@ == plan(*config)[k],
            forall|k: int|
                0 <= k < services + j ==> observed(service_probe, port_probe, #[trigger] checks[k]),
        decreases ports - j,
    {
        let entry: &PortEntry = &config.http_ports[j];
        let up: bool = port_probe(entry.port);
        let check = CheckResult {
            target: Target::Port(String::from_str(entry.name.as_str()), entry.port),
            up,
        };
        checks.push(check);
        j += 1;
    }
    assert(targets(checks@) =~= plan(*config));
    HealthReport::new(metrics, checks)
}

/// Probes the service `name`, if `config` holds it.
pub fn aggregate_one_service<S: FnOnce(&str) -> bool>(config: &Config, name: &str, probe: S) -> (found:
    Result<CheckResult, NotConfigured>)
    requires
        call_requires(probe, (name,)),
    ensures
        found is Ok <==> config.has_service(name@),
        found matches Ok(check) ==> check.target@ == TargetModel::Service(name@) && call_ensures(
            probe,
            (name,),
            check.up,
        ),
{
    if !config.is_service(name) {
        return Err(NotConfigured {  });
    }
    let up: bool = probe(name);
    Ok(CheckResult { target: Target::Service(String::from_str(name)), up })
}

/// Probes the port that `config` holds under `name`, if it holds one.
pub fn aggregate_one_port<P: FnOnce(u16) -> bool>(config: &Config, name: &str, probe: P) -> (found:
    Result<CheckResult, NotConfigured>)
    requires
        forall|port: u16| call_requires(probe, (port,)),
    ensures
        found is Ok <==> config.port_of(name@) is Some,
        found matches Ok(check) ==> check.target@ == TargetModel::Port(
            name@,
            config.port_of(name@)->0,
        ) && call_ensures(probe, (config.port_of(name@)->0,), check.up),
{
    match config.port_named(name) {
        None => Err(NotConfigured {  }),
        Some(port) => {
            let up: bool = probe(port);
            Ok(CheckResult { target: Target::Port(String::from_str(name), port), up })
        },
    }
}

/// Settings without services and ports ask for nothing, and a report without
/// checks is in order.
pub proof fn lemma_nothing_configured(config: Config, report: HealthReport)
    requires
        config.services.len() == 0,
        config.http_ports.len() == 0,
        targets(report.checks@) == plan(config),
        report.well_formed(),
    ensures
        report.checks.len() == 0,
        report.overall_ok,
{
    assert(targets(report.checks@).len() == report.checks.len());
}

/// A report is not in order exactly when one of its checks is down.
pub proof fn lemma_down_iff_some_down(report: HealthReport)
    requires
        report.well_formed(),
    ensures
        !report.overall_ok <==> exists|i: int|
            0 <= i < report.checks.len() && !(#[trigger] report.checks[i]).up,
{
}

/// The plan has one target for each service and each port: the services
/// first, then the ports, each in the order of the settings.
pub proof fn lemma_plan_order(config: Config)
    ensures
        plan(config).len() == config.services.len() + config.http_ports.len(),
        forall|i: int|
            0 <= i < config.services.len() ==> #[trigger] plan(config)[i] == TargetModel::Service(
                config.services[i]@,
            ),
        forall|j: int|
            0 <= j < config.http_ports.len() ==> #[trigger] plan(config)[config.services.len() + j]
                == TargetModel::Port(config.http_ports[j].name@, config.http_ports[j].port),
{
}

/// One more check keeps the status only if it is up: the conjunction leaves
/// no check out.
pub proof fn lemma_all_up_push(checks: Seq<CheckResult>, check: CheckResult)
    ensures
        all_up(checks.push(check)) == (all_up(checks) && check.up),
{
    let more = checks.push(check);
    assert(more[checks.len() as int] == check);
    assert forall|k: int| 0 <= k < checks.len() implies checks[k] == more[k] by {}
    if all_up(more) {
        assert forall|k: int| 0 <= k < checks.len() implies (#[trigger] checks[k]).up by {
            assert(more[k].up);
        }
    }
}

} // verus!
