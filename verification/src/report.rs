//! The plaintext of every response: one line per value, numbers with two
//! decimal places.

use crate::health::{CheckResult, HealthReport, Target, TargetModel};
use crate::metrics::{usage_models, DiskUsage, Metrics, UsageModel};
use crate::percent::Percent;
use crate::text::{decimal, push_decimal, push_two_places, two_places};
use vstd::prelude::*;
use vstd::string::StringExecFns;

verus! {

/// The line `<label>: <value>%`, the value with two decimal places.
pub open spec fn percent_line(label: Seq<char>, hundredths: nat) -> Seq<char> {
    label + ": "@ + two_places(hundredths) + "%\n"@
}

/// The line of a bare value with two decimal places.
pub open spec fn value_line(hundredths: nat) -> Seq<char> {
    two_places(hundredths) + "\n"@
}

/// The line of one disk in the full report.
pub open spec fn disk_line(usage: UsageModel) -> Seq<char> {
    "disk "@ + percent_line(usage.label + " usage"@, usage.hundredths)
}

/// The lines of the disks in the full report, in order.
pub open spec fn disk_lines(usages: Seq<UsageModel>) -> Seq<char>
    decreases usages.len(),
{
    if usages.len() == 0 {
        Seq::empty()
    } else {
        disk_lines(usages.drop_last()) + disk_line(usages.last())
    }
}

/// The lines of the disks when they are asked for alone, in order.
pub open spec fn disk_listing(usages: Seq<UsageModel>) -> Seq<char>
    decreases usages.len(),
{
    if usages.len() == 0 {
        Seq::empty()
    } else {
        disk_listing(usages.drop_last()) + percent_line(usages.last().label, usages.last().hundredths)
    }
}

/// The lines of a metrics snapshot: processor, the three loads, memory,
/// then the disks.
pub open spec fn metrics_text(m: Metrics) -> Seq<char> {
    percent_line("cpu usage"@, m.cpu.hundredths as nat) + percent_line(
        "cpu usage 1min"@,
        m.load1.hundredths as nat,
    ) + percent_line("cpu_usage 5min"@, m.load5.hundredths as nat) + percent_line(
        "cpu usage 15min"@,
        m.load15.hundredths as nat,
    ) + percent_line("memory usage"@, m.mem_percent.hundredths as nat) + disk_lines(
        usage_models(m.disk_stats@),
    )
}

/// How the state of a service reads.
pub open spec fn service_word(up: bool) -> Seq<char> {
    if up {
        "active"@
    } else {
        "inactive"@
    }
}

/// How the state of a port reads.
pub open spec fn port_word(up: bool) -> Seq<char> {
    if up {
        "up"@
    } else {
        "down"@
    }
}

/// The line of a service.
pub open spec fn service_line(name: Seq<char>, up: bool) -> Seq<char> {
    "service "@ + name + ": "@ + service_word(up) + "\n"@
}

/// A port with its logical name and its state: `<port> (<name>): <state>`.
pub open spec fn port_detail(name: Seq<char>, port: u16, up: bool) -> Seq<char> {
    decimal(port as nat) + " ("@ + name + "): "@ + port_word(up) + "\n"@
}

/// The line of one check in the full report.
pub open spec fn check_line(target: TargetModel, up: bool) -> Seq<char> {
    match target {
        TargetModel::Service(name) => service_line(name, up),
        TargetModel::Port(name, port) => "http port "@ + port_detail(name, port, up),
    }
}

/// The line of one check when it is asked for alone.
pub open spec fn single_line(target: TargetModel, up: bool) -> Seq<char> {
    match target {
        TargetModel::Service(name) => service_line(name, up),
        TargetModel::Port(name, port) => "http_port "@ + port_detail(name, port, up),
    }
}

/// The lines of the checks, in order.
pub open spec fn check_lines(checks: Seq<CheckResult>) -> Seq<char>
    decreases checks.len(),
{
    if checks.len() == 0 {
        Seq::empty()
    } else {
        check_lines(checks.drop_last()) + check_line(checks.last().target@, checks.last().up)
    }
}

/// The text of a health report: the metrics, then the checks.
pub open spec fn report_text(report: HealthReport) -> Seq<char> {
    metrics_text(report.metrics) + check_lines(report.checks@)
}

/// Appends the line `<label>: <value>%`.
pub fn push_percent_line(out: &mut String, label: &str, value: Percent)
    ensures
        final(out)@ == old(out)@ + percent_line(label@, value.hundredths as nat),
{
    out.append(label);
    out.append(": ");
    push_two_places(out, value.hundredths);
    out.append("%\n");
    assert(final(out)@ =~= old(out)@ + percent_line(label@, value.hundredths as nat));
}

/// Appends the line of a bare value.
pub fn push_value_line(out: &mut String, value: Percent)
    ensures
        final(out)@ == old(out)@ + value_line(value.hundredths as nat),
{
    push_two_places(out, value.hundredths);
    out.append("\n");
    assert(final(out)@ =~= old(out)@ + value_line(value.hundredths as nat));
}

/// Appends the line of one disk in the full report.
fn push_disk_line(out: &mut String, usage: &DiskUsage)
    ensures
        final(out)@ == old(out)@ + disk_line(usage@),
{
    out.append("disk ");
    let mut label: String = String::new();
    label.append(usage.label.as_str());
    label.append(" usage");
    assert(label@ =~= usage.label@ + " usage"@);
    push_percent_line(out, label.as_str(), usage.percent);
    assert(final(out)@ =~= old(out)@ + disk_line(usage@));
}

/// Appends the lines of a metrics snapshot.
pub fn push_metrics(out: &mut String, m: &Metrics)
    ensures
        final(out)@ == old(out)@ + metrics_text(*m),
{
    push_percent_line(out, "cpu usage", m.cpu);
    push_percent_line(out, "cpu usage 1min", m.load1);
    push_percent_line(out, "cpu_usage 5min", m.load5);
    push_percent_line(out, "cpu usage 15min", m.load15);
    push_percent_line(out, "memory usage", m.mem_percent);
    let ghost head = out@;
    let ghost shown = usage_models(m.disk_stats@);
    let mut i: usize = 0;
    assert(shown.subrange(0, 0) =~= Seq::<UsageModel>::empty());
    assert(out@ =~= head + disk_lines(shown.subrange(0, 0)));
    while i < m.disk_stats.len()
        invariant
            i <= m.disk_stats.len(),
            shown == usage_models(m.disk_stats@),
            out@ == head + disk_lines(shown.subrange(0, i as int)),
        decreases m.disk_stats.len() - i,
    {
        let ghost upto = shown.subrange(0, i + 1);
        assert(upto.drop_last() =~= shown.subrange(0, i as int));
        assert(upto.last() == m.disk_stats@[i as int]@);
        push_disk_line(out, &m.disk_stats[i]);
        assert(out@ =~= head + disk_lines(upto));
        i += 1;
    }
    assert(shown.subrange(0, m.disk_stats.len() as int) =~= shown);
    assert(final(out)@ =~= old(out)@ + metrics_text(*m));
}

/// Appends `<port> (<name>): <state>`.
fn push_port_detail(out: &mut String, name: &str, port: u16, up: bool)
    ensures
        final(out)@ == old(out)@ + port_detail(name@, port, up),
{
    push_decimal(out, port as u128);
    out.append(" (");
    out.append(name);
    out.append("): ");
    out.append(if up {
        "up"
    } else {
        "down"
    });
    out.append("\n");
    assert(final(out)@ =~= old(out)@ + port_detail(name@, port, up));
}

/// Appends the line of a service.
fn push_service_line(out: &mut String, name: &str, up: bool)
    ensures
        final(out)@ == old(out)@ + service_line(name@, up),
{
    out.append("service ");
    out.append(name);
    out.append(": ");
    out.append(if up {
        "active"
    } else {
        "inactive"
    });
    out.append("\n");
    assert(final(out)@ =~= old(out)@ + service_line(name@, up));
}

/// Appends the line of one check in the full report.
pub fn push_check_line(out: &mut String, check: &CheckResult)
    ensures
        final(out)@ == old(out)@ + check_line(check.target@, check.up),
{
    match &check.target {
        Target::Service(name) => {
            push_service_line(out, name.as_str(), check.up);
        },
        Target::Port(name, port) => {
            out.append("http port ");
            push_port_detail(out, name.as_str(), *port, check.up);
            assert(final(out)@ =~= old(out)@ + check_line(check.target@, check.up));
        },
    }
}

/// Appends the line of one check that was asked for alone.
pub fn push_single_line(out: &mut String, check: &CheckResult)
    ensures
        final(out)@ == old(out)@ + single_line(check.target@, check.up),
{
    match &check.target {
        Target::Service(name) => {
            push_service_line(out, name.as_str(), check.up);
        },
        Target::Port(name, port) => {
            out.append("http_port ");
            push_port_detail(out, name.as_str(), *port, check.up);
            assert(final(out)@ =~= old(out)@ + single_line(check.target@, check.up));
        },
    }
}

/// The text of a health report.
pub fn render_report(report: &HealthReport) -> (text: String)
    ensures
        text@ == report_text(*report),
{
    let mut out: String = String::new();
    push_metrics(&mut out, &report.metrics);
    let ghost head = out@;
    let mut i: usize = 0;
    assert(report.checks@.subrange(0, 0) =~= Seq::<CheckResult>::empty());
    assert(out@ =~= head + check_lines(report.checks@.subrange(0, 0)));
    while i < report.checks.len()
        invariant
            i <= report.checks.len(),
            out@ == head + check_lines(report.checks@.subrange(0, i as int)),
        decreases report.checks.len() - i,
    {
        let ghost upto = report.checks@.subrange(0, i + 1);
        assert(upto.drop_last() =~= report.checks@.subrange(0, i as int));
        assert(upto.last() == report.checks@[i as int]);
        push_check_line(&mut out, &report.checks[i]);
        assert(out@ =~= head + check_lines(upto));
        i += 1;
    }
    assert(report.checks@.subrange(0, report.checks.len() as int) =~= report.checks@);
    assert(head =~= metrics_text(report.metrics));
    out
}

/// The lines of the disks of a snapshot, asked for alone.
pub fn render_disks(m: &Metrics) -> (text: String)
    ensures
        text@ == disk_listing(usage_models(m.disk_stats@)),
{
    let mut out: String = String::new();
    let ghost shown = usage_models(m.disk_stats@);
    let mut i: usize = 0;
    assert(shown.subrange(0, 0) =~= Seq::<UsageModel>::empty());
    assert(out@ =~= disk_listing(shown.subrange(0, 0)));
    while i < m.disk_stats.len()
        invariant
            i <= m.disk_stats.len(),
            shown == usage_models(m.disk_stats@),
            out@ == disk_listing(shown.subrange(0, i as int)),
        decreases m.disk_stats.len() - i,
    {
        let ghost upto = shown.subrange(0, i + 1);
        assert(upto.drop_last() =~= shown.subrange(0, i as int));
        assert(upto.last() == m.disk_stats@[i as int]@);
        push_percent_line(&mut out, m.disk_stats[i].label.as_str(), m.disk_stats[i].percent);
        i += 1;
    }
    assert(shown.subrange(0, m.disk_stats.len() as int) =~= shown);
    out
}

/// Whether a text is made of whole lines: it is empty or ends in a newline.
pub open spec fn whole_lines(text: Seq<char>) -> bool {
    text.len() == 0 || text.last() == '\n'
}

/// Every line of a value ends in a newline.
pub proof fn lemma_value_lines_end(label: Seq<char>, hundredths: nat)
    ensures
        percent_line(label, hundredths).len() > 0,
        percent_line(label, hundredths).last() == '\n',
        value_line(hundredths).len() > 0,
        value_line(hundredths).last() == '\n',
{
    reveal_strlit("%\n");
    reveal_strlit("\n");
}

/// Every line of a check ends in a newline, in the full report and alone.
pub proof fn lemma_check_lines_end(target: TargetModel, up: bool)
    ensures
        check_line(target, up).len() > 0,
        check_line(target, up).last() == '\n',
        single_line(target, up).len() > 0,
        single_line(target, up).last() == '\n',
{
    reveal_strlit("\n");
}

/// The listing of the disks is made of whole lines.
pub proof fn lemma_disk_listing_whole(usages: Seq<UsageModel>)
    ensures
        whole_lines(disk_listing(usages)),
        whole_lines(disk_lines(usages)),
{
    if usages.len() > 0 {
        lemma_value_lines_end(usages.last().label, usages.last().hundredths);
        lemma_value_lines_end(usages.last().label + " usage"@, usages.last().hundredths);
    }
}

/// The text of a report is made of whole lines, and is never empty.
pub proof fn lemma_report_whole(report: HealthReport)
    ensures
        report_text(report).len() > 0,
        report_text(report).last() == '\n',
{
    let m = report.metrics;
    lemma_value_lines_end("memory usage"@, m.mem_percent.hundredths as nat);
    lemma_disk_listing_whole(usage_models(m.disk_stats@));
    if report.checks.len() > 0 {
        lemma_check_lines_end(report.checks@.last().target@, report.checks@.last().up);
    }
}

} // verus!
