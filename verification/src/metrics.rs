//! The metrics snapshot: raw system counters normalised into percentages.

use crate::percent::{load_hundredths, ratio_hundredths, Percent};
use crate::text::{starts_with, str_starts_with};
use vstd::prelude::*;

verus! {

/// The family of operating system on which the counters were read.
#[derive(Clone, Copy, Debug, PartialEq, Eq, Structural)]
pub enum Platform {
    Unix,
    Windows,
}

/// One disk as the operating system lists it.
pub struct DiskSample {
    /// The device, such as `/dev/sda1`.
    pub name: String,
    /// Where the disk is mounted.
    pub mount_point: String,
    /// The size of the disk in bytes.
    pub total_space: u64,
    /// The bytes of it that are free.
    pub available_space: u64,
}

/// The raw counters of one sampling pass.
pub struct SystemSample {
    /// The global processor utilisation, in hundredths of a percent.
    pub cpu: u64,
    /// The memory in use, in bytes.
    pub used_memory: u64,
    /// The memory installed, in bytes.
    pub total_memory: u64,
    /// The load average over one minute, in hundredths.
    pub load_one: u64,
    /// The load average over five minutes, in hundredths.
    pub load_five: u64,
    /// The load average over fifteen minutes, in hundredths.
    pub load_fifteen: u64,
    /// The number of logical cores; zero where it could not be found out.
    pub cores: u64,
    /// The disks, in the order of the operating system's enumeration.
    pub disks: Vec<DiskSample>,
}

/// How full one disk is.
pub struct DiskUsage {
    pub label: String,
    pub percent: Percent,
}

/// What a `DiskUsage` says: a label and hundredths of a percent.
pub ghost struct UsageModel {
    pub label: Seq<char>,
    pub hundredths: nat,
}

impl View for DiskUsage {
    type V = UsageModel;

    open spec fn view(&self) -> UsageModel {
        UsageModel { label: self.label@, hundredths: self.percent.hundredths as nat }
    }
}

/// A normalised snapshot of the system.
pub struct Metrics {
    /// The global processor utilisation.
    pub cpu: Percent,
    /// The share of the memory that is in use.
    pub mem_percent: Percent,
    /// The load over one minute, where every core busy is one hundred percent.
    pub load1: Percent,
    /// The same over five minutes.
    pub load5: Percent,
    /// The same over fifteen minutes.
    pub load15: Percent,
    /// The disks that are reported, in the order of the sample.
    pub disk_stats: Vec<DiskUsage>,
}

/// Whether a disk is reported. On Unix only devices under `/dev` are: the
/// rest are virtual file systems.
pub open spec fn is_reported(platform: Platform, disk: DiskSample) -> bool {
    platform is Windows || starts_with(disk.name@, "/dev"@)
}

/// The label under which a disk is reported.
pub open spec fn disk_label(platform: Platform, disk: DiskSample) -> Seq<char> {
    match platform {
        Platform::Unix => disk.name@ + " - "@ + disk.mount_point@,
        Platform::Windows => disk.mount_point@,
    }
}

/// The bytes in use on a disk; none where more is free than the disk holds.
pub open spec fn used_space(disk: DiskSample) -> nat {
    if disk.available_space <= disk.total_space {
        (disk.total_space - disk.available_space) as nat
    } else {
        0
    }
}

/// What is reported of one disk.
pub open spec fn usage_of(platform: Platform, disk: DiskSample) -> UsageModel {
    UsageModel {
        label: disk_label(platform, disk),
        hundredths: ratio_hundredths(used_space(disk), disk.total_space as nat),
    }
}

/// What is reported of a list of disks: the usage of each disk that is
/// reported, in the order of the list.
pub open spec fn disk_usages(platform: Platform, disks: Seq<DiskSample>) -> Seq<UsageModel>
    decreases disks.len(),
{
    if disks.len() == 0 {
        Seq::empty()
    } else {
        let before = disk_usages(platform, disks.drop_last());
        if is_reported(platform, disks.last()) {
            before.push(usage_of(platform, disks.last()))
        } else {
            before
        }
    }
}

/// What a list of usages says.
pub open spec fn usage_models(usages: Seq<DiskUsage>) -> Seq<UsageModel> {
    usages.map_values(|u: DiskUsage| u@)
}

/// The usage of one disk.
fn disk_usage(platform: Platform, disk: &DiskSample) -> (usage: DiskUsage)
    ensures
        usage@ == usage_of(platform, *disk),
{
    let used: u64 = if disk.available_space <= disk.total_space {
        disk.total_space - disk.available_space
    } else {
        0
    };
    let label: String = match platform {
        Platform::Unix => {
            let mut label = String::new();
            label.append(disk.name.as_str());
            label.append(" - ");
            label.append(disk.mount_point.as_str());
            assert(label@ =~= disk.name@ + " - "@ + disk.mount_point@);
            label
        },
        Platform::Windows => disk.mount_point.clone(),
    };
    DiskUsage { label, percent: Percent::of(used, disk.total_space) }
}

/// Normalises the raw counters of one sampling pass.
///
/// The processor utilisation is taken as it is; the memory is the share in
/// use, zero where none is installed; each load average is a percentage of
/// the core count, which counts as one where it is zero; and of the disks
/// those that are reported are labelled and measured, in their order.
pub fn get_metrics(platform: Platform, sample: &SystemSample) -> (m: Metrics)
    ensures
        m.cpu.hundredths == sample.cpu,
        m.mem_percent.hundredths == ratio_hundredths(
            sample.used_memory as nat,
            sample.total_memory as nat,
        ),
        sample.total_memory == 0 ==> m.mem_percent.hundredths == 0,
        sample.used_memory <= sample.total_memory ==> m.mem_percent.hundredths <= 10000,
        m.load1.hundredths == load_hundredths(sample.load_one as nat, sample.cores as nat),
        m.load5.hundredths == load_hundredths(sample.load_five as nat, sample.cores as nat),
        m.load15.hundredths == load_hundredths(sample.load_fifteen as nat, sample.cores as nat),
        usage_models(m.disk_stats@) == disk_usages(platform, sample.disks@),
{
    let mut disk_stats: Vec<DiskUsage> = Vec::new();
    let mut i: usize = 0;
    assert(usage_models(disk_stats@) =~= disk_usages(platform, sample.disks@.subrange(0, 0)));
    while i < sample.disks.len()
        invariant
            i <= sample.disks.len(),
            usage_models(disk_stats@) == disk_usages(platform, sample.disks@.subrange(0, i as int)),
        decreases sample.disks.len() - i,
    {
        let disk: &DiskSample = &sample.disks[i];
        let ghost shown = usage_models(disk_stats@);
        let ghost upto = sample.disks@.subrange(0, i + 1);
        assert(upto.drop_last() =~= sample.disks@.subrange(0, i as int));
        assert(upto.last() == *disk);
        let keep: bool = match platform {
            Platform::Windows => true,
            Platform::Unix => str_starts_with(disk.name.as_str(), "/dev"),
        };
        if keep {
            let usage: DiskUsage = disk_usage(platform, disk);
            disk_stats.push(usage);
            assert(usage_models(disk_stats@) =~= shown.push(usage@));
        }
        i += 1;
    }
    assert(sample.disks@.subrange(0, sample.disks.len() as int) =~= sample.disks@);
    Metrics {
        cpu: Percent::from_hundredths(sample.cpu),
        mem_percent: Percent::of(sample.used_memory, sample.total_memory),
        load1: Percent::of_load(sample.load_one, sample.cores),
        load5: Percent::of_load(sample.load_five, sample.cores),
        load15: Percent::of_load(sample.load_fifteen, sample.cores),
        disk_stats,
    }
}

/// On Windows every disk is reported.
pub proof fn lemma_windows_reports_all(disks: Seq<DiskSample>)
    ensures
        disk_usages(Platform::Windows, disks).len() == disks.len(),
        forall|i: int|
            0 <= i < disks.len() ==> #[trigger] disk_usages(Platform::Windows, disks)[i] == usage_of(
                Platform::Windows,
                disks[i],
            ),
    decreases disks.len(),
{
    if disks.len() > 0 {
        lemma_windows_reports_all(disks.drop_last());
    }
}

/// No disk is reported twice and none is invented: there are at most as many
/// usages as disks.
pub proof fn lemma_usages_bounded(platform: Platform, disks: Seq<DiskSample>)
    ensures
        disk_usages(platform, disks).len() <= disks.len(),
    decreases disks.len(),
{
    if disks.len() > 0 {
        lemma_usages_bounded(platform, disks.drop_last());
    }
}

/// A disk of size zero is reported as empty, and a disk is never reported
/// as more than full.
pub proof fn lemma_usage_range(platform: Platform, disk: DiskSample)
    ensures
        usage_of(platform, disk).hundredths <= 10000,
        disk.total_space == 0 ==> usage_of(platform, disk).hundredths == 0,
{
    crate::percent::lemma_ratio_bounded(used_space(disk), disk.total_space as nat);
}

} // verus!
