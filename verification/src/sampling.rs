//! Sampling the local host: memory and disk figures come from the stats
//! provider, the CPU figure from the caller, and a figure that could not be
//! had is reported as zero.

use crate::metrics::{MetricsView, SystemMetrics};
use systemstat::{Platform, System};
use vstd::prelude::*;
use vstd::string::StringExecFns;

verus! {

/// The stats provider of systemstat; the library only hands it to the
/// provider's own functions.
#[verifier::external_type_specification]
#[verifier::external_body]
pub struct ExSystem(System);

/// A capacity in bytes and the part of it that is free.
#[derive(Clone, Copy, Debug, PartialEq, Eq, Structural)]
pub struct Capacity {
    pub total: u64,
    pub free: u64,
}

impl Capacity {
    /// The bytes in use: what is not free, and zero where more is reported
    /// free than there is in total.
    pub open spec fn used(self) -> u64 {
        if self.free <= self.total {
            (self.total - self.free) as u64
        } else {
            0
        }
    }

    /// The bytes in use.
    pub fn in_use(&self) -> (used: u64)
        ensures
            used == self.used(),
    {
        if self.free <= self.total {
            self.total - self.free
        } else {
            0
        }
    }
}

/// The figure that a CPU sample stands for: its bits, or zero without one.
pub open spec fn cpu_figure(cpu: Option<u32>) -> u32 {
    match cpu {
        Some(bits) => bits,
        None => 0,
    }
}

/// The total that a sample stands for, or zero without one.
pub open spec fn total_figure(sample: Option<Capacity>) -> u64 {
    match sample {
        Some(capacity) => capacity.total,
        None => 0,
    }
}

/// The bytes in use that a sample stands for, or zero without one.
pub open spec fn used_figure(sample: Option<Capacity>) -> u64 {
    match sample {
        Some(capacity) => capacity.used(),
        None => 0,
    }
}

/// The record that the three samples stand for. A subsystem without a sample
/// contributes zeros; the other subsystems' figures do not depend on it.
pub open spec fn record_of(
    timestamp: u64,
    hostname: Seq<char>,
    cpu: Option<u32>,
    memory: Option<Capacity>,
    disk: Option<Capacity>,
) -> MetricsView {
    MetricsView {
        timestamp,
        hostname,
        cpu_usage_bits: cpu_figure(cpu),
        memory_total: total_figure(memory),
        memory_used: used_figure(memory),
        disk_total: total_figure(disk),
        disk_used: used_figure(disk),
    }
}

/// Whether `record` is what some outcome of sampling memory and disk gives
/// for `hostname` with the CPU sample `cpu`.
pub open spec fn sampled(record: MetricsView, hostname: Seq<char>, cpu: Option<u32>) -> bool {
    exists|memory: Option<Capacity>, disk: Option<Capacity>|
        record == #[trigger] record_of(record.timestamp, hostname, cpu, memory, disk)
}

/// Builds the record for `hostname` from the three samples, stamped with the
/// current time. `None` stands for a subsystem whose sampling failed.
pub fn build_record(
    hostname: &str,
    cpu: Option<u32>,
    memory: Option<Capacity>,
    disk: Option<Capacity>,
) -> (m: SystemMetrics)
    ensures
        m@ == record_of(m@.timestamp, hostname@, cpu, memory, disk),
{
    let cpu_usage_bits: u32 = match cpu {
        Some(bits) => bits,
        None => 0,
    };
    let (memory_total, memory_used): (u64, u64) = match memory {
        Some(capacity) => (capacity.total, capacity.in_use()),
        None => (0, 0),
    };
    let (disk_total, disk_used): (u64, u64) = match disk {
        Some(capacity) => (capacity.total, capacity.in_use()),
        None => (0, 0),
    };
    SystemMetrics::new(
        String::from_str(hostname),
        cpu_usage_bits,
        memory_total,
        memory_used,
        disk_total,
        disk_used,
    )
}

/// A failed subsystem zeroes its own figures and leaves the others as they
/// would have been with a sample.
pub proof fn lemma_degradation(
    timestamp: u64,
    hostname: Seq<char>,
    cpu: Option<u32>,
    memory: Option<Capacity>,
    disk: Option<Capacity>,
)
    ensures
        record_of(timestamp, hostname, None, memory, disk) == (MetricsView {
            cpu_usage_bits: 0,
            ..record_of(timestamp, hostname, cpu, memory, disk)
        }),
        record_of(timestamp, hostname, cpu, None, disk) == (MetricsView {
            memory_total: 0,
            memory_used: 0,
            ..record_of(timestamp, hostname, cpu, memory, disk)
        }),
        record_of(timestamp, hostname, cpu, memory, None) == (MetricsView {
            disk_total: 0,
            disk_used: 0,
            ..record_of(timestamp, hostname, cpu, memory, disk)
        }),
{
}

/// `Platform::memory` of systemstat: total and free physical memory, or
/// `None` where the platform cannot tell. The figures are the machine's, so
/// nothing is claimed of them.
#[verifier::external_body]
fn sample_memory(system: &System) -> (sample: Option<Capacity>) {
    match system.memory() {
        Ok(memory) => Some(Capacity { total: memory.total.as_u64(), free: memory.free.as_u64() }),
        Err(_) => None,
    }
}

/// `Platform::mount_at` of systemstat: total and free bytes of the filesystem
/// mounted at `path`, or `None` where there is no such mount or it cannot be
/// queried. The figures are the machine's, so nothing is claimed of them.
#[verifier::external_body]
fn sample_mount(system: &System, path: &str) -> (sample: Option<Capacity>) {
    match system.mount_at(path) {
        Ok(mount) => Some(Capacity { total: mount.total.as_u64(), free: mount.free.as_u64() }),
        Err(_) => None,
    }
}

/// The mount path whose filesystem is sampled.
pub const PRIMARY_MOUNT: &'static str = "/";

/// The mount path tried when the primary one gives no sample.
pub const FALLBACK_MOUNT: &'static str = "/System/Volumes/Data";

/// The disk sample that counts: the primary mount's where there is one,
/// else the fallback mount's.
pub open spec fn preferred(primary: Option<Capacity>, fallback: Option<Capacity>) -> Option<
    Capacity,
> {
    if primary is Some {
        primary
    } else {
        fallback
    }
}

/// Settles the disk sample between the two mounts.
pub fn prefer_primary(primary: Option<Capacity>, fallback: Option<Capacity>) -> (disk: Option<
    Capacity,
>)
    ensures
        disk == preferred(primary, fallback),
{
    match primary {
        Some(capacity) => Some(capacity),
        None => fallback,
    }
}

/// Samples memory and disk of the local host and builds the record for
/// `hostname`, with `cpu` as the CPU sample taken by the caller.
///
/// The disk figures are those of the primary mount; the fallback mount is
/// asked only where the primary one gives nothing. Each subsystem degrades
/// on its own: a failed sample zeroes that subsystem's figures and no others.
pub fn collect_metrics(system: &System, hostname: &str, cpu: Option<u32>) -> (m: SystemMetrics)
    ensures
        sampled(m@, hostname@, cpu),
{
    let memory = sample_memory(system);
    let primary = sample_mount(system, PRIMARY_MOUNT);
    let fallback = match primary {
        Some(_) => None,
        None => sample_mount(system, FALLBACK_MOUNT),
    };
    build_record(hostname, cpu, memory, prefer_primary(primary, fallback))
}

/// What holds of a sampled record whatever the provider gave: it names the
/// host, carries the CPU sample or zero, and has no more in use than there is.
pub proof fn lemma_sampled_bounds(record: MetricsView, hostname: Seq<char>, cpu: Option<u32>)
    requires
        sampled(record, hostname, cpu),
    ensures
        record.hostname == hostname,
        record.cpu_usage_bits == cpu_figure(cpu),
        record.memory_used <= record.memory_total,
        record.disk_used <= record.disk_total,
{
}

} // verus!
