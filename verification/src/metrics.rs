//! The metrics record: one timestamped snapshot of a host's resource usage.

use std::time::{Duration, SystemTime, SystemTimeError};
use vstd::prelude::*;

verus! {

/// One snapshot of CPU, memory and disk usage for a host.
///
/// The CPU percentage is carried as the bit pattern of an IEEE-754
/// single-precision number, so that the record moves through the store
/// unchanged; the all-zero pattern is the percentage zero.
#[derive(Debug, PartialEq, Eq)]
pub struct SystemMetrics {
    /// Seconds since the Unix epoch at which the record was built.
    pub timestamp: u64,
    /// The origin host; records are aggregated under this key.
    pub hostname: String,
    /// Bit pattern of the CPU usage percentage.
    pub cpu_usage_bits: u32,
    pub memory_total: u64,
    pub memory_used: u64,
    pub disk_total: u64,
    pub disk_used: u64,
}

/// The mathematical value of a [`SystemMetrics`].
pub struct MetricsView {
    pub timestamp: u64,
    pub hostname: Seq<char>,
    pub cpu_usage_bits: u32,
    pub memory_total: u64,
    pub memory_used: u64,
    pub disk_total: u64,
    pub disk_used: u64,
}

impl View for SystemMetrics {
    type V = MetricsView;

    open spec fn view(&self) -> MetricsView {
        MetricsView {
            timestamp: self.timestamp,
            hostname: self.hostname@,
            cpu_usage_bits: self.cpu_usage_bits,
            memory_total: self.memory_total,
            memory_used: self.memory_used,
            disk_total: self.disk_total,
            disk_used: self.disk_used,
        }
    }
}

/// The views of a sequence of records, in the same order.
pub open spec fn views(records: Seq<SystemMetrics>) -> Seq<MetricsView> {
    records.map_values(|m: SystemMetrics| m@)
}

/// `std::time::SystemTime`, carried opaquely from the clock to the
/// subtraction of the epoch.
#[verifier::external_type_specification]
#[verifier::external_body]
pub struct ExSystemTime(SystemTime);

/// `std::time::SystemTimeError`, the error of a clock that reads earlier than
/// the instant it is compared with.
#[verifier::external_type_specification]
#[verifier::external_body]
pub struct ExSystemTimeError(SystemTimeError);

/// `SystemTime::now` reads the system clock; nothing is claimed of the result.
pub assume_specification[ SystemTime::now ]() -> (now: SystemTime)
;

/// `Duration::as_secs` gives the whole seconds of a duration; nothing is
/// claimed of the result.
pub assume_specification[ Duration::as_secs ](d: &Duration) -> (secs: u64)
;

/// `SystemTime::duration_since` on the Unix epoch: the time elapsed since the
/// epoch, or an error when the clock reads earlier. Nothing is claimed of
/// either.
#[verifier::external_body]
fn since_unix_epoch(now: &SystemTime) -> (elapsed: Result<Duration, SystemTimeError>) {
    now.duration_since(SystemTime::UNIX_EPOCH)
}

impl SystemMetrics {
    /// A record with every field given, the timestamp included.
    pub fn at(
        timestamp: u64,
        hostname: String,
        cpu_usage_bits: u32,
        memory_total: u64,
        memory_used: u64,
        disk_total: u64,
        disk_used: u64,
    ) -> (m: SystemMetrics)
        ensures
            m@ == (MetricsView {
                timestamp,
                hostname: hostname@,
                cpu_usage_bits,
                memory_total,
                memory_used,
                disk_total,
                disk_used,
            }),
    {
        SystemMetrics {
            timestamp,
            hostname,
            cpu_usage_bits,
            memory_total,
            memory_used,
            disk_total,
            disk_used,
        }
    }

    /// A record stamped with the current time.
    ///
    /// The timestamp is the number of whole seconds that the system clock
    /// reads past the Unix epoch, and zero when it reads earlier. Every other
    /// field is the argument of the same name; no figure is validated.
    pub fn new(
        hostname: String,
        cpu_usage_bits: u32,
        memory_total: u64,
        memory_used: u64,
        disk_total: u64,
        disk_used: u64,
    ) -> (m: SystemMetrics)
        ensures
            m@ == (MetricsView {
                timestamp: m@.timestamp,
                hostname: hostname@,
                cpu_usage_bits,
                memory_total,
                memory_used,
                disk_total,
                disk_used,
            }),
    {
        let now = SystemTime::now();
        let timestamp: u64 = match since_unix_epoch(&now) {
            Ok(elapsed) => elapsed.as_secs(),
            Err(_) => 0,
        };
        SystemMetrics::at(
            timestamp,
            hostname,
            cpu_usage_bits,
            memory_total,
            memory_used,
            disk_total,
            disk_used,
        )
    }
}

impl Clone for SystemMetrics {
    fn clone(&self) -> (copy: SystemMetrics)
        ensures
            copy == *self,
    {
        SystemMetrics {
            timestamp: self.timestamp,
            hostname: self.hostname.clone(),
            cpu_usage_bits: self.cpu_usage_bits,
            memory_total: self.memory_total,
            memory_used: self.memory_used,
            disk_total: self.disk_total,
            disk_used: self.disk_used,
        }
    }
}

} // verus!
