use monitoring_system::sampling::{
    build_record, collect_metrics, prefer_primary, Capacity, FALLBACK_MOUNT, PRIMARY_MOUNT,
};
use systemstat::{Platform, System};

const HALF: u32 = 0x4248_0000;

#[test]
fn in_use_is_total_minus_free() {
    assert_eq!(Capacity { total: 16_384, free: 4_096 }.in_use(), 12_288);
}

#[test]
fn in_use_of_a_full_and_of_an_empty_capacity() {
    assert_eq!(Capacity { total: 100, free: 0 }.in_use(), 100);
    assert_eq!(Capacity { total: 100, free: 100 }.in_use(), 0);
    assert_eq!(Capacity { total: 0, free: 0 }.in_use(), 0);
    assert_eq!(Capacity { total: u64::MAX, free: 1 }.in_use(), u64::MAX - 1);
}

#[test]
fn in_use_is_zero_when_more_is_free_than_there_is() {
    assert_eq!(Capacity { total: 10, free: 11 }.in_use(), 0);
    assert_eq!(Capacity { total: 0, free: u64::MAX }.in_use(), 0);
}

#[test]
fn build_record_with_every_sample() {
    let m = build_record(
        "web-1",
        Some(HALF),
        Some(Capacity { total: 8_000, free: 3_000 }),
        Some(Capacity { total: 90_000, free: 20_000 }),
    );
    assert_eq!(m.hostname, "web-1");
    assert_eq!(m.cpu_usage_bits, HALF);
    assert_eq!(m.memory_total, 8_000);
    assert_eq!(m.memory_used, 5_000);
    assert_eq!(m.disk_total, 90_000);
    assert_eq!(m.disk_used, 70_000);
    assert!(m.timestamp > 1_600_000_000);
}

#[test]
fn failed_cpu_zeroes_only_the_cpu_figure() {
    let m = build_record(
        "web-1",
        None,
        Some(Capacity { total: 8_000, free: 3_000 }),
        Some(Capacity { total: 90_000, free: 20_000 }),
    );
    assert_eq!(m.cpu_usage_bits, 0);
    assert_eq!((m.memory_total, m.memory_used), (8_000, 5_000));
    assert_eq!((m.disk_total, m.disk_used), (90_000, 70_000));
}

#[test]
fn failed_memory_zeroes_only_the_memory_figures() {
    let m = build_record("web-1", Some(HALF), None, Some(Capacity { total: 90_000, free: 20_000 }));
    assert_eq!(m.cpu_usage_bits, HALF);
    assert_eq!((m.memory_total, m.memory_used), (0, 0));
    assert_eq!((m.disk_total, m.disk_used), (90_000, 70_000));
}

#[test]
fn failed_disk_zeroes_only_the_disk_figures() {
    let m = build_record("web-1", Some(HALF), Some(Capacity { total: 8_000, free: 3_000 }), None);
    assert_eq!(m.cpu_usage_bits, HALF);
    assert_eq!((m.memory_total, m.memory_used), (8_000, 5_000));
    assert_eq!((m.disk_total, m.disk_used), (0, 0));
}

#[test]
fn every_subsystem_failing_still_gives_a_record() {
    let m = build_record("web-1", None, None, None);
    assert_eq!(m.hostname, "web-1");
    assert_eq!(m.cpu_usage_bits, 0);
    assert_eq!((m.memory_total, m.memory_used), (0, 0));
    assert_eq!((m.disk_total, m.disk_used), (0, 0));
}

#[test]
fn mount_paths_are_root_and_the_data_volume() {
    assert_eq!(PRIMARY_MOUNT, "/");
    assert_eq!(FALLBACK_MOUNT, "/System/Volumes/Data");
}

#[test]
fn a_primary_sample_is_preferred() {
    let primary = Capacity { total: 77, free: 11 };
    let fallback = Capacity { total: 500, free: 400 };
    assert_eq!(prefer_primary(Some(primary), Some(fallback)), Some(primary));
    assert_eq!(prefer_primary(Some(primary), None), Some(primary));
}

#[test]
fn the_fallback_sample_counts_without_a_primary_one() {
    let fallback = Capacity { total: 500, free: 400 };
    assert_eq!(prefer_primary(None, Some(fallback)), Some(fallback));
}

#[test]
fn no_sample_from_either_mount_is_no_sample() {
    assert_eq!(prefer_primary(None, None), None);
}

#[test]
fn collect_metrics_keeps_host_and_cpu_sample() {
    let system = System::new();
    let m = collect_metrics(&system, "web-1", Some(HALF));
    assert_eq!(m.hostname, "web-1");
    assert_eq!(m.cpu_usage_bits, HALF);
    assert!(m.memory_used <= m.memory_total);
    assert!(m.disk_used <= m.disk_total);
    assert!(m.timestamp > 1_600_000_000);
}

#[test]
fn collect_metrics_without_cpu_sample_reports_zero_cpu() {
    let system = System::new();
    let m = collect_metrics(&system, "web-1", None);
    assert_eq!(m.cpu_usage_bits, 0);
    assert_eq!(m.hostname, "web-1");
}

#[test]
fn collect_metrics_reports_the_providers_memory_total() {
    let system = System::new();
    let expected = match system.memory() {
        Ok(memory) => memory.total.as_u64(),
        Err(_) => 0,
    };
    let m = collect_metrics(&system, "web-1", None);
    assert_eq!(m.memory_total, expected);
}

#[test]
fn collect_metrics_reports_the_providers_disk_total() {
    let system = System::new();
    let expected = match system.mount_at(PRIMARY_MOUNT) {
        Ok(mount) => mount.total.as_u64(),
        Err(_) => match system.mount_at(FALLBACK_MOUNT) {
            Ok(mount) => mount.total.as_u64(),
            Err(_) => 0,
        },
    };
    let m = collect_metrics(&system, "web-1", None);
    assert_eq!(m.disk_total, expected);
}
