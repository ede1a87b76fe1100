use sysdash::sampler::{cpu_percent, disk_usage, ram_percent, DiskSpace, DiskUsage, FULL_SCALE};

#[test]
fn half_memory_is_fifty_percent() {
    assert_eq!(ram_percent(8, 16), 5000);
    assert_eq!(ram_percent(8, 16) as f64 / 100.0, 50.0);
}

#[test]
fn zero_total_memory_is_zero_percent() {
    assert_eq!(ram_percent(0, 0), 0);
    assert_eq!(ram_percent(5, 0), 0);
}

#[test]
fn ram_percent_stays_in_range() {
    assert_eq!(ram_percent(0, 7), 0);
    assert_eq!(ram_percent(7, 7), FULL_SCALE);
    assert_eq!(ram_percent(1, 3), 3333);
    assert_eq!(ram_percent(u64::MAX - 1, u64::MAX), 9999);
    assert_eq!(ram_percent(9, 7), FULL_SCALE);
    for total in 1..50u64 {
        for used in 0..=total {
            let p = ram_percent(used, total);
            assert!(p <= FULL_SCALE);
            assert_eq!(p, used * 10000 / total);
        }
    }
}

#[test]
fn cpu_percent_is_capped() {
    assert_eq!(cpu_percent(1234), 1234);
    assert_eq!(cpu_percent(10000), 10000);
    assert_eq!(cpu_percent(20000), 10000);
}

#[test]
fn disk_totals_are_summed() {
    let disks = vec![
        DiskSpace { total: 100, available: 40 },
        DiskSpace { total: 50, available: 50 },
        DiskSpace { total: 10, available: 2 },
    ];
    assert_eq!(
        disk_usage(&disks),
        DiskUsage { total: 160, used: 68, available: 92 }
    );
}

#[test]
fn no_disks_sum_to_zero() {
    assert_eq!(disk_usage(&vec![]), DiskUsage { total: 0, used: 0, available: 0 });
}

#[test]
fn disk_sums_saturate() {
    let disks = vec![
        DiskSpace { total: u64::MAX, available: 1 },
        DiskSpace { total: 10, available: 20 },
    ];
    let u = disk_usage(&disks);
    assert_eq!(u.total, u64::MAX);
    assert_eq!(u.used, u64::MAX - 1);
    assert_eq!(u.available, 21);
}
