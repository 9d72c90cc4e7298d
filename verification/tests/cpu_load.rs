use starcore::cpu::{filetime_to_u64, CoreTimes, CpuTracker, LoadSample};

fn core_times(idle: i64, kernel: i64, user: i64) -> CoreTimes {
    CoreTimes { idle_time: idle, kernel_time: kernel, user_time: user }
}

#[test]
fn filetime_halves_combine() {
    assert_eq!(filetime_to_u64(0, 0), 0);
    assert_eq!(filetime_to_u64(5, 0), 5);
    assert_eq!(filetime_to_u64(0, 1), 1 << 32);
    assert_eq!(filetime_to_u64(0xFFFF_FFFF, 0xFFFF_FFFF), u64::MAX);
    assert_eq!(filetime_to_u64(0x89AB_CDEF, 0x0123_4567), 0x0123_4567_89AB_CDEF);
}

#[test]
fn overall_load_between_readings() {
    let mut t = CpuTracker::new(0, 100, 200, 300, vec![]);
    // idle +25, kernel +60 (idle included), user +40: 75 of 100 busy.
    let l = t.refresh(125, 260, 340, vec![]);
    assert_eq!(l.overall, Some(LoadSample { active: 75, total: 100 }));
    assert!(l.cores.is_empty());
    // nothing elapsed: no sample.
    let l = t.refresh(125, 260, 340, vec![]);
    assert_eq!(l.overall, None);
}

#[test]
fn overall_load_saturates_at_zero() {
    let mut t = CpuTracker::new(0, 0, 0, 0, vec![]);
    let l = t.refresh(500, 100, 100, vec![]);
    assert_eq!(l.overall, Some(LoadSample { active: 0, total: 200 }));
}

#[test]
fn overall_load_wraps_counters() {
    let mut t = CpuTracker::new(0, u64::MAX - 9, u64::MAX - 19, 0, vec![]);
    // idle and kernel advanced by 30 across the wrap, user by 30: 30 of 60 busy.
    let l = t.refresh(20, 10, 30, vec![]);
    assert_eq!(l.overall, Some(LoadSample { active: 30, total: 60 }));
}

#[test]
fn per_core_loads() {
    let mut t = CpuTracker::new(2, 0, 0, 0, vec![core_times(0, 0, 0), core_times(10, 10, 10)]);
    let l = t.refresh(0, 0, 0, vec![core_times(50, 80, 20), core_times(10, 10, 10)]);
    assert_eq!(l.cores, vec![Some(LoadSample { active: 50, total: 100 }), None]);
    let l = t.refresh(0, 0, 0, vec![core_times(60, 100, 20), core_times(20, 40, 30)]);
    assert_eq!(
        l.cores,
        vec![Some(LoadSample { active: 10, total: 20 }), Some(LoadSample { active: 40, total: 50 })]
    );
}

#[test]
fn per_core_covers_only_known_cores() {
    let mut t = CpuTracker::new(4, 0, 0, 0, vec![core_times(0, 0, 0), core_times(0, 0, 0), core_times(0, 0, 0)]);
    let l = t.refresh(0, 0, 0, vec![core_times(1, 2, 2), core_times(1, 2, 2)]);
    assert_eq!(l.cores.len(), 2);
    let mut t = CpuTracker::new(1, 0, 0, 0, vec![core_times(0, 0, 0), core_times(0, 0, 0)]);
    let l = t.refresh(0, 0, 0, vec![core_times(1, 2, 2), core_times(1, 2, 2)]);
    assert_eq!(l.cores, vec![Some(LoadSample { active: 3, total: 4 })]);
}

#[test]
fn per_core_wraps_signed_counters() {
    let mut t = CpuTracker::new(1, 0, 0, 0, vec![core_times(i64::MAX, i64::MAX - 5, 0)]);
    let l = t.refresh(0, 0, 0, vec![core_times(i64::MIN, i64::MIN + 4, 0)]);
    assert_eq!(l.cores, vec![Some(LoadSample { active: 9, total: 10 })]);
}

#[test]
fn load_never_exceeds_total() {
    let mut t = CpuTracker::new(1, 7, 3, 1, vec![core_times(3, 9, 1)]);
    for (i, k, u) in [(1000u64, 5u64, 5u64), (1000, 1000, 1000), (0, 0, 0), (u64::MAX, 3, 4)] {
        let l = t.refresh(i, k, u, vec![core_times(i as i64, k as i64, u as i64)]);
        if let Some(s) = l.overall {
            assert!(s.active <= s.total && s.total > 0);
        }
        for c in l.cores.iter().flatten() {
            assert!(c.active <= c.total && c.total > 0);
        }
    }
}
