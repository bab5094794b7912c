use spdk_rs::cpu_cores::{Core, CoreEnv, Cores, CpuMask, RoundRobinCoreSelector, NO_CORE};
use std::cell::Cell;

fn env() -> CoreEnv {
    CoreEnv::new(vec![1, 2, 5, 8], 2).unwrap()
}

#[test]
fn core_numbers() {
    let e = env();
    assert_eq!(Cores::count(&e).id(), 4);
    assert_eq!(Cores::first(&e), 1);
    assert_eq!(Cores::last(&e).id(), 8);
    assert_eq!(Cores::current(&e), 5);
    assert_eq!(Cores::get_core(&e, Core::Count), 4);
    assert_eq!(Cores::get_core(&e, Core::Current), 5);
    assert_eq!(Cores::get_core(&e, Core::First), 1);
    assert_eq!(Cores::get_core(&e, Core::Last), 8);
    assert_eq!(Cores::list_cores(&e), vec![1, 2, 5, 8]);
}

#[test]
fn environment_must_ascend() {
    assert!(CoreEnv::new(vec![], 0).is_none());
    assert!(CoreEnv::new(vec![1, 1], 0).is_none());
    assert!(CoreEnv::new(vec![2, 1], 0).is_none());
    assert!(CoreEnv::new(vec![1, NO_CORE], 0).is_none());
    assert!(CoreEnv::new(vec![NO_CORE], 0).is_none());
    assert!(CoreEnv::new(vec![1, 2], 2).is_none());
    assert!(CoreEnv::new(vec![0], 0).is_some());
}

#[test]
fn next_core_follows() {
    let e = env();
    assert_eq!(e.next_core(0), 1);
    assert_eq!(e.next_core(1), 2);
    assert_eq!(e.next_core(2), 5);
    assert_eq!(e.next_core(3), 5);
    assert_eq!(e.next_core(8), NO_CORE);
    assert_eq!(e.next_core(NO_CORE), NO_CORE);
}

#[test]
fn iterator_walks_all_cores() {
    let e = env();
    let mut it = Cores::count(&e).into_iter();
    assert_eq!(it.next(&e), Some(1));
    assert_eq!(it.next(&e), Some(2));
    assert_eq!(it.next(&e), Some(5));
    assert_eq!(it.next(&e), Some(8));
    assert_eq!(it.next(&e), None);
    // A walk that has ended starts over.
    assert_eq!(it.next(&e), Some(1));
}

#[test]
fn round_robin_takes_turns() {
    let e = env();
    let mut s = RoundRobinCoreSelector::new(&e);
    assert_eq!(s.filter_next(|_| true), 1);
    assert_eq!(s.filter_next(|_| true), 2);
    assert_eq!(s.filter_next(|_| true), 5);
    assert_eq!(s.filter_next(|_| true), 8);
    assert_eq!(s.filter_next(|_| true), 1);
}

#[test]
fn round_robin_skips_unsuitable_cores() {
    let e = env();
    let mut s = RoundRobinCoreSelector::new(&e);
    assert_eq!(s.filter_next(|c| c > 2), 5);
    assert_eq!(s.filter_next(|c| c > 2), 8);
    assert_eq!(s.filter_next(|c| c > 2), 5);
    // The turn is now with core 8; only core 2 suits, so the ring is walked.
    assert_eq!(s.filter_next(|c| c == 2), 2);
    assert_eq!(s.filter_next(|_| true), 5);
}

#[test]
fn round_robin_without_suitable_core_keeps_the_turn() {
    let e = env();
    let mut s = RoundRobinCoreSelector::new(&e);
    assert_eq!(s.filter_next(|_| true), 1);
    let asked = Cell::new(0);
    let chosen = s.filter_next(|_| {
        asked.set(asked.get() + 1);
        false
    });
    assert_eq!(chosen, 2);
    assert_eq!(asked.get(), 4);
    assert_eq!(s.filter_next(|_| true), 2);
}

#[test]
fn cpu_mask_sets_and_clears() {
    let mut m = CpuMask::new();
    assert!(!m.is_set(0));
    m.set_cpu(0, true);
    m.set_cpu(1023, true);
    assert!(m.is_set(0));
    assert!(m.is_set(1023));
    assert!(!m.is_set(1024));
    assert!(!m.is_set(5));
    m.set_cpu(0, false);
    assert!(!m.is_set(0));
}

#[test]
fn unaffinitized_mask_leaves_out_runtime_cores() {
    let e = env();
    let m = CpuMask::unaffinitized(6, &e);
    assert!(m.is_set(0));
    assert!(!m.is_set(1));
    assert!(!m.is_set(2));
    assert!(m.is_set(3));
    assert!(m.is_set(4));
    assert!(!m.is_set(5));
    assert!(!m.is_set(6));
    assert!(!m.is_set(8));
}
