use spdk_rs::cpu_cores::CoreEnv;
use spdk_rs::poller::{PollerBuilder, PollerState};
use spdk_rs::thread::{CurrentThreadGuard, Thread, ThreadMsg, ThreadRegistry, ThreadState};
use std::cell::Cell;

#[test]
fn thread_lifecycle() {
    let mut rt = ThreadRegistry::new(2);
    let t = Thread::new(&mut rt, "worker".to_string(), 3).unwrap();
    assert_eq!(t.id(), 1);
    assert_eq!(t.as_ptr(), 1);
    assert_eq!(Thread::from_ptr(1), t);
    assert_eq!(t.name(&rt), "worker");
    assert_eq!(t.core_id(&rt), 3);
    assert_eq!(t.state(&rt), ThreadState::Created);
    assert!(t.poll(&mut rt).is_empty());
    assert_eq!(t.state(&rt), ThreadState::Running);
    t.exit(&mut rt);
    assert_eq!(t.state(&rt), ThreadState::Exiting);
    assert!(!t.is_exited(&rt));
    t.poll(&mut rt);
    assert!(t.is_exited(&rt));
    t.destroy(&mut rt);
    assert_eq!(t.state(&rt), ThreadState::Destroyed);
    assert_eq!(Thread::current(&rt), None);
}

#[test]
fn thread_creation_fails_when_full() {
    let mut rt = ThreadRegistry::new(1);
    assert!(Thread::new(&mut rt, "a".to_string(), 0).is_some());
    assert_eq!(Thread::new(&mut rt, "b".to_string(), 0), None);
    assert_eq!(rt.len(), 1);
}

#[test]
fn messages_come_out_in_sending_order() {
    let mut rt = ThreadRegistry::new(2);
    let a = Thread::new(&mut rt, "a".to_string(), 0).unwrap();
    let b = Thread::new(&mut rt, "b".to_string(), 1).unwrap();
    a.send_msg(&mut rt, ThreadMsg::Call(1));
    b.send_msg(&mut rt, ThreadMsg::Call(7));
    a.send_msg(&mut rt, ThreadMsg::Call(2));
    a.send_msg(&mut rt, ThreadMsg::Call(3));
    assert_eq!(
        a.poll(&mut rt),
        vec![ThreadMsg::Call(1), ThreadMsg::Call(2), ThreadMsg::Call(3)]
    );
    assert!(a.poll(&mut rt).is_empty());
    assert_eq!(b.poll(&mut rt), vec![ThreadMsg::Call(7)]);
}

#[test]
fn wait_exit_drains_and_exits() {
    let mut rt = ThreadRegistry::new(1);
    let t = Thread::new(&mut rt, "t".to_string(), 0).unwrap();
    t.send_msg(&mut rt, ThreadMsg::Call(5));
    let drained = t.wait_exit(&mut rt);
    assert_eq!(drained, vec![ThreadMsg::Call(5)]);
    assert!(t.is_exited(&rt));
    // The caller acted as no thread before, so it goes on as this one.
    assert_eq!(Thread::current(&rt), Some(t));
}

#[test]
fn current_thread_is_restored() {
    let mut rt = ThreadRegistry::new(2);
    assert!(!Thread::is_spdk_thread(&rt));
    assert_eq!(Thread::primary_safe(&rt), None);
    let a = Thread::new(&mut rt, "a".to_string(), 0).unwrap();
    let b = Thread::new(&mut rt, "b".to_string(), 1).unwrap();
    assert_eq!(Thread::primary(&rt), a);
    assert_eq!(Thread::primary_safe(&rt), Some(a));
    a.set_current(&mut rt);
    assert!(Thread::is_spdk_thread(&rt));
    let out = b.with(&mut rt, || 41 + 1);
    assert_eq!(out, 42);
    assert_eq!(Thread::current(&rt), Some(a));
    let g = CurrentThreadGuard::new(&rt);
    b.set_current(&mut rt);
    assert_eq!(Thread::current(&rt), Some(b));
    g.restore(&mut rt);
    assert_eq!(Thread::current(&rt), Some(a));
    a.unset_current(&mut rt);
    assert_eq!(Thread::current(&rt), None);
    b.exit(&mut rt);
    assert_eq!(Thread::current(&rt), Some(b));
}

#[test]
fn current_info_names_thread_and_core() {
    let env = CoreEnv::new(vec![2, 4, 6], 1).unwrap();
    let mut rt = ThreadRegistry::new(2);
    assert_eq!(Thread::current_info(&rt, &env), "Non-SPDK thread [core 4]");
    let a = Thread::new(&mut rt, "init".to_string(), 2).unwrap();
    a.set_current(&mut rt);
    assert_eq!(Thread::current_info(&rt, &env), "'init' (1) [core 4]");
}

#[test]
fn poller_runs_once_per_tick() {
    let mut rt = ThreadRegistry::new(1);
    let count = Cell::new(0u32);
    let mut p = PollerBuilder::new()
        .with_name("counter")
        .with_data(5u32)
        .with_interval(0)
        .with_poll_fn(|d: &u32| {
            count.set(count.get() + *d);
            0
        })
        .build(&mut rt);
    assert_eq!(p.state(), PollerState::Waiting);
    assert_eq!(p.name(), Some("counter".to_string()));
    assert_eq!(*p.data(), 5);
    assert_eq!(p.interval(), 0);
    assert_eq!(p.thread(), None);
    for _ in 0..7 {
        assert_eq!(p.tick(&mut rt), 0);
    }
    assert_eq!(count.get(), 35);
    let mut inner = p.stop();
    assert_eq!(inner.state(), PollerState::Stopped);
    assert_eq!(inner.tick(&mut rt), 0);
    assert_eq!(inner.state(), PollerState::Unregistered);
    assert_eq!(count.get(), 35);
    assert_eq!(inner.dbg_name(), "counter");
}

#[test]
fn paused_poller_is_passed_over() {
    let mut rt = ThreadRegistry::new(1);
    let count = Cell::new(0u32);
    let mut p = PollerBuilder::<(), _>::new()
        .with_poll_fn(|_: &()| {
            count.set(count.get() + 1);
            0
        })
        .build(&mut rt);
    assert_eq!(p.name(), None);
    p.tick(&mut rt);
    p.pause();
    p.tick(&mut rt);
    p.tick(&mut rt);
    assert_eq!(count.get(), 1);
    p.resume();
    p.tick(&mut rt);
    assert_eq!(count.get(), 2);
}

#[test]
fn poller_on_a_core_gets_its_own_thread() {
    let mut rt = ThreadRegistry::new(2);
    let count = Cell::new(0u32);
    let b = PollerBuilder::<u8, _>::new()
        .with_name("io")
        .with_core(3)
        .with_interval(1000)
        .with_poll_fn(|_: &u8| {
            count.set(count.get() + 1);
            0
        });
    assert_eq!(b.thread_name(), "poller_thread_io");
    let mut p = b.build(&mut rt);
    assert_eq!(*p.data(), 0);
    assert_eq!(p.interval(), 1000);
    assert_eq!(p.state(), PollerState::Starting);
    let t = p.thread().unwrap();
    assert_eq!(t.name(&rt), "poller_thread_io");
    assert_eq!(t.core_id(&rt), 3);
    assert_eq!(t.poll(&mut rt), vec![ThreadMsg::RegisterPoller]);
    p.register_impl();
    assert_eq!(p.state(), PollerState::Waiting);
    p.tick(&mut rt);
    assert_eq!(count.get(), 1);
    let mut inner = p.stop();
    inner.tick(&mut rt);
    assert_eq!(inner.state(), PollerState::Unregistered);
    assert_eq!(t.state(&rt), ThreadState::Exiting);
    assert_eq!(count.get(), 1);
}

#[test]
fn nameless_poller_thread_name() {
    let b = PollerBuilder::<(), fn(&()) -> i32>::new();
    assert_eq!(b.thread_name(), "poller_thread_unnamed");
}
