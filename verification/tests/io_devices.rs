use spdk_rs::registry::BdevRegistry;
use spdk_rs::bdev_module::BdevModule;
use spdk_rs::bdev_ops::BdevOps;
use spdk_rs::io_device_traverse::ChannelTraverseStatus;
use spdk_rs::io_devices::{IoDevice, IoDeviceSlot, IoDeviceState};
use spdk_rs::io_type::IoType;
use spdk_rs::json_write_context::JsonWriteContext;
use spdk_rs::thread::{Thread, ThreadRegistry};
use std::cell::Cell;
use std::rc::Rc;

struct Counting {
    made: u32,
    destroyed: Rc<Cell<u32>>,
    unregistered: Rc<Cell<bool>>,
}

impl IoDevice for Counting {
    type ChannelData = u32;

    fn unregister_callback(&self) {
        self.unregistered.set(true);
    }

    fn io_channel_create(&mut self) -> u32 {
        self.made += 1;
        self.made * 10
    }

    fn io_channel_destroy(&mut self, chan: u32) {
        self.destroyed.set(self.destroyed.get() + chan);
    }
}

fn setup() -> (ThreadRegistry, Thread, Thread, IoDeviceSlot<Counting>, Rc<Cell<u32>>, Rc<Cell<bool>>) {
    let mut rt = ThreadRegistry::new(4);
    let a = Thread::new(&mut rt, "a".to_string(), 0).unwrap();
    let b = Thread::new(&mut rt, "b".to_string(), 1).unwrap();
    let destroyed = Rc::new(Cell::new(0));
    let unregistered = Rc::new(Cell::new(false));
    let dev = Counting { made: 0, destroyed: destroyed.clone(), unregistered: unregistered.clone() };
    (rt, a, b, IoDeviceSlot::new(dev), destroyed, unregistered)
}

fn get(rt: &mut ThreadRegistry, slot: &mut IoDeviceSlot<Counting>, t: Thread) -> bool {
    t.set_current(rt);
    slot.get_io_channel(rt)
}

fn put(rt: &mut ThreadRegistry, slot: &mut IoDeviceSlot<Counting>, t: Thread) -> bool {
    t.set_current(rt);
    slot.put_io_channel(rt)
}

fn data(rt: &mut ThreadRegistry, slot: &IoDeviceSlot<Counting>, t: Thread) -> u32 {
    t.set_current(rt);
    *slot.channel_data(rt)
}

fn replace(rt: &mut ThreadRegistry, slot: &mut IoDeviceSlot<Counting>, t: Thread, v: u32) -> u32 {
    t.set_current(rt);
    slot.replace_channel_data(rt, v)
}

#[test]
fn channels_are_counted_per_thread() {
    let (mut rt, a, b, mut slot, destroyed, _) = setup();
    assert_eq!(slot.state(), IoDeviceState::Idle);
    assert!(!get(&mut rt, &mut slot, a));
    slot.register_io_device(Some("dev"));
    assert_eq!(slot.state(), IoDeviceState::Registered);
    assert!(get(&mut rt, &mut slot, a));
    assert!(get(&mut rt, &mut slot, a));
    assert!(get(&mut rt, &mut slot, b));
    assert_eq!(slot.num_channels(), 2);
    assert_eq!(slot.channel_refs(a), 2);
    assert_eq!(slot.channel_refs(b), 1);
    assert_eq!(data(&mut rt, &slot, a), 10);
    assert_eq!(data(&mut rt, &slot, b), 20);
    assert_eq!(slot.device().made, 2);
    assert!(!put(&mut rt, &mut slot, a));
    assert_eq!(slot.num_channels(), 2);
    assert_eq!(destroyed.get(), 0);
    assert!(!put(&mut rt, &mut slot, a));
    assert_eq!(slot.num_channels(), 1);
    assert_eq!(destroyed.get(), 10);
    assert_eq!(slot.channel_refs(a), 0);
    assert_eq!(replace(&mut rt, &mut slot, b, 99), 20);
    assert_eq!(data(&mut rt, &slot, b), 99);
    *slot.channel_data_mut(&rt) += 1;
    assert_eq!(data(&mut rt, &slot, b), 100);
}

#[test]
fn unregister_waits_for_channels() {
    let (mut rt, a, b, mut slot, destroyed, unregistered) = setup();
    slot.register_io_device(None);
    get(&mut rt, &mut slot, a);
    get(&mut rt, &mut slot, b);
    assert!(!slot.unregister_io_device());
    assert_eq!(slot.state(), IoDeviceState::Unregistering);
    assert!(!get(&mut rt, &mut slot, a));
    assert!(!unregistered.get());
    assert!(!put(&mut rt, &mut slot, b));
    assert!(put(&mut rt, &mut slot, a));
    assert_eq!(slot.state(), IoDeviceState::Gone);
    assert!(unregistered.get());
    assert_eq!(destroyed.get(), 30);
    assert!(!slot.unregister_io_device());
}

#[test]
fn unregister_without_channels_is_immediate() {
    let (mut rt, _a, _b, mut slot, _, unregistered) = setup();
    assert!(!slot.unregister_io_device());
    assert_eq!(slot.state(), IoDeviceState::Idle);
    slot.register_io_device(None);
    assert!(slot.unregister_io_device());
    assert_eq!(slot.state(), IoDeviceState::Gone);
    assert!(unregistered.get());
}

#[test]
fn traversal_visits_channels_in_order() {
    let (mut rt, a, b, mut slot, _, _) = setup();
    slot.register_io_device(None);
    get(&mut rt, &mut slot, a);
    get(&mut rt, &mut slot, b);
    let seen = Cell::new(0u32);
    let done = Cell::new(None);
    let r = slot.traverse_io_channels(
        Vec::<u32>::new(),
        |data: &mut u32, ctx: &mut Vec<u32>| {
            ctx.push(*data);
            *data += 1;
            seen.set(seen.get() + 1);
            ChannelTraverseStatus::Proceed
        },
        |status, ctx: Vec<u32>| done.set(Some((status, ctx.len()))),
    );
    assert_eq!(r, (ChannelTraverseStatus::Proceed, 2));
    assert_eq!(seen.get(), 2);
    assert_eq!(done.get(), Some((ChannelTraverseStatus::Proceed, 2)));
    assert_eq!(data(&mut rt, &slot, a), 11);
    assert_eq!(data(&mut rt, &slot, b), 21);
}

#[test]
fn traversal_stops_at_cancel() {
    let (mut rt, a, b, mut slot, _, _) = setup();
    slot.register_io_device(None);
    get(&mut rt, &mut slot, a);
    get(&mut rt, &mut slot, b);
    let done = Cell::new(None);
    let r = slot.traverse_io_channels(
        0u32,
        |_: &mut u32, ctx: &mut u32| {
            *ctx += 1;
            ChannelTraverseStatus::Cancel
        },
        |status, ctx: u32| done.set(Some((status, ctx))),
    );
    assert_eq!(r, (ChannelTraverseStatus::Cancel, 1));
    assert_eq!(done.get(), Some((ChannelTraverseStatus::Cancel, 1)));
}

#[test]
fn traversal_of_no_channels_is_done_at_once() {
    let (mut rt, _a, _b, mut slot, _, _) = setup();
    let done = Cell::new(false);
    let r = slot.traverse_io_channels(
        (),
        |_: &mut u32, _: &mut ()| ChannelTraverseStatus::Cancel,
        |_, _| done.set(true),
    );
    assert_eq!(r, (ChannelTraverseStatus::Proceed, 0));
    assert!(done.get());
}

struct Talkative {
    destructed: Rc<Cell<u32>>,
}

impl BdevOps for Talkative {
    type IoDev = ();

    fn spec_io_type_supported(&self, io_type: IoType) -> bool {
        self.io_type_supported(io_type)
    }

    fn destruct(&mut self) {
        self.destructed.set(self.destructed.get() + 1);
    }

    fn io_type_supported(&self, _io_type: IoType) -> bool {
        true
    }

    fn get_io_device(&self) -> &() {
        &()
    }

    fn dump_info_json(&self, w: &mut JsonWriteContext) {
        w.write_named_array_begin("children");
        let _ = w.write_string("\"a\"");
        w.write_array_end();
    }
}

#[test]
fn payload_is_destructed_once_when_device_is_destroyed() {
    let destructed = Rc::new(Cell::new(0));
    let mut reg = BdevRegistry::<Talkative>::new(1);
    let mut b = BdevModule::new("m")
        .bdev_builder::<Talkative>()
        .with_name("t")
        .with_product_name("p")
        .with_block_length(512)
        .with_block_count(1)
        .with_required_alignment(0)
        .with_data(Talkative { destructed: destructed.clone() })
        .build(&mut reg);
    b.register_bdev(&mut reg).unwrap();
    let mut w = JsonWriteContext::new(100);
    assert_eq!(b.dump_info_json(&reg, &mut w), 0);
    assert_eq!(w.output(), "\"children\":[\"a\"]");
    assert_eq!(b.describe(&reg), "m::t 1x512 bytes");
    // A writer that is too small fails, and the failure comes back as a code.
    let mut small = JsonWriteContext::new(5);
    assert_eq!(b.dump_info_json(&reg, &mut small), -1);
    assert!(small.has_failed());
    assert_eq!(small.output(), "");
    assert_eq!(destructed.get(), 0);
    b.unregister_bdev(&mut reg);
    assert_eq!(destructed.get(), 1);
}

#[test]
fn untyped_payload_says_nothing() {
    let mut reg = BdevRegistry::<()>::new(1);
    let b = BdevModule::new("m")
        .bdev_builder::<()>()
        .with_name("t")
        .with_product_name("p")
        .with_block_length(512)
        .with_block_count(1)
        .with_required_alignment(0)
        .with_data(())
        .build(&mut reg);
    let mut w = JsonWriteContext::new(100);
    assert_eq!(b.dump_info_json(&reg, &mut w), 0);
    assert_eq!(w.output(), "");
    assert!(!b.io_type_supported(&reg, IoType::Read));
}
