use spdk_rs::bdev::Bdev;
use spdk_rs::registry::BdevRegistry;
use spdk_rs::bdev_desc::{BdevDesc, BdevEvent, LbaRange};
use spdk_rs::bdev_module::BdevModule;
use spdk_rs::errno::{Errno, EBUSY, EINVAL, ENODEV, EPERM};
use spdk_rs::error::{BdevDescError, SpdkError};
use spdk_rs::thread::{Thread, ThreadRegistry};

fn runtime() -> ThreadRegistry {
    let mut rt = ThreadRegistry::new(4);
    let t = Thread::new(&mut rt, "init".to_string(), 0).unwrap();
    t.set_current(&mut rt);
    rt
}

fn device(reg: &mut BdevRegistry<()>, name: &str) -> Bdev {
    let mut b = BdevModule::new("m")
        .bdev_builder::<()>()
        .with_name(name)
        .with_product_name("p")
        .with_block_length(512)
        .with_block_count(1024)
        .with_required_alignment(0)
        .with_data(())
        .build(reg);
    b.register_bdev(reg).unwrap();
    b
}

#[test]
fn two_descriptors_are_independent() {
    let rt = runtime();
    let mut reg = BdevRegistry::<()>::new(4);
    let b = device(&mut reg, "d");
    let mut one = BdevDesc::open(&mut reg, "d", false).unwrap();
    let two = BdevDesc::open(&mut reg, "d", true).unwrap();
    assert_ne!(one, two);
    assert_eq!(one.bdev(&reg), b);
    assert_eq!(two.bdev(&reg), b);
    assert!(!one.is_writable(&reg));
    assert!(two.is_writable(&reg));
    one.close(&mut reg);
    assert_eq!(one.legacy_as_ptr(), 0);
    assert_eq!(two.bdev(&reg), b);
    assert_eq!(two.bdev(&reg).name(&reg), "d");
    let ch = two.io_channel(&mut reg, &rt).unwrap();
    assert_eq!(Some(ch.channel().thread()), Thread::current(&rt));
    assert_eq!(ch.channel().legacy_as_ptr(), b.as_raw());
    assert_eq!(reg.channels_out(), 1);
    ch.release(&mut reg);
    assert_eq!(reg.channels_out(), 0);
}

#[test]
fn open_fails_on_unknown_name() {
    let mut reg = BdevRegistry::<()>::new(4);
    device(&mut reg, "d");
    assert_eq!(BdevDesc::open(&mut reg, "nope", false), Err(Errno::from_raw(ENODEV)));
    assert_eq!(Errno::from_raw(ENODEV).code(), 19);
}

#[test]
fn open_by_alias() {
    let mut reg = BdevRegistry::<()>::new(4);
    let mut b = device(&mut reg, "d");
    b.add_alias(&mut reg, "other");
    let d = BdevDesc::open(&mut reg, "other", false).unwrap();
    assert_eq!(d.bdev(&reg), b);
}

#[test]
fn write_open_on_claimed_device_is_refused() {
    let mut reg = BdevRegistry::<()>::new(4);
    let b = device(&mut reg, "d");
    BdevModule::new("raid").claim_bdev(&mut reg, &b).unwrap();
    assert_eq!(BdevDesc::open(&mut reg, "d", true), Err(Errno::from_raw(EPERM)));
    assert!(BdevDesc::open(&mut reg, "d", false).is_ok());
}

#[test]
fn unregister_waits_for_last_descriptor() {
    let mut rt = ThreadRegistry::new(1);
    let t = Thread::new(&mut rt, "init".to_string(), 0).unwrap();
    t.set_current(&mut rt);
    let mut reg = BdevRegistry::<()>::new(4);
    let mut b = device(&mut reg, "d");
    let mut one = BdevDesc::open(&mut reg, "d", false).unwrap();
    let mut two = BdevDesc::open(&mut reg, "d", false).unwrap();
    assert_eq!(b.unregister_bdev_async(&mut reg), Ok(()));
    assert_eq!(Bdev::lookup_by_name(&reg, &rt, "d"), Some(b));
    assert_eq!(BdevDesc::open(&mut reg, "d", false), Err(Errno::from_raw(ENODEV)));
    assert_eq!(
        b.unregister_bdev_async(&mut reg),
        Err(SpdkError::BdevUnregisterFailed { source: Errno::from_raw(EBUSY), name: "d".to_string() })
    );
    one.close(&mut reg);
    assert_eq!(Bdev::lookup_by_name(&reg, &rt, "d"), Some(b));
    two.close(&mut reg);
    assert_eq!(Bdev::lookup_by_name(&reg, &rt, "d"), None);
}

#[test]
fn unregister_of_a_device_never_registered_fails() {
    let mut reg = BdevRegistry::<()>::new(4);
    let mut b = BdevModule::new("m")
        .bdev_builder::<()>()
        .with_name("u")
        .with_product_name("p")
        .with_block_length(512)
        .with_block_count(1)
        .with_required_alignment(0)
        .with_data(())
        .build(&mut reg);
    assert_eq!(
        b.unregister_bdev_async(&mut reg),
        Err(SpdkError::BdevUnregisterFailed { source: Errno::from_raw(ENODEV), name: "u".to_string() })
    );
    assert_eq!(b.unregister_status(&mut reg), -ENODEV);
}

#[test]
fn lock_then_unlock_succeeds() {
    let rt = runtime();
    let mut reg = BdevRegistry::<()>::new(1);
    device(&mut reg, "d");
    let d = BdevDesc::open(&mut reg, "d", true).unwrap();
    let lock = d.lock_lba_range(&mut reg, &rt, LbaRange::new(10, 20)).unwrap();
    assert_eq!(lock.range(), LbaRange { offset: 10, len: 20 });
    // The lock holds the only channel.
    assert_eq!(
        d.io_channel(&mut reg, &rt).unwrap_err(),
        BdevDescError::GetIOChannel { bdev_name: "d".to_string() }
    );
    assert_eq!(d.unlock_lba_range(&mut reg, lock), Ok(()));
    let again = d.lock_lba_range(&mut reg, &rt, LbaRange::new(10, 20)).unwrap();
    assert_eq!(d.unlock_lba_range(&mut reg, again), Ok(()));
    assert!(d.io_channel(&mut reg, &rt).is_ok());
}

#[test]
fn overlapping_lock_is_refused() {
    let rt = runtime();
    let mut reg = BdevRegistry::<()>::new(8);
    device(&mut reg, "d");
    let d = BdevDesc::open(&mut reg, "d", true).unwrap();
    let first = d.lock_lba_range(&mut reg, &rt, LbaRange::new(0, 100)).unwrap();
    let clash = d.lock_lba_range(&mut reg, &rt, LbaRange::new(99, 1));
    assert_eq!(
        clash.unwrap_err(),
        BdevDescError::LbaLock { source: Errno::from_raw(EBUSY), bdev_name: "d".to_string() }
    );
    let same = d.lock_lba_range(&mut reg, &rt, LbaRange::new(0, 100));
    assert!(same.is_err());
    let next = d.lock_lba_range(&mut reg, &rt, LbaRange::new(100, u64::MAX));
    assert!(next.is_ok());
    let empty = d.lock_lba_range(&mut reg, &rt, LbaRange::new(50, 0));
    assert!(empty.is_ok());
    assert_eq!(d.unlock_lba_range(&mut reg, first), Ok(()));
    assert!(d.lock_lba_range(&mut reg, &rt, LbaRange::new(99, 1)).is_ok());
}

#[test]
fn lock_without_channel_fails() {
    let rt = runtime();
    let mut reg = BdevRegistry::<()>::new(0);
    device(&mut reg, "d");
    let d = BdevDesc::open(&mut reg, "d", true).unwrap();
    assert_eq!(
        d.lock_lba_range(&mut reg, &rt, LbaRange::new(0, 1)).unwrap_err(),
        BdevDescError::GetIOChannel { bdev_name: "d".to_string() }
    );
}

#[test]
fn unlock_through_a_descriptor_of_another_device_is_refused() {
    let rt = runtime();
    let mut reg = BdevRegistry::<()>::new(8);
    device(&mut reg, "a");
    device(&mut reg, "b");
    let da = BdevDesc::open(&mut reg, "a", true).unwrap();
    let db = BdevDesc::open(&mut reg, "b", true).unwrap();
    let lock = da.lock_lba_range(&mut reg, &rt, LbaRange::new(0, 8)).unwrap();
    assert_eq!(
        db.unlock_lba_range(&mut reg, lock),
        Err(BdevDescError::LbaUnlock { source: Errno::from_raw(EINVAL), bdev_name: "b".to_string() })
    );
    // The range is still locked on the first device.
    assert!(da.lock_lba_range(&mut reg, &rt, LbaRange::new(0, 8)).is_err());
}

#[test]
fn unlock_through_another_descriptor_of_the_same_device_is_refused() {
    let rt = runtime();
    let mut reg = BdevRegistry::<()>::new(8);
    device(&mut reg, "a");
    let one = BdevDesc::open(&mut reg, "a", true).unwrap();
    let two = BdevDesc::open(&mut reg, "a", true).unwrap();
    let lock = one.lock_lba_range(&mut reg, &rt, LbaRange::new(0, 8)).unwrap();
    assert_eq!(reg.channels_out(), 1);
    assert_eq!(
        two.unlock_lba_range(&mut reg, lock),
        Err(BdevDescError::LbaUnlock { source: Errno::from_raw(EINVAL), bdev_name: "a".to_string() })
    );
    assert_eq!(reg.channels_out(), 0);
    assert!(two.lock_lba_range(&mut reg, &rt, LbaRange::new(7, 1)).is_err());
}

#[test]
fn closed_descriptor_is_not_open() {
    let mut reg = BdevRegistry::<()>::new(8);
    device(&mut reg, "a");
    let mut one = BdevDesc::open(&mut reg, "a", true).unwrap();
    let copy = one;
    assert!(one.is_open(&reg));
    assert!(copy.is_open(&reg));
    one.close(&mut reg);
    assert!(!one.is_open(&reg));
    assert!(!copy.is_open(&reg));
    assert!(!BdevDesc::legacy_from_ptr(9).is_open(&reg));
    assert_eq!(reg.num_descs(), 1);
    assert_eq!(reg.channel_capacity(), 8);
}

#[test]
fn ranges_overlap_when_they_share_a_block() {
    let a = LbaRange::new(0, 10);
    assert!(a.overlaps(&LbaRange::new(9, 1)));
    assert!(!a.overlaps(&LbaRange::new(10, 1)));
    assert!(!a.overlaps(&LbaRange::new(5, 0)));
    assert!(LbaRange::new(u64::MAX, 1).overlaps(&LbaRange::new(0, u64::MAX).clone()) == false);
    assert!(LbaRange::new(u64::MAX - 1, u64::MAX).overlaps(&LbaRange::new(u64::MAX, 1)));
}

#[test]
fn event_codes() {
    assert_eq!(BdevEvent::from_code(0), BdevEvent::Remove);
    assert_eq!(BdevEvent::from_code(1), BdevEvent::Resize);
    assert_eq!(BdevEvent::from_code(2), BdevEvent::MediaManagement);
    assert_eq!(BdevEvent::MediaManagement.code(), 2);
}

#[test]
fn error_messages() {
    assert_eq!(
        BdevDescError::GetIOChannel { bdev_name: "d".to_string() }.message(),
        "Failed to get I/O channel for 'd'"
    );
    assert_eq!(
        BdevDescError::LbaLock { source: Errno::from_raw(EBUSY), bdev_name: "d".to_string() }.message(),
        "Failed to lock LBA range for 'd'"
    );
    assert_eq!(
        BdevDescError::LbaUnlock { source: Errno::from_raw(EINVAL), bdev_name: "x".to_string() }
            .message(),
        "Failed to unlock LBA range for 'x'"
    );
    assert_eq!(
        SpdkError::BdevModuleNotFound { name: "m".to_string() }.message(),
        "Bdev module 'm' does not exist"
    );
    assert_eq!(
        SpdkError::BdevAlreadyClaimed { name: "b".to_string() }.message(),
        "Bdev 'b' is already claimed by another module"
    );
    assert_eq!(
        SpdkError::BdevNotClaimed { name: "b".to_string(), mod_name: "m".to_string() }.message(),
        "Bdev 'b' is not claimed by this module 'm'"
    );
    assert_eq!(
        SpdkError::BdevUnregisterFailed { source: Errno::from_raw(EBUSY), name: "b".to_string() }
            .message(),
        "Failed to unregister Bdev 'b': EBUSY: Device or resource busy"
    );
    assert_eq!(
        SpdkError::SerdeFailed { source: "bad".to_string() }.message(),
        "Serde JSON serialization failed: bad"
    );
    assert_eq!(
        SpdkError::JsonWriteFailed { code: -1 }.message(),
        "SPDK JSON write failed: error code -1"
    );
}
