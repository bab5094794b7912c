use spdk_rs::bdev::{Bdev, BdevZoneInfo, Uuid};
use spdk_rs::registry::BdevRegistry;
use spdk_rs::bdev_desc::BdevDesc;
use spdk_rs::bdev_module::BdevModule;
use spdk_rs::bdev_ops::BdevOps;
use spdk_rs::errno::{Errno, EEXIST};
use spdk_rs::error::SpdkError;
use spdk_rs::io_type::IoType;
use spdk_rs::json_write_context::JsonWriteContext;
use spdk_rs::thread::{Thread, ThreadRegistry};

struct Disk {
    reads_only: bool,
}

impl BdevOps for Disk {
    type IoDev = ();

    fn get_io_device(&self) -> &() {
        &()
    }

    fn spec_io_type_supported(&self, io_type: IoType) -> bool {
        self.io_type_supported(io_type)
    }

    fn destruct(&mut self) {}

    fn io_type_supported(&self, io_type: IoType) -> bool {
        io_type == IoType::Read || (!self.reads_only && io_type == IoType::Write)
    }

    fn dump_info_json(&self, _w: &mut JsonWriteContext) {}
}

fn runtime() -> ThreadRegistry {
    let mut rt = ThreadRegistry::new(8);
    let t = Thread::new(&mut rt, "init".to_string(), 0).unwrap();
    t.set_current(&mut rt);
    rt
}

fn disk(reg: &mut BdevRegistry<Disk>, name: &str, block_len: u32, block_count: u64) -> Bdev {
    let m = BdevModule::new("test_mod");
    let b = m
        .bdev_builder::<Disk>()
        .with_name(name)
        .with_product_name("Test Disk")
        .with_block_length(block_len)
        .with_block_count(block_count)
        .with_required_alignment(9)
        .with_data(Disk { reads_only: false });
    assert!(b.is_complete());
    b.build(reg)
}

#[test]
fn disk0_scenario() {
    let rt = runtime();
    let mut reg = BdevRegistry::<Disk>::new(4);
    let mut b = disk(&mut reg, "disk0", 512, 2048);
    assert_eq!(b.register_bdev(&mut reg), Ok(()));
    assert_eq!(b.size_in_bytes(&reg), 1_048_576);
    assert!(b.add_alias(&mut reg, "d0"));
    assert_eq!(b.aliases(&reg), vec!["d0".to_string()]);
    let raid = BdevModule::new("raid");
    assert_eq!(raid.claim_bdev(&mut reg, &b), Ok(()));
    assert!(b.is_claimed_by(&reg, "raid"));
    assert!(!b.is_claimed_by(&reg, "other"));
    assert_eq!(b.unregister_bdev_async(&mut reg), Ok(()));
    assert_eq!(Bdev::lookup_by_name(&reg, &rt, "disk0"), None);
    assert!(!b.is_live(&reg));
}

#[test]
fn registered_device_is_found_by_name_and_alias() {
    let rt = runtime();
    let mut reg = BdevRegistry::<Disk>::new(4);
    let mut b = disk(&mut reg, "nvme0n1", 4096, 10);
    assert_eq!(Bdev::lookup_by_name(&reg, &rt, "nvme0n1"), None);
    assert_eq!(b.register_bdev(&mut reg), Ok(()));
    assert_eq!(Bdev::lookup_by_name(&reg, &rt, "nvme0n1"), Some(b));
    assert!(b.add_alias(&mut reg, "fast"));
    assert_eq!(Bdev::lookup_by_name(&reg, &rt, "fast"), Some(b));
    assert_eq!(Bdev::lookup_by_name(&reg, &rt, "slow"), None);
    assert_eq!(b.name(&reg), "nvme0n1");
    assert_eq!(b.product_name(&reg), "Test Disk");
    assert_eq!(b.module_name(&reg), "test_mod");
    assert_eq!(b.block_len(&reg), 4096);
    assert_eq!(b.num_blocks(&reg), 10);
    assert_eq!(b.required_alignment(&reg), 9);
    assert_eq!(b.alignment(&reg), 512);
    assert_eq!(b.uuid(&reg), Uuid { bits: 0 });
}

#[test]
fn duplicate_name_is_refused_with_eexist() {
    let mut reg = BdevRegistry::<Disk>::new(4);
    let mut a = disk(&mut reg, "same", 512, 1);
    let mut b = disk(&mut reg, "same", 512, 1);
    assert_eq!(a.register_bdev(&mut reg), Ok(()));
    assert_eq!(b.register_bdev(&mut reg), Err(Errno::from_raw(EEXIST)));
    assert_eq!(a.register_bdev(&mut reg), Err(Errno::from_raw(EEXIST)));
    assert_eq!(Errno::from_raw(EEXIST).code(), 17);
}

#[test]
fn add_alias_twice_keeps_one() {
    let mut reg = BdevRegistry::<Disk>::new(4);
    let mut b = disk(&mut reg, "disk1", 512, 1);
    b.register_bdev(&mut reg).unwrap();
    assert!(b.add_alias(&mut reg, "one"));
    assert!(b.add_alias(&mut reg, "one"));
    assert_eq!(b.aliases(&reg), vec!["one".to_string()]);
    assert!(b.add_aliases(&mut reg, &vec!["two".to_string(), "one".to_string(), "three".to_string()]));
    assert_eq!(
        b.aliases(&reg),
        vec!["one".to_string(), "two".to_string(), "three".to_string()]
    );
    b.remove_alias(&mut reg, "two");
    assert_eq!(b.aliases(&reg), vec!["one".to_string(), "three".to_string()]);
    b.remove_alias(&mut reg, "absent");
    assert_eq!(b.aliases(&reg), vec!["one".to_string(), "three".to_string()]);
}

#[test]
fn alias_taken_by_another_device_is_not_added() {
    let mut reg = BdevRegistry::<Disk>::new(4);
    let mut a = disk(&mut reg, "a", 512, 1);
    let mut b = disk(&mut reg, "b", 512, 1);
    a.register_bdev(&mut reg).unwrap();
    b.register_bdev(&mut reg).unwrap();
    assert!(a.add_alias(&mut reg, "shared"));
    assert!(b.add_alias(&mut reg, "shared"));
    assert!(b.add_alias(&mut reg, "a"));
    assert!(b.add_alias(&mut reg, "b"));
    assert_eq!(b.aliases(&reg), Vec::<String>::new());
    assert_eq!(a.aliases(&reg), vec!["shared".to_string()]);
}

#[test]
fn claim_and_release() {
    let mut reg = BdevRegistry::<Disk>::new(4);
    let mut b = disk(&mut reg, "c0", 512, 1);
    b.register_bdev(&mut reg).unwrap();
    assert!(!b.is_claimed(&reg));
    assert!(!b.is_claimed_by(&reg, "raid"));
    let raid = BdevModule::new("raid");
    let lvol = BdevModule::new("lvol");
    assert_eq!(raid.claim_bdev(&mut reg, &b), Ok(()));
    assert!(b.is_claimed(&reg));
    assert!(b.is_claimed_by_module(&reg, &raid));
    assert!(!b.is_claimed_by_module(&reg, &lvol));
    assert_eq!(b.first_claim_module_name(&reg), Some("raid".to_string()));
    assert_eq!(
        lvol.claim_bdev(&mut reg, &b),
        Err(SpdkError::BdevAlreadyClaimed { name: "c0".to_string() })
    );
    assert_eq!(
        raid.claim_bdev(&mut reg, &b),
        Err(SpdkError::BdevAlreadyClaimed { name: "c0".to_string() })
    );
    assert_eq!(
        lvol.release_bdev(&mut reg, &b),
        Err(SpdkError::BdevNotClaimed { name: "c0".to_string(), mod_name: "lvol".to_string() })
    );
    assert!(b.is_claimed_by(&reg, "raid"));
    b.release_claim(&mut reg);
    assert!(!b.is_claimed(&reg));
    assert!(!b.is_claimed_by(&reg, "raid"));
    b.release_claim(&mut reg);
    assert!(!b.is_claimed(&reg));
    assert_eq!(b.first_claim_module_name(&reg), None);
}

#[test]
fn zoned_device_always_takes_zone_append() {
    let mut reg = BdevRegistry::<Disk>::new(4);
    let m = BdevModule::new("zns");
    let zone = BdevZoneInfo {
        zoned: true,
        num_zones: 16,
        zone_size: 128,
        max_zone_append_size: 32,
        max_open_zones: 4,
        max_active_zones: 8,
        optimal_open_zones: 2,
    };
    let z = m
        .bdev_builder::<Disk>()
        .with_name("zoned")
        .with_product_name("Z")
        .with_block_length(4096)
        .with_block_count(2048)
        .with_required_alignment(12)
        .with_zone_info(zone)
        .with_data(Disk { reads_only: true })
        .build(&mut reg);
    let plain = disk(&mut reg, "plain", 512, 8);
    assert!(z.is_zoned(&reg));
    assert!(z.io_type_supported(&reg, IoType::ZoneAppend));
    assert!(z.io_type_supported(&reg, IoType::Read));
    assert!(!z.io_type_supported(&reg, IoType::Write));
    assert_eq!(z.zone_size(&reg), 128);
    assert_eq!(z.num_zones(&reg), 16);
    assert_eq!(z.max_zone_append_size(&reg), 32);
    assert_eq!(z.max_open_zones(&reg), 4);
    assert_eq!(z.max_active_zones(&reg), 8);
    assert_eq!(z.optimal_open_zones(&reg), 2);
    assert!(!plain.is_zoned(&reg));
    assert!(!plain.io_type_supported(&reg, IoType::ZoneAppend));
    assert!(plain.io_type_supported(&reg, IoType::Write));
    assert_eq!(plain.zone_size(&reg), 0);
    assert_eq!(plain.num_zones(&reg), 0);
    assert_eq!(plain.max_open_zones(&reg), 0);
    assert_eq!(plain.zone_info(&reg), BdevZoneInfo::none());
}

#[test]
fn size_is_blocks_times_block_length() {
    let mut reg = BdevRegistry::<Disk>::new(1);
    let mut b = disk(&mut reg, "big", u32::MAX, 4_294_967_297);
    assert_eq!(b.size_in_bytes(&reg), 4_294_967_297u64 * (u32::MAX as u64));
    b.set_num_blocks(&mut reg, 3);
    b.set_block_len(&mut reg, 7);
    assert_eq!(b.size_in_bytes(&reg), 21);
}

#[test]
fn incomplete_builder_says_so() {
    let m = BdevModule::new("m");
    assert!(!m.bdev_builder::<Disk>().is_complete());
    let b = m
        .bdev_builder::<Disk>()
        .with_name("n")
        .with_product_name("p")
        .with_block_length(512)
        .with_block_count(u64::MAX)
        .with_required_alignment(0)
        .with_data(Disk { reads_only: false });
    assert!(!b.is_complete());
    let b = b.with_block_count(u64::MAX / 512);
    assert!(b.is_complete());
    let b = b.with_block_length(0);
    assert!(!b.is_complete());
    let b = b.with_block_length(1).with_required_alignment(64);
    assert!(!b.is_complete());
}

#[test]
fn open_descriptors_of_a_device_are_listed() {
    let mut reg = BdevRegistry::<Disk>::new(4);
    let mut a = disk(&mut reg, "a", 512, 1);
    let mut b = disk(&mut reg, "b", 512, 1);
    a.register_bdev(&mut reg).unwrap();
    b.register_bdev(&mut reg).unwrap();
    let d1 = BdevDesc::open(&mut reg, "a", false).unwrap();
    let _d2 = BdevDesc::open(&mut reg, "b", false).unwrap();
    let mut d3 = BdevDesc::open(&mut reg, "a", true).unwrap();
    assert_eq!(reg.open_descs_of(&a), vec![d1.legacy_as_ptr(), 3]);
    assert_eq!(reg.open_descs_of(&b), vec![2]);
    d3.close(&mut reg);
    assert_eq!(reg.open_descs_of(&a), vec![1]);
}

#[test]
fn payload_can_be_read_and_replaced() {
    let mut reg = BdevRegistry::<Disk>::new(4);
    let mut a = disk(&mut reg, "a", 512, 1);
    assert!(!a.data(&reg).reads_only);
    let prev = a.replace_data(&mut reg, Disk { reads_only: true });
    assert!(!prev.reads_only);
    assert!(a.data(&reg).reads_only);
    assert!(!a.io_type_supported(&reg, IoType::Write));
    assert_eq!(a.as_raw(), 1);
    assert_eq!(Bdev::from_raw(1), a);
    a.set_raw_uuid(&mut reg, Uuid { bits: 77 });
    assert_eq!(a.raw_uuid(&reg), Uuid { bits: 77 });
    assert!(!a.is_write_cache_enabled(&reg));
}

#[test]
fn payload_can_be_changed_in_place() {
    let mut reg = BdevRegistry::<Disk>::new(4);
    let mut a = disk(&mut reg, "a", 512, 1);
    a.data_mut(&mut reg).reads_only = true;
    assert!(a.data(&reg).reads_only);
    assert!(!a.io_type_supported(&reg, IoType::Write));
    assert_eq!(a.name(&reg), "a");
}

#[test]
fn uuid_in_hexadecimal() {
    assert_eq!(Uuid { bits: 0 }.hyphenated(), "00000000-0000-0000-0000-000000000000");
    assert_eq!(
        Uuid { bits: 0x0123_4567_89ab_cdef_0011_2233_4455_6677 }.hyphenated(),
        "01234567-89ab-cdef-0011-223344556677"
    );
    assert_eq!(Uuid { bits: u128::MAX }.hyphenated(), "ffffffff-ffff-ffff-ffff-ffffffffffff");
    let mut reg = BdevRegistry::<Disk>::new(4);
    let m = BdevModule::new("m");
    let b = m
        .bdev_builder::<Disk>()
        .with_name("u")
        .with_product_name("p")
        .with_block_length(512)
        .with_block_count(1)
        .with_required_alignment(0)
        .with_uuid(Uuid { bits: 10 })
        .with_data(Disk { reads_only: false })
        .build(&mut reg);
    assert_eq!(b.uuid_as_string(&reg), "00000000-0000-0000-0000-00000000000a");
    assert_eq!(b.module(&reg).name(), "m");
    assert!(b.first_claim_module(&reg).is_none());
}
