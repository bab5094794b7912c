//! Block devices.
//!
//! A device lives in a [`BdevRegistry`]: a record with its identity, its
//! geometry, its aliases, its claim and its payload. A [`Bdev`] is a handle
//! of such a record: a plain number that copies freely and owns nothing.
use vstd::prelude::*;
use vstd::string::StringExecFns;
use crate::bdev_ops::BdevOps;
use crate::errno::{Errno, ErrnoResult, EEXIST};
use crate::io_type::IoType;
use crate::json_write_context::{JsonWriteContext, JSON_WRITE_ERROR};
use crate::registry::{
    find_string,
    lemma_add_alias_wf,
    lemma_device_named,
    lemma_register_wf,
    lemma_remove_alias_wf,
    lemma_same_names_wf,
    lemma_unregister_wf,
    spec_add_aliases,
    spec_unregister_status,
    views,
    BdevRegistry,
    DeviceView,
    Phase,
};
use crate::thread::ThreadRegistry;

verus! {

/// Zone attributes of a device. They mean something only where `zoned` is
/// set.
#[derive(Debug, Clone, Copy, PartialEq, Eq, Structural)]
pub struct BdevZoneInfo {
    /// Whether the device is a zoned block device.
    pub zoned: bool,
    /// Number of zones of the device.
    pub num_zones: u64,
    /// Size of each zone, in blocks.
    pub zone_size: u64,
    /// Most blocks that one zone append may carry.
    pub max_zone_append_size: u32,
    /// Most zones that may be open at once.
    pub max_open_zones: u32,
    /// Most zones that may be active at once.
    pub max_active_zones: u32,
    /// The number of open zones that suits the device best.
    pub optimal_open_zones: u32,
}

impl BdevZoneInfo {
    /// The attributes of a device that is not zoned: all zero.
    pub open spec fn spec_none() -> Self {
        BdevZoneInfo {
            zoned: false,
            num_zones: 0,
            zone_size: 0,
            max_zone_append_size: 0,
            max_open_zones: 0,
            max_active_zones: 0,
            optimal_open_zones: 0,
        }
    }

    /// What the zone queries answer: the attributes themselves for a zoned
    /// device, all zero for any other.
    pub open spec fn spec_reported(self) -> Self {
        if self.zoned {
            self
        } else {
            Self::spec_none()
        }
    }

    /// Gives the attributes of a device that is not zoned.
    pub fn none() -> (z: Self)
        ensures
            z == Self::spec_none(),
    {
        BdevZoneInfo {
            zoned: false,
            num_zones: 0,
            zone_size: 0,
            max_zone_append_size: 0,
            max_open_zones: 0,
            max_active_zones: 0,
            optimal_open_zones: 0,
        }
    }
}

/// A universally unique identifier, as 128 bits. All zero means "none yet".
#[derive(Debug, Clone, Copy, PartialEq, Eq, Structural)]
pub struct Uuid {
    /// The bits of the identifier.
    pub bits: u128,
}

impl Uuid {
    /// The hexadecimal digit at place `k` of the thirty-two, the most
    /// significant first.
    pub open spec fn spec_nibble(self, k: int) -> u128 {
        (self.bits >> ((4 * (31 - k)) as u128)) & 15
    }

    /// True where a hyphen stands before the digit at place `k`.
    pub open spec fn spec_hyphen_before(k: int) -> bool {
        k == 8 || k == 12 || k == 16 || k == 20
    }

    /// The first `n` digits of the identifier in hexadecimal, with the
    /// hyphens that stand between them.
    pub open spec fn spec_hyphenated_prefix(self, n: int) -> Seq<char>
        decreases n,
    {
        if n <= 0 {
            Seq::empty()
        } else if Self::spec_hyphen_before(n - 1) {
            self.spec_hyphenated_prefix(n - 1) + seq!['-'] + seq![
                crate::text::spec_hex_digit(self.spec_nibble(n - 1) as nat),
            ]
        } else {
            self.spec_hyphenated_prefix(n - 1) + seq![
                crate::text::spec_hex_digit(self.spec_nibble(n - 1) as nat),
            ]
        }
    }

    /// The identifier in hexadecimal, in lower case, in groups of eight,
    /// four, four, four and twelve digits with hyphens between them.
    pub open spec fn spec_hyphenated(self) -> Seq<char> {
        self.spec_hyphenated_prefix(32)
    }

    /// Writes the identifier in hexadecimal, in groups with hyphens between
    /// them.
    pub fn hyphenated(&self) -> (text: String)
        ensures
            text@ == self.spec_hyphenated(),
    {
        let mut text = String::new();
        let mut k: u32 = 0;
        while k < 32
            invariant
                0 <= k <= 32,
                text@ == self.spec_hyphenated_prefix(k as int),
            decreases 32 - k,
        {
            if k == 8 || k == 12 || k == 16 || k == 20 {
                proof {
                    reveal_strlit("-");
                }
                text.append("-");
                assert("-"@ =~= seq!['-']);
            }
            let shift: u32 = 4 * (31 - k);
            let bits = self.bits;
            let nibble = (bits >> shift) & 15;
            assert(nibble < 16) by (bit_vector)
                requires
                    nibble == (bits >> shift) & 15,
            ;
            assert(nibble == self.spec_nibble(k as int));
            text.append(crate::text::hex_digit_str(nibble as u64));
            k += 1;
            assert(text@ =~= self.spec_hyphenated_prefix(k as int));
        }
        text
    }
}

/// Handle of a device: the place of its record in the directory, counted
/// from one.
#[derive(Debug, Clone, Copy, PartialEq, Eq, Structural)]
pub struct Bdev {
    pub(crate) raw: u64,
}

impl Bdev {
    /// The place of the device in its directory.
    pub open(crate) spec fn spec_index(&self) -> int {
        self.raw - 1
    }

    /// True where the handle names a device of the directory that is not
    /// destroyed.
    pub open spec fn spec_live<D: BdevOps>(&self, reg: &BdevRegistry<D>) -> bool {
        &&& 0 <= self.spec_index() < reg@.devices.len()
        &&& reg@.devices[self.spec_index()].phase != Phase::Destroyed
    }

    /// The device as contracts see it.
    pub open spec fn spec_device<D: BdevOps>(&self, reg: &BdevRegistry<D>) -> DeviceView {
        reg@.devices[self.spec_index()]
    }

    /// Handles of one place are one handle.
    pub proof fn lemma_same_place(a: Bdev, b: Bdev)
        requires
            a.spec_index() == b.spec_index(),
        ensures
            a == b,
    {
    }

    /// The place of the device in its directory.
    pub(crate) fn slot<D: BdevOps>(&self, reg: &BdevRegistry<D>) -> (i: usize)
        requires
            0 <= self.spec_index() < reg@.devices.len(),
        ensures
            i == self.spec_index(),
    {
        let len = reg.devices.len();
        let i = self.raw - 1;
        assert(i < len);
        i as usize
    }

    /// The handle of the device at a place of the directory.
    pub(crate) fn at<D: BdevOps>(reg: &BdevRegistry<D>, i: usize) -> (b: Self)
        requires
            i < reg@.devices.len(),
            reg@.devices.len() < u64::MAX,
        ensures
            b.spec_index() == i,
    {
        let len = reg.devices.len();
        Bdev { raw: (i + 1) as u64 }
    }

    /// Publishes the device: from now on its name and its aliases find it.
    /// Fails with `EEXIST`, and changes nothing, where the device was
    /// registered before or one of its names finds a device already.
    pub fn register_bdev<D: BdevOps>(&mut self, reg: &mut BdevRegistry<D>) -> (r: ErrnoResult<()>)
        requires
            old(reg).wf(),
            old(self).spec_live(old(reg)),
        ensures
            final(reg).wf(),
            *final(self) == *old(self),
            r.is_ok() <==> old(reg)@.can_register(old(self).spec_index()),
            r.is_ok() ==> final(reg)@ == old(reg)@.register(old(self).spec_index()),
            r.is_err() ==> r == Err::<(), Errno>(Errno::spec_from_raw(EEXIST)) && final(reg)@
                == old(reg)@,
    {
        let i = self.slot(reg);
        let ghost d = reg@.devices[i as int];
        match reg.devices[i].phase {
            Phase::Built => {},
            _ => {
                return Err(Errno::from_raw(EEXIST));
            },
        }
        if reg.find_by_name(&reg.devices[i].name).is_some() {
            assert(d.holds_name(d.name));
            return Err(Errno::from_raw(EEXIST));
        }
        let mut k: usize = 0;
        while k < reg.devices[i].aliases.len()
            invariant
                reg@ == old(reg)@,
                reg.wf(),
                i == self.spec_index(),
                0 <= i < reg@.devices.len(),
                d == reg@.devices[i as int],
                0 <= k <= d.aliases.len(),
                d.aliases == views(reg.devices@[i as int].aliases@),
                forall|a: int| 0 <= a < k ==> !reg@.name_in_use(#[trigger] d.aliases[a]),
            decreases d.aliases.len() - k,
        {
            if reg.find_by_name(&reg.devices[i].aliases[k]).is_some() {
                assert(d.aliases[k as int] == reg.devices@[i as int].aliases@[k as int]@);
                assert(d.aliases.contains(d.aliases[k as int]));
                assert(d.holds_name(d.aliases[k as int]));
                return Err(Errno::from_raw(EEXIST));
            }
            assert(d.aliases[k as int] == reg.devices@[i as int].aliases@[k as int]@);
            k += 1;
        }
        proof {
            assert forall|n: Seq<char>| #[trigger] d.holds_name(n) implies !reg@.name_in_use(n) by {
                if d.aliases.contains(n) {
                    let a = choose|a: int| 0 <= a < d.aliases.len() && d.aliases[a] == n;
                    assert(!reg@.name_in_use(d.aliases[a]));
                }
            }
            lemma_register_wf(reg@, i as int);
        }
        reg.devices[i].phase = Phase::Registered;
        proof {
            assert(reg@.devices =~= old(reg)@.register(i as int).devices);
            assert(reg@.descs =~= old(reg)@.descs);
        }
        Ok(())
    }

    /// Looks a device up by its name or by one of its aliases. To be called
    /// only by a caller that acts as a thread of the runtime.
    pub fn lookup_by_name<D: BdevOps>(
        reg: &BdevRegistry<D>,
        threads: &ThreadRegistry,
        name: &str,
    ) -> (b: Option<Self>)
        requires
            reg.wf(),
            threads@.current.is_some(),
        ensures
            b.is_some() <==> reg@.name_in_use(name@),
            b.is_some() ==> b.unwrap().spec_live(reg) && b.unwrap().spec_device(reg).published()
                && b.unwrap().spec_device(reg).holds_name(name@) && b.unwrap().spec_index()
                == reg@.device_named(name@),
    {
        let n = name.to_owned();
        match reg.find_by_name(&n) {
            Some(i) => {
                proof {
                    lemma_device_named(reg@, name@, i as int);
                }
                Some(Bdev::at(reg, i))
            },
            None => None,
        }
    }

    /// Gives the device a further name, by which it can be found. True
    /// whether the alias was added now or could not be because the name is
    /// taken: by this device, which changes nothing, or by another. The
    /// list of aliases grows by `alias` at its end exactly where the name
    /// was free.
    pub fn add_alias<D: BdevOps>(&mut self, reg: &mut BdevRegistry<D>, alias: &str) -> (added: bool)
        requires
            old(reg).wf(),
            old(self).spec_live(old(reg)),
        ensures
            final(reg).wf(),
            *final(self) == *old(self),
            added,
            final(reg)@ == old(reg)@.add_alias(old(self).spec_index(), alias@),
    {
        let i = self.slot(reg);
        let a = alias.to_owned();
        proof {
            lemma_add_alias_wf(reg@, i as int, alias@);
        }
        if reg.devices[i].name == a || find_string(&reg.devices[i].aliases, &a).is_some()
            || reg.find_by_name(&a).is_some() {
            return true;
        }
        reg.devices[i].aliases.push(a);
        proof {
            assert(views(reg.devices@[i as int].aliases@) =~= views(
                old(reg).devices@[i as int].aliases@,
            ).push(alias@));
            assert(reg@.devices =~= old(reg)@.add_alias(i as int, alias@).devices);
            assert(reg@.descs =~= old(reg)@.descs);
        }
        true
    }

    /// Gives the device each of the names in turn; true where every one was
    /// added or taken already.
    pub fn add_aliases<D: BdevOps>(&mut self, reg: &mut BdevRegistry<D>, alias: &Vec<String>) -> (all: bool)
        requires
            old(reg).wf(),
            old(self).spec_live(old(reg)),
        ensures
            final(reg).wf(),
            *final(self) == *old(self),
            all,
            final(reg)@ == spec_add_aliases(
                old(reg)@,
                old(self).spec_index(),
                views(alias@),
                alias@.len() as int,
            ),
    {
        let mut k: usize = 0;
        let mut all = true;
        while k < alias.len()
            invariant
                reg.wf(),
                *self == *old(self),
                self.spec_live(reg),
                0 <= k <= alias@.len(),
                all,
                reg@ == spec_add_aliases(old(reg)@, self.spec_index(), views(alias@), k as int),
            decreases alias@.len() - k,
        {
            let ok = self.add_alias(reg, alias[k].as_str());
            all = all && ok;
            assert(views(alias@)[k as int] == alias@[k as int]@);
            k += 1;
        }
        all
    }

    /// Takes a name away from the device. Nothing changes where the device
    /// has no such alias.
    pub fn remove_alias<D: BdevOps>(&mut self, reg: &mut BdevRegistry<D>, alias: &str)
        requires
            old(reg).wf(),
            old(self).spec_live(old(reg)),
        ensures
            final(reg).wf(),
            *final(self) == *old(self),
            final(reg)@ == old(reg)@.remove_alias(old(self).spec_index(), alias@),
            !final(self).spec_device(final(reg)).aliases.contains(alias@),
    {
        let i = self.slot(reg);
        let a = alias.to_owned();
        proof {
            reg@.devices[i as int].aliases.index_of_first_ensures(alias@);
        }
        match find_string(&reg.devices[i].aliases, &a) {
            None => {
                assert(reg@.devices =~= old(reg)@.remove_alias(i as int, alias@).devices);
            },
            Some(k) => {
                proof {
                    lemma_remove_alias_wf(reg@, i as int, k as int);
                    assert(reg@.devices[i as int].aliases.index_of_first(alias@) == Some(k as int));
                }
                reg.devices[i].aliases.remove(k);
                proof {
                    assert(views(reg.devices@[i as int].aliases@) =~= views(
                        old(reg).devices@[i as int].aliases@,
                    ).remove(k as int));
                    assert(reg@.devices =~= old(reg)@.remove_alias_at(i as int, k as int).devices);
                    assert(reg@.descs =~= old(reg)@.descs);
                    assert(reg@ == old(reg)@.remove_alias_at(i as int, k as int));
                }
            },
        }
    }

    /// The aliases of the device, in the order in which they were added.
    pub fn aliases<D: BdevOps>(&self, reg: &BdevRegistry<D>) -> (list: Vec<String>)
        requires
            reg.wf(),
            self.spec_live(reg),
        ensures
            views(list@) == self.spec_device(reg).aliases,
    {
        let i = self.slot(reg);
        let mut list: Vec<String> = Vec::new();
        let mut k: usize = 0;
        while k < reg.devices[i].aliases.len()
            invariant
                i == self.spec_index(),
                0 <= i < reg.devices@.len(),
                0 <= k <= reg.devices@[i as int].aliases@.len(),
                list@.len() == k,
                forall|a: int| 0 <= a < k ==> list@[a]@ == reg.devices@[i as int].aliases@[a]@,
            decreases reg.devices@[i as int].aliases@.len() - k,
        {
            list.push(reg.devices[i].aliases[k].clone());
            k += 1;
        }
        proof {
            assert(views(list@) =~= self.spec_device(reg).aliases);
        }
        list
    }

    /// Asks the device to unregister and says how that went: zero for a
    /// registered device, which is destroyed at once or, with descriptors
    /// open on it, once the last of them closes; `-EBUSY` for a device that
    /// waits for that already; `-ENODEV` for one that was never registered.
    pub fn unregister_status<D: BdevOps>(&mut self, reg: &mut BdevRegistry<D>) -> (rc: i32)
        requires
            old(reg).wf(),
            old(self).spec_live(old(reg)),
        ensures
            final(reg).wf(),
            *final(self) == *old(self),
            final(reg)@ == old(reg)@.unregister(old(self).spec_index()),
            rc == spec_unregister_status(old(self).spec_device(old(reg)).phase),
    {
        let i = self.slot(reg);
        proof {
            lemma_unregister_wf(reg@, i as int);
        }
        match reg.devices[i].phase {
            Phase::Registered => {},
            Phase::Removing => {
                return -crate::errno::EBUSY;
            },
            _ => {
                return -crate::errno::ENODEV;
            },
        }
        if reg.has_open_desc(i) {
            reg.devices[i].phase = Phase::Removing;
        } else {
            reg.destroy(i);
        }
        proof {
            assert(reg@.devices =~= old(reg)@.unregister(i as int).devices);
            assert(reg@.descs =~= old(reg)@.descs);
        }
        0
    }

    /// Asks the device to unregister, without waiting for the outcome.
    pub fn unregister_bdev<D: BdevOps>(&mut self, reg: &mut BdevRegistry<D>)
        requires
            old(reg).wf(),
            old(self).spec_live(old(reg)),
        ensures
            final(reg).wf(),
            *final(self) == *old(self),
            final(reg)@ == old(reg)@.unregister(old(self).spec_index()),
    {
        let _ = self.unregister_status(reg);
    }

    /// The name of the module that made the device.
    pub fn module_name<D: BdevOps>(&self, reg: &BdevRegistry<D>) -> (name: String)
        requires
            self.spec_live(reg),
        ensures
            name@ == self.spec_device(reg).module,
    {
        let i = self.slot(reg);
        reg.devices[i].module.clone()
    }

    /// The name of the module that has claimed the device, if any.
    pub fn first_claim_module_name<D: BdevOps>(&self, reg: &BdevRegistry<D>) -> (name: Option<
        String,
    >)
        requires
            self.spec_live(reg),
        ensures
            name.is_some() <==> self.spec_device(reg).claim.is_some(),
            name.is_some() ==> Some(name.unwrap()@) == self.spec_device(reg).claim,
    {
        let i = self.slot(reg);
        match &reg.devices[i].claim {
            Some(m) => Some(m.clone()),
            None => None,
        }
    }

    /// The name of the device.
    pub fn name<D: BdevOps>(&self, reg: &BdevRegistry<D>) -> (name: String)
        requires
            self.spec_live(reg),
        ensures
            name@ == self.spec_device(reg).name,
    {
        let i = self.slot(reg);
        reg.devices[i].name.clone()
    }

    /// The product name of the device.
    pub fn product_name<D: BdevOps>(&self, reg: &BdevRegistry<D>) -> (name: String)
        requires
            self.spec_live(reg),
        ensures
            name@ == self.spec_device(reg).product_name,
    {
        let i = self.slot(reg);
        reg.devices[i].product_name.clone()
    }

    /// The identifier of the device.
    pub fn raw_uuid<D: BdevOps>(&self, reg: &BdevRegistry<D>) -> (u: Uuid)
        requires
            self.spec_live(reg),
        ensures
            u == self.spec_device(reg).uuid,
    {
        let i = self.slot(reg);
        reg.devices[i].uuid
    }

    /// Gives the device another identifier.
    pub fn set_raw_uuid<D: BdevOps>(&mut self, reg: &mut BdevRegistry<D>, uuid: Uuid)
        requires
            old(reg).wf(),
            old(self).spec_live(old(reg)),
        ensures
            final(reg).wf(),
            *final(self) == *old(self),
            final(reg)@ == old(reg)@.with_device(
                old(self).spec_index(),
                DeviceView { uuid, ..old(self).spec_device(old(reg)) },
            ),
    {
        let i = self.slot(reg);
        proof {
            assert(reg@.devices[i as int].wf());
            lemma_same_names_wf(
                reg@,
                i as int,
                DeviceView { uuid, ..reg@.devices[i as int] },
            );
        }
        reg.devices[i].uuid = uuid;
        proof {
            assert(reg@.devices =~= old(reg)@.with_device(
                i as int,
                DeviceView { uuid, ..old(reg)@.devices[i as int] },
            ).devices);
            assert(reg@.descs =~= old(reg)@.descs);
        }
    }

    /// The identifier of the device.
    pub fn uuid<D: BdevOps>(&self, reg: &BdevRegistry<D>) -> (u: Uuid)
        requires
            self.spec_live(reg),
        ensures
            u == self.spec_device(reg).uuid,
    {
        self.raw_uuid(reg)
    }

    /// The identifier of the device in hexadecimal, in groups with hyphens
    /// between them.
    pub fn uuid_as_string<D: BdevOps>(&self, reg: &BdevRegistry<D>) -> (text: String)
        requires
            self.spec_live(reg),
        ensures
            text@ == self.spec_device(reg).uuid.spec_hyphenated(),
    {
        self.uuid(reg).hyphenated()
    }

    /// The size of a block of the device, in bytes.
    pub fn block_len<D: BdevOps>(&self, reg: &BdevRegistry<D>) -> (len: u32)
        requires
            self.spec_live(reg),
        ensures
            len == self.spec_device(reg).block_len,
    {
        let i = self.slot(reg);
        reg.devices[i].block_len
    }

    /// Sets the size of a block. The new size is more than zero and keeps
    /// the size of the device within 64 bits.
    pub fn set_block_len<D: BdevOps>(&mut self, reg: &mut BdevRegistry<D>, len: u32)
        requires
            old(reg).wf(),
            old(self).spec_live(old(reg)),
            len > 0,
            old(self).spec_device(old(reg)).num_blocks * len <= u64::MAX,
        ensures
            final(reg).wf(),
            *final(self) == *old(self),
            final(reg)@ == old(reg)@.with_device(
                old(self).spec_index(),
                DeviceView { block_len: len, ..old(self).spec_device(old(reg)) },
            ),
    {
        let i = self.slot(reg);
        proof {
            assert(reg@.devices[i as int].wf());
            lemma_same_names_wf(
                reg@,
                i as int,
                DeviceView { block_len: len, ..reg@.devices[i as int] },
            );
        }
        reg.devices[i].block_len = len;
        proof {
            assert(reg@.devices =~= old(reg)@.with_device(
                i as int,
                DeviceView { block_len: len, ..old(reg)@.devices[i as int] },
            ).devices);
            assert(reg@.descs =~= old(reg)@.descs);
        }
    }

    /// The number of blocks of the device.
    pub fn num_blocks<D: BdevOps>(&self, reg: &BdevRegistry<D>) -> (count: u64)
        requires
            self.spec_live(reg),
        ensures
            count == self.spec_device(reg).num_blocks,
    {
        let i = self.slot(reg);
        reg.devices[i].num_blocks
    }

    /// Sets the number of blocks. The new number keeps the size of the
    /// device within 64 bits.
    pub fn set_num_blocks<D: BdevOps>(&mut self, reg: &mut BdevRegistry<D>, count: u64)
        requires
            old(reg).wf(),
            old(self).spec_live(old(reg)),
            count * old(self).spec_device(old(reg)).block_len <= u64::MAX,
        ensures
            final(reg).wf(),
            *final(self) == *old(self),
            final(reg)@ == old(reg)@.with_device(
                old(self).spec_index(),
                DeviceView { num_blocks: count, ..old(self).spec_device(old(reg)) },
            ),
    {
        let i = self.slot(reg);
        proof {
            assert(reg@.devices[i as int].wf());
            lemma_same_names_wf(
                reg@,
                i as int,
                DeviceView { num_blocks: count, ..reg@.devices[i as int] },
            );
        }
        reg.devices[i].num_blocks = count;
        proof {
            assert(reg@.devices =~= old(reg)@.with_device(
                i as int,
                DeviceView { num_blocks: count, ..old(reg)@.devices[i as int] },
            ).devices);
            assert(reg@.descs =~= old(reg)@.descs);
        }
    }

    /// The size of the device in bytes: the number of blocks times the size
    /// of a block.
    pub fn size_in_bytes<D: BdevOps>(&self, reg: &BdevRegistry<D>) -> (size: u64)
        requires
            reg.wf(),
            self.spec_live(reg),
        ensures
            size == self.spec_device(reg).num_blocks * self.spec_device(reg).block_len,
    {
        let i = self.slot(reg);
        assert(reg@.devices[i as int].wf());
        reg.devices[i].num_blocks * (reg.devices[i].block_len as u64)
    }

    /// The alignment that buffers for the device must have, in bytes: two to
    /// the power of the required alignment.
    pub fn alignment<D: BdevOps>(&self, reg: &BdevRegistry<D>) -> (align: u64)
        requires
            reg.wf(),
            self.spec_live(reg),
        ensures
            align == vstd::arithmetic::power2::pow2(
                self.spec_device(reg).required_alignment as nat,
            ),
    {
        let i = self.slot(reg);
        assert(reg@.devices[i as int].wf());
        let shift = reg.devices[i].required_alignment;
        proof {
            vstd::arithmetic::power2::lemma_pow2_strictly_increases(shift as nat, 64);
            vstd::arithmetic::power2::lemma2_to64();
            vstd::bits::lemma_u64_shl_is_mul(1u64, shift as u64);
        }
        1u64 << shift
    }

    /// The required alignment of buffers, as a power of two.
    pub fn required_alignment<D: BdevOps>(&self, reg: &BdevRegistry<D>) -> (shift: u8)
        requires
            self.spec_live(reg),
        ensures
            shift == self.spec_device(reg).required_alignment,
    {
        let i = self.slot(reg);
        reg.devices[i].required_alignment
    }

    /// True where some module has claimed the device.
    pub fn is_claimed<D: BdevOps>(&self, reg: &BdevRegistry<D>) -> (b: bool)
        requires
            self.spec_live(reg),
        ensures
            b == self.spec_device(reg).claim.is_some(),
    {
        let i = self.slot(reg);
        reg.devices[i].claim.is_some()
    }

    /// True where the module of the given name has claimed the device.
    pub fn is_claimed_by<D: BdevOps>(&self, reg: &BdevRegistry<D>, claim_name: &str) -> (b: bool)
        requires
            self.spec_live(reg),
        ensures
            b == self.spec_device(reg).claimed_by(claim_name@),
    {
        let i = self.slot(reg);
        match &reg.devices[i].claim {
            Some(m) => *m == claim_name.to_owned(),
            None => false,
        }
    }

    /// True where the device caches writes.
    pub fn is_write_cache_enabled<D: BdevOps>(&self, reg: &BdevRegistry<D>) -> (b: bool)
        requires
            self.spec_live(reg),
        ensures
            b == self.spec_device(reg).write_cache,
    {
        let i = self.slot(reg);
        reg.devices[i].write_cache
    }

    /// Lets the claim on the device go. Nothing changes where there is
    /// none.
    pub fn release_claim<D: BdevOps>(&self, reg: &mut BdevRegistry<D>)
        requires
            old(reg).wf(),
            self.spec_live(old(reg)),
        ensures
            final(reg).wf(),
            final(reg)@ == old(reg)@.release_claim(self.spec_index()),
    {
        let i = self.slot(reg);
        proof {
            assert(reg@.devices[i as int].wf());
            lemma_same_names_wf(
                reg@,
                i as int,
                DeviceView { claim: None, ..reg@.devices[i as int] },
            );
        }
        if self.is_claimed(reg) {
            reg.devices[i].claim = None;
        }
        proof {
            assert(reg@.devices =~= old(reg)@.release_claim(i as int).devices);
            assert(reg@.descs =~= old(reg)@.descs);
        }
    }

    /// Claims the device for the module of the given name. Returns false,
    /// and changes nothing, where the device is claimed already: a device
    /// has at most one claim.
    pub fn claim<D: BdevOps>(&self, reg: &mut BdevRegistry<D>, module: &str) -> (claimed: bool)
        requires
            old(reg).wf(),
            self.spec_live(old(reg)),
        ensures
            final(reg).wf(),
            claimed == old(reg)@.devices[self.spec_index()].claim.is_none(),
            final(reg)@ == old(reg)@.claim(self.spec_index(), module@),
    {
        let i = self.slot(reg);
        if self.is_claimed(reg) {
            return false;
        }
        proof {
            assert(reg@.devices[i as int].wf());
            lemma_same_names_wf(
                reg@,
                i as int,
                DeviceView { claim: Some(module@), ..reg@.devices[i as int] },
            );
        }
        reg.devices[i].claim = Some(module.to_owned());
        proof {
            assert(reg@.devices =~= old(reg)@.claim(i as int, module@).devices);
            assert(reg@.descs =~= old(reg)@.descs);
        }
        true
    }

    /// True where the device is zoned.
    pub fn is_zoned<D: BdevOps>(&self, reg: &BdevRegistry<D>) -> (b: bool)
        requires
            self.spec_live(reg),
        ensures
            b == self.spec_device(reg).zone.zoned,
    {
        let i = self.slot(reg);
        reg.devices[i].zone.zoned
    }

    /// The zone attributes as the zone queries report them: all zero for a
    /// device that is not zoned.
    pub fn zone_info<D: BdevOps>(&self, reg: &BdevRegistry<D>) -> (z: BdevZoneInfo)
        requires
            self.spec_live(reg),
        ensures
            z == self.spec_device(reg).zone.spec_reported(),
    {
        let i = self.slot(reg);
        if reg.devices[i].zone.zoned {
            reg.devices[i].zone
        } else {
            BdevZoneInfo::none()
        }
    }

    /// The size of a zone in blocks; zero for a device that is not zoned.
    pub fn zone_size<D: BdevOps>(&self, reg: &BdevRegistry<D>) -> (n: u64)
        requires
            self.spec_live(reg),
        ensures
            n == self.spec_device(reg).zone.spec_reported().zone_size,
    {
        self.zone_info(reg).zone_size
    }

    /// The number of zones; zero for a device that is not zoned.
    pub fn num_zones<D: BdevOps>(&self, reg: &BdevRegistry<D>) -> (n: u64)
        requires
            self.spec_live(reg),
        ensures
            n == self.spec_device(reg).zone.spec_reported().num_zones,
    {
        self.zone_info(reg).num_zones
    }

    /// Most blocks that one zone append may carry; zero for a device that is
    /// not zoned.
    pub fn max_zone_append_size<D: BdevOps>(&self, reg: &BdevRegistry<D>) -> (n: u32)
        requires
            self.spec_live(reg),
        ensures
            n == self.spec_device(reg).zone.spec_reported().max_zone_append_size,
    {
        self.zone_info(reg).max_zone_append_size
    }

    /// Most zones that may be open at once; zero for a device that is not
    /// zoned.
    pub fn max_open_zones<D: BdevOps>(&self, reg: &BdevRegistry<D>) -> (n: u32)
        requires
            self.spec_live(reg),
        ensures
            n == self.spec_device(reg).zone.spec_reported().max_open_zones,
    {
        self.zone_info(reg).max_open_zones
    }

    /// Most zones that may be active at once; zero for a device that is not
    /// zoned.
    pub fn max_active_zones<D: BdevOps>(&self, reg: &BdevRegistry<D>) -> (n: u32)
        requires
            self.spec_live(reg),
        ensures
            n == self.spec_device(reg).zone.spec_reported().max_active_zones,
    {
        self.zone_info(reg).max_active_zones
    }

    /// The number of open zones that suits the device best; zero for a
    /// device that is not zoned.
    pub fn optimal_open_zones<D: BdevOps>(&self, reg: &BdevRegistry<D>) -> (n: u32)
        requires
            self.spec_live(reg),
        ensures
            n == self.spec_device(reg).zone.spec_reported().optimal_open_zones,
    {
        self.zone_info(reg).optimal_open_zones
    }

    /// Says whether the device serves requests of the given kind. A zoned
    /// device always says yes to zone append, whatever its payload says, so
    /// that layers above that rely on zone append do not turn it down; for
    /// any other question the payload answers.
    pub fn io_type_supported<D: BdevOps>(&self, reg: &BdevRegistry<D>, io_type: IoType) -> (b:
        bool)
        requires
            reg.wf(),
            self.spec_live(reg),
        ensures
            b == ((self.spec_device(reg).zone.zoned && io_type == IoType::ZoneAppend)
                || reg.spec_data(self.spec_index()).unwrap().spec_io_type_supported(io_type)),
    {
        let i = self.slot(reg);
        let zone_append = match io_type {
            IoType::ZoneAppend => true,
            _ => false,
        };
        if reg.devices[i].zone.zoned && zone_append {
            return true;
        }
        match &reg.devices[i].data {
            Some(d) => d.io_type_supported(io_type),
            None => false,
        }
    }

    /// The payload of the device.
    pub fn data<'a, D: BdevOps>(&self, reg: &'a BdevRegistry<D>) -> (d: &'a D)
        requires
            reg.wf(),
            self.spec_live(reg),
        ensures
            Some(*d) == reg.spec_data(self.spec_index()),
    {
        let i = self.slot(reg);
        reg.devices[i].data.as_ref().unwrap()
    }

    /// The payload of the device, to change it in place.
    pub fn data_mut<'a, D: BdevOps>(&mut self, reg: &'a mut BdevRegistry<D>) -> (d: &'a mut D)
        requires
            old(reg).wf(),
            old(self).spec_live(old(reg)),
        ensures
            *final(self) == *old(self),
            Some(*d) == old(reg).spec_data(old(self).spec_index()),
            final(reg)@.devices.len() == old(reg)@.devices.len(),
            forall|k: int|
                0 <= k < old(reg)@.devices.len() ==> final(reg)@.devices[k] == old(
                    reg,
                )@.devices[k],
            final(reg)@.descs.len() == old(reg)@.descs.len(),
            forall|j: int|
                0 <= j < old(reg)@.descs.len() ==> final(reg)@.descs[j] == old(reg)@.descs[j],
            final(reg)@.channels_out == old(reg)@.channels_out,
            final(reg)@.channel_capacity == old(reg)@.channel_capacity,
            final(reg).spec_data(old(self).spec_index()) == Some(*final(d)),
            forall|k: int|
                0 <= k < old(reg)@.devices.len() && k != old(self).spec_index()
                    ==> final(reg).spec_data(k) == old(reg).spec_data(k),
    {
        let i = self.slot(reg);
        reg.devices[i].data.as_mut().unwrap()
    }

    /// The number of the handle: the place of the device, counted from one.
    pub fn as_raw(&self) -> (raw: u64)
        ensures
            raw == self.spec_index() + 1,
    {
        self.raw
    }

    /// The handle with the given number. Zero names no device and is left
    /// out.
    pub fn from_raw(raw: u64) -> (b: Self)
        requires
            raw != 0,
        ensures
            b.spec_index() == raw - 1,
    {
        Bdev { raw }
    }

    /// Describes the device in one line.
    pub fn describe<D: BdevOps>(&self, reg: &BdevRegistry<D>) -> (text: String)
        requires
            self.spec_live(reg),
        ensures
            text@ == self.spec_device(reg).spec_describe(),
    {
        let i = self.slot(reg);
        let d = &reg.devices[i];
        let mut text = d.module.clone();
        text.append("::");
        text.append(d.name.as_str());
        text.append(" ");
        text.append(crate::text::decimal(d.num_blocks).as_str());
        text.append("x");
        text.append(crate::text::decimal(d.block_len as u64).as_str());
        text.append(" bytes");
        text
    }
}

/// A device whose payload does not matter.
pub type UntypedBdev = Bdev;

impl Bdev {
    /// Has the payload write about itself, which leaves the writer as the
    /// payload says. Gives zero, or the write-error code of a failed writer.
    pub fn dump_info_json<D: BdevOps>(&self, reg: &BdevRegistry<D>, w: &mut JsonWriteContext) -> (rc:
        i32)
        requires
            reg.wf(),
            self.spec_live(reg),
            old(w).wf(),
        ensures
            final(w).wf(),
            final(w)@ == reg.spec_data(self.spec_index()).unwrap().spec_dump_info_json(old(w)@),
            rc == if final(w)@.failed {
                JSON_WRITE_ERROR
            } else {
                0
            },
    {
        self.data(reg).dump_info_json(w);
        if w.has_failed() {
            JSON_WRITE_ERROR
        } else {
            0
        }
    }

    /// Puts a new payload into the device and gives the old one.
    pub fn replace_data<D: BdevOps>(&mut self, reg: &mut BdevRegistry<D>, data: D) -> (prev: D)
        requires
            old(reg).wf(),
            old(self).spec_live(old(reg)),
        ensures
            final(reg).wf(),
            *final(self) == *old(self),
            final(reg)@ == old(reg)@,
            Some(prev) == old(reg).spec_data(old(self).spec_index()),
            final(reg).spec_data(old(self).spec_index()) == Some(data),
            forall|k: int|
                0 <= k < old(reg)@.devices.len() && k != old(self).spec_index()
                    ==> final(reg).spec_data(k) == old(reg).spec_data(k),
    {
        let i = self.slot(reg);
        let prev = reg.devices[i].data.take();
        reg.devices[i].data = Some(data);
        proof {
            assert(reg@.devices =~= old(reg)@.devices);
            assert(reg@.descs =~= old(reg)@.descs);
        }
        prev.unwrap()
    }

    /// Says whether the handle names a device of the directory that is not
    /// destroyed.
    pub fn is_live<D: BdevOps>(&self, reg: &BdevRegistry<D>) -> (b: bool)
        ensures
            b == self.spec_live(reg),
    {
        if self.raw == 0 {
            return false;
        }
        let len = reg.devices.len();
        let i = self.raw - 1;
        if i >= len as u64 {
            return false;
        }
        match reg.devices[i as usize].phase {
            Phase::Destroyed => false,
            _ => true,
        }
    }

    /// Where the device is in its life.
    pub fn phase<D: BdevOps>(&self, reg: &BdevRegistry<D>) -> (p: Phase)
        requires
            0 <= self.spec_index() < reg@.devices.len(),
        ensures
            p == self.spec_device(reg).phase,
    {
        let i = self.slot(reg);
        reg.devices[i].phase
    }
}

} // verus!
