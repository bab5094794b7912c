//! The directory of block devices.
//!
//! A [`BdevRegistry`] holds every device ever built, the descriptors opened
//! on them and the count of I/O channels handed out. Contracts speak of it
//! through its view, a [`RegistryView`]; each operation on the directory is
//! a function from view to view, and the directory stays well formed under
//! each of them.
use vstd::prelude::*;
use crate::bdev::{Bdev, BdevZoneInfo, Uuid};
use crate::bdev_desc::LbaRange;
use crate::bdev_ops::BdevOps;

verus! {

/// Where a device is in its life.
#[derive(Debug, Clone, Copy, PartialEq, Eq, Structural)]
pub enum Phase {
    /// Built, not registered: only its handle knows it.
    Built,
    /// Registered: names find it and descriptors open on it.
    Registered,
    /// Asked to unregister while descriptors were open: names still find
    /// it, nothing opens on it, and it is destroyed when the last
    /// descriptor closes.
    Removing,
    /// Destroyed: payload and names are gone.
    Destroyed,
}

/// What a device is, as contracts see it.
pub struct DeviceView {
    /// The name, by which the directory finds the device.
    pub name: Seq<char>,
    /// The product name.
    pub product_name: Seq<char>,
    /// The name of the module that made the device.
    pub module: Seq<char>,
    /// The identifier.
    pub uuid: Uuid,
    /// The size of a block, in bytes.
    pub block_len: u32,
    /// The number of blocks.
    pub num_blocks: u64,
    /// The required alignment of buffers, as a power of two.
    pub required_alignment: u8,
    /// Whether the device caches writes.
    pub write_cache: bool,
    /// The zone attributes.
    pub zone: BdevZoneInfo,
    /// Further names of the device, in the order in which they were added.
    pub aliases: Seq<Seq<char>>,
    /// The module that has claimed the device, if any.
    pub claim: Option<Seq<char>>,
    /// Where the device is in its life.
    pub phase: Phase,
    /// The ranges of blocks that are locked.
    pub locks: Seq<LbaRange>,
}

/// What an open session on a device is, as contracts see it.
pub struct DescView {
    /// The place of the device in the directory.
    pub bdev: int,
    /// Whether the session may write.
    pub write: bool,
    /// Whether the session is open.
    pub open: bool,
}

/// What a directory is, as contracts see it.
pub struct RegistryView {
    /// All devices ever built, in the order in which they were built.
    pub devices: Seq<DeviceView>,
    /// All descriptors ever opened, in the order in which they were opened.
    pub descs: Seq<DescView>,
    /// How many I/O channels are handed out.
    pub channels_out: nat,
    /// How many I/O channels can be handed out at once.
    pub channel_capacity: nat,
}

impl DeviceView {
    /// True where names find the device.
    pub open spec fn published(self) -> bool {
        self.phase == Phase::Registered || self.phase == Phase::Removing
    }

    /// True where `n` is the name or an alias of the device.
    pub open spec fn holds_name(self, n: Seq<char>) -> bool {
        self.name == n || self.aliases.contains(n)
    }

    /// The size of the device in bytes.
    pub open spec fn size(self) -> int {
        self.num_blocks * self.block_len
    }

    /// What is left of the device once it is destroyed: its names, its
    /// aliases, its claim and its locks are let go; the rest stays for the
    /// record.
    pub open spec fn destroyed(self) -> DeviceView {
        DeviceView {
            name: Seq::empty(),
            product_name: Seq::empty(),
            aliases: Seq::empty(),
            claim: None,
            locks: Seq::empty(),
            phase: Phase::Destroyed,
            ..self
        }
    }

    /// True where the claim is held by the module of the given name.
    pub open spec fn claimed_by(self, module: Seq<char>) -> bool {
        self.claim == Some(module)
    }

    /// True where no block is in two locked ranges.
    pub open spec fn locks_disjoint(self) -> bool {
        forall|a: int, b: int|
            0 <= a < b < self.locks.len() ==> !(#[trigger] self.locks[a]).spec_overlaps(
                #[trigger] self.locks[b],
            )
    }

    /// True where the range is locked already or shares a block with a
    /// locked range.
    pub open spec fn lock_conflict(self, r: LbaRange) -> bool {
        exists|a: int|
            0 <= a < self.locks.len() && ((#[trigger] self.locks[a]).spec_overlaps(r)
                || self.locks[a] == r)
    }

    /// A block has a size, the size of the device fits in 64 bits, the
    /// alignment is a power of two that does, no alias occurs twice or
    /// repeats the name, and no range or block is locked twice.
    pub open spec fn wf(self) -> bool {
        &&& self.block_len > 0
        &&& self.size() <= u64::MAX
        &&& self.required_alignment < 64
        &&& self.aliases.no_duplicates()
        &&& !self.aliases.contains(self.name)
        &&& self.locks_disjoint()
        &&& self.locks.no_duplicates()
    }
}

impl RegistryView {
    /// True where `n` finds a device.
    pub open spec fn name_in_use(self, n: Seq<char>) -> bool {
        exists|i: int|
            0 <= i < self.devices.len() && (#[trigger] self.devices[i]).published()
                && self.devices[i].holds_name(n)
    }

    /// The place of the device that `n` finds.
    pub open spec fn device_named(self, n: Seq<char>) -> int {
        choose|i: int|
            0 <= i < self.devices.len() && (#[trigger] self.devices[i]).published()
                && self.devices[i].holds_name(n)
    }

    /// True where some open descriptor is on the device at place `dev`.
    pub open spec fn has_open_desc(self, dev: int) -> bool {
        exists|j: int|
            0 <= j < self.descs.len() && (#[trigger] self.descs[j]).open && self.descs[j].bdev
                == dev
    }

    /// Every device is well formed; no name finds two devices; every
    /// descriptor is on a device of the directory, an open one on a device
    /// that names find; and no more channels are out than there are.
    pub open spec fn wf(self) -> bool {
        &&& self.devices.len() < u64::MAX
        &&& self.descs.len() < u64::MAX
        &&& forall|i: int| 0 <= i < self.devices.len() ==> (#[trigger] self.devices[i]).wf()
        &&& forall|i: int, j: int, n: Seq<char>|
            0 <= i < self.devices.len() && 0 <= j < self.devices.len() && i != j
                && self.devices[i].published() && self.devices[j].published()
                && #[trigger] self.devices[i].holds_name(n) ==> !#[trigger] self.devices[j].holds_name(
                n,
            )
        &&& forall|j: int|
            0 <= j < self.descs.len() ==> 0 <= (#[trigger] self.descs[j]).bdev
                < self.devices.len()
        &&& forall|j: int|
            0 <= j < self.descs.len() && (#[trigger] self.descs[j]).open
                ==> self.devices[self.descs[j].bdev].published()
        &&& self.channels_out <= self.channel_capacity
    }
}

/// The texts of a list of strings.
pub open spec fn views(v: Seq<String>) -> Seq<Seq<char>> {
    v.map_values(|s: String| s@)
}

/// Looks for a text in a list of strings: the first place that holds it, or
/// `None` where no place does.
pub fn find_string(v: &Vec<String>, n: &String) -> (at: Option<usize>)
    ensures
        at.is_some() <==> views(v@).contains(n@),
        at.is_some() ==> at.unwrap() < v@.len() && views(v@)[at.unwrap() as int] == n@,
        at.is_some() ==> forall|k: int| 0 <= k < at.unwrap() ==> views(v@)[k] != n@,
{
    let mut i: usize = 0;
    while i < v.len()
        invariant
            0 <= i <= v@.len(),
            forall|k: int| 0 <= k < i ==> views(v@)[k] != n@,
        decreases v@.len() - i,
    {
        if v[i] == *n {
            assert(views(v@)[i as int] == n@);
            return Some(i);
        }
        i += 1;
    }
    None
}

/// The record of a device: what the directory keeps of it, and its payload
/// for as long as it is not destroyed.
pub(crate) struct Container<D> {
    pub(crate) name: String,
    pub(crate) product_name: String,
    pub(crate) module: String,
    pub(crate) uuid: Uuid,
    pub(crate) block_len: u32,
    pub(crate) num_blocks: u64,
    pub(crate) required_alignment: u8,
    pub(crate) write_cache: bool,
    pub(crate) zone: BdevZoneInfo,
    pub(crate) aliases: Vec<String>,
    pub(crate) claim: Option<String>,
    pub(crate) phase: Phase,
    pub(crate) locks: Vec<LbaRange>,
    pub(crate) data: Option<D>,
}

impl<D> Container<D> {
    /// The device as contracts see it.
    pub(crate) open spec fn view(&self) -> DeviceView {
        DeviceView {
            name: self.name@,
            product_name: self.product_name@,
            module: self.module@,
            uuid: self.uuid,
            block_len: self.block_len,
            num_blocks: self.num_blocks,
            required_alignment: self.required_alignment,
            write_cache: self.write_cache,
            zone: self.zone,
            aliases: views(self.aliases@),
            claim: match self.claim {
                Some(m) => Some(m@),
                None => None,
            },
            phase: self.phase,
            locks: self.locks@,
        }
    }
}

/// In a well-formed directory a name finds one device only.
pub proof fn lemma_device_named(v: RegistryView, n: Seq<char>, i: int)
    requires
        v.wf(),
        0 <= i < v.devices.len(),
        v.devices[i].published(),
        v.devices[i].holds_name(n),
    ensures
        v.name_in_use(n),
        v.device_named(n) == i,
{
    let k = v.device_named(n);
    if k != i {
        assert(v.devices[k].holds_name(n));
        assert(v.devices[i].holds_name(n));
    }
}

/// The record of a descriptor.
pub(crate) struct DescRecord {
    pub(crate) bdev: usize,
    pub(crate) write: bool,
    pub(crate) open: bool,
}

impl DescRecord {
    /// The descriptor as contracts see it.
    pub(crate) open spec fn view(&self) -> DescView {
        DescView { bdev: self.bdev as int, write: self.write, open: self.open }
    }
}

/// The directory of devices: every device ever built, the descriptors
/// opened on them, and the count of I/O channels handed out.
pub struct BdevRegistry<D> {
    pub(crate) devices: Vec<Container<D>>,
    pub(crate) descs: Vec<DescRecord>,
    pub(crate) channels_out: usize,
    pub(crate) channel_capacity: usize,
}

impl<D: BdevOps> BdevRegistry<D> {
    /// The devices, the descriptors and the channel counts.
    pub open(crate) spec fn view(&self) -> RegistryView {
        RegistryView {
            devices: self.devices@.map_values(|c: Container<D>| c.view()),
            descs: self.descs@.map_values(|d: DescRecord| d.view()),
            channels_out: self.channels_out as nat,
            channel_capacity: self.channel_capacity as nat,
        }
    }

    /// The payload of the device at place `i`; `None` once it is destroyed.
    pub open(crate) spec fn spec_data(&self, i: int) -> Option<D> {
        self.devices@[i].data
    }

    /// The view is well formed, and exactly the destroyed devices have lost
    /// their payload.
    pub open(crate) spec fn wf(&self) -> bool {
        &&& self@.wf()
        &&& forall|i: int|
            0 <= i < self.devices@.len() ==> ((#[trigger] self.devices@[i]).data.is_none()
                <==> self.devices@[i].phase == Phase::Destroyed)
    }

    /// A directory with the view of a well-formed one, and with payloads in
    /// the same places, is well formed.
    pub proof fn lemma_same_view_wf(&self, before: &Self)
        requires
            before.wf(),
            self@.devices =~= before@.devices,
            self@.descs =~= before@.descs,
            self@.channels_out == before@.channels_out,
            self@.channel_capacity == before@.channel_capacity,
            forall|i: int|
                0 <= i < before@.devices.len() ==> self.spec_data(i).is_some()
                    == before.spec_data(i).is_some(),
        ensures
            self.wf(),
            self@ == before@,
    {
        assert forall|i: int| 0 <= i < self.devices@.len() implies ((
        #[trigger] self.devices@[i]).data.is_none() <==> self.devices@[i].phase
            == Phase::Destroyed) by {
            assert(self@.devices.len() == before@.devices.len());
            assert(self@.devices[i] == before@.devices[i]);
            assert(self.devices@[i].view().phase == before.devices@[i].view().phase);
            assert(self.spec_data(i).is_some() == before.spec_data(i).is_some());
            assert(before.devices@[i].data.is_none() <==> before.devices@[i].phase
                == Phase::Destroyed);
        }
    }

    /// The view of a well-formed directory is well formed.
    pub proof fn lemma_view_wf(&self)
        requires
            self.wf(),
        ensures
            self@.wf(),
    {
    }

    /// An empty directory that can hand out `channel_capacity` I/O channels
    /// at once.
    pub fn new(channel_capacity: usize) -> (reg: Self)
        ensures
            reg.wf(),
            reg@ == (RegistryView {
                devices: Seq::empty(),
                descs: Seq::empty(),
                channels_out: 0,
                channel_capacity: channel_capacity as nat,
            }),
    {
        let reg = BdevRegistry {
            devices: Vec::new(),
            descs: Vec::new(),
            channels_out: 0,
            channel_capacity,
        };
        proof {
            assert(reg@.devices =~= Seq::<DeviceView>::empty());
            assert(reg@.descs =~= Seq::<DescView>::empty());
        }
        reg
    }

    /// How many devices were ever built.
    pub fn len(&self) -> (n: usize)
        ensures
            n == self@.devices.len(),
    {
        self.devices.len()
    }
}

impl RegistryView {
    /// The directory with the device at place `i` replaced.
    pub open spec fn with_device(self, i: int, d: DeviceView) -> RegistryView {
        RegistryView { devices: self.devices.update(i, d), ..self }
    }

    /// True where `n` finds a device or is a name of the device at `i`
    /// already: an alias `n` cannot be given to that device.
    pub open spec fn alias_taken(self, i: int, n: Seq<char>) -> bool {
        self.name_in_use(n) || self.devices[i].holds_name(n)
    }

    /// True where the device at place `i` can be registered: it is built
    /// and not registered yet, and none of its names finds a device.
    pub open spec fn can_register(self, i: int) -> bool {
        &&& self.devices[i].phase == Phase::Built
        &&& forall|n: Seq<char>| #[trigger]
            self.devices[i].holds_name(n) ==> !self.name_in_use(n)
    }

    /// The directory after the device at place `i` was registered.
    pub open spec fn register(self, i: int) -> RegistryView {
        self.with_device(i, DeviceView { phase: Phase::Registered, ..self.devices[i] })
    }

    /// The directory after an attempt to give the alias `n` to the device at
    /// place `i`: the alias is added at the end unless it is taken.
    pub open spec fn add_alias(self, i: int, n: Seq<char>) -> RegistryView {
        if self.alias_taken(i, n) {
            self
        } else {
            self.with_device(
                i,
                DeviceView { aliases: self.devices[i].aliases.push(n), ..self.devices[i] },
            )
        }
    }

    /// The directory after the module `module` tried to claim the device at
    /// place `i`: the claim is set unless the device is claimed already.
    pub open spec fn claim(self, i: int, module: Seq<char>) -> RegistryView {
        if self.devices[i].claim.is_some() {
            self
        } else {
            self.with_device(i, DeviceView { claim: Some(module), ..self.devices[i] })
        }
    }

    /// The directory after the claim on the device at place `i` was let go.
    pub open spec fn release_claim(self, i: int) -> RegistryView {
        self.with_device(i, DeviceView { claim: None, ..self.devices[i] })
    }

    /// The directory after the device at place `i` was asked to unregister:
    /// a registered device is destroyed, or waits for its open descriptors
    /// to close; any other device stays as it is.
    pub open spec fn unregister(self, i: int) -> RegistryView {
        if self.devices[i].phase != Phase::Registered {
            self
        } else if self.has_open_desc(i) {
            self.with_device(i, DeviceView { phase: Phase::Removing, ..self.devices[i] })
        } else {
            self.with_device(i, self.devices[i].destroyed())
        }
    }
}

/// A directory stays well formed when a device that can be registered is.
pub proof fn lemma_register_wf(v: RegistryView, i: int)
    requires
        v.wf(),
        0 <= i < v.devices.len(),
        v.can_register(i),
    ensures
        v.register(i).wf(),
{
    let w = v.register(i);
    assert forall|a: int, b: int, n: Seq<char>|
        0 <= a < w.devices.len() && 0 <= b < w.devices.len() && a != b
            && w.devices[a].published() && w.devices[b].published()
            && #[trigger] w.devices[a].holds_name(n) implies !#[trigger] w.devices[b].holds_name(
        n,
    ) by {
        if w.devices[b].holds_name(n) {
            if a == i {
                assert(v.devices[b].published() && v.devices[b].holds_name(n));
                assert(v.name_in_use(n));
                assert(v.devices[i].holds_name(n));
            } else if b == i {
                assert(v.devices[a].published() && v.devices[a].holds_name(n));
                assert(v.name_in_use(n));
                assert(v.devices[i].holds_name(n));
            } else {
                assert(v.devices[a].holds_name(n));
                assert(v.devices[b].holds_name(n));
            }
        }
    }
    assert forall|j: int| 0 <= j < w.descs.len() && (#[trigger] w.descs[j]).open implies w.devices[w.descs[j].bdev].published() by {
        assert(v.descs[j].open);
        assert(v.devices[v.descs[j].bdev].published());
    }
    assert forall|k: int| 0 <= k < w.devices.len() implies (#[trigger] w.devices[k]).wf() by {
        assert(v.devices[k].wf());
    }
}

/// A directory stays well formed when an alias is added.
pub proof fn lemma_add_alias_wf(v: RegistryView, i: int, n: Seq<char>)
    requires
        v.wf(),
        0 <= i < v.devices.len(),
    ensures
        v.add_alias(i, n).wf(),
{
    let w = v.add_alias(i, n);
    if !v.alias_taken(i, n) {
        let d = v.devices[i];
        let e = w.devices[i];
        assert(v.devices[i].wf());
        assert(e.aliases.no_duplicates()) by {
            assert forall|a: int, b: int|
                0 <= a < e.aliases.len() && 0 <= b < e.aliases.len() && a != b implies e.aliases[a]
                != e.aliases[b] by {
                if a < d.aliases.len() {
                    assert(d.aliases.contains(d.aliases[a]));
                }
                if b < d.aliases.len() {
                    assert(d.aliases.contains(d.aliases[b]));
                }
            }
        }
        assert(!e.aliases.contains(e.name)) by {
            if e.aliases.contains(e.name) {
                let k = choose|k: int| 0 <= k < e.aliases.len() && e.aliases[k] == e.name;
                if k < d.aliases.len() {
                    assert(d.aliases.contains(d.aliases[k]));
                }
            }
        }
        assert forall|m: Seq<char>| e.holds_name(m) implies d.holds_name(m) || m == n by {
            if e.aliases.contains(m) {
                let k = choose|k: int| 0 <= k < e.aliases.len() && e.aliases[k] == m;
                if k < d.aliases.len() {
                    assert(d.aliases.contains(d.aliases[k]));
                }
            }
        }
        assert forall|a: int, b: int, m: Seq<char>|
            0 <= a < w.devices.len() && 0 <= b < w.devices.len() && a != b
                && w.devices[a].published() && w.devices[b].published()
                && #[trigger] w.devices[a].holds_name(m) implies !#[trigger] w.devices[b].holds_name(
            m,
        ) by {
            if w.devices[b].holds_name(m) {
                if a == i {
                    assert(v.devices[b].published() && v.devices[b].holds_name(m));
                    assert(v.name_in_use(m));
                    assert(d.holds_name(m) || m == n);
                    assert(v.devices[a].published());
                } else if b == i {
                    assert(v.devices[a].published() && v.devices[a].holds_name(m));
                    assert(v.name_in_use(m));
                    assert(d.holds_name(m) || m == n);
                    assert(v.devices[b].published());
                } else {
                    assert(v.devices[a].holds_name(m));
                    assert(v.devices[b].holds_name(m));
                }
            }
        }
        assert forall|j: int| 0 <= j < w.descs.len() && (#[trigger] w.descs[j]).open implies w.devices[w.descs[j].bdev].published() by {
            assert(v.descs[j].open);
            assert(v.devices[v.descs[j].bdev].published());
        }
        assert forall|k: int| 0 <= k < w.devices.len() implies (#[trigger] w.devices[k]).wf() by {
            assert(v.devices[k].wf());
        }
    }
}

/// A directory stays well formed when a device changes in nothing but its
/// claim, its geometry or its identifier.
pub proof fn lemma_same_names_wf(v: RegistryView, i: int, d: DeviceView)
    requires
        v.wf(),
        0 <= i < v.devices.len(),
        d.wf(),
        d.name == v.devices[i].name,
        d.aliases == v.devices[i].aliases,
        d.phase == v.devices[i].phase,
    ensures
        v.with_device(i, d).wf(),
{
    let w = v.with_device(i, d);
    assert forall|a: int, b: int, m: Seq<char>|
        0 <= a < w.devices.len() && 0 <= b < w.devices.len() && a != b
            && w.devices[a].published() && w.devices[b].published()
            && #[trigger] w.devices[a].holds_name(m) implies !#[trigger] w.devices[b].holds_name(
        m,
    ) by {
        if w.devices[b].holds_name(m) {
            assert(v.devices[a].published() && v.devices[b].published());
            assert(v.devices[a].holds_name(m));
            assert(v.devices[b].holds_name(m));
        }
    }
    assert forall|j: int| 0 <= j < w.descs.len() && (#[trigger] w.descs[j]).open implies w.devices[w.descs[j].bdev].published() by {
        assert(v.descs[j].open);
        assert(v.devices[v.descs[j].bdev].published());
    }
    assert forall|k: int| 0 <= k < w.devices.len() implies (#[trigger] w.devices[k]).wf() by {
        assert(v.devices[k].wf());
    }
}

impl<D: BdevOps> BdevRegistry<D> {
    /// Looks for the device that a name finds: the place of a device that
    /// names find and that holds the name, or `None` where there is none.
    pub fn find_by_name(&self, n: &String) -> (at: Option<usize>)
        ensures
            at.is_some() <==> self@.name_in_use(n@),
            at.is_some() ==> at.unwrap() < self@.devices.len()
                && self@.devices[at.unwrap() as int].published()
                && self@.devices[at.unwrap() as int].holds_name(n@),
    {
        let mut i: usize = 0;
        while i < self.devices.len()
            invariant
                0 <= i <= self.devices@.len(),
                forall|k: int|
                    0 <= k < i ==> !((#[trigger] self@.devices[k]).published()
                        && self@.devices[k].holds_name(n@)),
            decreases self.devices@.len() - i,
        {
            let d = &self.devices[i];
            let published = match d.phase {
                Phase::Registered => true,
                Phase::Removing => true,
                _ => false,
            };
            if published && (d.name == *n || find_string(&d.aliases, n).is_some()) {
                assert(self@.devices[i as int].published() && self@.devices[i as int].holds_name(
                    n@,
                ));
                return Some(i);
            }
            i += 1;
        }
        None
    }

    /// Says whether an open descriptor is on the device at place `dev`.
    pub fn has_open_desc(&self, dev: usize) -> (b: bool)
        ensures
            b == self@.has_open_desc(dev as int),
    {
        let mut j: usize = 0;
        while j < self.descs.len()
            invariant
                0 <= j <= self.descs@.len(),
                forall|k: int|
                    0 <= k < j ==> !((#[trigger] self@.descs[k]).open && self@.descs[k].bdev
                        == dev),
            decreases self.descs@.len() - j,
        {
            if self.descs[j].open && self.descs[j].bdev == dev {
                assert(self@.descs[j as int].open && self@.descs[j as int].bdev == dev);
                return true;
            }
            j += 1;
        }
        false
    }
}

/// The directory after attempts to give the first `count` of `names` to the
/// device at place `i`, one after the other.
pub open spec fn spec_add_aliases(
    v: RegistryView,
    i: int,
    names: Seq<Seq<char>>,
    count: int,
) -> RegistryView
    decreases count,
{
    if count <= 0 {
        v
    } else {
        spec_add_aliases(v, i, names, count - 1).add_alias(i, names[count - 1])
    }
}

impl RegistryView {
    /// The directory after the alias `n` was taken away from the device at
    /// place `i`; the same directory where the device has no such alias.
    pub open spec fn remove_alias(self, i: int, n: Seq<char>) -> RegistryView {
        self.with_device(
            i,
            DeviceView { aliases: self.devices[i].aliases.remove_value(n), ..self.devices[i] },
        )
    }

    /// The directory with the alias at place `k` of the device at place `i`
    /// taken away.
    pub open spec fn remove_alias_at(self, i: int, k: int) -> RegistryView {
        self.with_device(
            i,
            DeviceView { aliases: self.devices[i].aliases.remove(k), ..self.devices[i] },
        )
    }
}

/// A directory stays well formed when an alias is taken away, and the
/// device has the alias no more.
pub proof fn lemma_remove_alias_wf(v: RegistryView, i: int, k: int)
    requires
        v.wf(),
        0 <= i < v.devices.len(),
        0 <= k < v.devices[i].aliases.len(),
    ensures
        v.remove_alias_at(i, k).wf(),
        !v.remove_alias_at(i, k).devices[i].aliases.contains(v.devices[i].aliases[k]),
{
    let w = v.remove_alias_at(i, k);
    let d = v.devices[i];
    let e = w.devices[i];
    assert(d.wf());
    assert forall|a: int| 0 <= a < e.aliases.len() implies #[trigger] e.aliases[a] == d.aliases[if a
        < k {
        a
    } else {
        a + 1
    }] by {}
    assert forall|m: Seq<char>| e.holds_name(m) implies d.holds_name(m) by {
        if e.aliases.contains(m) {
            let a = choose|a: int| 0 <= a < e.aliases.len() && e.aliases[a] == m;
            assert(e.aliases[a] == d.aliases[if a < k {
                a
            } else {
                a + 1
            }]);
            assert(d.aliases.contains(m));
        }
    }
    assert(!e.aliases.contains(d.aliases[k])) by {
        if e.aliases.contains(d.aliases[k]) {
            let a = choose|a: int| 0 <= a < e.aliases.len() && e.aliases[a] == d.aliases[k];
            assert(e.aliases[a] == d.aliases[if a < k {
                a
            } else {
                a + 1
            }]);
        }
    }
    assert(!e.aliases.contains(e.name)) by {
        if e.aliases.contains(e.name) {
            assert(e.holds_name(e.name));
            assert(d.aliases.contains(d.name));
        }
    }
    assert(e.aliases.no_duplicates()) by {
        assert forall|a: int, b: int|
            0 <= a < e.aliases.len() && 0 <= b < e.aliases.len() && a != b implies e.aliases[a]
            != e.aliases[b] by {
            assert(e.aliases[a] == d.aliases[if a < k {
                a
            } else {
                a + 1
            }]);
            assert(e.aliases[b] == d.aliases[if b < k {
                b
            } else {
                b + 1
            }]);
        }
    }
    assert forall|a: int, b: int, m: Seq<char>|
        0 <= a < w.devices.len() && 0 <= b < w.devices.len() && a != b
            && w.devices[a].published() && w.devices[b].published()
            && #[trigger] w.devices[a].holds_name(m) implies !#[trigger] w.devices[b].holds_name(
        m,
    ) by {
        if w.devices[b].holds_name(m) {
            assert(v.devices[a].published() && v.devices[b].published());
            assert(v.devices[a].holds_name(m));
            assert(v.devices[b].holds_name(m));
        }
    }
    assert forall|j: int| 0 <= j < w.descs.len() && (#[trigger] w.descs[j]).open implies w.devices[w.descs[j].bdev].published() by {
        assert(v.descs[j].open);
        assert(v.devices[v.descs[j].bdev].published());
    }
    assert forall|x: int| 0 <= x < w.devices.len() implies (#[trigger] w.devices[x]).wf() by {
        assert(v.devices[x].wf());
    }
}

/// A directory stays well formed when a device is asked to unregister.
pub proof fn lemma_unregister_wf(v: RegistryView, i: int)
    requires
        v.wf(),
        0 <= i < v.devices.len(),
    ensures
        v.unregister(i).wf(),
{
    let w = v.unregister(i);
    if v.devices[i].phase == Phase::Registered {
        assert forall|a: int, b: int, m: Seq<char>|
            0 <= a < w.devices.len() && 0 <= b < w.devices.len() && a != b
                && w.devices[a].published() && w.devices[b].published()
                && #[trigger] w.devices[a].holds_name(m) implies !#[trigger] w.devices[b].holds_name(
            m,
        ) by {
            if w.devices[b].holds_name(m) {
                assert(v.devices[a].published() && v.devices[b].published());
                assert(v.devices[a].holds_name(m));
                assert(v.devices[b].holds_name(m));
            }
        }
        assert forall|j: int| 0 <= j < w.descs.len() && (#[trigger] w.descs[j]).open implies w.devices[w.descs[j].bdev].published() by {
            assert(v.descs[j].open);
            assert(v.devices[v.descs[j].bdev].published());
            if v.descs[j].bdev == i {
                assert(v.has_open_desc(i));
            }
        }
        assert forall|x: int| 0 <= x < w.devices.len() implies (#[trigger] w.devices[x]).wf() by {
            assert(v.devices[x].wf());
        }
    }
}

/// What a request to unregister returns for a device in the given phase.
pub open spec fn spec_unregister_status(phase: Phase) -> i32 {
    match phase {
        Phase::Registered => 0i32,
        Phase::Removing => (-16i32),
        _ => (-19i32),
    }
}

impl<D: BdevOps> BdevRegistry<D> {
    /// Destroys the device at place `i`: first the payload is told to let
    /// go of what it holds, then the record gives up the payload, then its
    /// names and what else it owns, and last it is marked as destroyed.
    pub(crate) fn destroy(&mut self, i: usize)
        requires
            i < old(self).devices@.len(),
            old(self).devices@[i as int].data.is_some(),
        ensures
            final(self).devices@.len() == old(self).devices@.len(),
            final(self).devices@[i as int].data.is_none(),
            final(self).devices@[i as int].view() == old(self).devices@[i as int].view().destroyed(),
            forall|k: int|
                0 <= k < old(self).devices@.len() && k != i ==> final(self).devices@[k] == old(
                    self,
                ).devices@[k],
            final(self).descs == old(self).descs,
            final(self).channels_out == old(self).channels_out,
            final(self).channel_capacity == old(self).channel_capacity,
    {
        let payload = self.devices[i].data.take();
        match payload {
            Some(mut p) => {
                p.destruct();
            },
            None => {},
        }
        self.devices[i].name = String::new();
        self.devices[i].product_name = String::new();
        self.devices[i].aliases = Vec::new();
        self.devices[i].claim = None;
        self.devices[i].locks = Vec::new();
        self.devices[i].phase = Phase::Destroyed;
        proof {
            assert(self.devices@[i as int].view().aliases =~= Seq::<Seq<char>>::empty());
            assert(self.devices@[i as int].view().locks =~= Seq::<LbaRange>::empty());
        }
    }
}

/// A directory stays well formed when a device that is built and not
/// registered joins it.
pub proof fn lemma_push_built_wf(v: RegistryView, d: DeviceView)
    requires
        v.wf(),
        d.wf(),
        d.phase == Phase::Built,
        v.devices.len() + 1 < u64::MAX,
    ensures
        (RegistryView { devices: v.devices.push(d), ..v }).wf(),
{
    let w = RegistryView { devices: v.devices.push(d), ..v };
    assert forall|a: int, b: int, m: Seq<char>|
        0 <= a < w.devices.len() && 0 <= b < w.devices.len() && a != b
            && w.devices[a].published() && w.devices[b].published()
            && #[trigger] w.devices[a].holds_name(m) implies !#[trigger] w.devices[b].holds_name(
        m,
    ) by {
        if w.devices[b].holds_name(m) {
            assert(v.devices[a].published() && v.devices[b].published());
            assert(v.devices[a].holds_name(m));
            assert(v.devices[b].holds_name(m));
        }
    }
    assert forall|j: int| 0 <= j < w.descs.len() && (#[trigger] w.descs[j]).open implies w.devices[w.descs[j].bdev].published() by {
        assert(v.descs[j].open);
        assert(v.devices[v.descs[j].bdev].published());
    }
    assert forall|x: int| 0 <= x < w.devices.len() implies (#[trigger] w.devices[x]).wf() by {
        if x < v.devices.len() {
            assert(v.devices[x].wf());
        }
    }
    assert forall|j: int| 0 <= j < w.descs.len() implies 0 <= (#[trigger] w.descs[j]).bdev
        < w.devices.len() by {
        assert(0 <= v.descs[j].bdev < v.devices.len());
    }
}

impl DeviceView {
    /// The device in one line: its module and its name with `::` between
    /// them, then the number of blocks, an `x`, the size of a block and the
    /// word `bytes`.
    pub open spec fn spec_describe(self) -> Seq<char> {
        self.module + "::"@ + self.name + " "@ + crate::text::spec_decimal(self.num_blocks as nat)
            + "x"@ + crate::text::spec_decimal(self.block_len as nat) + " bytes"@
    }
}

impl<D: BdevOps> BdevRegistry<D> {
    /// The numbers of the descriptors that are open on a device, in the
    /// order in which they were opened: those that are to hear of what
    /// happens to the device.
    pub fn open_descs_of(&self, bdev: &Bdev) -> (list: Vec<u64>)
        requires
            self.wf(),
        ensures
            forall|k: int|
                0 <= k < list@.len() ==> 1 <= #[trigger] list@[k] <= self@.descs.len()
                    && self@.descs[list@[k] - 1].open && self@.descs[list@[k] - 1].bdev
                    == bdev.spec_index(),
            forall|j: int|
                0 <= j < self@.descs.len() && (#[trigger] self@.descs[j]).open
                    && self@.descs[j].bdev == bdev.spec_index() ==> list@.contains((j + 1) as u64),
            forall|a: int, b: int| 0 <= a < b < list@.len() ==> list@[a] < list@[b],
    {
        let mut list: Vec<u64> = Vec::new();
        let mut j: usize = 0;
        let n = self.descs.len();
        while j < n
            invariant
                self.wf(),
                n == self.descs@.len(),
                0 <= j <= n,
                forall|k: int|
                    0 <= k < list@.len() ==> 1 <= #[trigger] list@[k] <= j
                        && self@.descs[list@[k] - 1].open && self@.descs[list@[k] - 1].bdev
                        == bdev.spec_index(),
                forall|i: int|
                    0 <= i < j && (#[trigger] self@.descs[i]).open && self@.descs[i].bdev
                        == bdev.spec_index() ==> list@.contains((i + 1) as u64),
                forall|a: int, b: int| 0 <= a < b < list@.len() ==> list@[a] < list@[b],
            decreases n - j,
        {
            if self.descs[j].open && bdev.raw >= 1 && self.descs[j].bdev as u64 == bdev.raw - 1 {
                let ghost before = list@;
                list.push((j + 1) as u64);
                proof {
                    assert(list@[before.len() as int] == (j + 1) as u64);
                    assert forall|i: int|
                        0 <= i < j + 1 && (#[trigger] self@.descs[i]).open && self@.descs[i].bdev
                            == bdev.spec_index() implies list@.contains((i + 1) as u64) by {
                        if i < j {
                            assert(before.contains((i + 1) as u64));
                            let at = choose|at: int|
                                0 <= at < before.len() && before[at] == (i + 1) as u64;
                            assert(list@[at] == (i + 1) as u64);
                        }
                    }
                }
            }
            j += 1;
        }
        list
    }

    /// How many descriptors were ever opened.
    pub fn num_descs(&self) -> (n: usize)
        ensures
            n == self@.descs.len(),
    {
        self.descs.len()
    }

    /// How many I/O channels are handed out.
    pub fn channels_out(&self) -> (n: usize)
        ensures
            n == self@.channels_out,
    {
        self.channels_out
    }

    /// How many I/O channels can be handed out at once.
    pub fn channel_capacity(&self) -> (n: usize)
        ensures
            n == self@.channel_capacity,
    {
        self.channel_capacity
    }
}

} // verus!
