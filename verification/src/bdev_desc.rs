//! Descriptors: open sessions on a device, and the range locks taken
//! through them.
use vstd::prelude::*;
use crate::bdev::Bdev;
use crate::registry::{
    lemma_device_named,
    lemma_same_names_wf,
    BdevRegistry,
    DescRecord,
    DescView,
    DeviceView,
    Phase,
    RegistryView,
};
use crate::bdev_ops::BdevOps;
use crate::errno::{Errno, ErrnoResult, EBUSY, EINVAL, ENODEV, EPERM};
use crate::error::BdevDescError;
use crate::io_channel::IoChannelGuard;
use crate::thread::ThreadRegistry;

verus! {

/// What happened to the device under a descriptor.
#[derive(Debug, Clone, Copy, PartialEq, Eq, Structural)]
pub enum BdevEvent {
    /// The device is being removed.
    Remove,
    /// The device changed its size.
    Resize,
    /// The media of the device needs attention.
    MediaManagement,
}

impl BdevEvent {
    /// The code of an event.
    pub open spec fn spec_code(self) -> u32 {
        match self {
            BdevEvent::Remove => 0u32,
            BdevEvent::Resize => 1u32,
            BdevEvent::MediaManagement => 2u32,
        }
    }

    /// Reads an event out of its code. A code that names no event is left
    /// out.
    pub fn from_code(code: u32) -> (e: Self)
        requires
            code <= 2,
        ensures
            e.spec_code() == code,
    {
        if code == 0 {
            BdevEvent::Remove
        } else if code == 1 {
            BdevEvent::Resize
        } else {
            BdevEvent::MediaManagement
        }
    }

    /// Gives the code of an event.
    pub fn code(self) -> (c: u32)
        ensures
            c == self.spec_code(),
    {
        match self {
            BdevEvent::Remove => 0,
            BdevEvent::Resize => 1,
            BdevEvent::MediaManagement => 2,
        }
    }
}

/// A range of blocks: `len` blocks from block `offset` on.
#[derive(Debug, Clone, Copy, PartialEq, Eq, Structural)]
pub struct LbaRange {
    /// The first block of the range.
    pub offset: u64,
    /// The number of blocks in the range.
    pub len: u64,
}

impl LbaRange {
    /// True where the two ranges share a block.
    pub open spec fn spec_overlaps(self, other: LbaRange) -> bool {
        &&& self.len > 0
        &&& other.len > 0
        &&& self.offset < other.offset + other.len
        &&& other.offset < self.offset + self.len
    }

    /// The range of `len` blocks from `offset` on.
    pub fn new(offset: u64, len: u64) -> (r: LbaRange)
        ensures
            r.offset == offset,
            r.len == len,
    {
        LbaRange { offset, len }
    }

    /// Says whether the two ranges share a block.
    pub fn overlaps(&self, other: &LbaRange) -> (b: bool)
        ensures
            b == self.spec_overlaps(*other),
    {
        if self.len == 0 || other.len == 0 {
            return false;
        }
        // The last block of a range, which fits where its end may not.
        let self_last: u128 = self.offset as u128 + (self.len - 1) as u128;
        let other_last: u128 = other.offset as u128 + (other.len - 1) as u128;
        self.offset as u128 <= other_last && other.offset as u128 <= self_last
    }
}

impl RegistryView {
    /// True where a descriptor can be opened on the device that `n` finds:
    /// there is such a device, it is not on its way out, and, for a
    /// descriptor that may write, no module has claimed it.
    pub open spec fn can_open(self, n: Seq<char>, write: bool) -> bool {
        &&& self.name_in_use(n)
        &&& self.devices[self.device_named(n)].phase == Phase::Registered
        &&& !(write && self.devices[self.device_named(n)].claim.is_some())
    }

    /// The error number with which opening fails: `ENODEV` where no device
    /// is found or the device is on its way out, else `EPERM`.
    pub open spec fn open_errno(self, n: Seq<char>) -> i32 {
        if !self.name_in_use(n) || self.devices[self.device_named(n)].phase != Phase::Registered {
            ENODEV
        } else {
            EPERM
        }
    }

    /// The directory after a descriptor was opened on the device that `n`
    /// finds.
    pub open spec fn open(self, n: Seq<char>, write: bool) -> RegistryView {
        RegistryView {
            descs: self.descs.push(DescView { bdev: self.device_named(n), write, open: true }),
            ..self
        }
    }

    /// The directory with the descriptor at place `j` marked closed.
    pub open spec fn mark_closed(self, j: int) -> RegistryView {
        RegistryView {
            descs: self.descs.update(j, DescView { open: false, ..self.descs[j] }),
            ..self
        }
    }

    /// The directory after the descriptor at place `j` was closed. Where its
    /// device was waiting for its last descriptor to close, and this was it,
    /// the device is destroyed.
    pub open spec fn close(self, j: int) -> RegistryView {
        let dev = self.descs[j].bdev;
        let closed = self.mark_closed(j);
        if self.devices[dev].phase == Phase::Removing && !closed.has_open_desc(dev) {
            closed.with_device(dev, self.devices[dev].destroyed())
        } else {
            closed
        }
    }

    /// True where the range can be locked through the descriptor at place
    /// `j`: a channel can be had, and the range is not locked and shares no
    /// block with a locked range.
    pub open spec fn can_lock(self, j: int, r: LbaRange) -> bool {
        &&& self.channels_out < self.channel_capacity
        &&& !self.devices[self.descs[j].bdev].lock_conflict(r)
    }

    /// The directory after the range was locked through the descriptor at
    /// place `j`: the lock holds a channel, and the range is the last of
    /// the locked ranges of the device.
    pub open spec fn lock(self, j: int, r: LbaRange) -> RegistryView {
        let dev = self.descs[j].bdev;
        self.take_channel().with_device(
            dev,
            DeviceView { locks: self.devices[dev].locks.push(r), ..self.devices[dev] },
        )
    }

    /// True where a lock on the range, taken through the descriptor at place
    /// `taken`, can be given back through the descriptor at place `j`: it
    /// is the same descriptor, and the range is locked on its device.
    pub open spec fn can_unlock(self, j: int, taken: int, r: LbaRange) -> bool {
        &&& taken == j
        &&& self.devices[self.descs[j].bdev].locks.contains(r)
    }

    /// The directory after the lock on the range was given back through the
    /// descriptor at place `j`: the range is locked no more, and the channel
    /// of the lock is back.
    pub open spec fn unlock(self, j: int, r: LbaRange) -> RegistryView {
        let dev = self.descs[j].bdev;
        self.put_channel().with_device(
            dev,
            DeviceView { locks: self.devices[dev].locks.remove_value(r), ..self.devices[dev] },
        )
    }
}

/// A directory stays well formed when a descriptor joins it that is on a
/// device that names find.
pub proof fn lemma_open_wf(v: RegistryView, d: DescView)
    requires
        v.wf(),
        0 <= d.bdev < v.devices.len(),
        v.devices[d.bdev].published(),
        v.descs.len() + 1 < u64::MAX,
    ensures
        (RegistryView { descs: v.descs.push(d), ..v }).wf(),
{
    let w = RegistryView { descs: v.descs.push(d), ..v };
    assert forall|j: int| 0 <= j < w.descs.len() implies 0 <= (#[trigger] w.descs[j]).bdev
        < w.devices.len() by {
        if j < v.descs.len() {
            assert(0 <= v.descs[j].bdev < v.devices.len());
        }
    }
    assert forall|j: int| 0 <= j < w.descs.len() && (#[trigger] w.descs[j]).open implies w.devices[w.descs[j].bdev].published() by {
        if j < v.descs.len() {
            assert(v.descs[j].open);
        }
    }
}

/// A directory stays well formed when a descriptor closes.
pub proof fn lemma_close_wf(v: RegistryView, j: int)
    requires
        v.wf(),
        0 <= j < v.descs.len(),
    ensures
        v.close(j).wf(),
        v.mark_closed(j).wf(),
{
    let c = v.mark_closed(j);
    let dev = v.descs[j].bdev;
    assert(0 <= dev < v.devices.len());
    assert forall|k: int| 0 <= k < c.descs.len() implies 0 <= (#[trigger] c.descs[k]).bdev
        < c.devices.len() by {
        assert(0 <= v.descs[k].bdev < v.devices.len());
    }
    assert forall|k: int| 0 <= k < c.descs.len() && (#[trigger] c.descs[k]).open implies c.devices[c.descs[k].bdev].published() by {
        assert(v.descs[k].open);
    }
    assert(c.wf());
    let w = v.close(j);
    if w != c {
        assert forall|a: int, b: int, m: Seq<char>|
            0 <= a < w.devices.len() && 0 <= b < w.devices.len() && a != b
                && w.devices[a].published() && w.devices[b].published()
                && #[trigger] w.devices[a].holds_name(m) implies !#[trigger] w.devices[b].holds_name(
            m,
        ) by {
            if w.devices[b].holds_name(m) {
                assert(v.devices[a].published() && v.devices[b].published());
                assert(v.devices[a].holds_name(m));
                assert(v.devices[b].holds_name(m));
            }
        }
        assert forall|k: int| 0 <= k < w.descs.len() && (#[trigger] w.descs[k]).open implies w.devices[w.descs[k].bdev].published() by {
            assert(c.descs[k].open);
            assert(c.devices[c.descs[k].bdev].published());
            if c.descs[k].bdev == dev {
                assert(c.has_open_desc(dev));
            }
        }
        assert forall|x: int| 0 <= x < w.devices.len() implies (#[trigger] w.devices[x]).wf() by {
            assert(v.devices[x].wf());
        }
        assert forall|k: int| 0 <= k < w.descs.len() implies 0 <= (#[trigger] w.descs[k]).bdev
            < w.devices.len() by {
            assert(0 <= c.descs[k].bdev < c.devices.len());
        }
    }
}

/// Handle of an open session on a device: the place of its record in the
/// directory, counted from one; zero once the session was closed through
/// this handle.
#[derive(Debug, Clone, Copy, PartialEq, Eq, Structural)]
pub struct BdevDesc {
    raw: u64,
}

/// A lock on a range of blocks. It is had from `lock_lba_range` only, holds
/// an I/O channel while it lasts, and is given back through
/// `unlock_lba_range` of the descriptor it was taken through. A lock that
/// is dropped instead stays in force: its range stays locked and its
/// channel out.
#[derive(Debug)]
pub struct LbaRangeLock {
    range: LbaRange,
    desc: usize,
    ch: IoChannelGuard,
}

impl LbaRangeLock {
    /// The range that is locked.
    pub closed spec fn spec_range(&self) -> LbaRange {
        self.range
    }

    /// The place in the directory of the descriptor that the lock was taken
    /// through.
    pub closed spec fn spec_desc(&self) -> int {
        self.desc as int
    }

    /// The range that is locked.
    pub fn range(&self) -> (r: LbaRange)
        ensures
            r == self.spec_range(),
    {
        self.range
    }
}

impl BdevDesc {
    /// The place of the session in the directory.
    pub closed spec fn spec_index(&self) -> int {
        self.raw - 1
    }

    /// True where the handle names a session of the directory that is open.
    pub open spec fn spec_open<D: BdevOps>(&self, reg: &BdevRegistry<D>) -> bool {
        &&& 0 <= self.spec_index() < reg@.descs.len()
        &&& reg@.descs[self.spec_index()].open
    }

    /// The place of the device that the session is on.
    pub open spec fn spec_bdev<D: BdevOps>(&self, reg: &BdevRegistry<D>) -> int {
        reg@.descs[self.spec_index()].bdev
    }

    fn slot<D: BdevOps>(&self, reg: &BdevRegistry<D>) -> (j: usize)
        requires
            0 <= self.spec_index() < reg@.descs.len(),
        ensures
            j == self.spec_index(),
    {
        let len = reg.descs.len();
        let j = self.raw - 1;
        assert(j < len);
        j as usize
    }

    /// Says whether the handle names a session of the directory that is
    /// open.
    pub fn is_open<D: BdevOps>(&self, reg: &BdevRegistry<D>) -> (b: bool)
        ensures
            b == self.spec_open(reg),
    {
        if self.raw == 0 {
            return false;
        }
        let len = reg.descs.len();
        let j = self.raw - 1;
        if j >= len as u64 {
            return false;
        }
        reg.descs[j as usize].open
    }

    /// Opens a session on the device that `bdev_name` finds, by name or by
    /// alias; `rw` asks for leave to write. Fails with `ENODEV` where no
    /// device is found or the device is on its way out, and with `EPERM`
    /// where leave to write is asked for on a device that a module has
    /// claimed. Any number of sessions may be open on one device.
    pub fn open<D: BdevOps>(reg: &mut BdevRegistry<D>, bdev_name: &str, rw: bool) -> (r:
        ErrnoResult<Self>)
        requires
            old(reg).wf(),
            old(reg)@.descs.len() + 1 < u64::MAX,
        ensures
            final(reg).wf(),
            r.is_ok() <==> old(reg)@.can_open(bdev_name@, rw),
            r.is_ok() ==> final(reg)@ == old(reg)@.open(bdev_name@, rw) && r.unwrap().spec_index()
                == old(reg)@.descs.len() && r.unwrap().spec_open(final(reg)),
            r.is_err() ==> final(reg)@ == old(reg)@ && r == Err::<Self, Errno>(
                Errno::spec_from_raw(old(reg)@.open_errno(bdev_name@)),
            ),
    {
        let n = bdev_name.to_owned();
        let at = reg.find_by_name(&n);
        let i = match at {
            None => {
                return Err(Errno::from_raw(ENODEV));
            },
            Some(i) => i,
        };
        proof {
            lemma_device_named(reg@, bdev_name@, i as int);
        }
        match reg.devices[i].phase {
            Phase::Registered => {},
            _ => {
                return Err(Errno::from_raw(ENODEV));
            },
        }
        if rw && reg.devices[i].claim.is_some() {
            return Err(Errno::from_raw(EPERM));
        }
        let j = reg.descs.len();
        let rec = DescRecord { bdev: i, write: rw, open: true };
        proof {
            lemma_open_wf(reg@, rec.view());
        }
        reg.descs.push(rec);
        proof {
            assert(reg@.descs =~= old(reg)@.open(bdev_name@, rw).descs);
            assert(reg@.devices =~= old(reg)@.devices);
        }
        let count = reg.descs.len();
        Ok(BdevDesc { raw: count as u64 })
    }

    /// Closes the session. The handle names nothing afterwards, and no copy
    /// of it names an open session. Other sessions on the device stay as
    /// they are. A device that was waiting for its last session to close is
    /// destroyed when this was it. A session that is closed already is left
    /// out.
    pub fn close<D: BdevOps>(&mut self, reg: &mut BdevRegistry<D>)
        requires
            old(reg).wf(),
            old(self).spec_open(old(reg)),
        ensures
            final(reg).wf(),
            final(reg)@ == old(reg)@.close(old(self).spec_index()),
            !final(self).spec_open(final(reg)),
            !old(self).spec_open(final(reg)),
    {
        let j = self.slot(reg);
        let dev = reg.descs[j].bdev;
        proof {
            lemma_close_wf(reg@, j as int);
            assert(0 <= reg@.descs[j as int].bdev < reg@.devices.len());
            assert(reg@.devices[dev as int].published());
        }
        reg.descs[j].open = false;
        proof {
            assert(reg@.descs =~= old(reg)@.mark_closed(j as int).descs);
            assert(reg@.devices =~= old(reg)@.devices);
            assert(reg@ == old(reg)@.mark_closed(j as int));
        }
        let removing = match reg.devices[dev].phase {
            Phase::Removing => true,
            _ => false,
        };
        if removing && !reg.has_open_desc(dev) {
            reg.destroy(dev);
            proof {
                assert(reg@.devices =~= old(reg)@.close(j as int).devices);
                assert(reg@.descs =~= old(reg)@.close(j as int).descs);
            }
        }
        self.raw = 0;
    }

    /// The device that the session is on.
    pub fn bdev<D: BdevOps>(&self, reg: &BdevRegistry<D>) -> (b: Bdev)
        requires
            reg.wf(),
            self.spec_open(reg),
        ensures
            b.spec_index() == self.spec_bdev(reg),
            b.spec_live(reg),
    {
        let j = self.slot(reg);
        assert(0 <= reg@.descs[j as int].bdev < reg@.devices.len());
        assert(reg@.devices[reg@.descs[j as int].bdev].published());
        Bdev::at(reg, reg.descs[j].bdev)
    }

    /// True where the session may write.
    pub fn is_writable<D: BdevOps>(&self, reg: &BdevRegistry<D>) -> (w: bool)
        requires
            self.spec_open(reg),
        ensures
            w == reg@.descs[self.spec_index()].write,
    {
        let j = self.slot(reg);
        reg.descs[j].write
    }

    /// Takes an I/O channel to the device for the thread that the caller
    /// acts as. Fails where as many channels are out as there can be. A
    /// caller that acts as no thread is left out.
    pub fn io_channel<D: BdevOps>(&self, reg: &mut BdevRegistry<D>, threads: &ThreadRegistry) -> (r:
        Result<IoChannelGuard, BdevDescError>)
        requires
            old(reg).wf(),
            self.spec_open(old(reg)),
            threads@.current.is_some(),
        ensures
            final(reg).wf(),
            r.is_ok() <==> old(reg)@.channels_out < old(reg)@.channel_capacity,
            r.is_ok() ==> final(reg)@ == old(reg)@.take_channel() && r.unwrap()@.spec_bdev()
                == self.spec_bdev(old(reg)) && Some(r.unwrap()@.spec_thread())
                == threads@.current,
            r.is_err() ==> final(reg)@ == old(reg)@ && (r matches Err(
                BdevDescError::GetIOChannel { bdev_name },
            ) && bdev_name@ == old(reg)@.devices[self.spec_bdev(old(reg))].name),
    {
        let b = self.bdev(reg);
        if reg.channels_out >= reg.channel_capacity {
            return Err(BdevDescError::GetIOChannel { bdev_name: b.name(reg) });
        }
        reg.channels_out = reg.channels_out + 1;
        Ok(IoChannelGuard::from_ptr(b.as_raw(), crate::thread::Thread::current(threads).unwrap()))
    }

    /// The number of the handle; zero once the session was closed through
    /// it.
    pub fn legacy_as_ptr(&self) -> (raw: u64)
        ensures
            raw == self.spec_index() + 1,
    {
        self.raw
    }

    /// The handle with the given number. Zero names no session and is left
    /// out.
    pub fn legacy_from_ptr(raw: u64) -> (d: Self)
        requires
            raw != 0,
        ensures
            d.spec_index() == raw - 1,
    {
        BdevDesc { raw }
    }
}


/// A list of ranges that are apart stays so when a range joins that is in
/// conflict with none of them.
pub proof fn lemma_lock_push(d: DeviceView, r: LbaRange)
    requires
        d.wf(),
        !d.lock_conflict(r),
    ensures
        (DeviceView { locks: d.locks.push(r), ..d }).wf(),
{
    let e = DeviceView { locks: d.locks.push(r), ..d };
    assert forall|a: int, b: int| 0 <= a < b < e.locks.len() implies !(#[trigger] e.locks[a]).spec_overlaps(
        #[trigger] e.locks[b],
    ) by {
        if b == d.locks.len() {
            assert(!(d.locks[a].spec_overlaps(r) || d.locks[a] == r));
        } else {
            assert(!d.locks[a].spec_overlaps(d.locks[b]));
        }
    }
    assert forall|a: int, b: int|
        0 <= a < e.locks.len() && 0 <= b < e.locks.len() && a != b implies e.locks[a]
        != e.locks[b] by {
        if a == d.locks.len() {
            assert(!(d.locks[b].spec_overlaps(r) || d.locks[b] == r));
        } else if b == d.locks.len() {
            assert(!(d.locks[a].spec_overlaps(r) || d.locks[a] == r));
        }
    }
}

/// A list of ranges that are apart stays so when one of them leaves.
pub proof fn lemma_lock_remove(d: DeviceView, k: int)
    requires
        d.wf(),
        0 <= k < d.locks.len(),
    ensures
        (DeviceView { locks: d.locks.remove(k), ..d }).wf(),
        !d.locks.remove(k).contains(d.locks[k]),
{
    let e = DeviceView { locks: d.locks.remove(k), ..d };
    assert forall|a: int| 0 <= a < e.locks.len() implies #[trigger] e.locks[a] == d.locks[if a < k {
        a
    } else {
        a + 1
    }] by {}
    assert forall|a: int, b: int| 0 <= a < b < e.locks.len() implies !(#[trigger] e.locks[a]).spec_overlaps(
        #[trigger] e.locks[b],
    ) by {
        let a0 = if a < k {
            a
        } else {
            a + 1
        };
        let b0 = if b < k {
            b
        } else {
            b + 1
        };
        assert(e.locks[a] == d.locks[a0]);
        assert(e.locks[b] == d.locks[b0]);
        assert(!d.locks[a0].spec_overlaps(d.locks[b0]));
    }
    assert forall|a: int, b: int|
        0 <= a < e.locks.len() && 0 <= b < e.locks.len() && a != b implies e.locks[a]
        != e.locks[b] by {
        assert(e.locks[a] == d.locks[if a < k {
            a
        } else {
            a + 1
        }]);
        assert(e.locks[b] == d.locks[if b < k {
            b
        } else {
            b + 1
        }]);
    }
    if e.locks.contains(d.locks[k]) {
        let a = choose|a: int| 0 <= a < e.locks.len() && e.locks[a] == d.locks[k];
        assert(e.locks[a] == d.locks[if a < k {
            a
        } else {
            a + 1
        }]);
    }
}

impl<D: BdevOps> BdevRegistry<D> {
    /// Looks for a locked range of the device at place `dev` that is the
    /// given range or shares a block with it.
    pub fn lock_conflict(&self, dev: usize, r: &LbaRange) -> (b: bool)
        requires
            dev < self@.devices.len(),
        ensures
            b == self@.devices[dev as int].lock_conflict(*r),
    {
        let len = self.devices.len();
        let mut a: usize = 0;
        while a < self.devices[dev].locks.len()
            invariant
                dev < self.devices@.len(),
                0 <= a <= self.devices@[dev as int].locks@.len(),
                forall|k: int|
                    0 <= k < a ==> !((#[trigger] self@.devices[dev as int].locks[k]).spec_overlaps(
                        *r,
                    ) || self@.devices[dev as int].locks[k] == *r),
            decreases self.devices@[dev as int].locks@.len() - a,
        {
            let held = self.devices[dev].locks[a];
            if held.overlaps(r) || (held.offset == r.offset && held.len == r.len) {
                assert(self@.devices[dev as int].locks[a as int] == held);
                return true;
            }
            a += 1;
        }
        false
    }

    /// Looks for a locked range of the device at place `dev`: the first
    /// place that holds it, or `None`.
    pub fn find_lock(&self, dev: usize, r: &LbaRange) -> (at: Option<usize>)
        requires
            dev < self@.devices.len(),
        ensures
            at.is_some() <==> self@.devices[dev as int].locks.contains(*r),
            at.is_some() ==> at.unwrap() < self@.devices[dev as int].locks.len()
                && self@.devices[dev as int].locks[at.unwrap() as int] == *r,
    {
        let len = self.devices.len();
        let mut a: usize = 0;
        while a < self.devices[dev].locks.len()
            invariant
                dev < self.devices@.len(),
                0 <= a <= self.devices@[dev as int].locks@.len(),
                forall|k: int| 0 <= k < a ==> self@.devices[dev as int].locks[k] != *r,
            decreases self.devices@[dev as int].locks@.len() - a,
        {
            let held = self.devices[dev].locks[a];
            if held.offset == r.offset && held.len == r.len {
                assert(self@.devices[dev as int].locks[a as int] == *r);
                return Some(a);
            }
            a += 1;
        }
        None
    }
}

impl BdevDesc {
    /// Locks a range of blocks of the device for the caller alone. The lock
    /// holds an I/O channel of the thread that the caller acts as for as
    /// long as it lasts. Fails where no channel can be had; and fails with
    /// `EBUSY`, leaving no channel taken, where the range is locked already
    /// or shares a block with a locked range. A caller that acts as no
    /// thread is left out.
    pub fn lock_lba_range<D: BdevOps>(
        &self,
        reg: &mut BdevRegistry<D>,
        threads: &ThreadRegistry,
        range: LbaRange,
    ) -> (r: Result<LbaRangeLock, BdevDescError>)
        requires
            old(reg).wf(),
            self.spec_open(old(reg)),
            threads@.current.is_some(),
        ensures
            final(reg).wf(),
            r.is_ok() <==> old(reg)@.can_lock(self.spec_index(), range),
            r.is_ok() ==> final(reg)@ == old(reg)@.lock(self.spec_index(), range)
                && r.unwrap().spec_range() == range && r.unwrap().spec_desc() == self.spec_index(),
            r.is_ok() ==> final(reg)@.can_unlock(
                self.spec_index(),
                r.unwrap().spec_desc(),
                range,
            ) && self.spec_open(final(reg)),
            r.is_err() ==> final(reg)@ == old(reg)@ && r.unwrap_err().spec_bdev_name() == old(
                reg,
            )@.devices[self.spec_bdev(old(reg))].name,
            r.is_err() && old(reg)@.channels_out >= old(reg)@.channel_capacity ==> r matches Err(
                BdevDescError::GetIOChannel { .. },
            ),
            r.is_err() && old(reg)@.channels_out < old(reg)@.channel_capacity ==> (r matches Err(
                BdevDescError::LbaLock { source, .. },
            ) && source == Errno::spec_from_raw(EBUSY)),
    {
        let ch = match self.io_channel(reg, threads) {
            Ok(ch) => ch,
            Err(e) => {
                return Err(e);
            },
        };
        let b = self.bdev(reg);
        let dev = b.slot(reg);
        if reg.lock_conflict(dev, &range) {
            ch.release(reg);
            return Err(
                BdevDescError::LbaLock { source: Errno::from_raw(EBUSY), bdev_name: b.name(reg) },
            );
        }
        proof {
            assert(reg@.devices[dev as int].wf());
            lemma_lock_push(reg@.devices[dev as int], range);
            lemma_same_names_wf(
                reg@,
                dev as int,
                DeviceView {
                    locks: reg@.devices[dev as int].locks.push(range),
                    ..reg@.devices[dev as int]
                },
            );
        }
        reg.devices[dev].locks.push(range);
        proof {
            assert(reg@.devices =~= old(reg)@.lock(self.spec_index(), range).devices);
            assert(reg@.descs =~= old(reg)@.descs);
            let locks = reg@.devices[dev as int].locks;
            assert(locks[locks.len() - 1] == range);
        }
        let desc = self.slot(reg);
        Ok(LbaRangeLock { range, desc, ch })
    }

    /// Gives a lock back: its range is locked no more, and its channel is
    /// put back. Fails with `EINVAL` where the lock was not taken through
    /// this session, or its range is not locked; the lock is gone and its
    /// channel put back all the same.
    pub fn unlock_lba_range<D: BdevOps>(&self, reg: &mut BdevRegistry<D>, lock: LbaRangeLock) -> (r:
        Result<(), BdevDescError>)
        requires
            old(reg).wf(),
            self.spec_open(old(reg)),
        ensures
            final(reg).wf(),
            r.is_ok() <==> old(reg)@.can_unlock(
                self.spec_index(),
                lock.spec_desc(),
                lock.spec_range(),
            ),
            r.is_ok() ==> final(reg)@ == old(reg)@.unlock(self.spec_index(), lock.spec_range()),
            r.is_err() ==> final(reg)@ == old(reg)@.put_channel() && (r matches Err(
                BdevDescError::LbaUnlock { source, bdev_name },
            ) && source == Errno::spec_from_raw(EINVAL) && bdev_name@ == old(
                reg,
            )@.devices[self.spec_bdev(old(reg))].name),
    {
        let b = self.bdev(reg);
        let dev = b.slot(reg);
        let LbaRangeLock { range, desc, ch } = lock;
        let at = if desc == self.slot(reg) {
            reg.find_lock(dev, &range)
        } else {
            None
        };
        match at {
            None => {
                ch.release(reg);
                Err(
                    BdevDescError::LbaUnlock {
                        source: Errno::from_raw(EINVAL),
                        bdev_name: b.name(reg),
                    },
                )
            },
            Some(k) => {
                proof {
                    let d = reg@.devices[dev as int];
                    assert(d.wf());
                    d.locks.index_of_first_ensures(range);
                    assert(d.locks.index_of_first(range) == Some(k as int));
                    lemma_lock_remove(d, k as int);
                    lemma_same_names_wf(
                        reg@,
                        dev as int,
                        DeviceView { locks: d.locks.remove(k as int), ..d },
                    );
                }
                reg.devices[dev].locks.remove(k);
                proof {
                    assert(reg@.devices =~= old(reg)@.with_device(
                        dev as int,
                        DeviceView {
                            locks: old(reg)@.devices[dev as int].locks.remove(k as int),
                            ..old(reg)@.devices[dev as int]
                        },
                    ).devices);
                    assert(reg@.descs =~= old(reg)@.descs);
                }
                ch.release(reg);
                proof {
                    assert(reg@.devices =~= old(reg)@.unlock(self.spec_index(), range).devices);
                }
                Ok(())
            },
        }
    }
}

} // verus!
