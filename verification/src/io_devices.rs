//! I/O devices: what channels are made for.
//!
//! An I/O device is registered, hands out one channel for each thread that
//! asks, counted by how often it was taken, and is unregistered. The data of
//! a channel is made when the channel is first taken on a thread and
//! destroyed when it was put back as often as it was taken. A device that is
//! asked to unregister while channels are out is gone only when the last of
//! them is back.
use vstd::prelude::*;
use crate::io_device_traverse::ChannelTraverseStatus;
use crate::thread::{Thread, ThreadRegistry};

verus! {

/// What an I/O device supplies.
pub trait IoDevice: Sized {
    /// The data that each channel of the device owns.
    type ChannelData;

    /// Called once the device is unregistered and all its channels are back.
    fn unregister_callback(&self) {
    }

    /// Makes the data of a new channel.
    fn io_channel_create(&mut self) -> Self::ChannelData;

    /// Destroys the data of a channel that is no longer held.
    fn io_channel_destroy(&mut self, _chan: Self::ChannelData) {
    }
}

/// The I/O device that the device without a payload stands for: its
/// channels own nothing.
impl IoDevice for () {
    type ChannelData = ();

    fn io_channel_create(&mut self) -> Self::ChannelData {
        ()
    }
}

/// Where an I/O device is in its life.
#[derive(Debug, Clone, Copy, PartialEq, Eq, Structural)]
pub enum IoDeviceState {
    /// Made, not registered.
    Idle,
    /// Registered: channels can be taken.
    Registered,
    /// Asked to unregister while channels were out.
    Unregistering,
    /// Unregistered, with all channels back.
    Gone,
}

/// A channel as contracts see it.
pub struct ChannelView {
    /// The thread that the channel belongs to.
    pub thread: Thread,
    /// How often the channel was taken and not put back.
    pub refs: nat,
}

/// An I/O device as contracts see it.
pub struct IoDeviceView {
    /// Where the device is in its life.
    pub state: IoDeviceState,
    /// The name given at registration, if any.
    pub name: Option<Seq<char>>,
    /// The channels that are out, in the order in which they were first
    /// taken.
    pub channels: Seq<ChannelView>,
}

impl IoDeviceView {
    /// True where a channel of the thread is out.
    pub open spec fn has_channel(self, t: Thread) -> bool {
        exists|k: int| 0 <= k < self.channels.len() && (#[trigger] self.channels[k]).thread == t
    }

    /// The place of the channel of the thread.
    pub open spec fn channel_of(self, t: Thread) -> int {
        choose|k: int| 0 <= k < self.channels.len() && (#[trigger] self.channels[k]).thread == t
    }

    /// Each thread has one channel at most, each channel that is out was
    /// taken at least once, and channels are out only of a device that is
    /// registered or waits for them to come back.
    pub open spec fn wf(self) -> bool {
        &&& forall|a: int, b: int|
            0 <= a < b < self.channels.len() ==> (#[trigger] self.channels[a]).thread
                != (#[trigger] self.channels[b]).thread
        &&& forall|k: int| 0 <= k < self.channels.len() ==> (#[trigger] self.channels[k]).refs > 0
        &&& self.channels.len() > 0 ==> self.state == IoDeviceState::Registered || self.state
            == IoDeviceState::Unregistering
        &&& self.state == IoDeviceState::Unregistering ==> self.channels.len() > 0
    }

    /// True where the thread can take a channel: the device is registered,
    /// and the count of the channel has room.
    pub open spec fn can_get(self, t: Thread) -> bool {
        &&& self.state == IoDeviceState::Registered
        &&& self.has_channel(t) ==> self.channels[self.channel_of(t)].refs < usize::MAX
    }

    /// The device after the thread took a channel: its channel counts one
    /// more, or is new with a count of one.
    pub open spec fn get(self, t: Thread) -> IoDeviceView {
        if self.has_channel(t) {
            let k = self.channel_of(t);
            IoDeviceView {
                channels: self.channels.update(
                    k,
                    ChannelView { refs: self.channels[k].refs + 1, ..self.channels[k] },
                ),
                ..self
            }
        } else {
            IoDeviceView {
                channels: self.channels.push(ChannelView { thread: t, refs: 1 }),
                ..self
            }
        }
    }

    /// The device after the thread put a channel back: its channel counts
    /// one less, or is gone where it counted one; and with the last channel
    /// back, a device that was asked to unregister is gone.
    pub open spec fn put(self, t: Thread) -> IoDeviceView {
        let k = self.channel_of(t);
        if self.channels[k].refs > 1 {
            IoDeviceView {
                channels: self.channels.update(
                    k,
                    ChannelView { refs: (self.channels[k].refs - 1) as nat, ..self.channels[k] },
                ),
                ..self
            }
        } else {
            IoDeviceView {
                channels: self.channels.remove(k),
                state: if self.state == IoDeviceState::Unregistering && self.channels.len() == 1 {
                    IoDeviceState::Gone
                } else {
                    self.state
                },
                ..self
            }
        }
    }

    /// The device after it was asked to unregister: gone at once without
    /// channels out, else waiting for them; as it was where it was not
    /// registered.
    pub open spec fn unregister(self) -> IoDeviceView {
        if self.state != IoDeviceState::Registered {
            self
        } else if self.channels.len() == 0 {
            IoDeviceView { state: IoDeviceState::Gone, ..self }
        } else {
            IoDeviceView { state: IoDeviceState::Unregistering, ..self }
        }
    }
}

/// In a well-formed device the channel of a thread is where a channel of
/// that thread is found.
pub proof fn lemma_channel_of(v: IoDeviceView, t: Thread, k: int)
    requires
        v.wf(),
        0 <= k < v.channels.len(),
        v.channels[k].thread == t,
    ensures
        v.has_channel(t),
        v.channel_of(t) == k,
{
    let c = v.channel_of(t);
    if c < k {
        assert(v.channels[c].thread != v.channels[k].thread);
    } else if k < c {
        assert(v.channels[k].thread != v.channels[c].thread);
    }
}

struct ChannelRecord<C> {
    thread: Thread,
    refs: usize,
    data: C,
}

impl<C> ChannelRecord<C> {
    spec fn view(&self) -> ChannelView {
        ChannelView { thread: self.thread, refs: self.refs as nat }
    }
}

/// An I/O device with its channels.
pub struct IoDeviceSlot<Dev: IoDevice> {
    dev: Dev,
    name: Option<String>,
    state: IoDeviceState,
    channels: Vec<ChannelRecord<Dev::ChannelData>>,
}

impl<Dev: IoDevice> IoDeviceSlot<Dev> {
    /// The state, the name and the channels.
    pub closed spec fn view(&self) -> IoDeviceView {
        IoDeviceView {
            state: self.state,
            name: match self.name {
                Some(n) => Some(n@),
                None => None,
            },
            channels: self.channels@.map_values(|c: ChannelRecord<Dev::ChannelData>| c.view()),
        }
    }

    /// The data of the channel at place `k`.
    pub closed spec fn spec_data(&self, k: int) -> Dev::ChannelData {
        self.channels@[k].data
    }

    /// A device that is not registered.
    pub fn new(dev: Dev) -> (slot: Self)
        ensures
            slot@.wf(),
            slot@ == (IoDeviceView {
                state: IoDeviceState::Idle,
                name: None,
                channels: Seq::empty(),
            }),
    {
        let slot = IoDeviceSlot { dev, name: None, state: IoDeviceState::Idle, channels: Vec::new() };
        proof {
            assert(slot@.channels =~= Seq::<ChannelView>::empty());
        }
        slot
    }

    /// The device itself.
    pub closed spec fn spec_device(&self) -> Dev {
        self.dev
    }

    /// The device itself.
    pub fn device(&self) -> (dev: &Dev)
        ensures
            *dev == self.spec_device(),
    {
        &self.dev
    }

    /// Where the device is in its life.
    pub fn state(&self) -> (s: IoDeviceState)
        ensures
            s == self@.state,
    {
        self.state
    }

    /// How many channels are out.
    pub fn num_channels(&self) -> (n: usize)
        ensures
            n == self@.channels.len(),
    {
        self.channels.len()
    }

    /// Registers the device, under a name or without one: from now on
    /// channels can be taken. A device that was registered before is left
    /// out.
    pub fn register_io_device(&mut self, name: Option<&str>)
        requires
            old(self)@.wf(),
            old(self)@.state == IoDeviceState::Idle,
        ensures
            final(self)@.wf(),
            final(self)@ == (IoDeviceView {
                state: IoDeviceState::Registered,
                name: match name {
                    Some(n) => Some(n@),
                    None => None,
                },
                ..old(self)@
            }),
    {
        self.name = match name {
            Some(n) => Some(n.to_owned()),
            None => None,
        };
        self.state = IoDeviceState::Registered;
    }

    /// Asks the device to unregister. Without channels out it is gone at
    /// once, and its callback is called; else it is gone, and the callback
    /// called, when the last channel is put back. Nothing happens to a
    /// device that is not registered. Says whether the device is gone now.
    pub fn unregister_io_device(&mut self) -> (gone: bool)
        requires
            old(self)@.wf(),
        ensures
            final(self)@.wf(),
            final(self)@ == old(self)@.unregister(),
            gone == (old(self)@.state == IoDeviceState::Registered && old(self)@.channels.len()
                == 0),
    {
        match self.state {
            IoDeviceState::Registered => {},
            _ => {
                return false;
            },
        }
        if self.channels.len() == 0 {
            self.state = IoDeviceState::Gone;
            self.dev.unregister_callback();
            true
        } else {
            self.state = IoDeviceState::Unregistering;
            false
        }
    }

    fn find(&self, thread: Thread) -> (at: Option<usize>)
        requires
            self@.wf(),
        ensures
            at.is_some() <==> self@.has_channel(thread),
            at.is_some() ==> at.unwrap() < self@.channels.len() && at.unwrap()
                == self@.channel_of(thread) && self@.channels[at.unwrap() as int].thread == thread,
    {
        let mut k: usize = 0;
        while k < self.channels.len()
            invariant
                self@.wf(),
                0 <= k <= self.channels@.len(),
                forall|j: int| 0 <= j < k ==> (#[trigger] self@.channels[j]).thread != thread,
            decreases self.channels@.len() - k,
        {
            if self.channels[k].thread.as_ptr() == thread.as_ptr() {
                proof {
                    assert(self@.channels[k as int].thread.spec_raw() == thread.spec_raw());
                    Thread::lemma_same_raw(self@.channels[k as int].thread, thread);
                    lemma_channel_of(self@, thread, k as int);
                }
                return Some(k);
            }
            k += 1;
        }
        None
    }

    /// Takes a channel of the device for the thread that the caller acts as.
    /// The first time on a thread the data of the channel is made; later
    /// the channel counts one more. Returns false, and changes nothing,
    /// where the device is not registered, or the count has no room. A
    /// caller that acts as no thread is left out.
    pub fn get_io_channel(&mut self, threads: &ThreadRegistry) -> (got: bool)
        requires
            threads@.current.is_some(),
            old(self)@.wf(),
        ensures
            final(self)@.wf(),
            got == old(self)@.can_get(threads@.current.unwrap()),
            got ==> final(self)@ == old(self)@.get(threads@.current.unwrap()),
            !got ==> final(self)@ == old(self)@,
            got ==> final(self)@.has_channel(threads@.current.unwrap()),
    {
        let thread = Thread::current(threads).unwrap();
        match self.state {
            IoDeviceState::Registered => {},
            _ => {
                return false;
            },
        }
        match self.find(thread) {
            Some(k) => {
                if self.channels[k].refs == usize::MAX {
                    return false;
                }
                self.channels[k].refs = self.channels[k].refs + 1;
                proof {
                    assert(self@.channels[k as int].thread == thread);
                    assert(self@.channels =~= old(self)@.get(thread).channels);
                    assert forall|a: int, b: int| 0 <= a < b < self@.channels.len() implies (
                    #[trigger] self@.channels[a]).thread != (#[trigger] self@.channels[b]).thread by {
                        assert(old(self)@.channels[a].thread != old(self)@.channels[b].thread);
                    }
                    assert forall|j: int| 0 <= j < self@.channels.len() implies (
                    #[trigger] self@.channels[j]).refs > 0 by {
                        assert(old(self)@.channels[j].refs > 0);
                    }
                }
                true
            },
            None => {
                let data = self.dev.io_channel_create();
                self.channels.push(ChannelRecord { thread, refs: 1, data });
                proof {
                    assert(self@.channels[self@.channels.len() - 1].thread == thread);
                    assert(self@.channels =~= old(self)@.get(thread).channels);
                    assert forall|a: int, b: int| 0 <= a < b < self@.channels.len() implies (
                    #[trigger] self@.channels[a]).thread != (#[trigger] self@.channels[b]).thread by {
                        if b < old(self)@.channels.len() {
                            assert(old(self)@.channels[a].thread != old(self)@.channels[b].thread);
                        } else {
                            assert(old(self)@.channels[a].thread != thread);
                        }
                    }
                    assert forall|j: int| 0 <= j < self@.channels.len() implies (
                    #[trigger] self@.channels[j]).refs > 0 by {
                        if j < old(self)@.channels.len() {
                            assert(old(self)@.channels[j].refs > 0);
                        }
                    }
                }
                true
            },
        }
    }

    /// Puts a channel of the thread that the caller acts as back. The
    /// channel counts one less; when
    /// it was put back as often as it was taken, its data is destroyed, and
    /// a device that was asked to unregister and has no channel out any
    /// more is gone and has its callback called. Says whether the device is
    /// gone now. A thread without a channel is left out.
    pub fn put_io_channel(&mut self, threads: &ThreadRegistry) -> (gone: bool)
        requires
            threads@.current.is_some(),
            old(self)@.wf(),
            old(self)@.has_channel(threads@.current.unwrap()),
        ensures
            final(self)@.wf(),
            final(self)@ == old(self)@.put(threads@.current.unwrap()),
            gone == (final(self)@.state == IoDeviceState::Gone),
    {
        let thread = Thread::current(threads).unwrap();
        let k = self.find(thread).unwrap();
        if self.channels[k].refs > 1 {
            self.channels[k].refs = self.channels[k].refs - 1;
            proof {
                assert(old(self)@.channels[k as int].refs > 1);
                assert(self@.channels =~= old(self)@.put(thread).channels);
                assert forall|a: int, b: int| 0 <= a < b < self@.channels.len() implies (
                #[trigger] self@.channels[a]).thread != (#[trigger] self@.channels[b]).thread by {
                    assert(old(self)@.channels[a].thread != old(self)@.channels[b].thread);
                }
                assert forall|j: int| 0 <= j < self@.channels.len() implies (
                #[trigger] self@.channels[j]).refs > 0 by {
                    assert(old(self)@.channels[j].refs > 0);
                }
            }
            return false;
        }
        proof {
            assert(old(self)@.channels[k as int].refs > 0);
        }
        let rec = self.channels.remove(k);
        self.dev.io_channel_destroy(rec.data);
        proof {
            assert(self@.channels =~= old(self)@.channels.remove(k as int));
            assert forall|a: int, b: int| 0 <= a < b < self@.channels.len() implies (
            #[trigger] self@.channels[a]).thread != (#[trigger] self@.channels[b]).thread by {
                let a0 = if a < k {
                    a
                } else {
                    a + 1
                };
                let b0 = if b < k {
                    b
                } else {
                    b + 1
                };
                assert(old(self)@.channels[a0].thread != old(self)@.channels[b0].thread);
            }
            assert forall|j: int| 0 <= j < self@.channels.len() implies (
            #[trigger] self@.channels[j]).refs > 0 by {
                let j0 = if j < k {
                    j
                } else {
                    j + 1
                };
                assert(old(self)@.channels[j0].refs > 0);
            }
        }
        let waiting = match self.state {
            IoDeviceState::Unregistering => true,
            _ => false,
        };
        if waiting && self.channels.len() == 0 {
            self.state = IoDeviceState::Gone;
            self.dev.unregister_callback();
            true
        } else {
            false
        }
    }

    /// How often the channel of the thread was taken and not put back; zero
    /// without one.
    pub fn channel_refs(&self, thread: Thread) -> (n: usize)
        requires
            self@.wf(),
        ensures
            self@.has_channel(thread) ==> n == self@.channels[self@.channel_of(thread)].refs,
            !self@.has_channel(thread) ==> n == 0,
    {
        match self.find(thread) {
            Some(k) => self.channels[k].refs,
            None => 0,
        }
    }

    /// The data of the channel of the thread that the caller acts as: a
    /// caller reaches the data of its own channel only. A thread without a
    /// channel is left out.
    pub fn channel_data(&self, threads: &ThreadRegistry) -> (data: &Dev::ChannelData)
        requires
            threads@.current.is_some(),
            self@.wf(),
            self@.has_channel(threads@.current.unwrap()),
        ensures
            *data == self.spec_data(self@.channel_of(threads@.current.unwrap())),
    {
        let thread = Thread::current(threads).unwrap();
        let k = self.find(thread).unwrap();
        &self.channels[k].data
    }

    /// The data of the channel of the thread that the caller acts as, to
    /// change it in place. A thread without a channel is left out.
    pub fn channel_data_mut(&mut self, threads: &ThreadRegistry) -> (data: &mut Dev::ChannelData)
        requires
            old(self)@.wf(),
            threads@.current.is_some(),
            old(self)@.has_channel(threads@.current.unwrap()),
        ensures
            *data == old(self).spec_data(old(self)@.channel_of(threads@.current.unwrap())),
            final(self)@.state == old(self)@.state,
            final(self)@.name == old(self)@.name,
            final(self)@.channels.len() == old(self)@.channels.len(),
            forall|j: int|
                0 <= j < old(self)@.channels.len() ==> final(self)@.channels[j] == old(
                    self,
                )@.channels[j],
            final(self).spec_data(old(self)@.channel_of(threads@.current.unwrap()))
                == *final(data),
            forall|j: int|
                0 <= j < old(self)@.channels.len() && j != old(self)@.channel_of(
                    threads@.current.unwrap(),
                ) ==> final(self).spec_data(j) == old(self).spec_data(j),
    {
        let thread = Thread::current(threads).unwrap();
        let k = self.find(thread).unwrap();
        &mut self.channels[k].data
    }

    /// Puts new data into the channel of the thread that the caller acts as
    /// and gives the old. A thread without a channel is left out.
    pub fn replace_channel_data(
        &mut self,
        threads: &ThreadRegistry,
        data: Dev::ChannelData,
    ) -> (prev: Dev::ChannelData)
        requires
            threads@.current.is_some(),
            old(self)@.wf(),
            old(self)@.has_channel(threads@.current.unwrap()),
        ensures
            final(self)@ == old(self)@,
            prev == old(self).spec_data(old(self)@.channel_of(threads@.current.unwrap())),
            final(self).spec_data(old(self)@.channel_of(threads@.current.unwrap())) == data,
            forall|j: int|
                0 <= j < old(self)@.channels.len() && j != old(self)@.channel_of(threads@.current.unwrap())
                    ==> final(self).spec_data(j) == old(self).spec_data(j),
    {
        let thread = Thread::current(threads).unwrap();
        let k = self.find(thread).unwrap();
        let rec = self.channels.remove(k);
        let ChannelRecord { thread: t, refs, data: prev } = rec;
        self.channels.insert(k, ChannelRecord { thread: t, refs, data });
        proof {
            assert(self@.channels =~= old(self)@.channels);
        }
        prev
    }

    /// Visits the channels of the device in the order in which they were
    /// first taken. `channel_cb` is called on the data of each channel and
    /// on the context; the visit ends with the first call that gives
    /// `Cancel`, or after the last channel. `done_cb` is then called, once,
    /// with the status of the last call (`Proceed` where no channel was
    /// visited) and the context. Gives that status and the number of
    /// channels visited.
    pub fn traverse_io_channels<Ctx, F, G>(
        &mut self,
        context: Ctx,
        channel_cb: F,
        done_cb: G,
    ) -> (r: (ChannelTraverseStatus, usize)) where
        F: Fn(&mut Dev::ChannelData, &mut Ctx) -> ChannelTraverseStatus,
        G: FnOnce(ChannelTraverseStatus, Ctx),

        requires
            old(self)@.wf(),
            forall|d: &mut Dev::ChannelData, c: &mut Ctx| call_requires(channel_cb, (d, c)),
            forall|s: ChannelTraverseStatus, c: Ctx| call_requires(done_cb, (s, c)),
        ensures
            final(self)@ == old(self)@,
            r.1 <= old(self)@.channels.len(),
            r.0 == ChannelTraverseStatus::Proceed ==> r.1 == old(self)@.channels.len(),
            r.0 == ChannelTraverseStatus::Cancel ==> r.1 >= 1,
    {
        let mut ctx = context;
        let mut status = ChannelTraverseStatus::Proceed;
        let mut k: usize = 0;
        let n = self.channels.len();
        let mut go = true;
        while go && k < n
            invariant
                0 <= k <= n,
                n == self.channels@.len(),
                self@ == old(self)@,
                go == (status == ChannelTraverseStatus::Proceed),
                !go ==> k >= 1,
                forall|d: &mut Dev::ChannelData, c: &mut Ctx| call_requires(channel_cb, (d, c)),
            decreases n - k,
        {
            let rec = self.channels.remove(k);
            let ChannelRecord { thread, refs, data } = rec;
            let mut data = data;
            let s = channel_cb(&mut data, &mut ctx);
            self.channels.insert(k, ChannelRecord { thread, refs, data });
            proof {
                assert(self@.channels =~= old(self)@.channels);
            }
            k += 1;
            match s {
                ChannelTraverseStatus::Cancel => {
                    status = ChannelTraverseStatus::Cancel;
                    go = false;
                },
                ChannelTraverseStatus::Proceed => {},
            }
        }
        done_cb(status, ctx);
        (status, k)
    }
}

} // verus!
