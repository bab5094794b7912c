//! I/O channels: what a caller needs to submit I/O to a device.
//!
//! A channel is taken from the directory through an open descriptor, by a
//! caller that acts as a thread and for that thread, and put back when the
//! caller is done with it. An [`IoChannel`] is a handle that
//! copies freely; an [`IoChannelGuard`] is the duty to put the channel back,
//! which cannot be copied and is discharged by giving the guard up.
use vstd::prelude::*;
use crate::registry::{BdevRegistry, RegistryView};
use crate::bdev_ops::BdevOps;
use crate::thread::Thread;

verus! {

/// Handle of an I/O channel: the way of one thread to one device.
#[derive(Debug, Clone, Copy, PartialEq, Eq, Structural)]
pub struct IoChannel {
    pub(crate) raw: u64,
    pub(crate) thread: Thread,
}

impl IoChannel {
    /// The place in the directory of the device that the channel leads to.
    pub open(crate) spec fn spec_bdev(&self) -> int {
        self.raw - 1
    }

    /// The thread that the channel belongs to.
    pub open(crate) spec fn spec_thread(&self) -> Thread {
        self.thread
    }

    /// The channel of a thread to the device with the given number. Zero
    /// names no device and is left out.
    pub(crate) fn from_ptr(raw: u64, thread: Thread) -> (c: Self)
        requires
            raw != 0,
        ensures
            c.spec_bdev() == raw - 1,
            c.spec_thread() == thread,
    {
        IoChannel { raw, thread }
    }

    /// The number of the device that the channel leads to.
    pub fn as_ptr(&self) -> (raw: u64)
        ensures
            raw == self.spec_bdev() + 1,
    {
        self.raw
    }

    /// The number of the device that the channel leads to.
    pub fn legacy_as_ptr(&self) -> (raw: u64)
        ensures
            raw == self.spec_bdev() + 1,
    {
        self.as_ptr()
    }

    /// The thread that the channel belongs to.
    pub fn thread(&self) -> (t: Thread)
        ensures
            t == self.spec_thread(),
    {
        self.thread
    }
}

/// A channel together with the duty to put it back.
#[derive(Debug)]
pub struct IoChannelGuard {
    chan: IoChannel,
}

impl RegistryView {
    /// The directory after a channel was taken.
    pub open spec fn take_channel(self) -> RegistryView {
        RegistryView { channels_out: self.channels_out + 1, ..self }
    }

    /// The directory after a channel was put back.
    pub open spec fn put_channel(self) -> RegistryView {
        RegistryView {
            channels_out: if self.channels_out > 0 {
                (self.channels_out - 1) as nat
            } else {
                0
            },
            ..self
        }
    }
}

impl IoChannelGuard {
    /// The channel that the guard holds.
    pub closed spec fn view(&self) -> IoChannel {
        self.chan
    }

    /// The guard of the channel of a thread to the device with the given
    /// number. Zero names no device and is left out.
    pub(crate) fn from_ptr(raw: u64, thread: Thread) -> (g: Self)
        requires
            raw != 0,
        ensures
            g@.spec_bdev() == raw - 1,
            g@.spec_thread() == thread,
    {
        IoChannelGuard { chan: IoChannel::from_ptr(raw, thread) }
    }

    /// The channel that the guard holds.
    pub fn channel(&self) -> (c: IoChannel)
        ensures
            c == self@,
    {
        self.chan
    }

    /// Puts the channel back and gives the guard up: one channel fewer is
    /// out.
    pub fn release<D: BdevOps>(self, reg: &mut BdevRegistry<D>)
        requires
            old(reg).wf(),
        ensures
            final(reg).wf(),
            final(reg)@ == old(reg)@.put_channel(),
    {
        if reg.channels_out > 0 {
            reg.channels_out = reg.channels_out - 1;
        }
    }
}

} // verus!
