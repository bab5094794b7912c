//! Status codes exchanged while visiting the I/O channels of a device.
use vstd::prelude::*;

verus! {

/// Outcome of one step of a channel traversal.
#[derive(Debug, Clone, Copy, PartialEq, Eq, Structural)]
pub enum ChannelTraverseStatus {
    /// Go on with the next channel.
    Proceed,
    /// Stop the traversal.
    Cancel,
}

impl ChannelTraverseStatus {
    /// The status that a raw code stands for: zero is `Proceed`, all else `Cancel`.
    pub open spec fn spec_from_code(code: i32) -> Self {
        if code == 0 {
            ChannelTraverseStatus::Proceed
        } else {
            ChannelTraverseStatus::Cancel
        }
    }

    /// The raw code of a status: 0 for `Proceed`, 1 for `Cancel`.
    pub open spec fn spec_code(self) -> i32 {
        match self {
            ChannelTraverseStatus::Proceed => 0i32,
            ChannelTraverseStatus::Cancel => 1i32,
        }
    }

    /// Reads a status out of a raw code.
    pub fn from_code(code: i32) -> (s: Self)
        ensures
            s == Self::spec_from_code(code),
    {
        if code == 0 {
            ChannelTraverseStatus::Proceed
        } else {
            ChannelTraverseStatus::Cancel
        }
    }

    /// Gives the raw code of a status.
    pub fn code(self) -> (c: i32)
        ensures
            c == self.spec_code(),
    {
        match self {
            ChannelTraverseStatus::Proceed => 0,
            ChannelTraverseStatus::Cancel => 1,
        }
    }
}

} // verus!
