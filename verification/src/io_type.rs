//! Kinds of I/O request and the states in which a request completes.
use vstd::prelude::*;

verus! {

/// The code of the last entry of [`IoType`], which counts the request kinds.
pub const NUM_IO_TYPES: u32 = 20;

/// The least code of an [`IoStatus`].
pub const MIN_IO_STATUS: i32 = -8;

/// The greatest code of an [`IoStatus`], which is that of success.
pub const IO_STATUS_SUCCESS: i32 = 1;

/// Kind of an I/O request. The codes count up from zero in declaration order.
#[derive(Debug, Clone, Copy, PartialEq, Eq, Structural)]
pub enum IoType {
    /// No valid request kind.
    Invalid,
    /// Read blocks.
    Read,
    /// Write blocks.
    Write,
    /// Unmap (trim) blocks.
    Unmap,
    /// Flush cached writes.
    Flush,
    /// Reset the device.
    Reset,
    /// NVMe admin command.
    NvmeAdmin,
    /// NVMe I/O command.
    NvmeIo,
    /// NVMe I/O command with separate metadata.
    NvmeIoMd,
    /// Write zeroes to blocks.
    WriteZeros,
    /// Zero-copy buffer exchange.
    ZeroCopy,
    /// Report zone information.
    ZoneInfo,
    /// Zone management command.
    ZoneManagement,
    /// Append to a zone.
    ZoneAppend,
    /// Compare blocks with a buffer.
    Compare,
    /// Compare, then write if equal.
    CompareAndWrite,
    /// Abort an earlier request.
    Abort,
    /// Seek the next hole.
    SeekHole,
    /// Seek the next data.
    SeekData,
    /// Copy blocks within the device.
    Copy,
    /// The number of request kinds; no request itself.
    IoNumTypes,
}

impl IoType {
    /// The code of a request kind.
    pub open spec fn spec_code(self) -> u32 {
        match self {
            IoType::Invalid => 0u32,
            IoType::Read => 1u32,
            IoType::Write => 2u32,
            IoType::Unmap => 3u32,
            IoType::Flush => 4u32,
            IoType::Reset => 5u32,
            IoType::NvmeAdmin => 6u32,
            IoType::NvmeIo => 7u32,
            IoType::NvmeIoMd => 8u32,
            IoType::WriteZeros => 9u32,
            IoType::ZeroCopy => 10u32,
            IoType::ZoneInfo => 11u32,
            IoType::ZoneManagement => 12u32,
            IoType::ZoneAppend => 13u32,
            IoType::Compare => 14u32,
            IoType::CompareAndWrite => 15u32,
            IoType::Abort => 16u32,
            IoType::SeekHole => 17u32,
            IoType::SeekData => 18u32,
            IoType::Copy => 19u32,
            IoType::IoNumTypes => 20u32,
        }
    }

    /// The request kind with the given code; `Invalid` stands in for codes
    /// that no kind has.
    pub open spec fn spec_from_code(code: u32) -> Self {
        if code == 1 {
            IoType::Read
        } else if code == 2 {
            IoType::Write
        } else if code == 3 {
            IoType::Unmap
        } else if code == 4 {
            IoType::Flush
        } else if code == 5 {
            IoType::Reset
        } else if code == 6 {
            IoType::NvmeAdmin
        } else if code == 7 {
            IoType::NvmeIo
        } else if code == 8 {
            IoType::NvmeIoMd
        } else if code == 9 {
            IoType::WriteZeros
        } else if code == 10 {
            IoType::ZeroCopy
        } else if code == 11 {
            IoType::ZoneInfo
        } else if code == 12 {
            IoType::ZoneManagement
        } else if code == 13 {
            IoType::ZoneAppend
        } else if code == 14 {
            IoType::Compare
        } else if code == 15 {
            IoType::CompareAndWrite
        } else if code == 16 {
            IoType::Abort
        } else if code == 17 {
            IoType::SeekHole
        } else if code == 18 {
            IoType::SeekData
        } else if code == 19 {
            IoType::Copy
        } else if code == 20 {
            IoType::IoNumTypes
        } else {
            IoType::Invalid
        }
    }

    /// Gives the code of a request kind.
    pub fn code(self) -> (c: u32)
        ensures
            c == self.spec_code(),
            c <= NUM_IO_TYPES,
            Self::spec_from_code(c) == self,
    {
        match self {
            IoType::Invalid => 0,
            IoType::Read => 1,
            IoType::Write => 2,
            IoType::Unmap => 3,
            IoType::Flush => 4,
            IoType::Reset => 5,
            IoType::NvmeAdmin => 6,
            IoType::NvmeIo => 7,
            IoType::NvmeIoMd => 8,
            IoType::WriteZeros => 9,
            IoType::ZeroCopy => 10,
            IoType::ZoneInfo => 11,
            IoType::ZoneManagement => 12,
            IoType::ZoneAppend => 13,
            IoType::Compare => 14,
            IoType::CompareAndWrite => 15,
            IoType::Abort => 16,
            IoType::SeekHole => 17,
            IoType::SeekData => 18,
            IoType::Copy => 19,
            IoType::IoNumTypes => 20,
        }
    }

    /// Reads a request kind out of its code. A code beyond
    /// [`NUM_IO_TYPES`] names no kind and is left out.
    pub fn from_code(code: u32) -> (t: Self)
        requires
            code <= NUM_IO_TYPES,
        ensures
            t == Self::spec_from_code(code),
            t.spec_code() == code,
    {
        if code == 1 {
            IoType::Read
        } else if code == 2 {
            IoType::Write
        } else if code == 3 {
            IoType::Unmap
        } else if code == 4 {
            IoType::Flush
        } else if code == 5 {
            IoType::Reset
        } else if code == 6 {
            IoType::NvmeAdmin
        } else if code == 7 {
            IoType::NvmeIo
        } else if code == 8 {
            IoType::NvmeIoMd
        } else if code == 9 {
            IoType::WriteZeros
        } else if code == 10 {
            IoType::ZeroCopy
        } else if code == 11 {
            IoType::ZoneInfo
        } else if code == 12 {
            IoType::ZoneManagement
        } else if code == 13 {
            IoType::ZoneAppend
        } else if code == 14 {
            IoType::Compare
        } else if code == 15 {
            IoType::CompareAndWrite
        } else if code == 16 {
            IoType::Abort
        } else if code == 17 {
            IoType::SeekHole
        } else if code == 18 {
            IoType::SeekData
        } else if code == 19 {
            IoType::Copy
        } else if code == 20 {
            IoType::IoNumTypes
        } else {
            IoType::Invalid
        }
    }
}

/// State in which an I/O request completed. The codes run from
/// [`MIN_IO_STATUS`] up to [`IO_STATUS_SUCCESS`] in declaration order.
#[derive(Debug, Clone, Copy, PartialEq, Eq, Structural)]
#[non_exhaustive]
pub enum IoStatus {
    /// The asynchronous I/O backend failed.
    AioError,
    /// The request was aborted.
    Aborted,
    /// The first half of a fused pair failed.
    FirstFusedFailed,
    /// A compare found a difference.
    MisCompared,
    /// No memory for the request; it may be retried.
    NoMemory,
    /// A SCSI error; the details are in the request.
    ScsiError,
    /// An NVMe error; the details are in the request.
    NvmeError,
    /// The request failed.
    Failed,
    /// The request has not completed.
    Pending,
    /// The request succeeded.
    Success,
}

impl IoStatus {
    /// The code of a completion state.
    pub open spec fn spec_code(self) -> i32 {
        match self {
            IoStatus::AioError => (-8i32),
            IoStatus::Aborted => (-7i32),
            IoStatus::FirstFusedFailed => (-6i32),
            IoStatus::MisCompared => (-5i32),
            IoStatus::NoMemory => (-4i32),
            IoStatus::ScsiError => (-3i32),
            IoStatus::NvmeError => (-2i32),
            IoStatus::Failed => (-1i32),
            IoStatus::Pending => 0i32,
            IoStatus::Success => 1i32,
        }
    }

    /// The completion state with the given code; `Pending` stands in for
    /// codes that no state has.
    pub open spec fn spec_from_code(code: i32) -> Self {
        if code == -8 {
            IoStatus::AioError
        } else if code == -7 {
            IoStatus::Aborted
        } else if code == -6 {
            IoStatus::FirstFusedFailed
        } else if code == -5 {
            IoStatus::MisCompared
        } else if code == -4 {
            IoStatus::NoMemory
        } else if code == -3 {
            IoStatus::ScsiError
        } else if code == -2 {
            IoStatus::NvmeError
        } else if code == -1 {
            IoStatus::Failed
        } else if code == 1 {
            IoStatus::Success
        } else {
            IoStatus::Pending
        }
    }

    /// Gives the code of a completion state.
    pub fn code(self) -> (c: i32)
        ensures
            c == self.spec_code(),
            MIN_IO_STATUS <= c <= IO_STATUS_SUCCESS,
            Self::spec_from_code(c) == self,
    {
        match self {
            IoStatus::AioError => -8,
            IoStatus::Aborted => -7,
            IoStatus::FirstFusedFailed => -6,
            IoStatus::MisCompared => -5,
            IoStatus::NoMemory => -4,
            IoStatus::ScsiError => -3,
            IoStatus::NvmeError => -2,
            IoStatus::Failed => -1,
            IoStatus::Pending => 0,
            IoStatus::Success => 1,
        }
    }

    /// Reads a completion state out of its code. A code outside
    /// [`MIN_IO_STATUS`] ..= [`IO_STATUS_SUCCESS`] names no state and is
    /// left out.
    pub fn from_code(code: i32) -> (s: Self)
        requires
            MIN_IO_STATUS <= code <= IO_STATUS_SUCCESS,
        ensures
            s == Self::spec_from_code(code),
            s.spec_code() == code,
    {
        if code == -8 {
            IoStatus::AioError
        } else if code == -7 {
            IoStatus::Aborted
        } else if code == -6 {
            IoStatus::FirstFusedFailed
        } else if code == -5 {
            IoStatus::MisCompared
        } else if code == -4 {
            IoStatus::NoMemory
        } else if code == -3 {
            IoStatus::ScsiError
        } else if code == -2 {
            IoStatus::NvmeError
        } else if code == -1 {
            IoStatus::Failed
        } else if code == 1 {
            IoStatus::Success
        } else {
            IoStatus::Pending
        }
    }

    /// Reads a completion state out of the one-byte code that a request
    /// carries.
    pub fn from_i8(code: i8) -> (s: Self)
        requires
            MIN_IO_STATUS <= code <= IO_STATUS_SUCCESS,
        ensures
            s == Self::spec_from_code(code as i32),
            s.spec_code() == code,
    {
        let wide: i32 = code as i32;
        Self::from_code(wide)
    }
}

} // verus!
