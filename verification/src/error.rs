//! The errors that the layer reports.
use vstd::prelude::*;
use vstd::string::StringExecFns;
use crate::errno::{nix_errno_text, Errno};
use crate::text::{signed_decimal, spec_signed_decimal};

verus! {

/// Errors of device and module operations.
#[allow(inconsistent_fields)]
#[derive(Debug, Clone, PartialEq, Eq)]
pub enum SpdkError {
    /// No module of this name exists.
    BdevModuleNotFound { name: String },
    /// The device is claimed by another module.
    BdevAlreadyClaimed { name: String },
    /// The device is not claimed by the module.
    BdevNotClaimed { name: String, mod_name: String },
    /// The device could not be unregistered.
    BdevUnregisterFailed { source: Errno, name: String },
    /// A value could not be turned into JSON text; `source` says why.
    SerdeFailed { source: String },
    /// The JSON writer turned the text down with this code.
    JsonWriteFailed { code: i32 },
}

/// A result whose error is an [`SpdkError`].
pub type SpdkResult<T> = Result<T, SpdkError>;

/// Errors of operations on a descriptor.
#[derive(Debug, Clone, PartialEq, Eq)]
pub enum BdevDescError {
    /// No I/O channel could be had for the device.
    GetIOChannel { bdev_name: String },
    /// The range could not be locked.
    LbaLock { source: Errno, bdev_name: String },
    /// The range could not be unlocked.
    LbaUnlock { source: Errno, bdev_name: String },
}

/// Errors of buffer allocation.
#[derive(Debug, Clone, Copy, PartialEq, Eq, Structural)]
pub enum DmaError {
    /// No buffer could be allocated.
    Alloc,
}

/// The text of three parts in a row.
pub open spec fn spec_join3(a: Seq<char>, b: Seq<char>, c: Seq<char>) -> Seq<char> {
    a + b + c
}

/// Puts a text between two others.
pub fn join3(a: &str, b: &str, c: &str) -> (out: String)
    ensures
        out@ == spec_join3(a@, b@, c@),
{
    let mut out = String::from_str(a);
    out.append(b);
    out.append(c);
    out
}

impl BdevDescError {
    /// The name of the device that the error is about.
    pub open spec fn spec_bdev_name(&self) -> Seq<char> {
        match self {
            BdevDescError::GetIOChannel { bdev_name } => bdev_name@,
            BdevDescError::LbaLock { bdev_name, .. } => bdev_name@,
            BdevDescError::LbaUnlock { bdev_name, .. } => bdev_name@,
        }
    }

    /// The sentence that says what failed.
    pub open spec fn spec_message(&self) -> Seq<char> {
        match self {
            BdevDescError::GetIOChannel { bdev_name } => spec_join3(
                "Failed to get I/O channel for '"@,
                bdev_name@,
                "'"@,
            ),
            BdevDescError::LbaLock { bdev_name, .. } => spec_join3(
                "Failed to lock LBA range for '"@,
                bdev_name@,
                "'"@,
            ),
            BdevDescError::LbaUnlock { bdev_name, .. } => spec_join3(
                "Failed to unlock LBA range for '"@,
                bdev_name@,
                "'"@,
            ),
        }
    }

    /// Gives the sentence that says what failed.
    pub fn message(&self) -> (msg: String)
        ensures
            msg@ == self.spec_message(),
    {
        match self {
            BdevDescError::GetIOChannel { bdev_name } => join3(
                "Failed to get I/O channel for '",
                bdev_name.as_str(),
                "'",
            ),
            BdevDescError::LbaLock { bdev_name, .. } => join3(
                "Failed to lock LBA range for '",
                bdev_name.as_str(),
                "'",
            ),
            BdevDescError::LbaUnlock { bdev_name, .. } => join3(
                "Failed to unlock LBA range for '",
                bdev_name.as_str(),
                "'",
            ),
        }
    }
}

impl DmaError {
    /// Gives the sentence that says what failed.
    pub fn message(&self) -> (msg: String)
        ensures
            msg@ == "Failed to allocate DMA buffer"@,
    {
        String::from_str("Failed to allocate DMA buffer")
    }
}

impl SpdkError {
    /// The sentence that says what failed.
    pub open spec fn spec_message(&self) -> Seq<char> {
        match self {
            SpdkError::BdevModuleNotFound { name } => "Bdev module '"@ + name@
                + "' does not exist"@,
            SpdkError::BdevAlreadyClaimed { name } => "Bdev '"@ + name@
                + "' is already claimed by another module"@,
            SpdkError::BdevNotClaimed { name, mod_name } => "Bdev '"@ + name@
                + "' is not claimed by this module '"@ + mod_name@ + "'"@,
            SpdkError::BdevUnregisterFailed { source, name } => "Failed to unregister Bdev '"@
                + name@ + "': "@ + nix_errno_text(source.spec_code()),
            SpdkError::SerdeFailed { source } => "Serde JSON serialization failed: "@ + source@,
            SpdkError::JsonWriteFailed { code } => "SPDK JSON write failed: error code "@
                + spec_signed_decimal(*code as int),
        }
    }

    /// Gives the sentence that says what failed.
    pub fn message(&self) -> (msg: String)
        ensures
            msg@ == self.spec_message(),
    {
        match self {
            SpdkError::BdevModuleNotFound { name } => join3(
                "Bdev module '",
                name.as_str(),
                "' does not exist",
            ),
            SpdkError::BdevAlreadyClaimed { name } => join3(
                "Bdev '",
                name.as_str(),
                "' is already claimed by another module",
            ),
            SpdkError::BdevNotClaimed { name, mod_name } => {
                let mut msg = join3("Bdev '", name.as_str(), "' is not claimed by this module '");
                msg.append(mod_name.as_str());
                msg.append("'");
                msg
            },
            SpdkError::BdevUnregisterFailed { source, name } => {
                let mut msg = join3("Failed to unregister Bdev '", name.as_str(), "': ");
                msg.append(source.describe().as_str());
                msg
            },
            SpdkError::SerdeFailed { source } => {
                let mut msg = String::from_str("Serde JSON serialization failed: ");
                msg.append(source.as_str());
                msg
            },
            SpdkError::JsonWriteFailed { code } => {
                let mut msg = String::from_str("SPDK JSON write failed: error code ");
                msg.append(signed_decimal(*code as i64).as_str());
                msg
            },
        }
    }
}

} // verus!
