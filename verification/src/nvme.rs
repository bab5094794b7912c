//! NVMe completion status: the status word of a completion and the kind and
//! code that it carries.
use vstd::prelude::*;
use vstd::string::StringExecFns;
use crate::errno::{nix_errno_code, nix_errno_text, Errno, ENOSPC};
use crate::text::{signed_decimal, spec_signed_decimal};

verus! {

/// Status code type of generic command status.
pub const SCT_GENERIC: i32 = 0;

/// Status code type of command specific status.
pub const SCT_COMMAND_SPECIFIC: i32 = 1;

/// Status code type of media and data integrity errors.
pub const SCT_MEDIA_ERROR: i32 = 2;

/// Status code type of path related status.
pub const SCT_PATH: i32 = 3;

/// Status code type of vendor specific status.
pub const SCT_VENDOR_SPECIFIC: i32 = 7;

/// Generic status code of success.
pub const SC_SUCCESS: i32 = 0;

/// Generic status code of a data transfer error.
pub const SC_DATA_TRANSFER_ERROR: i32 = 4;

/// Media status code of a block that was deallocated or never written.
pub const SC_DEALLOCATED_OR_UNWRITTEN_BLOCK: i32 = 135;

/// The status of an NVMe completion: the type of its status code, and the
/// code.
#[derive(Debug, Clone, Copy, PartialEq, Eq, Structural)]
pub enum NvmeStatus {
    /// Generic command status.
    Generic(i32),
    /// Command specific status.
    CmdSpecific(i32),
    /// Media and data integrity error.
    Media(i32),
    /// Path related status.
    Path(i32),
    /// Vendor specific status.
    VendorSpecific(i32),
    /// A status code type that is none of the above, and the code.
    Unknown(i32, i32),
}

/// The status word of an NVMe completion: sixteen bits, of which bits 1 to 8
/// are the status code and bits 9 to 11 the status code type.
#[allow(non_camel_case_types)]
#[derive(Debug, Clone, Copy, PartialEq, Eq, Structural)]
pub struct spdk_nvme_status {
    /// The sixteen bits.
    pub raw: u16,
}

impl spdk_nvme_status {
    /// The status code type in the word.
    pub open spec fn spec_sct(self) -> u16 {
        (self.raw >> 9) & 7
    }

    /// The status code in the word.
    pub open spec fn spec_sc(self) -> u16 {
        (self.raw >> 1) & 255
    }

    /// Gives the status code type in the word.
    pub fn sct(&self) -> (t: u16)
        ensures
            t == self.spec_sct(),
            t <= 7,
    {
        let raw = self.raw;
        assert((raw >> 9) & 7 <= 7) by (bit_vector);
        (raw >> 9) & 7
    }

    /// Gives the status code in the word.
    pub fn sc(&self) -> (c: u16)
        ensures
            c == self.spec_sc(),
            c <= 255,
    {
        let raw = self.raw;
        assert((raw >> 1) & 255 <= 255) by (bit_vector);
        (raw >> 1) & 255
    }

    /// The status that the word carries.
    pub fn status(&self) -> (s: NvmeStatus)
        ensures
            s == NvmeStatus::spec_from_codes(self.spec_sct() as i32, self.spec_sc() as i32),
    {
        let sct: i32 = self.sct() as i32;
        let sc: i32 = self.sc() as i32;
        NvmeStatus::from_codes(sct, sc)
    }
}

impl NvmeStatus {
    /// The status of a type and a code.
    pub open spec fn spec_from_codes(sct: i32, sc: i32) -> NvmeStatus {
        if sct == SCT_GENERIC {
            NvmeStatus::Generic(sc)
        } else if sct == SCT_COMMAND_SPECIFIC {
            NvmeStatus::CmdSpecific(sc)
        } else if sct == SCT_MEDIA_ERROR {
            NvmeStatus::Media(sc)
        } else if sct == SCT_PATH {
            NvmeStatus::Path(sc)
        } else if sct == SCT_VENDOR_SPECIFIC {
            NvmeStatus::VendorSpecific(sc)
        } else {
            NvmeStatus::Unknown(sct, sc)
        }
    }

    /// The type and the code of a status.
    pub open spec fn spec_codes(self) -> (i32, i32) {
        match self {
            NvmeStatus::Generic(c) => (SCT_GENERIC, c),
            NvmeStatus::CmdSpecific(c) => (SCT_COMMAND_SPECIFIC, c),
            NvmeStatus::Media(c) => (SCT_MEDIA_ERROR, c),
            NvmeStatus::Path(c) => (SCT_PATH, c),
            NvmeStatus::VendorSpecific(c) => (SCT_VENDOR_SPECIFIC, c),
            NvmeStatus::Unknown(sct, sc) => (sct, sc),
        }
    }

    /// Success.
    pub open spec fn spec_success() -> NvmeStatus {
        NvmeStatus::Generic(SC_SUCCESS)
    }

    /// The vendor specific status that says that no space is left.
    pub open spec fn spec_no_space() -> NvmeStatus {
        NvmeStatus::VendorSpecific(ENOSPC)
    }

    /// Success.
    pub fn success() -> (s: Self)
        ensures
            s == Self::spec_success(),
    {
        NvmeStatus::Generic(SC_SUCCESS)
    }

    /// The status of a block that was deallocated or never written.
    pub fn unwritten_block() -> (s: Self)
        ensures
            s == NvmeStatus::Media(SC_DEALLOCATED_OR_UNWRITTEN_BLOCK),
    {
        NvmeStatus::Media(SC_DEALLOCATED_OR_UNWRITTEN_BLOCK)
    }

    /// The vendor specific status that says that no space is left.
    pub fn no_space() -> (s: Self)
        ensures
            s == Self::spec_no_space(),
    {
        NvmeStatus::VendorSpecific(ENOSPC)
    }

    /// The generic status of a data transfer error.
    pub fn data_transfer_error() -> (s: Self)
        ensures
            s == NvmeStatus::Generic(SC_DATA_TRANSFER_ERROR),
    {
        NvmeStatus::Generic(SC_DATA_TRANSFER_ERROR)
    }

    /// Makes a status out of a type and a code. The type and the code come
    /// back from it unchanged.
    pub fn from_codes(sct: i32, sc: i32) -> (s: Self)
        ensures
            s == Self::spec_from_codes(sct, sc),
            s.spec_codes() == (sct, sc),
    {
        if sct == SCT_GENERIC {
            NvmeStatus::Generic(sc)
        } else if sct == SCT_COMMAND_SPECIFIC {
            NvmeStatus::CmdSpecific(sc)
        } else if sct == SCT_MEDIA_ERROR {
            NvmeStatus::Media(sc)
        } else if sct == SCT_PATH {
            NvmeStatus::Path(sc)
        } else if sct == SCT_VENDOR_SPECIFIC {
            NvmeStatus::VendorSpecific(sc)
        } else {
            NvmeStatus::Unknown(sct, sc)
        }
    }

    /// The type and the code of the status.
    pub fn as_sct_sc_codes(&self) -> (codes: (i32, i32))
        ensures
            codes == self.spec_codes(),
    {
        match *self {
            NvmeStatus::Generic(c) => (SCT_GENERIC, c),
            NvmeStatus::CmdSpecific(c) => (SCT_COMMAND_SPECIFIC, c),
            NvmeStatus::Media(c) => (SCT_MEDIA_ERROR, c),
            NvmeStatus::Path(c) => (SCT_PATH, c),
            NvmeStatus::VendorSpecific(c) => (SCT_VENDOR_SPECIFIC, c),
            NvmeStatus::Unknown(sct, sc) => (sct, sc),
        }
    }

    /// True where the status is success.
    pub fn is_success(&self) -> (b: bool)
        ensures
            b == (*self == Self::spec_success()),
    {
        match *self {
            NvmeStatus::Generic(c) => c == SC_SUCCESS,
            _ => false,
        }
    }

    /// True where the status is the vendor specific one that says that no
    /// space is left.
    pub fn is_no_space(&self) -> (b: bool)
        ensures
            b == (*self == Self::spec_no_space()),
    {
        match *self {
            NvmeStatus::VendorSpecific(c) => c == ENOSPC,
            _ => false,
        }
    }
}

impl NvmeStatus {
    /// True where a vendor specific code is an error number that is known:
    /// it is more than zero, and it is filed under itself.
    pub open spec fn spec_known_errno(code: i32) -> bool {
        code > 0 && nix_errno_code(code) != 0
    }

    /// The status in words: the name of the type of its status code, and in
    /// brackets the code. A vendor specific code that is a known error
    /// number has the text of that error before it.
    pub open spec fn spec_describe(self) -> Seq<char> {
        match self {
            NvmeStatus::Generic(c) => "SPDK_NVME_SCT_GENERIC ("@ + spec_signed_decimal(c as int)
                + ")"@,
            NvmeStatus::CmdSpecific(c) => "SPDK_NVME_SCT_COMMAND_SPECIFIC ("@
                + spec_signed_decimal(c as int) + ")"@,
            NvmeStatus::Media(c) => "SPDK_NVME_SCT_MEDIA_ERROR ("@ + spec_signed_decimal(c as int)
                + ")"@,
            NvmeStatus::Path(c) => "SPDK_NVME_SCT_PATH ("@ + spec_signed_decimal(c as int) + ")"@,
            NvmeStatus::VendorSpecific(c) => if Self::spec_known_errno(c) {
                "SPDK_NVME_SCT_VENDOR_SPECIFIC ("@ + nix_errno_text(c) + ": "@
                    + spec_signed_decimal(c as int) + ")"@
            } else {
                "SPDK_NVME_SCT_VENDOR_SPECIFIC ("@ + spec_signed_decimal(c as int) + ")"@
            },
            NvmeStatus::Unknown(sct, sc) => "UNKNOWN ("@ + spec_signed_decimal(sct as int) + ","@
                + spec_signed_decimal(sc as int) + ")"@,
        }
    }

    /// Puts the status in words.
    pub fn describe(&self) -> (text: String)
        ensures
            text@ == self.spec_describe(),
    {
        match *self {
            NvmeStatus::Generic(c) => Self::name_and_code("SPDK_NVME_SCT_GENERIC (", c),
            NvmeStatus::CmdSpecific(c) => Self::name_and_code(
                "SPDK_NVME_SCT_COMMAND_SPECIFIC (",
                c,
            ),
            NvmeStatus::Media(c) => Self::name_and_code("SPDK_NVME_SCT_MEDIA_ERROR (", c),
            NvmeStatus::Path(c) => Self::name_and_code("SPDK_NVME_SCT_PATH (", c),
            NvmeStatus::VendorSpecific(c) => {
                let known = if c > 0 {
                    let en = Errno::from_raw(c);
                    !en.is(0)
                } else {
                    false
                };
                if known {
                    let en = Errno::from_raw(c);
                    assert(en.spec_code() == c);
                    let mut text = String::from_str("SPDK_NVME_SCT_VENDOR_SPECIFIC (");
                    text.append(en.describe().as_str());
                    text.append(": ");
                    text.append(signed_decimal(c as i64).as_str());
                    text.append(")");
                    text
                } else {
                    Self::name_and_code("SPDK_NVME_SCT_VENDOR_SPECIFIC (", c)
                }
            },
            NvmeStatus::Unknown(sct, sc) => {
                let mut text = String::from_str("UNKNOWN (");
                text.append(signed_decimal(sct as i64).as_str());
                text.append(",");
                text.append(signed_decimal(sc as i64).as_str());
                text.append(")");
                text
            },
        }
    }

    fn name_and_code(name: &str, code: i32) -> (text: String)
        ensures
            text@ == name@ + spec_signed_decimal(code as int) + ")"@,
    {
        let mut text = String::from_str(name);
        text.append(signed_decimal(code as i64).as_str());
        text.append(")");
        text
    }
}

} // verus!
