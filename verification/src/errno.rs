//! Operating-system error numbers and the results that carry them.
//!
//! The native layer reports failures as integers: zero for success, anything
//! else an error number, often negated. This module turns such integers into
//! `Result` values whose error is an [`Errno`].
use vstd::prelude::*;

verus! {

/// No such device.
pub const ENODEV: i32 = 19;

/// The name is taken already.
pub const EEXIST: i32 = 17;

/// The operation is not permitted.
pub const EPERM: i32 = 1;

/// An argument is not valid.
pub const EINVAL: i32 = 22;

/// The resource is busy.
pub const EBUSY: i32 = 16;

/// No space is left on the device.
pub const ENOSPC: i32 = 28;

/// The number under which `nix` files a raw error number: the number itself
/// where `nix` has a variant for it on this platform, zero where it has none.
pub uninterp spec fn nix_errno_code(raw: i32) -> i32;

/// The text that `nix` prints for the error filed under a raw error number.
pub uninterp spec fn nix_errno_text(raw: i32) -> Seq<char>;

/// Calls `nix::errno::Errno::from_raw` and gives the discriminant of the
/// variant that came back. Not proved: that the discriminant is the raw
/// number itself or zero, which is what the variant table of `nix` shows
/// (every variant is declared with its platform constant, and the catch-all
/// `UnknownErrno` with zero).
#[verifier::external_body]
fn nix_classify(raw: i32) -> (code: i32)
    ensures
        code == nix_errno_code(raw),
        code == raw || code == 0,
{
    nix::errno::Errno::from_raw(raw) as i32
}

/// Calls `nix::errno::Errno::from_raw` and formats the variant with its
/// `Display` impl. Not proved: that the text depends on the raw number alone.
#[verifier::external_body]
fn nix_describe(raw: i32) -> (text: String)
    ensures
        text@ == nix_errno_text(raw),
{
    format!("{}", nix::errno::Errno::from_raw(raw))
}

/// An operating-system error number, filed as `nix` files it.
#[derive(Debug, Clone, Copy, PartialEq, Eq, Structural)]
pub struct Errno {
    code: i32,
}

impl Errno {
    /// The number this error is filed under; zero stands for an unknown error.
    pub closed spec fn spec_code(self) -> i32 {
        self.code
    }

    /// The error that a raw number is filed under.
    pub open spec fn spec_from_raw(raw: i32) -> Self {
        Self::spec_known(nix_errno_code(raw))
    }

    /// The error with the given number.
    pub closed spec fn spec_known(code: i32) -> Self {
        Errno { code }
    }

    /// Files a raw error number.
    pub fn from_raw(raw: i32) -> (e: Self)
        ensures
            e == Self::spec_from_raw(raw),
            e.spec_code() == nix_errno_code(raw),
            e.spec_code() == raw || e.spec_code() == 0,
    {
        Errno { code: nix_classify(raw) }
    }

    /// The number this error is filed under.
    pub fn code(&self) -> (c: i32)
        ensures
            c == self.spec_code(),
    {
        self.code
    }

    /// True where the error is filed under the given number.
    pub fn is(&self, code: i32) -> (b: bool)
        ensures
            b == (self.spec_code() == code),
    {
        self.code == code
    }

    /// The text of this error, as `nix` prints it.
    pub fn describe(&self) -> (text: String)
        ensures
            text@ == nix_errno_text(self.spec_code()),
    {
        nix_describe(self.code)
    }
}

/// A result whose error is an [`Errno`].
pub type ErrnoResult<T> = Result<T, Errno>;

/// The size of an error number: the number itself, or its negation where it
/// is negative.
pub open spec fn spec_abs(errno: i32) -> int {
    if errno < 0 {
        -(errno as int)
    } else {
        errno as int
    }
}

/// The result that stands for a native return value: `Ok(val)` for zero,
/// else the error filed under the absolute value.
pub open spec fn spec_errno_result<T>(val: T, errno: i32) -> ErrnoResult<T> {
    if errno == 0 {
        Ok(val)
    } else {
        Err(Errno::spec_from_raw(spec_abs(errno) as i32))
    }
}

/// Turns a native return value into a result: `Ok(val)` for zero, else the
/// error filed under the absolute value of `errno`.
pub fn errno_result_from_i32<T>(val: T, errno: i32) -> (r: ErrnoResult<T>)
    requires
        errno > i32::MIN,
    ensures
        r == spec_errno_result(val, errno),
{
    if errno == 0 {
        Ok(val)
    } else {
        Err(Errno::from_raw(abs_i32(errno)))
    }
}

/// The error filed under the absolute value of `errno`.
pub fn errno_error<T>(errno: i32) -> (r: ErrnoResult<T>)
    requires
        errno > i32::MIN,
    ensures
        r == Err::<T, Errno>(Errno::spec_from_raw(spec_abs(errno) as i32)),
{
    Err(Errno::from_raw(abs_i32(errno)))
}

/// The absolute value of a number that has one.
pub fn abs_i32(v: i32) -> (a: i32)
    requires
        v > i32::MIN,
    ensures
        a == spec_abs(v),
        a >= 0,
{
    if v < 0 {
        -v
    } else {
        v
    }
}

/// Turns a signed native return value into a result: `Ok(())` for zero, else
/// the error that `f` makes of the absolute value of the code.
pub fn to_result<E, F: FnOnce(i32) -> E>(code: i32, f: F) -> (r: Result<(), E>)
    requires
        code > i32::MIN,
        code != 0 ==> f.requires((spec_abs(code) as i32,)),
    ensures
        code == 0 <==> r.is_ok(),
        code != 0 ==> r.is_err() && f.ensures((spec_abs(code) as i32,), r.unwrap_err()),
{
    if code == 0 {
        Ok(())
    } else {
        Err(f(abs_i32(code)))
    }
}

/// Turns an unsigned native return value into a result: `Ok(())` for zero,
/// else the error that `f` makes of the code.
pub fn to_result_u32<E, F: FnOnce(u32) -> E>(code: u32, f: F) -> (r: Result<(), E>)
    requires
        code != 0 ==> f.requires((code,)),
    ensures
        code == 0 <==> r.is_ok(),
        code != 0 ==> r.is_err() && f.ensures((code,), r.unwrap_err()),
{
    if code == 0 {
        Ok(())
    } else {
        Err(f(code))
    }
}

} // verus!
