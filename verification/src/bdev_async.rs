//! Outcomes of device operations that complete later.
//!
//! The runtime answers such an operation twice: with a status at once, and,
//! where that status is zero, with the status of the completion. Both end in
//! the same kind of result.
use vstd::prelude::*;
use crate::bdev::Bdev;
use crate::registry::{spec_unregister_status, BdevRegistry, Phase};
use crate::bdev_ops::BdevOps;
use crate::errno::{abs_i32, errno_result_from_i32, spec_abs, spec_errno_result, Errno, ErrnoResult};
use crate::error::{SpdkError, SpdkResult};

verus! {

/// The result of a request to unregister the device of the given name that
/// completed with the given status: success for zero, else the failure with
/// the name and the error filed under the absolute value of the status.
pub fn unregister_result(name: String, rc: i32) -> (r: SpdkResult<()>)
    requires
        rc > i32::MIN,
    ensures
        r.is_ok() <==> rc == 0,
        r.is_err() ==> (r matches Err(SpdkError::BdevUnregisterFailed { source, name: n })
            && n@ == name@ && source == Errno::spec_from_raw(spec_abs(rc) as i32)),
{
    if rc == 0 {
        Ok(())
    } else {
        Err(SpdkError::BdevUnregisterFailed { source: Errno::from_raw(abs_i32(rc)), name })
    }
}

/// The result of an operation in two steps: the error of the first status
/// where that is negative, else the result that the completion brought.
pub open spec fn spec_two_step(immediate: i32, completed: ErrnoResult<()>) -> ErrnoResult<()> {
    if immediate < 0 {
        Err(Errno::spec_from_raw((-immediate) as i32))
    } else {
        completed
    }
}

/// Settles an operation in two steps. With a negative first status the
/// operation never started and no completion follows: the result is the
/// error of that status. Else the result is what the completion brought.
pub fn two_step_result(immediate: i32, completed: ErrnoResult<()>) -> (r: ErrnoResult<()>)
    requires
        immediate > i32::MIN,
    ensures
        r == spec_two_step(immediate, completed),
{
    if immediate < 0 {
        Err(Errno::from_raw(-immediate))
    } else {
        completed
    }
}

/// The result that a completion with the given status brings.
pub fn completion_result(errno: i32) -> (r: ErrnoResult<()>)
    requires
        errno > i32::MIN,
    ensures
        r == spec_errno_result((), errno),
{
    errno_result_from_i32((), errno)
}

impl Bdev {
    /// Asks the device to unregister and gives the outcome: success for a
    /// registered device, which is destroyed at once or when its last
    /// descriptor closes; else the failure, with the name of the device and
    /// `EBUSY` for a device that waits to be destroyed already, `ENODEV`
    /// for one that was never registered.
    pub fn unregister_bdev_async<D: BdevOps>(&mut self, reg: &mut BdevRegistry<D>) -> (r:
        SpdkResult<()>)
        requires
            old(reg).wf(),
            old(self).spec_live(old(reg)),
        ensures
            final(reg).wf(),
            *final(self) == *old(self),
            final(reg)@ == old(reg)@.unregister(old(self).spec_index()),
            r.is_ok() <==> old(self).spec_device(old(reg)).phase == Phase::Registered,
            r.is_err() ==> (r matches Err(SpdkError::BdevUnregisterFailed { source, name })
                && name@ == old(self).spec_device(old(reg)).name && source
                == Errno::spec_from_raw(
                (-spec_unregister_status(old(self).spec_device(old(reg)).phase)) as i32,
            )),
    {
        let name = self.name(reg);
        let rc = self.unregister_status(reg);
        unregister_result(name, rc)
    }
}

} // verus!
