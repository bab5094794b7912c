//! Deleting an NVMe controller: which path to name, and how the two answers
//! of the runtime settle into one result.
use vstd::prelude::*;
use vstd::string::StringSliceAdditionalSpecFns;
use crate::bdev_async::{spec_two_step, two_step_result};
use crate::errno::ErrnoResult;
use crate::ffihelper::{copy_str_with_null, spec_copy_with_null};

verus! {

/// The size of the buffer for a transport address, the closing zero counted.
pub const TRADDR_SIZE: usize = 257;

/// The transport type of a controller on the PCIe bus.
pub const TRANSPORT_PCIE: u32 = 256;

/// The path to an NVMe controller.
#[derive(Debug, Clone, PartialEq, Eq)]
pub struct NvmePathId {
    /// The transport type.
    pub trtype: u32,
    /// The transport address: text closed by a zero byte, in a buffer of
    /// [`TRADDR_SIZE`] bytes.
    pub traddr: Vec<u8>,
}

/// A buffer of the given size, all zero.
pub fn zeroed(size: usize) -> (buf: Vec<u8>)
    ensures
        buf@ == Seq::new(size as nat, |i: int| 0u8),
{
    let mut buf: Vec<u8> = Vec::new();
    let mut i: usize = 0;
    while i < size
        invariant
            0 <= i <= size,
            buf@.len() == i,
            forall|k: int| 0 <= k < i ==> buf@[k] == 0,
        decreases size - i,
    {
        buf.push(0);
        i += 1;
    }
    assert(buf@ =~= Seq::new(size as nat, |i: int| 0u8));
    buf
}

/// The path that stands for a controller where none is given: the name of
/// the controller as its address, cut short where it does not fit, on the
/// PCIe bus.
pub fn default_path_id(name: &str) -> (path: NvmePathId)
    ensures
        path.trtype == TRANSPORT_PCIE,
        path.traddr@ == spec_copy_with_null(
            name.spec_bytes(),
            Seq::new(TRADDR_SIZE as nat, |i: int| 0u8),
        ),
        path.traddr@.len() == TRADDR_SIZE,
{
    let mut traddr = zeroed(TRADDR_SIZE);
    copy_str_with_null(name, &mut traddr);
    NvmePathId { trtype: TRANSPORT_PCIE, traddr }
}

/// The path to delete a controller by: the one given, or the default one for
/// its name.
pub fn path_for_delete(name: &str, path_id: Option<NvmePathId>) -> (path: NvmePathId)
    ensures
        path_id.is_some() ==> path == path_id.unwrap(),
        path_id.is_none() ==> path.trtype == TRANSPORT_PCIE && path.traddr@
            == spec_copy_with_null(
            name.spec_bytes(),
            Seq::new(TRADDR_SIZE as nat, |i: int| 0u8),
        ),
{
    match path_id {
        Some(p) => p,
        None => default_path_id(name),
    }
}

/// Settles the deletion of a controller. Unlike other deletions this one may
/// fail at once, with a negative status, in which case no completion
/// follows; else the completion decides.
pub fn bdev_nvme_delete_result(errno: i32, completed: ErrnoResult<()>) -> (r: ErrnoResult<()>)
    requires
        errno > i32::MIN,
    ensures
        r == spec_two_step(errno, completed),
{
    two_step_result(errno, completed)
}

} // verus!
