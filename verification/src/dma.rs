//! Buffers for direct memory access.
use vstd::prelude::*;
use crate::error::DmaError;
use crate::io_vec::IoVec;

verus! {

/// True where `x` is a power of two.
pub open spec fn spec_is_power_of_two(x: u64) -> bool {
    x != 0 && x & ((x - 1) as u64) == 0
}

/// True where a buffer of the given size and alignment can be asked for:
/// the alignment is zero, for "any", or a power of two, and the size is one
/// that a buffer can have.
pub open spec fn spec_can_alloc(size: u64, alignment: u64) -> bool {
    (alignment == 0 || spec_is_power_of_two(alignment)) && size <= usize::MAX
}

/// A buffer that owns its bytes. It starts out filled with zeros.
#[derive(Debug)]
pub struct DmaBuf(IoVec);

impl DmaBuf {
    /// The bytes of the buffer.
    pub closed spec fn view(&self) -> Seq<u8> {
        self.0@
    }

    /// The buffer is there and as long as it says.
    pub closed spec fn wf(&self) -> bool {
        self.0.wf() && self.0.spec_initialized() && self.0.spec_buffer().len()
            == self.0.spec_len()
    }

    /// Allocates a buffer of `size` bytes, all zero. Fails where the
    /// alignment is neither zero nor a power of two, and where no buffer
    /// can have the size.
    pub fn new(size: u64, alignment: u64) -> (r: Result<Self, DmaError>)
        ensures
            r.is_ok() <==> spec_can_alloc(size, alignment),
            r.is_ok() ==> r.unwrap().wf() && r.unwrap()@.len() == size && forall|i: int|
                0 <= i < size ==> r.unwrap()@[i] == 0,
            r.is_err() ==> r == Err::<Self, DmaError>(DmaError::Alloc),
    {
        if alignment != 0 && (alignment & (alignment - 1)) != 0 {
            return Err(DmaError::Alloc);
        }
        if size > usize::MAX as u64 {
            return Err(DmaError::Alloc);
        }
        let mut buf: Vec<u8> = Vec::new();
        let mut i: u64 = 0;
        while i < size
            invariant
                0 <= i <= size,
                buf@.len() == i,
                forall|k: int| 0 <= k < i ==> buf@[k] == 0,
            decreases size - i,
        {
            buf.push(0);
            i += 1;
        }
        let v = IoVec::new(Some(buf), size);
        Ok(DmaBuf(v))
    }

    /// The length of the buffer in bytes.
    pub fn len(&self) -> (n: u64)
        requires
            self.wf(),
        ensures
            n == self@.len(),
    {
        self.0.len()
    }

    /// An I/O vector with the bytes of this buffer, as they are now.
    pub fn to_io_vec(&self) -> (v: IoVec)
        requires
            self.wf(),
        ensures
            v.wf(),
            v.spec_initialized(),
            v.spec_len() == self@.len(),
            v@ == self@,
    {
        let n = self.0.len();
        let mut buf: Vec<u8> = Vec::new();
        let mut i: u64 = 0;
        while i < n
            invariant
                self.wf(),
                n == self.0.spec_len(),
                0 <= i <= n,
                buf@.len() == i,
                forall|k: int| 0 <= k < i ==> buf@[k] == self.0@[k],
            decreases n - i,
        {
            buf.push(self.0.byte_at(i));
            i += 1;
        }
        let v = IoVec::new(Some(buf), n);
        proof {
            assert(v@ =~= self@);
        }
        v
    }

    /// Fills the buffer with the given value.
    pub fn fill(&mut self, val: u8)
        requires
            old(self).wf(),
        ensures
            final(self).wf(),
            final(self)@.len() == old(self)@.len(),
            forall|i: int| 0 <= i < final(self)@.len() ==> final(self)@[i] == val,
    {
        self.0.fill(val);
    }
}

} // verus!
