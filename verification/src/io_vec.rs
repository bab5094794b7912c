//! I/O vectors: a buffer and the number of its bytes that count.
use vstd::prelude::*;

verus! {

/// A buffer for I/O. The buffer may be missing, in which case the vector is
/// not initialized; the length says how many bytes of the buffer count.
#[derive(Debug, Clone)]
pub struct IoVec {
    base: Option<Vec<u8>>,
    len: u64,
}

impl IoVec {
    /// The length of the vector.
    pub closed spec fn spec_len(&self) -> u64 {
        self.len
    }

    /// True where the vector has a buffer.
    pub closed spec fn spec_initialized(&self) -> bool {
        self.base.is_some()
    }

    /// The bytes of the buffer, all of them; empty without a buffer.
    pub closed spec fn spec_buffer(&self) -> Seq<u8> {
        match self.base {
            Some(b) => b@,
            None => Seq::empty(),
        }
    }

    /// The bytes that count: the first `len` bytes of the buffer.
    pub open spec fn view(&self) -> Seq<u8> {
        self.spec_buffer().subrange(0, self.spec_len() as int)
    }

    /// A vector with a buffer has at least as many bytes as its length says.
    pub open spec fn wf(&self) -> bool {
        self.spec_initialized() ==> self.spec_len() <= self.spec_buffer().len()
    }

    /// The vector over the given buffer, or without one, of the given
    /// length.
    pub fn new(iov_base: Option<Vec<u8>>, iov_len: u64) -> (v: Self)
        ensures
            v.spec_len() == iov_len,
            v.spec_initialized() == iov_base.is_some(),
            iov_base.is_some() ==> v.spec_buffer() == iov_base.unwrap()@,
    {
        IoVec { base: iov_base, len: iov_len }
    }

    /// The length of the vector.
    pub fn len(&self) -> (n: u64)
        ensures
            n == self.spec_len(),
    {
        self.len
    }

    /// Sets the length of the vector and gives the old one. The buffer is
    /// not touched: the new length is within it.
    pub fn set_len(&mut self, new_len: u64) -> (prev: u64)
        requires
            old(self).spec_initialized() ==> new_len <= old(self).spec_buffer().len(),
        ensures
            prev == old(self).spec_len(),
            final(self).spec_len() == new_len,
            final(self).spec_initialized() == old(self).spec_initialized(),
            final(self).spec_buffer() == old(self).spec_buffer(),
            final(self).wf(),
    {
        let t = self.len;
        self.len = new_len;
        t
    }

    /// True where the vector has a buffer.
    pub fn is_initialized(&self) -> (b: bool)
        ensures
            b == self.spec_initialized(),
    {
        self.base.is_some()
    }

    /// True where the length is zero.
    pub fn is_empty(&self) -> (b: bool)
        ensures
            b == (self.spec_len() == 0),
    {
        self.len() == 0
    }

    /// The bytes that count, as a slice. A vector without a buffer is left
    /// out.
    pub fn as_slice(&self) -> (bytes: &[u8])
        requires
            self.wf(),
            self.spec_initialized(),
        ensures
            bytes@ == self@,
    {
        match &self.base {
            Some(buf) => {
                let n = buf.len();
                vstd::slice::slice_subrange(buf.as_slice(), 0, self.len as usize)
            },
            None => {
                let empty: &[u8] = &[];
                empty
            },
        }
    }

    /// The byte at the given place. A vector without a buffer, and a place
    /// beyond the length, are left out.
    pub fn byte_at(&self, index: u64) -> (b: u8)
        requires
            self.wf(),
            self.spec_initialized(),
            index < self.spec_len(),
        ensures
            b == self@[index as int],
    {
        match &self.base {
            Some(buf) => {
                let n = buf.len();
                buf[index as usize]
            },
            None => 0,
        }
    }

    /// Fills the bytes that count with the given value.
    pub fn fill(&mut self, val: u8)
        requires
            old(self).wf(),
            old(self).spec_initialized(),
        ensures
            final(self).wf(),
            final(self).spec_initialized(),
            final(self).spec_len() == old(self).spec_len(),
            final(self).spec_buffer().len() == old(self).spec_buffer().len(),
            forall|i: int| 0 <= i < final(self).spec_len() ==> final(self)@[i] == val,
            forall|i: int|
                final(self).spec_len() <= i < final(self).spec_buffer().len()
                    ==> final(self).spec_buffer()[i] == old(self).spec_buffer()[i],
    {
        let len = self.len;
        let mut buf = self.base.take().unwrap();
        let n = buf.len();
        let mut i: usize = 0;
        while i < len as usize
            invariant
                len <= n,
                n == buf@.len(),
                0 <= i <= len,
                buf@.len() == old(self).spec_buffer().len(),
                forall|k: int| 0 <= k < i ==> buf@[k] == val,
                forall|k: int| i <= k < n ==> buf@[k] == old(self).spec_buffer()[k],
            decreases len - i,
        {
            buf.set(i, val);
            i += 1;
        }
        self.base = Some(buf);
    }

    /// The place of the first difference between two vectors, or `None`
    /// where there is none. Vectors of different length differ at the length
    /// of the shorter one, whatever they hold. Vectors of one length other
    /// than zero both have a buffer.
    pub fn compare(a: &Self, b: &Self) -> (at: Option<u64>)
        requires
            a.wf(),
            b.wf(),
            a.spec_len() == b.spec_len() && a.spec_len() > 0 ==> a.spec_initialized()
                && b.spec_initialized(),
        ensures
            a.spec_len() < b.spec_len() ==> at == Some(a.spec_len()),
            a.spec_len() > b.spec_len() ==> at == Some(b.spec_len()),
            a.spec_len() == b.spec_len() ==> {
                &&& at.is_none() <==> a@ == b@
                &&& at.is_some() ==> {
                    &&& at.unwrap() < a.spec_len()
                    &&& a@[at.unwrap() as int] != b@[at.unwrap() as int]
                    &&& forall|k: int| 0 <= k < at.unwrap() ==> a@[k] == b@[k]
                }
            },
    {
        let len_a = a.len();
        let len_b = b.len();
        if len_a < len_b {
            return Some(len_a);
        }
        if len_a > len_b {
            return Some(len_b);
        }
        let mut i: u64 = 0;
        while i < len_a
            invariant
                a.wf(),
                b.wf(),
                len_a == a.spec_len(),
                len_a == b.spec_len(),
                len_a > 0 ==> a.spec_initialized() && b.spec_initialized(),
                0 <= i <= len_a,
                forall|k: int| 0 <= k < i ==> a@[k] == b@[k],
            decreases len_a - i,
        {
            if a.byte_at(i) != b.byte_at(i) {
                return Some(i);
            }
            i += 1;
        }
        proof {
            assert(a@ =~= b@);
        }
        None
    }
}

} // verus!
