//! Text in fixed buffers that end with a zero byte.
use vstd::prelude::*;
use vstd::slice::slice_subrange;
use vstd::string::StringSliceAdditionalSpecFns;
use vstd::utf8::valid_utf8;

verus! {

/// How many bytes of `src` fit into a buffer of `dst_size` bytes with room
/// for the closing zero.
pub open spec fn spec_copied(src_len: nat, dst_size: nat) -> nat {
    if src_len <= dst_size - 1 {
        src_len
    } else {
        (dst_size - 1) as nat
    }
}

/// The buffer after text was copied into it: as much of the text as fits
/// before a closing zero, the zero, and behind it what was there before.
pub open spec fn spec_copy_with_null(src: Seq<u8>, dst: Seq<u8>) -> Seq<u8> {
    let count = spec_copied(src.len(), dst.len()) as int;
    src.subrange(0, count).push(0u8) + dst.subrange(count + 1, dst.len() as int)
}

/// Copies text into a buffer and closes it with a zero byte. Text that is
/// too long for the buffer, the zero counted, is cut short. A buffer
/// without room for the zero is left out.
pub fn copy_cstr_with_null(src: &[u8], dst: &mut Vec<u8>)
    requires
        old(dst)@.len() > 0,
    ensures
        final(dst)@ == spec_copy_with_null(src@, old(dst)@),
        final(dst)@.len() == old(dst)@.len(),
{
    let dst_size = dst.len();
    let count = if src.len() < dst_size - 1 {
        src.len()
    } else {
        dst_size - 1
    };
    let mut i: usize = 0;
    while i < count
        invariant
            0 <= i <= count,
            count < dst_size,
            count <= src@.len(),
            dst@.len() == dst_size,
            dst_size == old(dst)@.len(),
            forall|k: int| 0 <= k < i ==> dst@[k] == src@[k],
            forall|k: int| i <= k < dst_size ==> dst@[k] == old(dst)@[k],
        decreases count - i,
    {
        dst.set(i, src[i]);
        i += 1;
    }
    dst.set(count, 0);
    proof {
        assert(dst@ =~= spec_copy_with_null(src@, old(dst)@));
    }
}

/// Copies a string into a buffer and closes it with a zero byte; see
/// [`copy_cstr_with_null`].
pub fn copy_str_with_null(src: &str, dst: &mut Vec<u8>)
    requires
        old(dst)@.len() > 0,
    ensures
        final(dst)@ == spec_copy_with_null(src.spec_bytes(), old(dst)@),
        final(dst)@.len() == old(dst)@.len(),
{
    copy_cstr_with_null(src.as_bytes(), dst);
}

/// The place of the first zero byte at or after `from`; the length where
/// there is none.
pub open spec fn spec_first_zero(buf: Seq<u8>, from: int) -> int
    decreases buf.len() - from,
{
    if from < 0 || from >= buf.len() {
        buf.len() as int
    } else if buf[from] == 0 {
        from
    } else {
        spec_first_zero(buf, from + 1)
    }
}

/// The text in a buffer: the bytes before the first zero byte, or all of
/// them where there is none.
pub open spec fn spec_c_text(buf: Seq<u8>) -> Seq<u8> {
    buf.subrange(0, spec_first_zero(buf, 0))
}

/// Where [`spec_first_zero`] lands: at or after `from`, at most at the
/// length, on a zero if inside the buffer, with no zero before it.
pub proof fn lemma_first_zero(buf: Seq<u8>, from: int)
    requires
        0 <= from <= buf.len(),
    ensures
        from <= spec_first_zero(buf, from) <= buf.len(),
        spec_first_zero(buf, from) < buf.len() ==> buf[spec_first_zero(buf, from)] == 0,
        forall|k: int| from <= k < spec_first_zero(buf, from) ==> buf[k] != 0,
    decreases buf.len() - from,
{
    if from < buf.len() && buf[from] != 0 {
        lemma_first_zero(buf, from + 1);
    }
}

/// The length of the text in a buffer: the place of its first zero byte.
pub fn c_text_len(buf: &[u8]) -> (n: usize)
    ensures
        n == spec_first_zero(buf@, 0),
        n <= buf@.len(),
{
    let mut i: usize = 0;
    while i < buf.len()
        invariant
            0 <= i <= buf@.len(),
            spec_first_zero(buf@, 0) == spec_first_zero(buf@, i as int),
        decreases buf@.len() - i,
    {
        if buf[i] == 0 {
            return i;
        }
        i += 1;
    }
    i
}

/// The text in a buffer, as bytes.
pub fn c_text(buf: &[u8]) -> (text: &[u8])
    ensures
        text@ == spec_c_text(buf@),
{
    let n = c_text_len(buf);
    slice_subrange(buf, 0, n)
}

/// What was copied into a buffer reads back as the text that went in, as far
/// as it fitted, where the text itself holds no zero byte.
pub proof fn lemma_copy_reads_back(src: Seq<u8>, dst: Seq<u8>)
    requires
        dst.len() > 0,
        forall|k: int| 0 <= k < src.len() ==> src[k] != 0,
    ensures
        spec_c_text(spec_copy_with_null(src, dst)) == src.subrange(
            0,
            spec_copied(src.len(), dst.len()) as int,
        ),
{
    let out = spec_copy_with_null(src, dst);
    let count = spec_copied(src.len(), dst.len()) as int;
    lemma_first_zero(out, 0);
    let z = spec_first_zero(out, 0);
    assert(out[count] == 0);
    assert(forall|k: int| 0 <= k < count ==> out[k] == src[k]);
    if z < count {
        assert(out[z] == 0);
        assert(out[z] == src[z]);
    }
    if z > count {
        assert(out[count] != 0);
    }
    assert(spec_c_text(out) =~= src.subrange(0, count));
}

/// Calls `core::str::from_utf8` and gives the string where the bytes are
/// one. Not proved: that the call succeeds exactly on bytes that are valid
/// UTF-8, and that the string it gives is made of the very bytes it was
/// handed, as the documentation of the function says.
#[verifier::external_body]
fn str_from_utf8(bytes: &[u8]) -> (s: Option<&str>)
    ensures
        s.is_some() <==> valid_utf8(bytes@),
        s.is_some() ==> s.unwrap().spec_bytes() == bytes@,
{
    match core::str::from_utf8(bytes) {
        Ok(s) => Some(s),
        Err(_) => None,
    }
}

/// What holds text in a buffer that ends with a zero byte.
pub trait AsStr {
    /// The bytes of the text: those before the first zero byte.
    spec fn spec_text(&self) -> Seq<u8>;

    /// The text as a string; the empty string where the bytes are no valid
    /// UTF-8.
    fn as_str(&self) -> (s: &str)
        ensures
            valid_utf8(self.spec_text()) ==> s.spec_bytes() == self.spec_text(),
            !valid_utf8(self.spec_text()) ==> s@.len() == 0,
    ;
}

impl AsStr for Vec<u8> {
    open spec fn spec_text(&self) -> Seq<u8> {
        spec_c_text(self@)
    }

    fn as_str(&self) -> (s: &str) {
        c_str(self.as_slice())
    }
}

/// The text in a buffer as a string; the empty string where the bytes
/// before the first zero byte are no valid UTF-8.
pub fn c_str(buf: &[u8]) -> (s: &str)
    ensures
        valid_utf8(spec_c_text(buf@)) ==> s.spec_bytes() == spec_c_text(buf@),
        !valid_utf8(spec_c_text(buf@)) ==> s@.len() == 0,
{
    match str_from_utf8(c_text(buf)) {
        Some(s) => s,
        None => {
            proof {
                reveal_strlit("");
            }
            ""
        },
    }
}

} // verus!
