//! A writer of JSON text: values are appended to the array that is open,
//! with commas between them.
use vstd::prelude::*;
use vstd::string::StringExecFns;
use crate::error::{SpdkError, SpdkResult};

verus! {

/// The code with which the writer turns text down.
pub const JSON_WRITE_ERROR: i32 = -1;

/// What a writer is, as contracts see it.
pub struct JsonView {
    /// The text written so far.
    pub out: Seq<char>,
    /// Whether the next value needs a comma before it.
    pub need_comma: bool,
    /// How many arrays are open.
    pub depth: nat,
    /// Whether the writer has failed; once it has, it takes nothing more.
    pub failed: bool,
    /// The most characters that the writer takes.
    pub limit: nat,
}

impl JsonView {
    /// The text that a value brings with it: a comma where one is due, then
    /// the value.
    pub open spec fn value_text(self, raw: Seq<char>) -> Seq<char> {
        if self.need_comma {
            ","@ + raw
        } else {
            raw
        }
    }

    /// True where the writer takes the value: it has not failed, and the
    /// text stays within the limit.
    pub open spec fn takes(self, raw: Seq<char>) -> bool {
        !self.failed && self.out.len() + self.value_text(raw).len() <= self.limit
    }

    /// The writer after a value was offered: with the value at the end of
    /// the text and a comma due, or failed.
    pub open spec fn write_raw(self, raw: Seq<char>) -> JsonView {
        if self.takes(raw) {
            JsonView { out: self.out + self.value_text(raw), need_comma: true, ..self }
        } else {
            JsonView { failed: true, ..self }
        }
    }

    /// The text that opens a named array: the name in quotes, a colon, and
    /// the opening bracket.
    pub open spec fn array_begin_text(name: Seq<char>) -> Seq<char> {
        "\""@ + name + "\":["@
    }

    /// The writer after a named array was opened: the opening text is
    /// written as a value is, no comma is due, and one more array is open;
    /// or the writer has failed.
    pub open spec fn named_array_begin(self, name: Seq<char>) -> JsonView {
        if self.takes(Self::array_begin_text(name)) {
            JsonView {
                out: self.out + self.value_text(Self::array_begin_text(name)),
                need_comma: false,
                depth: self.depth + 1,
                ..self
            }
        } else {
            JsonView { failed: true, ..self }
        }
    }

    /// The writer after an array was closed: the closing bracket is
    /// written, a comma is due, and one array fewer is open; or the writer
    /// has failed, which it also does where no array is open.
    pub open spec fn array_end(self) -> JsonView {
        if !self.failed && self.depth > 0 && self.out.len() + 1 <= self.limit {
            JsonView {
                out: self.out + "]"@,
                need_comma: true,
                depth: (self.depth - 1) as nat,
                ..self
            }
        } else {
            JsonView { failed: true, ..self }
        }
    }
}

/// True where a name can stand between quotes as it is: it holds no quote,
/// no backslash and no control character.
pub open spec fn spec_plain_name(name: Seq<char>) -> bool {
    forall|i: int|
        0 <= i < name.len() ==> (#[trigger] name[i]) != '"' && name[i] != '\\' && name[i] as u32
            >= 32
}

/// Says whether a name can stand between quotes as it is.
pub fn is_plain_name(name: &str) -> (b: bool)
    ensures
        b == spec_plain_name(name@),
{
    let n = name.unicode_len();
    let mut i: usize = 0;
    while i < n
        invariant
            0 <= i <= n,
            n == name@.len(),
            forall|k: int|
                0 <= k < i ==> (#[trigger] name@[k]) != '"' && name@[k] != '\\' && name@[k] as u32
                    >= 32,
        decreases n - i,
    {
        let c = name.get_char(i);
        if c == '"' || c == '\\' || (c as u32) < 32 {
            return false;
        }
        i += 1;
    }
    true
}

/// A writer of JSON text into a buffer of limited size.
pub struct JsonWriteContext {
    out: String,
    len: usize,
    need_comma: bool,
    depth: usize,
    failed: bool,
    limit: usize,
}

impl JsonWriteContext {
    /// The text, the flags and the limit.
    pub closed spec fn view(&self) -> JsonView {
        JsonView {
            out: self.out@,
            need_comma: self.need_comma,
            depth: self.depth as nat,
            failed: self.failed,
            limit: self.limit as nat,
        }
    }

    /// The writer knows how long its text is, and the text is within the
    /// limit.
    pub closed spec fn wf(&self) -> bool {
        self.len == self.out@.len() && self.len <= self.limit
    }

    /// A writer with nothing written that takes `limit` characters at most.
    pub fn new(limit: usize) -> (w: Self)
        ensures
            w.wf(),
            w@ == (JsonView {
                out: Seq::empty(),
                need_comma: false,
                depth: 0,
                failed: false,
                limit: limit as nat,
            }),
    {
        JsonWriteContext {
            out: String::new(),
            len: 0,
            need_comma: false,
            depth: 0,
            failed: false,
            limit,
        }
    }

    /// The text written so far.
    pub fn output(&self) -> (text: String)
        ensures
            text@ == self@.out,
    {
        self.out.clone()
    }

    /// True where the writer has failed.
    pub fn has_failed(&self) -> (b: bool)
        ensures
            b == self@.failed,
    {
        self.failed
    }

    fn emit(&mut self, comma: bool, text: &str) -> (ok: bool)
        requires
            old(self).wf(),
            !old(self).failed,
        ensures
            final(self).wf(),
            final(self).need_comma == old(self).need_comma,
            final(self).depth == old(self).depth,
            final(self).limit == old(self).limit,
            ok == (old(self).out@.len() + (if comma {
                1nat
            } else {
                0nat
            }) + text@.len() <= old(self).limit),
            ok ==> !final(self).failed && final(self).out@ == old(self).out@ + (if comma {
                ","@
            } else {
                Seq::<char>::empty()
            }) + text@,
            !ok ==> final(self).failed && final(self).out@ == old(self).out@,
    {
        proof {
            reveal_strlit(",");
        }
        let extra = text.unicode_len();
        let room = self.limit - self.len;
        let sep: usize = if comma {
            1
        } else {
            0
        };
        if room < sep || room - sep < extra {
            self.failed = true;
            return false;
        }
        if comma {
            self.out.append(",");
        }
        self.out.append(text);
        self.len = self.len + sep + extra;
        proof {
            if !comma {
                assert(old(self).out@ + Seq::<char>::empty() =~= old(self).out@);
            }
        }
        true
    }

    /// Appends text to the output as one value, with a comma before it
    /// where one is due. The text is not looked into. Fails, and takes
    /// nothing more afterwards, where the writer has failed before or the
    /// text does not fit.
    pub fn write_raw(&mut self, data: &str) -> (r: SpdkResult<()>)
        requires
            old(self).wf(),
        ensures
            final(self).wf(),
            final(self)@ == old(self)@.write_raw(data@),
            r.is_ok() <==> old(self)@.takes(data@),
            r.is_err() ==> (r matches Err(SpdkError::JsonWriteFailed { code }) && code
                == JSON_WRITE_ERROR),
    {
        proof {
            reveal_strlit(",");
        }
        if self.failed {
            return Err(SpdkError::JsonWriteFailed { code: JSON_WRITE_ERROR });
        }
        let comma = self.need_comma;
        if self.emit(comma, data) {
            self.need_comma = true;
            proof {
                if !comma {
                    assert(old(self).out@ + Seq::<char>::empty() + data@ =~= old(self).out@
                        + data@);
                } else {
                    assert(old(self).out@ + ","@ + data@ =~= old(self).out@ + (","@ + data@));
                }
            }
            Ok(())
        } else {
            Err(SpdkError::JsonWriteFailed { code: JSON_WRITE_ERROR })
        }
    }

    /// Appends text that is a JSON value to the output; see
    /// [`JsonWriteContext::write_raw`].
    pub fn write_string(&mut self, s: &str) -> (r: SpdkResult<()>)
        requires
            old(self).wf(),
        ensures
            final(self).wf(),
            final(self)@ == old(self)@.write_raw(s@),
            r.is_ok() <==> old(self)@.takes(s@),
            r.is_err() ==> (r matches Err(SpdkError::JsonWriteFailed { code }) && code
                == JSON_WRITE_ERROR),
    {
        self.write_raw(s)
    }

    /// Opens an array under a name. The name is written between quotes as it
    /// is: a name with a quote, a backslash or a control character in it is
    /// left out. A failure shows in the writer only.
    pub fn write_named_array_begin(&mut self, name: &str)
        requires
            old(self).wf(),
            spec_plain_name(name@),
            old(self)@.depth < usize::MAX,
        ensures
            final(self).wf(),
            final(self)@ == old(self)@.named_array_begin(name@),
    {
        proof {
            reveal_strlit("\"");
            reveal_strlit("\":[");
            reveal_strlit(",");
        }
        if self.failed {
            return ;
        }
        let mut text = String::from_str("\"");
        text.append(name);
        text.append("\":[");
        let comma = self.need_comma;
        if self.emit(comma, text.as_str()) {
            self.need_comma = false;
            self.depth = self.depth + 1;
            proof {
                let t = JsonView::array_begin_text(name@);
                assert(text@ == t);
                if !comma {
                    assert(old(self).out@ + Seq::<char>::empty() + t =~= old(self).out@ + t);
                } else {
                    assert(old(self).out@ + ","@ + t =~= old(self).out@ + (","@ + t));
                }
            }
        }
    }

    /// Closes the array that was opened last. A failure shows in the writer
    /// only; closing without an open array is one.
    pub fn write_array_end(&mut self)
        requires
            old(self).wf(),
        ensures
            final(self).wf(),
            final(self)@ == old(self)@.array_end(),
    {
        proof {
            reveal_strlit("]");
        }
        if self.failed {
            return ;
        }
        if self.depth == 0 {
            self.failed = true;
            return ;
        }
        if self.emit(false, "]") {
            self.need_comma = true;
            self.depth = self.depth - 1;
            proof {
                assert(old(self).out@ + Seq::<char>::empty() + "]"@ =~= old(self).out@ + "]"@);
            }
        }
    }
}

} // verus!
