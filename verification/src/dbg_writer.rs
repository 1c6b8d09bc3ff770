//! A writer wrapper that keeps, as text, what was written since the last flush, so that it can
//! be logged.
use vstd::prelude::*;
use vstd::string::StringExecFns;

verus! {

/// `std::str::from_utf8`, with the result as an `Option`: the documentation promises the text
/// exactly when `bytes` is valid UTF-8, and that text is made of those bytes.
#[verifier::external_body]
fn str_from_utf8(bytes: &[u8]) -> (res: Option<&str>)
    ensures
        res is Some <==> vstd::utf8::valid_utf8(bytes@),
        res matches Some(s) ==> vstd::utf8::encode_utf8(s@) == bytes@,
{
    std::str::from_utf8(bytes).ok()
}

/// What a write of `bytes` adds to the log: their text if they are valid UTF-8, else nothing.
pub open spec fn logged_text(bytes: Seq<u8>) -> Seq<char> {
    if vstd::utf8::valid_utf8(bytes) {
        vstd::utf8::decode_utf8(bytes)
    } else {
        seq![]
    }
}

/// Wraps a writer and keeps the text of what was written since the log was last taken.
pub struct DbgWriter<W> {
    w: W,
    buf: String,
}

impl<W> DbgWriter<W> {
    /// The wrapped writer.
    pub closed spec fn inner(&self) -> W {
        self.w
    }

    /// The text logged since the log was last taken.
    pub closed spec fn log(&self) -> Seq<char> {
        self.buf@
    }

    /// Wraps `w` with an empty log.
    pub fn new(w: W) -> (r: Self)
        ensures
            r.inner() == w,
            r.log() == Seq::<char>::empty(),
    {
        DbgWriter { w, buf: String::new() }
    }

    /// Logs a write of `bytes`: their text is appended when they are valid UTF-8.
    pub fn record(&mut self, bytes: &[u8])
        ensures
            final(self).log() == old(self).log() + logged_text(bytes@),
            final(self).inner() == old(self).inner(),
    {
        match str_from_utf8(bytes) {
            Some(s) => {
                proof {
                    vstd::utf8::encode_utf8_decode_utf8(s@);
                }
                self.buf.append(s);
            },
            None => {
                proof {
                    assert(old(self).log() + logged_text(bytes@) =~= old(self).log());
                }
            },
        }
    }

    /// Hands out the log and starts a new, empty one (done on every flush).
    pub fn take_log(&mut self) -> (log: String)
        ensures
            log@ == old(self).log(),
            final(self).log() == Seq::<char>::empty(),
            final(self).inner() == old(self).inner(),
    {
        let mut taken = String::new();
        std::mem::swap(&mut taken, &mut self.buf);
        taken
    }

    /// The wrapped writer, to pass writes and flushes on to.
    pub fn get_mut(&mut self) -> (w: &mut W)
        ensures
            *w == old(self).inner(),
            final(self).inner() == *final(w),
            final(self).log() == old(self).log(),
    {
        &mut self.w
    }

    /// Unwraps the writer.
    pub fn into_inner(self) -> (w: W)
        ensures
            w == self.inner(),
    {
        self.w
    }
}

} // verus!
