//! Passing terminal output through tmux: each write-to-flush cycle is wrapped in a
//! `ESC P tmux; ... ESC \` device control string, with every ESC byte in it doubled.
use vstd::prelude::*;

verus! {

/// The escape byte.
pub open spec fn esc() -> u8 {
    0x1b
}

/// `ESC P tmux;`: opens a tmux passthrough sequence.
pub open spec fn passthrough_start() -> Seq<u8> {
    seq![0x1bu8, 0x50u8, 0x74u8, 0x6du8, 0x75u8, 0x78u8, 0x3bu8]
}

/// `ESC \`: closes a tmux passthrough sequence.
pub open spec fn passthrough_end() -> Seq<u8> {
    seq![0x1bu8, 0x5cu8]
}

/// The bytes that stand for `b` inside a passthrough sequence.
pub open spec fn escape_byte(b: u8) -> Seq<u8> {
    if b == esc() {
        seq![esc(), esc()]
    } else {
        seq![b]
    }
}

/// `s` with every ESC byte doubled.
pub open spec fn escape_esc(s: Seq<u8>) -> Seq<u8>
    decreases s.len(),
{
    if s.len() == 0 {
        seq![]
    } else {
        escape_byte(s[0]) + escape_esc(s.drop_first())
    }
}

/// What tmux recovers from the body of a passthrough sequence: each doubled ESC becomes one.
pub open spec fn unescape_esc(s: Seq<u8>) -> Seq<u8>
    decreases s.len(),
{
    if s.len() == 0 {
        seq![]
    } else if s.len() >= 2 && s[0] == esc() && s[1] == esc() {
        seq![esc()] + unescape_esc(s.skip(2))
    } else {
        seq![s[0]] + unescape_esc(s.drop_first())
    }
}

/// The bytes a write of `buf` sends: the opening of the sequence if none is open, then `buf`
/// escaped.
pub open spec fn write_output(active: bool, buf: Seq<u8>) -> Seq<u8> {
    (if active {
        seq![]
    } else {
        passthrough_start()
    }) + escape_esc(buf)
}

/// The bytes a flush sends: the closing of the sequence if one is open.
pub open spec fn flush_output(active: bool) -> Seq<u8> {
    if active {
        passthrough_end()
    } else {
        seq![]
    }
}

/// The bytes sent by the writes of `chunks`, in order, starting with the sequence open or not.
pub open spec fn writes_output(active: bool, chunks: Seq<Seq<u8>>) -> Seq<u8>
    decreases chunks.len(),
{
    if chunks.len() == 0 {
        seq![]
    } else {
        write_output(active, chunks[0]) + writes_output(true, chunks.drop_first())
    }
}

/// Escaping distributes over concatenation.
pub proof fn lemma_escape_concat(a: Seq<u8>, b: Seq<u8>)
    ensures
        escape_esc(a + b) == escape_esc(a) + escape_esc(b),
    decreases a.len(),
{
    if a.len() == 0 {
        assert(a + b =~= b);
    } else {
        lemma_escape_concat(a.drop_first(), b);
        assert((a + b).drop_first() =~= a.drop_first() + b);
        assert(escape_esc(a + b) =~= escape_byte(a[0]) + escape_esc(a.drop_first() + b));
    }
}

/// What tmux recovers from an escaped payload is the payload itself.
pub proof fn lemma_unescape_escape(s: Seq<u8>)
    ensures
        unescape_esc(escape_esc(s)) == s,
    decreases s.len(),
{
    if s.len() > 0 {
        lemma_unescape_escape(s.drop_first());
        let rest = escape_esc(s.drop_first());
        let e = escape_esc(s);
        assert(e == escape_byte(s[0]) + rest);
        if s[0] == esc() {
            assert(e.skip(2) =~= rest);
        } else {
            assert(e.drop_first() =~= rest);
            assert(e[0] == s[0]);
        }
        assert(s =~= seq![s[0]] + s.drop_first());
    }
}

/// In an escaped payload every ESC byte is followed by another: an escaped payload never
/// holds an odd run of ESC bytes, so no `ESC \` inside it can end the sequence early.
pub proof fn lemma_escaped_esc_paired(s: Seq<u8>)
    ensures
        escaped_pairs(escape_esc(s)),
    decreases s.len(),
{
    if s.len() > 0 {
        lemma_escaped_esc_paired(s.drop_first());
        let rest = escape_esc(s.drop_first());
        let e = escape_esc(s);
        if s[0] == esc() {
            assert(e.skip(2) =~= rest);
        } else {
            assert(e.drop_first() =~= rest);
        }
    }
}

/// Whether `s` splits, from its start, into single non-ESC bytes and ESC ESC pairs.
pub open spec fn escaped_pairs(s: Seq<u8>) -> bool
    decreases s.len(),
{
    if s.len() == 0 {
        true
    } else if s[0] == esc() {
        s.len() >= 2 && s[1] == esc() && escaped_pairs(s.skip(2))
    } else {
        escaped_pairs(s.drop_first())
    }
}

/// A write-to-flush cycle sends the opening, everything written with ESC doubled, and the
/// closing: writing `chunks` one after another and flushing is the same as wrapping their
/// concatenation once.
pub proof fn lemma_passthrough_cycle(chunks: Seq<Seq<u8>>)
    requires
        chunks.len() >= 1,
    ensures
        writes_output(false, chunks) + flush_output(true) == passthrough_start() + escape_esc(
            chunks.flatten(),
        ) + passthrough_end(),
{
    lemma_writes_open(chunks.drop_first());
    lemma_escape_concat(chunks[0], chunks.drop_first().flatten());
    assert(chunks.flatten() == chunks[0] + chunks.drop_first().flatten());
    assert(writes_output(false, chunks) + flush_output(true) =~= passthrough_start()
        + escape_esc(chunks.flatten()) + passthrough_end());
}

/// While a sequence is open, writes send just their escaped bytes.
pub proof fn lemma_writes_open(chunks: Seq<Seq<u8>>)
    ensures
        writes_output(true, chunks) == escape_esc(chunks.flatten()),
    decreases chunks.len(),
{
    if chunks.len() > 0 {
        lemma_writes_open(chunks.drop_first());
        lemma_escape_concat(chunks[0], chunks.drop_first().flatten());
        assert(writes_output(true, chunks) =~= escape_esc(chunks[0]) + escape_esc(
            chunks.drop_first().flatten(),
        ));
    } else {
        assert(chunks.flatten() =~= Seq::<u8>::empty());
    }
}

/// `buf` with every ESC byte doubled.
pub fn escape_bytes(buf: &[u8]) -> (out: Vec<u8>)
    ensures
        out@ == escape_esc(buf@),
{
    let mut out: Vec<u8> = Vec::new();
    let mut i: usize = 0;
    while i < buf.len()
        invariant
            i <= buf@.len(),
            out@ == escape_esc(buf@.take(i as int)),
        decreases buf@.len() - i,
    {
        let b = buf[i];
        if b == 0x1bu8 {
            out.push(0x1bu8);
            out.push(0x1bu8);
        } else {
            out.push(b);
        }
        proof {
            lemma_escape_concat(buf@.take(i as int), seq![b]);
            assert(buf@.take(i + 1) =~= buf@.take(i as int) + seq![b]);
            assert(escape_esc(seq![b]) =~= escape_byte(b)) by {
                let one = seq![b];
                assert(one.drop_first() =~= Seq::<u8>::empty());
                assert(escape_esc(one.drop_first()) == Seq::<u8>::empty());
                assert(escape_esc(one) == escape_byte(one[0]) + escape_esc(one.drop_first()));
            }
        }
        i = i + 1;
    }
    proof {
        assert(buf@.take(buf@.len() as int) =~= buf@);
    }
    out
}

/// A writer that sends everything written to it through tmux: the first write after a flush
/// opens a passthrough sequence, writes send their bytes with ESC doubled, and a flush closes
/// the sequence. The caller moves the bytes to the inner writer.
pub struct TmuxPassthroughWriter<W> {
    w: W,
    active: bool,
}

impl<W> TmuxPassthroughWriter<W> {
    /// The wrapped writer.
    pub closed spec fn inner(&self) -> W {
        self.w
    }

    /// Whether a passthrough sequence is open.
    pub closed spec fn is_active(&self) -> bool {
        self.active
    }

    /// Wraps `w`, with no sequence open.
    pub fn new(w: W) -> (r: Self)
        ensures
            r.inner() == w,
            !r.is_active(),
    {
        Self { w, active: false }
    }

    /// Whether a passthrough sequence is open.
    pub fn active(&self) -> (a: bool)
        ensures
            a == self.is_active(),
    {
        self.active
    }

    /// The bytes that open a sequence before a write: the opening if none is open, else none.
    pub fn opening_bytes(&self) -> (out: Vec<u8>)
        ensures
            out@ == (if self.is_active() {
                Seq::<u8>::empty()
            } else {
                passthrough_start()
            }),
    {
        let mut out: Vec<u8> = Vec::new();
        if !self.active {
            out.push(0x1bu8);
            out.push(0x50u8);
            out.push(0x74u8);
            out.push(0x6du8);
            out.push(0x75u8);
            out.push(0x78u8);
            out.push(0x3bu8);
        }
        proof {
            if !self.active {
                assert(out@ =~= passthrough_start());
            } else {
                assert(out@ =~= Seq::<u8>::empty());
            }
        }
        out
    }

    /// Records that the opening has been sent.
    pub fn mark_open(&mut self)
        ensures
            final(self).is_active(),
            final(self).inner() == old(self).inner(),
    {
        self.active = true;
    }

    /// The bytes a flush sends before flushing the inner writer: the closing if a sequence is
    /// open, else none.
    pub fn closing_bytes(&self) -> (out: Vec<u8>)
        ensures
            out@ == flush_output(self.is_active()),
    {
        let mut out: Vec<u8> = Vec::new();
        if self.active {
            out.push(0x1bu8);
            out.push(0x5cu8);
        }
        proof {
            if self.active {
                assert(out@ =~= passthrough_end());
            } else {
                assert(out@ =~= Seq::<u8>::empty());
            }
        }
        out
    }

    /// Records that the closing has been sent.
    pub fn mark_closed(&mut self)
        ensures
            !final(self).is_active(),
            final(self).inner() == old(self).inner(),
    {
        self.active = false;
    }

    /// The bytes to send for a write of `buf` when every send succeeds: the opening if no
    /// sequence is open, then `buf` escaped. Afterwards a sequence is open.
    pub fn write_bytes(&mut self, buf: &[u8]) -> (out: Vec<u8>)
        ensures
            out@ == write_output(old(self).is_active(), buf@),
            final(self).is_active(),
            final(self).inner() == old(self).inner(),
    {
        let mut out = self.opening_bytes();
        let mut body = escape_bytes(buf);
        out.append(&mut body);
        self.active = true;
        out
    }

    /// The bytes to send for a flush when every send succeeds. Afterwards no sequence is open.
    pub fn flush_bytes(&mut self) -> (out: Vec<u8>)
        ensures
            out@ == flush_output(old(self).is_active()),
            !final(self).is_active(),
            final(self).inner() == old(self).inner(),
    {
        let out = self.closing_bytes();
        self.active = false;
        out
    }

    /// The wrapped writer, to send bytes to.
    pub fn get_mut(&mut self) -> (w: &mut W)
        ensures
            *w == old(self).inner(),
            final(self).inner() == *final(w),
            final(self).is_active() == old(self).is_active(),
    {
        &mut self.w
    }

    /// Unwraps the writer.
    pub fn into_inner(self) -> (w: W)
        ensures
            w == self.inner(),
    {
        self.w
    }
}

} // verus!
