//! A cursor-based writer that never leaves its buffer and still counts every
//! byte that was asked for, so a caller can learn the size it needs.
use vstd::prelude::*;
use vstd::string::StringSliceAdditionalSpecFns;

verus! {

/// The three cursor positions of a formatter, as addresses.
pub struct FormatterState {
    pub beg: nat,
    pub pos: nat,
    pub end: nat,
}

/// Number of bytes in `[beg, end)`; zero when `end` does not lie past `beg`.
pub open spec fn capacity(s: FormatterState) -> nat {
    if s.end > s.beg {
        (s.end - s.beg) as nat
    } else {
        0
    }
}

/// The cursor after `len` more bytes were asked for: it saturates at the
/// largest address instead of wrapping.
pub open spec fn advance(pos: nat, len: nat) -> nat {
    if pos + len > usize::MAX {
        usize::MAX as nat
    } else {
        pos + len
    }
}

/// The positions after writing `len` bytes.
pub open spec fn written_state(s: FormatterState, len: nat) -> FormatterState {
    FormatterState { beg: s.beg, pos: advance(s.pos, len), end: s.end }
}

/// The buffer `mem`, which covers `[beg, end)`, after `bytes` were written at
/// the cursor: the bytes that fall in the buffer are stored, the rest dropped.
pub open spec fn written_mem(s: FormatterState, mem: Seq<u8>, bytes: Seq<u8>) -> Seq<u8> {
    Seq::new(
        mem.len(),
        |i: int|
            if s.pos <= s.beg + i < advance(s.pos, bytes.len()) {
                bytes[s.beg + i - s.pos]
            } else {
                mem[i]
            },
    )
}

/// The concatenation of a sequence of writes, in order.
pub open spec fn joined(ws: Seq<Seq<u8>>) -> Seq<u8>
    decreases ws.len(),
{
    if ws.len() == 0 {
        Seq::empty()
    } else {
        joined(ws.drop_last()) + ws.last()
    }
}

/// Positions and buffer after the writes `ws`, one after the other.
pub open spec fn written_all(s: FormatterState, mem: Seq<u8>, ws: Seq<Seq<u8>>) -> (
    FormatterState,
    Seq<u8>,
)
    decreases ws.len(),
{
    if ws.len() == 0 {
        (s, mem)
    } else {
        let (s1, m1) = written_all(s, mem, ws.drop_last());
        (written_state(s1, ws.last().len()), written_mem(s1, m1, ws.last()))
    }
}

/// Two writes in a row leave the same positions and buffer as one write of
/// both texts.
pub proof fn lemma_write_twice(s: FormatterState, mem: Seq<u8>, a: Seq<u8>, b: Seq<u8>)
    requires
        s.beg <= s.pos,
        s.end <= usize::MAX,
        s.pos <= usize::MAX,
        mem.len() == capacity(s),
    ensures
        written_state(written_state(s, a.len()), b.len()) == written_state(s, (a + b).len()),
        written_mem(written_state(s, a.len()), written_mem(s, mem, a), b) == written_mem(
            s,
            mem,
            a + b,
        ),
{
    let s1 = written_state(s, a.len());
    let m1 = written_mem(s, mem, a);
    let ab = a + b;
    assert forall|i: int| 0 <= i < mem.len() implies #[trigger] written_mem(s1, m1, b)[i]
        == written_mem(s, mem, ab)[i] by {
        let x = s.beg + i;
        assert(x < s.end);
        if s.pos <= x && x < advance(s.pos, a.len()) {
            assert(ab[x - s.pos] == a[x - s.pos]);
        } else if s1.pos <= x && x < advance(s1.pos, b.len()) {
            assert(s1.pos == s.pos + a.len());
            assert(ab[x - s.pos] == b[x - s.pos - a.len()]);
        }
    }
    assert(written_mem(s1, m1, b) =~= written_mem(s, mem, ab));
}

/// Any sequence of writes leaves the same positions and buffer as one write
/// of their concatenation.
pub proof fn lemma_written_all(s: FormatterState, mem: Seq<u8>, ws: Seq<Seq<u8>>)
    requires
        s.beg <= s.pos,
        s.end <= usize::MAX,
        s.pos <= usize::MAX,
        mem.len() == capacity(s),
    ensures
        written_all(s, mem, ws) == (written_state(s, joined(ws).len()), written_mem(
            s,
            mem,
            joined(ws),
        )),
    decreases ws.len(),
{
    if ws.len() > 0 {
        lemma_written_all(s, mem, ws.drop_last());
        lemma_write_twice(s, mem, joined(ws.drop_last()), ws.last());
    }
}

/// Writes into a buffer of capacity C whose total requested length L fits
/// the address space: the cursor has moved by exactly L, the first min(L, C)
/// bytes of the buffer are the first bytes of the concatenated text, and the
/// bytes past L keep their old value. So a truncation shows as L > C.
pub proof fn lemma_bounded_writes(beg: usize, end: usize, mem: Seq<u8>, ws: Seq<Seq<u8>>)
    requires
        mem.len() == capacity(FormatterState { beg: beg as nat, pos: beg as nat, end: end as nat }),
        beg + joined(ws).len() <= usize::MAX,
    ensures
        ({
            let (s, m) = written_all(
                FormatterState { beg: beg as nat, pos: beg as nat, end: end as nat },
                mem,
                ws,
            );
            &&& s.pos - s.beg == joined(ws).len()
            &&& m.len() == mem.len()
            &&& forall|i: int|
                0 <= i < m.len() ==> #[trigger] m[i] == if i < joined(ws).len() {
                    joined(ws)[i]
                } else {
                    mem[i]
                }
        }),
{
    let s0 = FormatterState { beg: beg as nat, pos: beg as nat, end: end as nat };
    lemma_written_all(s0, mem, ws);
}

/// A formatter whose buffer is empty (`begin == end`) stores nothing and
/// still counts the full length of what was written to it.
pub proof fn lemma_dry_run(at: usize, ws: Seq<Seq<u8>>)
    requires
        at + joined(ws).len() <= usize::MAX,
    ensures
        ({
            let (s, m) = written_all(
                FormatterState { beg: at as nat, pos: at as nat, end: at as nat },
                Seq::empty(),
                ws,
            );
            &&& s.pos - s.beg == joined(ws).len()
            &&& m == Seq::<u8>::empty()
        }),
{
    let s0 = FormatterState { beg: at as nat, pos: at as nat, end: at as nat };
    lemma_written_all(s0, Seq::empty(), ws);
    assert(written_mem(s0, Seq::empty(), joined(ws)) =~= Seq::<u8>::empty());
}

/// Writes text into the caller's buffer `[beg, end)`. The cursor moves by
/// the full length of every write, also past `end`, where nothing is stored.
pub struct RawFormatter {
    beg: usize,
    pos: usize,
    end: usize,
}

impl View for RawFormatter {
    type V = FormatterState;

    closed spec fn view(&self) -> FormatterState {
        FormatterState { beg: self.beg as nat, pos: self.pos as nat, end: self.end as nat }
    }
}

impl RawFormatter {
    /// The cursor never lies before the start of the buffer, and every
    /// position is an address.
    pub open spec fn wf(&self) -> bool {
        &&& self@.beg <= self@.pos
        &&& self@.pos <= usize::MAX
        &&& self@.end <= usize::MAX
    }

    /// A formatter over the buffer `[pos, end)`, with its cursor at `pos`.
    pub fn from_ptrs(pos: usize, end: usize) -> (r: Self)
        ensures
            r.wf(),
            r@ == (FormatterState { beg: pos as nat, pos: pos as nat, end: end as nat }),
    {
        RawFormatter { beg: pos, pos, end }
    }

    /// The current cursor; it may lie past the end of the buffer.
    pub fn pos(&self) -> (r: usize)
        ensures
            r == self@.pos,
    {
        self.pos
    }

    /// The number of bytes asked for so far, stored or not.
    pub fn bytes_written(&self) -> (r: usize)
        requires
            self.wf(),
        ensures
            r == self@.pos - self@.beg,
    {
        self.pos - self.beg
    }

    /// Writes `bytes` at the cursor. `buf` is the memory `[beg, end)`.
    pub fn write_bytes(&mut self, buf: &mut [u8], bytes: &[u8])
        requires
            old(self).wf(),
            old(buf)@.len() == capacity(old(self)@),
        ensures
            final(self).wf(),
            final(self)@ == written_state(old(self)@, bytes@.len()),
            final(buf)@ == written_mem(old(self)@, old(buf)@, bytes@),
    {
        let pos_new = self.pos.saturating_add(bytes.len());
        let stop = if pos_new < self.end {
            pos_new
        } else {
            self.end
        };
        let len_to_copy = stop.saturating_sub(self.pos);
        let at = self.pos - self.beg;
        let ghost mem0 = buf@;
        let mut i: usize = 0;
        while i < len_to_copy
            invariant
                self.beg <= self.pos,
                at == self.pos - self.beg,
                pos_new == advance(self.pos as nat, bytes@.len()),
                len_to_copy <= bytes@.len(),
                self.pos + len_to_copy <= pos_new,
                len_to_copy > 0 ==> self.pos + len_to_copy <= self.end,
                buf@.len() == mem0.len(),
                mem0.len() == capacity(self@),
                0 <= i <= len_to_copy,
                forall|j: int|
                    0 <= j < buf@.len() ==> #[trigger] buf@[j] == if at <= j < at + i {
                        bytes@[j - at]
                    } else {
                        mem0[j]
                    },
            decreases len_to_copy - i,
        {
            buf[at + i] = bytes[i];
            i = i + 1;
        }
        proof {
            let s = old(self)@;
            assert forall|j: int| 0 <= j < buf@.len() implies buf@[j] == written_mem(
                s,
                mem0,
                bytes@,
            )[j] by {
                if s.pos <= s.beg + j < advance(s.pos, bytes@.len()) {
                    assert(s.beg + j < s.end);
                }
            }
            assert(buf@ =~= written_mem(s, mem0, bytes@));
        }
        self.pos = pos_new;
    }

    /// Writes the UTF-8 bytes of `s` at the cursor.
    pub fn write_str(&mut self, buf: &mut [u8], s: &str)
        requires
            old(self).wf(),
            old(buf)@.len() == capacity(old(self)@),
        ensures
            final(self).wf(),
            final(self)@ == written_state(old(self)@, s.spec_bytes().len()),
            final(buf)@ == written_mem(old(self)@, old(buf)@, s.spec_bytes()),
    {
        self.write_bytes(buf, s.as_bytes());
    }
}

} // verus!
