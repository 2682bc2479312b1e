use vstd::prelude::*;

verus! {

/// The byte that opens an ANSI escape sequence.
pub const ESC: u8 = 0x1b;

/// `m`, the final byte of an SGR sequence.
pub const SGR_END: u8 = 0x6d;

/// `%`.
pub const PERCENT: u8 = 0x25;

/// `{`.
pub const LBRACE: u8 = 0x7b;

/// `}`.
pub const RBRACE: u8 = 0x7d;

/// Where the zsh transcoder stands in its output stream.
#[derive(Clone, Copy, Debug, PartialEq, Eq, Structural)]
pub enum Escape {
    /// Plain text: bytes pass through.
    Normal,
    /// Inside an escape sequence, before its final `m`.
    Escaped,
    /// Just after an `m`; a following ESC continues the same group.
    MaybeDone,
}

/// The marker that opens a zsh zero-width region: `%{`.
pub open spec fn open_marker() -> Seq<u8> {
    seq![PERCENT, LBRACE]
}

/// The marker that closes a zsh zero-width region: `%}`.
pub open spec fn close_marker() -> Seq<u8> {
    seq![PERCENT, RBRACE]
}

/// The next state and the bytes emitted when `b` arrives in state `s`.
pub open spec fn step(s: Escape, b: u8) -> (Escape, Seq<u8>) {
    match s {
        Escape::Normal => if b == ESC {
            (Escape::Escaped, open_marker().push(b))
        } else {
            (Escape::Normal, seq![b])
        },
        Escape::Escaped => if b == SGR_END {
            (Escape::MaybeDone, seq![b])
        } else {
            (Escape::Escaped, seq![b])
        },
        Escape::MaybeDone => if b == ESC {
            (Escape::Escaped, seq![b])
        } else {
            (Escape::Normal, close_marker().push(b))
        },
    }
}

/// The state reached and the bytes emitted after feeding `input` from state `s`.
pub open spec fn scan(s: Escape, input: Seq<u8>) -> (Escape, Seq<u8>)
    decreases input.len(),
{
    if input.len() == 0 {
        (s, Seq::empty())
    } else {
        let (mid, out) = scan(s, input.drop_last());
        let (next, more) = step(mid, input.last());
        (next, out + more)
    }
}

/// What closing the stream in state `s` emits.
pub open spec fn finalize(s: Escape) -> Seq<u8> {
    if s == Escape::Normal {
        Seq::empty()
    } else {
        close_marker()
    }
}

/// Feeding `a` and then `b` reaches the state, and emits the bytes, that
/// feeding `a + b` at once does.
pub proof fn lemma_scan_concat(s: Escape, a: Seq<u8>, b: Seq<u8>)
    ensures
        scan(s, a + b).0 == scan(scan(s, a).0, b).0,
        scan(s, a + b).1 == scan(s, a).1 + scan(scan(s, a).0, b).1,
    decreases b.len(),
{
    let first = scan(s, a);
    if b.len() == 0 {
        assert(a + b =~= a);
        assert(first.1 + scan(first.0, b).1 =~= first.1);
    } else {
        assert((a + b).drop_last() =~= a + b.drop_last());
        assert((a + b).last() == b.last());
        lemma_scan_concat(s, a, b.drop_last());
        let rest = scan(first.0, b.drop_last());
        let last = step(rest.0, b.last());
        assert(first.1 + rest.1 + last.1 =~= first.1 + (rest.1 + last.1));
    }
}

/// Splitting a stream at any offset into two writes gives the same state
/// and the same concatenated output as one write of the whole.
pub proof fn lemma_split_write(s: Escape, input: Seq<u8>, k: int)
    requires
        0 <= k <= input.len(),
    ensures
        scan(s, input).0 == scan(scan(s, input.take(k)).0, input.skip(k)).0,
        scan(s, input).1 == scan(s, input.take(k)).1 + scan(
            scan(s, input.take(k)).0,
            input.skip(k),
        ).1,
{
    assert(input =~= input.take(k) + input.skip(k));
    lemma_scan_concat(s, input.take(k), input.skip(k));
}

/// A stream without ESC bytes passes through unchanged, and closing it
/// adds nothing.
pub proof fn lemma_plain_passthrough(input: Seq<u8>)
    requires
        forall|i: int| 0 <= i < input.len() ==> input[i] != ESC,
    ensures
        scan(Escape::Normal, input).0 == Escape::Normal,
        scan(Escape::Normal, input).1 == input,
        scan(Escape::Normal, input).1 + finalize(scan(Escape::Normal, input).0) == input,
    decreases input.len(),
{
    if input.len() > 0 {
        lemma_plain_passthrough(input.drop_last());
        assert(input.drop_last().push(input.last()) =~= input);
    }
    assert(input + Seq::<u8>::empty() =~= input);
}

/// Transcoder that wraps every run of adjacent SGR escape sequences in a
/// zsh `%{ ... %}` group. Output accumulates in `out`.
pub struct Zsh {
    pub out: Vec<u8>,
    pub escape: Escape,
}

impl Zsh {
    /// A transcoder in plain-text state that appends to `out`.
    pub fn new(out: Vec<u8>) -> (r: Zsh)
        ensures
            r.out@ == out@,
            r.escape == Escape::Normal,
    {
        Zsh { out, escape: Escape::Normal }
    }

    /// Feeds `buf`; returns how many bytes were consumed, which is all of them.
    pub fn write(&mut self, buf: &[u8]) -> (n: usize)
        ensures
            n == buf@.len(),
            final(self).escape == scan(old(self).escape, buf@).0,
            final(self).out@ == old(self).out@ + scan(old(self).escape, buf@).1,
    {
        let ghost start = self.escape;
        let ghost before = self.out@;
        let mut i: usize = 0;
        while i < buf.len()
            invariant
                i <= buf@.len(),
                self.escape == scan(start, buf@.take(i as int)).0,
                self.out@ == before + scan(start, buf@.take(i as int)).1,
            decreases buf@.len() - i,
        {
            let b = buf[i];
            proof {
                assert(buf@.take(i + 1).drop_last() =~= buf@.take(i as int));
                assert(buf@.take(i + 1).last() == b);
            }
            match self.escape {
                Escape::Normal => {
                    if b == ESC {
                        self.out.push(PERCENT);
                        self.out.push(LBRACE);
                        self.escape = Escape::Escaped;
                    }
                },
                Escape::Escaped => {
                    if b == SGR_END {
                        self.escape = Escape::MaybeDone;
                    }
                },
                Escape::MaybeDone => {
                    if b == ESC {
                        self.escape = Escape::Escaped;
                    } else {
                        self.out.push(PERCENT);
                        self.out.push(RBRACE);
                        self.escape = Escape::Normal;
                    }
                },
            }
            self.out.push(b);
            i = i + 1;
            proof {
                assert(self.out@ =~= before + scan(start, buf@.take(i as int)).1);
            }
        }
        proof {
            assert(buf@.take(i as int) =~= buf@);
        }
        i
    }

    /// Feeds all of `buf`.
    pub fn write_all(&mut self, buf: &[u8])
        ensures
            final(self).escape == scan(old(self).escape, buf@).0,
            final(self).out@ == old(self).out@ + scan(old(self).escape, buf@).1,
    {
        self.write(buf);
    }

    /// Hands out the bytes produced so far and keeps the scan state, so that
    /// a caller can forward them to the real sink between writes.
    pub fn flush(&mut self) -> (r: Vec<u8>)
        ensures
            r@ == old(self).out@,
            final(self).out@ == Seq::<u8>::empty(),
            final(self).escape == old(self).escape,
    {
        let r = self.out.split_off(0);
        proof {
            assert(r@ =~= old(self).out@);
        }
        r
    }

    /// Ends the stream: closes a group left open, and returns all output.
    pub fn finish(self) -> (r: Vec<u8>)
        ensures
            r@ == self.out@ + finalize(self.escape),
            self.escape != Escape::Normal ==> r@ == self.out@ + close_marker(),
            self.escape == Escape::Normal ==> r@ == self.out@,
    {
        let mut out = self.out;
        if self.escape != Escape::Normal {
            out.push(PERCENT);
            out.push(RBRACE);
        }
        proof {
            assert(out@ =~= self.out@ + finalize(self.escape));
            assert(self.out@ + Seq::<u8>::empty() =~= self.out@);
        }
        out
    }
}

} // verus!
