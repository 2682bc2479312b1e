use vstd::prelude::*;
use vstd::string::StrSliceExecFns;
use vstd::string::StringSliceAdditionalSpecFns;
use crate::compat::zsh::{ESC, SGR_END};

verus! {

/// `[`, which opens the parameters of a CSI sequence.
pub const LBRACKET: u8 = 0x5b;

/// `;`, which separates SGR parameters.
pub const SEMICOLON: u8 = 0x3b;

/// `4`, the first digit of a background colour parameter.
pub const DIGIT_FOUR: u8 = 0x34;

/// `0`, the digit that makes `4` the black background.
pub const DIGIT_ZERO: u8 = 0x30;

/// Where the Windows transcoder stands in its output stream.
#[derive(Clone, Copy, Debug, PartialEq, Eq, Structural)]
pub enum State {
    /// Plain text.
    Normal,
    /// After ESC, before a parameter starts.
    InEscape,
    /// At the start of an SGR parameter (after `[` or `;`).
    InColor,
    /// After a `4` that began a parameter.
    InBackground,
}

/// The next state and the bytes emitted when `b` arrives in state `s`,
/// with `sub` standing in for the `0` of a black background.
pub open spec fn step(s: State, b: u8, sub: Seq<u8>) -> (State, Seq<u8>) {
    if b == SGR_END {
        (State::Normal, seq![b])
    } else {
        match s {
            State::Normal => if b == ESC {
                (State::InEscape, seq![b])
            } else {
                (State::Normal, seq![b])
            },
            State::InEscape => if b == LBRACKET || b == SEMICOLON {
                (State::InColor, seq![b])
            } else {
                (State::InEscape, seq![b])
            },
            State::InColor => if b == DIGIT_FOUR {
                (State::InBackground, seq![b])
            } else {
                (State::InColor, seq![b])
            },
            State::InBackground => if b == DIGIT_ZERO {
                (State::InColor, sub)
            } else if b == SEMICOLON || b == LBRACKET {
                (State::InColor, seq![b])
            } else {
                (State::InEscape, seq![b])
            },
        }
    }
}

/// The state reached and the bytes emitted after feeding `input` from state `s`.
pub open spec fn scan(s: State, input: Seq<u8>, sub: Seq<u8>) -> (State, Seq<u8>)
    decreases input.len(),
{
    if input.len() == 0 {
        (s, Seq::empty())
    } else {
        let (mid, out) = scan(s, input.drop_last(), sub);
        let (next, more) = step(mid, input.last(), sub);
        (next, out + more)
    }
}

/// Feeding `a` and then `b` reaches the state, and emits the bytes, that
/// feeding `a + b` at once does.
pub proof fn lemma_scan_concat(s: State, a: Seq<u8>, b: Seq<u8>, sub: Seq<u8>)
    ensures
        scan(s, a + b, sub).0 == scan(scan(s, a, sub).0, b, sub).0,
        scan(s, a + b, sub).1 == scan(s, a, sub).1 + scan(scan(s, a, sub).0, b, sub).1,
    decreases b.len(),
{
    let first = scan(s, a, sub);
    if b.len() == 0 {
        assert(a + b =~= a);
        assert(first.1 + scan(first.0, b, sub).1 =~= first.1);
    } else {
        assert((a + b).drop_last() =~= a + b.drop_last());
        assert((a + b).last() == b.last());
        lemma_scan_concat(s, a, b.drop_last(), sub);
        let rest = scan(first.0, b.drop_last(), sub);
        let last = step(rest.0, b.last(), sub);
        assert(first.1 + rest.1 + last.1 =~= first.1 + (rest.1 + last.1));
    }
}

/// Splitting a stream at any offset into two writes gives the same state
/// and the same concatenated output as one write of the whole.
pub proof fn lemma_split_write(s: State, input: Seq<u8>, k: int, sub: Seq<u8>)
    requires
        0 <= k <= input.len(),
    ensures
        scan(s, input, sub).0 == scan(scan(s, input.take(k), sub).0, input.skip(k), sub).0,
        scan(s, input, sub).1 == scan(s, input.take(k), sub).1 + scan(
            scan(s, input.take(k), sub).0,
            input.skip(k),
            sub,
        ).1,
{
    assert(input =~= input.take(k) + input.skip(k));
    lemma_scan_concat(s, input.take(k), input.skip(k), sub);
}

/// A stream without ESC bytes passes through unchanged, whatever the
/// substitution.
pub proof fn lemma_plain_passthrough(input: Seq<u8>, sub: Seq<u8>)
    requires
        forall|i: int| 0 <= i < input.len() ==> input[i] != ESC,
    ensures
        scan(State::Normal, input, sub).0 == State::Normal,
        scan(State::Normal, input, sub).1 == input,
    decreases input.len(),
{
    if input.len() > 0 {
        lemma_plain_passthrough(input.drop_last(), sub);
        assert(input.drop_last().push(input.last()) =~= input);
    }
}

/// Appends `bytes` to `out`.
fn push_all(out: &mut Vec<u8>, bytes: &[u8])
    ensures
        final(out)@ == old(out)@ + bytes@,
{
    let mut i: usize = 0;
    while i < bytes.len()
        invariant
            i <= bytes@.len(),
            out@ == old(out)@ + bytes@.take(i as int),
        decreases bytes@.len() - i,
    {
        out.push(bytes[i]);
        i = i + 1;
        proof {
            assert(out@ =~= old(out)@ + bytes@.take(i as int));
        }
    }
    proof {
        assert(bytes@.take(i as int) =~= bytes@);
    }
}

/// Transcoder that replaces the black background parameter `40` of SGR
/// sequences: the `0` becomes `sub`. Output accumulates in `out`.
pub struct Win {
    pub out: Vec<u8>,
    pub sub: Vec<u8>,
    pub state: State,
}

impl Win {
    /// A transcoder in plain-text state that appends to `out` and puts
    /// the bytes of `sub` in place of each matched `0`.
    pub fn new(out: Vec<u8>, sub: &str) -> (r: Win)
        ensures
            r.out@ == out@,
            r.sub@ == sub.spec_bytes(),
            r.state == State::Normal,
    {
        Win { out, sub: sub.as_bytes_vec(), state: State::Normal }
    }

    /// Feeds `buf`; returns how many bytes were consumed, which is all of them.
    pub fn write(&mut self, buf: &[u8]) -> (n: usize)
        ensures
            n == buf@.len(),
            final(self).sub == old(self).sub,
            final(self).state == scan(old(self).state, buf@, old(self).sub@).0,
            final(self).out@ == old(self).out@ + scan(old(self).state, buf@, old(self).sub@).1,
    {
        let ghost start = self.state;
        let ghost before = self.out@;
        let ghost sub = self.sub@;
        let mut i: usize = 0;
        while i < buf.len()
            invariant
                i <= buf@.len(),
                self.sub@ == sub,
                self.sub == old(self).sub,
                self.state == scan(start, buf@.take(i as int), sub).0,
                self.out@ == before + scan(start, buf@.take(i as int), sub).1,
            decreases buf@.len() - i,
        {
            let b = buf[i];
            proof {
                assert(buf@.take(i + 1).drop_last() =~= buf@.take(i as int));
                assert(buf@.take(i + 1).last() == b);
            }
            let mut substituted = false;
            if b == SGR_END {
                self.state = State::Normal;
            } else {
                match self.state {
                    State::Normal => {
                        if b == ESC {
                            self.state = State::InEscape;
                        }
                    },
                    State::InEscape => {
                        if b == LBRACKET || b == SEMICOLON {
                            self.state = State::InColor;
                        }
                    },
                    State::InColor => {
                        if b == DIGIT_FOUR {
                            self.state = State::InBackground;
                        }
                    },
                    State::InBackground => {
                        if b == DIGIT_ZERO {
                            push_all(&mut self.out, self.sub.as_slice());
                            substituted = true;
                            self.state = State::InColor;
                        } else if b == SEMICOLON || b == LBRACKET {
                            self.state = State::InColor;
                        } else {
                            self.state = State::InEscape;
                        }
                    },
                }
            }
            if !substituted {
                self.out.push(b);
            }
            i = i + 1;
            proof {
                assert(self.out@ =~= before + scan(start, buf@.take(i as int), sub).1);
            }
        }
        proof {
            assert(buf@.take(i as int) =~= buf@);
        }
        i
    }

    /// Feeds all of `buf`.
    pub fn write_all(&mut self, buf: &[u8])
        ensures
            final(self).sub == old(self).sub,
            final(self).state == scan(old(self).state, buf@, old(self).sub@).0,
            final(self).out@ == old(self).out@ + scan(old(self).state, buf@, old(self).sub@).1,
    {
        self.write(buf);
    }

    /// Hands out the bytes produced so far and keeps the scan state, so that
    /// a caller can forward them to the real sink between writes.
    pub fn flush(&mut self) -> (r: Vec<u8>)
        ensures
            r@ == old(self).out@,
            final(self).out@ == Seq::<u8>::empty(),
            final(self).sub == old(self).sub,
            final(self).state == old(self).state,
    {
        let r = self.out.split_off(0);
        proof {
            assert(r@ =~= old(self).out@);
        }
        r
    }

    /// Ends the stream and returns all output; an unfinished sequence has
    /// already passed through as it came.
    pub fn finish(self) -> (r: Vec<u8>)
        ensures
            r@ == self.out@,
    {
        self.out
    }
}

} // verus!
