//! Comment stripping for declaration files.  A suite's declaration is JSON
//! that may hold `//`-style line comments; before parsing, every comment
//! is replaced by spaces of the same length, so the text stays the same
//! size and positions in parse errors still point at the original file.
//! Comment markers inside string literals are left alone.

use vstd::prelude::*;

verus! {

/// Where the stripper stands in the text.
#[derive(Debug, PartialEq, Eq, Structural, Clone, Copy)]
pub enum StripState {
    /// Outside any string or comment.
    Normal,
    /// Just saw a `/` outside a string; whether it opens a comment depends
    /// on the next byte.
    SeenSlash,
    /// Inside a `//` comment, up to the end of the line.
    LineComment,
    /// Inside a string literal.
    InString,
    /// Inside a string literal, right after a backslash.
    InStringEscape,
}

/// One step of the stripper: the next state and what it emits for this
/// byte.  A resolved `/` that did not open a comment is emitted late,
/// which is why a step may emit zero, one or two bytes.
pub open spec fn spec_strip_step(st: StripState, b: u8) -> (StripState, Seq<u8>) {
    match st {
        StripState::Normal => {
            if b == 47 {  // '/'
                (StripState::SeenSlash, Seq::empty())
            } else if b == 34 {  // '"'
                (StripState::InString, seq![b])
            } else {
                (StripState::Normal, seq![b])
            }
        },
        StripState::SeenSlash => {
            if b == 47 {
                (StripState::LineComment, seq![32u8, 32u8])
            } else if b == 34 {
                (StripState::InString, seq![47u8, b])
            } else {
                (StripState::Normal, seq![47u8, b])
            }
        },
        StripState::LineComment => {
            if b == 10 {  // line feed
                (StripState::Normal, seq![b])
            } else {
                (StripState::LineComment, seq![32u8])
            }
        },
        StripState::InString => {
            if b == 92 {  // backslash
                (StripState::InStringEscape, seq![b])
            } else if b == 34 {
                (StripState::Normal, seq![b])
            } else {
                (StripState::InString, seq![b])
            }
        },
        StripState::InStringEscape => (StripState::InString, seq![b]),
    }
}

/// The stripper folded over a whole text, from the starting state.
pub open spec fn spec_strip_fold(s: Seq<u8>) -> (StripState, Seq<u8>)
    decreases s.len(),
{
    if s.len() == 0 {
        (StripState::Normal, Seq::empty())
    } else {
        let (st, out) = spec_strip_fold(s.drop_last());
        let (st2, emitted) = spec_strip_step(st, s.last());
        (st2, out + emitted)
    }
}

/// The declaration text with every `//` comment replaced by spaces: the
/// fold over all bytes, plus the one `/` still held back when the text
/// ends right after it.
pub open spec fn spec_strip_comments(s: Seq<u8>) -> Seq<u8> {
    if spec_strip_fold(s).0 is SeenSlash {
        spec_strip_fold(s).1 + seq![47u8]
    } else {
        spec_strip_fold(s).1
    }
}

/// Replaces every `//` comment outside string literals by spaces of the
/// same length.
pub fn strip_json_comments(s: &[u8]) -> (r: Vec<u8>)
    ensures
        r@ == spec_strip_comments(s@),
{
    let mut out: Vec<u8> = Vec::new();
    let mut st = StripState::Normal;
    let mut i: usize = 0;
    proof {
        assert(s@.subrange(0, 0) =~= Seq::<u8>::empty());
    }
    while i < s.len()
        invariant
            0 <= i <= s@.len(),
            (st, out@) == spec_strip_fold(s@.subrange(0, i as int)),
        decreases s@.len() - i,
    {
        let b = s[i];
        proof {
            assert(s@.subrange(0, i + 1).drop_last() =~= s@.subrange(0, i as int));
            assert(s@.subrange(0, i + 1).last() == s@[i as int]);
        }
        match st {
            StripState::Normal => {
                if b == 47 {
                    st = StripState::SeenSlash;
                } else if b == 34 {
                    st = StripState::InString;
                    out.push(b);
                } else {
                    out.push(b);
                }
            }
            StripState::SeenSlash => {
                if b == 47 {
                    st = StripState::LineComment;
                    out.push(32);
                    out.push(32);
                } else if b == 34 {
                    st = StripState::InString;
                    out.push(47);
                    out.push(b);
                } else {
                    st = StripState::Normal;
                    out.push(47);
                    out.push(b);
                }
            }
            StripState::LineComment => {
                if b == 10 {
                    st = StripState::Normal;
                    out.push(b);
                } else {
                    out.push(32);
                }
            }
            StripState::InString => {
                if b == 92 {
                    st = StripState::InStringEscape;
                    out.push(b);
                } else if b == 34 {
                    st = StripState::Normal;
                    out.push(b);
                } else {
                    out.push(b);
                }
            }
            StripState::InStringEscape => {
                st = StripState::InString;
                out.push(b);
            }
        }
        i += 1;
    }
    proof {
        assert(s@.subrange(0, s@.len() as int) =~= s@);
    }
    if matches!(st, StripState::SeenSlash) {
        out.push(47);
    }
    out
}

} // verus!
