//! Small verified helpers over strings and byte sequences that the rest of
//! the crate builds on.

use vstd::prelude::*;

verus! {

/// Equality of two string slices by their character sequences.
pub fn str_eq(a: &str, b: &str) -> (r: bool)
    ensures
        r == (a@ == b@),
{
    let sa = String::from_str(a);
    let sb = String::from_str(b);
    sa == sb
}

/// A copy of a vector of strings.
pub fn clone_strings(v: &Vec<String>) -> (r: Vec<String>)
    ensures
        r@ == v@,
{
    let mut r: Vec<String> = Vec::new();
    let mut i: usize = 0;
    while i < v.len()
        invariant
            0 <= i <= v@.len(),
            r@ =~= v@.subrange(0, i as int),
        decreases v@.len() - i,
    {
        r.push(v[i].clone());
        i += 1;
    }
    proof {
        assert(r@ =~= v@);
    }
    r
}

/// A copy of a vector whose elements copy themselves.
pub fn clone_copies<T: Copy>(v: &Vec<T>) -> (r: Vec<T>)
    ensures
        r@ == v@,
{
    let mut r: Vec<T> = Vec::new();
    let mut i: usize = 0;
    while i < v.len()
        invariant
            0 <= i <= v@.len(),
            r@ =~= v@.subrange(0, i as int),
        decreases v@.len() - i,
    {
        r.push(v[i]);
        i += 1;
    }
    proof {
        assert(r@ =~= v@);
    }
    r
}

/// Equality of two byte sequences.
pub fn bytes_eq(a: &[u8], b: &[u8]) -> (r: bool)
    ensures
        r == (a@ == b@),
{
    if a.len() != b.len() {
        proof {
            assert(a@ != b@) by {
                assert(a@.len() != b@.len());
            }
        }
        return false;
    }
    let mut i: usize = 0;
    while i < a.len()
        invariant
            0 <= i <= a@.len(),
            a@.len() == b@.len(),
            forall|j: int| 0 <= j < i ==> a@[j] == b@[j],
        decreases a@.len() - i,
    {
        if a[i] != b[i] {
            return false;
        }
        i += 1;
    }
    proof {
        assert(a@ =~= b@);
    }
    true
}

/// Whether a byte is ASCII whitespace: tab, line feed, vertical tab, form
/// feed, carriage return or space.
pub open spec fn spec_is_ws(b: u8) -> bool {
    b == 9 || b == 10 || b == 11 || b == 12 || b == 13 || b == 32
}

/// Decides whether a byte is ASCII whitespace.
pub fn is_ws_byte(b: u8) -> (r: bool)
    ensures
        r == spec_is_ws(b),
{
    b == 9 || b == 10 || b == 11 || b == 12 || b == 13 || b == 32
}

/// `s` without its leading ASCII whitespace.
pub open spec fn spec_trim_front(s: Seq<u8>) -> Seq<u8>
    decreases s.len(),
{
    if s.len() > 0 && spec_is_ws(s[0]) {
        spec_trim_front(s.drop_first())
    } else {
        s
    }
}

/// `s` without its trailing ASCII whitespace.
pub open spec fn spec_trim_back(s: Seq<u8>) -> Seq<u8>
    decreases s.len(),
{
    if s.len() > 0 && spec_is_ws(s.last()) {
        spec_trim_back(s.drop_last())
    } else {
        s
    }
}

/// `s` without leading and trailing ASCII whitespace.
pub open spec fn spec_trim(s: Seq<u8>) -> Seq<u8> {
    spec_trim_back(spec_trim_front(s))
}

/// Strips leading and trailing ASCII whitespace from a byte slice.
pub fn trim_ascii_ws(s: &[u8]) -> (r: &[u8])
    ensures
        r@ == spec_trim(s@),
{
    proof {
        assert(s@ =~= s@.subrange(0, s@.len() as int));
    }
    let mut lo: usize = 0;
    while lo < s.len() && is_ws_byte(s[lo])
        invariant
            0 <= lo <= s@.len(),
            spec_trim_front(s@) == spec_trim_front(s@.subrange(lo as int, s@.len() as int)),
        decreases s@.len() - lo,
    {
        proof {
            assert(s@.subrange(lo as int, s@.len() as int).drop_first() =~= s@.subrange(
                lo + 1,
                s@.len() as int,
            ));
        }
        lo += 1;
    }
    proof {
        assert(spec_trim_front(s@) == s@.subrange(lo as int, s@.len() as int));
    }
    let mut hi: usize = s.len();
    while hi > lo && is_ws_byte(s[hi - 1])
        invariant
            lo <= hi <= s@.len(),
            spec_trim_front(s@) == s@.subrange(lo as int, s@.len() as int),
            spec_trim_back(s@.subrange(lo as int, s@.len() as int)) == spec_trim_back(
                s@.subrange(lo as int, hi as int),
            ),
        decreases hi,
    {
        proof {
            assert(s@.subrange(lo as int, hi as int).drop_last() =~= s@.subrange(
                lo as int,
                hi - 1,
            ));
        }
        hi -= 1;
    }
    proof {
        assert(spec_trim(s@) == s@.subrange(lo as int, hi as int));
    }
    vstd::slice::slice_subrange(s, lo, hi)
}

/// Whether this text holds a line feed.
pub open spec fn spec_has_newline(s: Seq<char>) -> bool {
    exists|j: int| 0 <= j < s.len() && s[j] == '\n'
}

/// The pieces joined back together with a line feed between neighbours.
pub open spec fn spec_join_lines(pieces: Seq<Seq<char>>) -> Seq<char>
    decreases pieces.len(),
{
    if pieces.len() == 0 {
        Seq::empty()
    } else if pieces.len() == 1 {
        pieces[0]
    } else {
        spec_join_lines(pieces.drop_last()) + seq!['\n'] + pieces.last()
    }
}

/// Splits a text at every line feed.  The result is pinned down exactly:
/// no piece holds a line feed, and joining the pieces with line feeds
/// gives the text back; a text of `k` line feeds always yields `k + 1`
/// pieces.
pub fn split_lines(s: &str) -> (r: Vec<String>)
    ensures
        r@.len() >= 1,
        forall|k: int| 0 <= k < r@.len() ==> !spec_has_newline((#[trigger] r@[k])@),
        spec_join_lines(r.deep_view()) == s@,
{
    let n = s.unicode_len();
    let mut pieces: Vec<String> = Vec::new();
    let mut start: usize = 0;
    let mut i: usize = 0;
    proof {
        assert(s@.subrange(0, 0) =~= Seq::<char>::empty());
    }
    while i < n
        invariant
            n == s@.len(),
            0 <= start <= i <= n,
            spec_join_lines(pieces.deep_view().push(s@.subrange(start as int, i as int)))
                == s@.subrange(0, i as int),
            forall|k: int| 0 <= k < pieces@.len() ==> !spec_has_newline((#[trigger] pieces@[k])@),
            forall|j: int| start <= j < i ==> s@[j] != '\n',
        decreases n - i,
    {
        let c = s.get_char(i);
        proof {
            lemma_join_push(pieces.deep_view(), s@.subrange(start as int, i as int));
        }
        if c == '\n' {
            let piece = String::from_str(s.substring_char(start, i));
            let ghost old_pieces = pieces.deep_view();
            pieces.push(piece);
            proof {
                assert(pieces.deep_view() =~= old_pieces.push(s@.subrange(
                    start as int,
                    i as int,
                )));
                lemma_join_push(pieces.deep_view(), s@.subrange(i + 1, i + 1));
                assert(pieces.deep_view().push(s@.subrange(i + 1, i + 1)).drop_last()
                    =~= pieces.deep_view());
                assert(s@.subrange(i + 1, i + 1) =~= Seq::<char>::empty());
                assert(s@.subrange(0, i as int) + seq!['\n'] + Seq::<char>::empty() =~= s@.subrange(
                    0,
                    i + 1,
                ));
            }
            start = i + 1;
        } else {
            proof {
                lemma_join_push(pieces.deep_view(), s@.subrange(start as int, i + 1));
                assert(s@.subrange(start as int, i as int).push(s@[i as int]) =~= s@.subrange(
                    start as int,
                    i + 1,
                ));
                assert(s@.subrange(0, i as int).push(s@[i as int]) =~= s@.subrange(0, i + 1));
            }
        }
        i += 1;
    }
    let piece = String::from_str(s.substring_char(start, n));
    let ghost old_pieces = pieces.deep_view();
    pieces.push(piece);
    proof {
        assert(pieces.deep_view() =~= old_pieces.push(s@.subrange(start as int, n as int)));
        assert(s@.subrange(0, n as int) =~= s@);
    }
    pieces
}

/// Joining one more piece appends a line feed and the piece, or is the
/// piece itself when it is the only one.
proof fn lemma_join_push(pieces: Seq<Seq<char>>, last: Seq<char>)
    ensures
        pieces.len() == 0 ==> spec_join_lines(pieces.push(last)) == last,
        pieces.len() >= 1 ==> spec_join_lines(pieces.push(last)) == spec_join_lines(pieces)
            + seq!['\n'] + last,
{
    assert(pieces.push(last).drop_last() =~= pieces);
    assert(pieces.push(last).last() == last);
    if pieces.len() == 0 {
        assert(spec_join_lines(pieces.push(last)) == pieces.push(last)[0]);
    }
}

/// Whether `prefix` is a prefix of `s`.
pub open spec fn spec_starts_with(s: Seq<u8>, prefix: Seq<u8>) -> bool {
    prefix.len() <= s.len() && s.subrange(0, prefix.len() as int) == prefix
}

/// Decides whether `prefix` is a prefix of `s`.
pub fn bytes_starts_with(s: &[u8], prefix: &[u8]) -> (r: bool)
    ensures
        r == spec_starts_with(s@, prefix@),
{
    if prefix.len() > s.len() {
        return false;
    }
    let mut i: usize = 0;
    while i < prefix.len()
        invariant
            0 <= i <= prefix@.len(),
            prefix@.len() <= s@.len(),
            forall|j: int| 0 <= j < i ==> s@[j] == prefix@[j],
        decreases prefix@.len() - i,
    {
        if s[i] != prefix[i] {
            proof {
                assert(s@.subrange(0, prefix@.len() as int)[i as int] != prefix@[i as int]);
            }
            return false;
        }
        i += 1;
    }
    proof {
        assert(s@.subrange(0, prefix@.len() as int) =~= prefix@);
    }
    true
}

} // verus!
