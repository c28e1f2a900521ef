//! Texts as UTF-8 byte sequences: comparison, trimming of spaces and the
//! replacement of substrings.

use vstd::prelude::*;
use vstd::string::*;
use vstd::utf8::*;

verus! {

/// The byte that delimits the parts of a cell text, `|`.
pub const BAR: u8 = 124;

/// The ASCII space.
pub const SPACE: u8 = 32;

/// The UTF-8 bytes of a text.
pub open spec fn utf8(s: Seq<char>) -> Seq<u8> {
    encode_utf8(s)
}

/// The UTF-8 bytes of each text of a list, in order.
pub open spec fn texts(v: Seq<String>) -> Seq<Seq<u8>> {
    Seq::new(v.len(), |i: int| utf8(v[i]@))
}

/// Two texts with the same bytes are the same text.
pub proof fn utf8_injective(a: Seq<char>, b: Seq<char>)
    requires
        utf8(a) == utf8(b),
    ensures
        a == b,
{
    encode_utf8_decode_utf8(a);
    encode_utf8_decode_utf8(b);
}

/// The bytes of two texts put together are the bytes of the first followed
/// by the bytes of the second.
pub proof fn utf8_concat(a: Seq<char>, b: Seq<char>)
    ensures
        utf8(a + b) == utf8(a) + utf8(b),
    decreases a.len(),
{
    if a.len() == 0 {
        assert(a + b =~= b);
        assert(utf8(a) + utf8(b) =~= utf8(b));
    } else {
        assert((a + b).drop_first() =~= a.drop_first() + b);
        assert((a + b)[0] == a[0]);
        utf8_concat(a.drop_first(), b);
        assert(utf8(a + b) =~= utf8(a) + utf8(b));
    }
}

/// The text `|` is the one byte `BAR`.
pub proof fn utf8_of_bar()
    ensures
        utf8(seq!['|']) == seq![BAR],
{
    let bar = seq!['|'];
    assert(is_ascii_chars(bar));
    is_ascii_chars_encode_utf8(bar);
    assert(utf8(bar)[0] == bar[0] as u8);
    assert(utf8(bar) =~= seq![BAR]);
}

/// `b` without its leading spaces.
pub open spec fn trim_start(b: Seq<u8>) -> Seq<u8>
    decreases b.len(),
{
    if b.len() > 0 && b[0] == SPACE {
        trim_start(b.drop_first())
    } else {
        b
    }
}

/// `b` without its trailing spaces.
pub open spec fn trim_end(b: Seq<u8>) -> Seq<u8>
    decreases b.len(),
{
    if b.len() > 0 && b.last() == SPACE {
        trim_end(b.drop_last())
    } else {
        b
    }
}

/// `b` without its leading and trailing spaces.
pub open spec fn trimmed(b: Seq<u8>) -> Seq<u8> {
    trim_end(trim_start(b))
}

/// Skipping `i` leading spaces is a step towards `trim_start`.
pub proof fn trim_start_skips(b: Seq<u8>, i: int)
    requires
        0 <= i <= b.len(),
        forall|k: int| 0 <= k < i ==> b[k] == SPACE,
    ensures
        trim_start(b) == trim_start(b.subrange(i, b.len() as int)),
    decreases i,
{
    if i == 0 {
        assert(b.subrange(0, b.len() as int) =~= b);
    } else {
        let rest = b.drop_first();
        assert forall|k: int| 0 <= k < i - 1 implies rest[k] == SPACE by {
            assert(rest[k] == b[k + 1]);
        }
        trim_start_skips(rest, i - 1);
        assert(rest.subrange(i - 1, rest.len() as int) =~= b.subrange(i, b.len() as int));
    }
}

/// Dropping the spaces from `j` on is a step towards `trim_end`.
pub proof fn trim_end_skips(b: Seq<u8>, j: int)
    requires
        0 <= j <= b.len(),
        forall|k: int| j <= k < b.len() ==> b[k] == SPACE,
    ensures
        trim_end(b) == trim_end(b.subrange(0, j)),
    decreases b.len() - j,
{
    if j == b.len() {
        assert(b.subrange(0, j) =~= b);
    } else {
        let rest = b.drop_last();
        trim_end_skips(rest, j);
        assert(rest.subrange(0, j) =~= b.subrange(0, j));
    }
}

/// `s` with each occurrence of `from` replaced by `to`: the occurrences are
/// taken from the left and do not overlap.
pub open spec fn replace_all(s: Seq<u8>, from: Seq<u8>, to: Seq<u8>) -> Seq<u8>
    decreases s.len(),
{
    if from.len() == 0 || s.len() < from.len() {
        s
    } else if s.subrange(0, from.len() as int) == from {
        to + replace_all(s.subrange(from.len() as int, s.len() as int), from, to)
    } else {
        seq![s[0]] + replace_all(s.drop_first(), from, to)
    }
}

/// Whether two byte slices hold the same bytes.
pub fn bytes_eq(x: &[u8], y: &[u8]) -> (r: bool)
    ensures
        r == (x@ == y@),
{
    if x.len() != y.len() {
        return false;
    }
    let mut i: usize = 0;
    while i < x.len()
        invariant
            x@.len() == y@.len(),
            0 <= i <= x@.len(),
            forall|k: int| 0 <= k < i ==> x@[k] == y@[k],
        decreases x@.len() - i,
    {
        if x[i] != y[i] {
            return false;
        }
        i = i + 1;
    }
    assert(x@ =~= y@);
    true
}

/// Whether two strings are the same text.
pub fn same_text(a: &str, b: &str) -> (r: bool)
    ensures
        r == (a@ == b@),
{
    let r = bytes_eq(a.as_bytes(), b.as_bytes());
    proof {
        if r {
            utf8_injective(a@, b@);
        }
    }
    r
}

/// Whether `from` stands in `s` at `at`.
pub fn stands_at(s: &[u8], at: usize, from: &[u8]) -> (r: bool)
    requires
        at <= s@.len(),
    ensures
        r == (at + from@.len() <= s@.len() && s@.subrange(at as int, at + from@.len()) == from@),
{
    if from.len() > s.len() - at {
        return false;
    }
    bytes_eq(vstd::slice::slice_subrange(s, at, at + from.len()), from)
}

/// `s` with each occurrence of `from` replaced by `to`: the occurrences are
/// taken from the left and do not overlap. An empty `from` occurs nowhere.
pub fn replace_bytes(s: &[u8], from: &[u8], to: &[u8]) -> (r: Vec<u8>)
    ensures
        r@ == replace_all(s@, from@, to@),
{
    let n = s.len();
    let mut r: Vec<u8> = Vec::new();
    let mut i: usize = 0;
    assert(s@.subrange(0, n as int) =~= s@);
    while i < n
        invariant
            n == s@.len(),
            0 <= i <= n,
            r@ + replace_all(s@.subrange(i as int, n as int), from@, to@) == replace_all(
                s@,
                from@,
                to@,
            ),
        decreases n - i,
    {
        let ghost rest = s@.subrange(i as int, n as int);
        let ghost before = r@;
        if from.len() > 0 && stands_at(s, i, from) {
            let mut k: usize = 0;
            while k < to.len()
                invariant
                    0 <= k <= to@.len(),
                    r@ == before + to@.subrange(0, k as int),
                decreases to@.len() - k,
            {
                r.push(to[k]);
                assert(to@.subrange(0, k + 1) =~= to@.subrange(0, k as int).push(to@[k as int]));
                k = k + 1;
            }
            proof {
                assert(to@.subrange(0, to@.len() as int) =~= to@);
                assert(rest.subrange(0, from@.len() as int) =~= s@.subrange(
                    i as int,
                    i + from@.len(),
                ));
                assert(rest.subrange(from@.len() as int, rest.len() as int) =~= s@.subrange(
                    i + from@.len(),
                    n as int,
                ));
                assert(r@ + replace_all(s@.subrange(i + from@.len(), n as int), from@, to@)
                    =~= before + replace_all(rest, from@, to@));
            }
            i = i + from.len();
        } else {
            r.push(s[i]);
            proof {
                if from@.len() > 0 && rest.len() >= from@.len() {
                    assert(rest.subrange(0, from@.len() as int) =~= s@.subrange(
                        i as int,
                        i + from@.len(),
                    ));
                }
                assert(rest.drop_first() =~= s@.subrange(i + 1, n as int));
                if from@.len() == 0 || rest.len() < from@.len() {
                    replace_all_keeps_short(rest.drop_first(), from@, to@);
                    assert(seq![rest[0]] + rest.drop_first() =~= rest);
                }
                assert(r@ + replace_all(s@.subrange(i + 1, n as int), from@, to@) =~= before
                    + replace_all(rest, from@, to@));
            }
            i = i + 1;
        }
    }
    assert(r@ + replace_all(s@.subrange(n as int, n as int), from@, to@) =~= r@);
    r
}

/// A text shorter than `from`, or any text where `from` is empty, is left
/// as it is.
pub proof fn replace_all_keeps_short(s: Seq<u8>, from: Seq<u8>, to: Seq<u8>)
    requires
        from.len() == 0 || s.len() < from.len(),
    ensures
        replace_all(s, from, to) == s,
{
}

} // verus!
