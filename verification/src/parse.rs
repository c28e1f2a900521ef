//! Cell texts: the parser that splits `prefix|answer|suffix` into its parts.

use crate::text::{utf8, utf8_concat, utf8_injective, utf8_of_bar, BAR};
use vstd::prelude::*;
use vstd::string::*;
use vstd::utf8::*;

verus! {

/// What a cell holds, as bytes: plain text, or an answer between two
/// always-visible parts.
pub enum CellText {
    Label(Seq<u8>),
    Interactive { start: Seq<u8>, middle: Seq<u8>, end: Seq<u8> },
}

/// The place of the first `|` of `b`, if it has one.
pub open spec fn first_bar(b: Seq<u8>) -> Option<int>
    decreases b.len(),
{
    if b.len() == 0 {
        None
    } else if b[0] == BAR {
        Some(0)
    } else {
        match first_bar(b.drop_first()) {
            Some(i) => Some(i + 1),
            None => None,
        }
    }
}

/// The number of `|` in `b`.
pub open spec fn bar_count(b: Seq<u8>) -> nat
    decreases b.len(),
{
    if b.len() == 0 {
        0
    } else if b[0] == BAR {
        1 + bar_count(b.drop_first())
    } else {
        bar_count(b.drop_first())
    }
}

/// The cell that a raw text stands for. With two bars or more, the text up
/// to the first bar is the start, the text between the first two bars the
/// answer, and all that follows the second bar the end. With fewer, the
/// whole text is a label.
pub open spec fn parse(b: Seq<u8>) -> CellText {
    match first_bar(b) {
        None => CellText::Label(b),
        Some(i) => {
            let rest = b.subrange(i + 1, b.len() as int);
            match first_bar(rest) {
                None => CellText::Label(b),
                Some(j) => CellText::Interactive {
                    start: b.subrange(0, i),
                    middle: rest.subrange(0, j),
                    end: rest.subrange(j + 1, rest.len() as int),
                },
            }
        },
    }
}

/// `first_bar` gives the least index that holds a bar, and nothing where
/// there is no bar.
pub proof fn first_bar_spec(b: Seq<u8>)
    ensures
        match first_bar(b) {
            Some(i) => 0 <= i < b.len() && b[i] == BAR && forall|k: int|
                0 <= k < i ==> b[k] != BAR,
            None => forall|k: int| 0 <= k < b.len() ==> b[k] != BAR,
        },
    decreases b.len(),
{
    if b.len() > 0 && b[0] != BAR {
        let rest = b.drop_first();
        first_bar_spec(rest);
        match first_bar(rest) {
            Some(i) => {
                assert forall|k: int| 0 <= k < i + 1 implies b[k] != BAR by {
                    if k > 0 {
                        assert(b[k] == rest[k - 1]);
                    }
                }
            },
            None => {
                assert forall|k: int| 0 <= k < b.len() implies b[k] != BAR by {
                    if k > 0 {
                        assert(b[k] == rest[k - 1]);
                    }
                }
            },
        }
    }
}

/// An index that holds the first bar is what `first_bar` gives.
pub proof fn first_bar_found(b: Seq<u8>, i: int)
    requires
        0 <= i < b.len(),
        b[i] == BAR,
        forall|k: int| 0 <= k < i ==> b[k] != BAR,
    ensures
        first_bar(b) == Some(i),
{
    first_bar_spec(b);
}

/// A text without a bar has no first bar.
pub proof fn first_bar_absent(b: Seq<u8>)
    requires
        forall|k: int| 0 <= k < b.len() ==> b[k] != BAR,
    ensures
        first_bar(b) is None,
{
    first_bar_spec(b);
}

/// The bars of a text are those from its first bar on.
pub proof fn bar_count_from_first(b: Seq<u8>)
    ensures
        match first_bar(b) {
            Some(i) => bar_count(b) == 1 + bar_count(b.subrange(i + 1, b.len() as int)),
            None => bar_count(b) == 0,
        },
    decreases b.len(),
{
    if b.len() > 0 {
        let rest = b.drop_first();
        if b[0] == BAR {
            assert(b.subrange(1, b.len() as int) =~= rest);
        } else {
            bar_count_from_first(rest);
            first_bar_spec(rest);
            match first_bar(rest) {
                Some(i) => {
                    assert(rest.subrange(i + 1, rest.len() as int) =~= b.subrange(
                        i + 2,
                        b.len() as int,
                    ));
                },
                None => {},
            }
        }
    }
}

/// A text with two bars or more parses into three parts which, put together
/// again with a bar between them, are the text; a text with fewer bars is a
/// label that holds the text unchanged. The answer never holds a bar, and
/// neither does the start.
pub proof fn parse_round_trip(b: Seq<u8>)
    ensures
        bar_count(b) >= 2 ==> parse(b) is Interactive && parse(b)->start + seq![BAR] + parse(
            b,
        )->middle + seq![BAR] + parse(b)->end == b,
        bar_count(b) >= 2 ==> bar_count(parse(b)->start) == 0 && bar_count(parse(b)->middle) == 0,
        bar_count(b) == 2 ==> bar_count(parse(b)->end) == 0,
        bar_count(b) < 2 ==> parse(b) == CellText::Label(b),
{
    bar_count_from_first(b);
    first_bar_spec(b);
    match first_bar(b) {
        None => {},
        Some(i) => {
            let rest = b.subrange(i + 1, b.len() as int);
            bar_count_from_first(rest);
            first_bar_spec(rest);
            match first_bar(rest) {
                None => {},
                Some(j) => {
                    let start = b.subrange(0, i);
                    let middle = rest.subrange(0, j);
                    let end = rest.subrange(j + 1, rest.len() as int);
                    assert(start + seq![BAR] + middle + seq![BAR] + end =~= b);
                    first_bar_absent(start);
                    first_bar_absent(middle);
                    bar_count_from_first(start);
                    bar_count_from_first(middle);
                },
            }
        },
    }
}

/// Three texts whose bytes are the three parts of a parsed text are, put
/// together with a bar between them, that text.
pub proof fn parse_joins_texts(
    input: Seq<char>,
    start: Seq<char>,
    middle: Seq<char>,
    end: Seq<char>,
)
    requires
        parse(utf8(input)) == (CellText::Interactive {
            start: utf8(start),
            middle: utf8(middle),
            end: utf8(end),
        }),
    ensures
        input == start + seq!['|'] + middle + seq!['|'] + end,
{
    let bar = seq!['|'];
    parse_round_trip(utf8(input));
    utf8_of_bar();
    utf8_concat(start, bar);
    utf8_concat(start + bar, middle);
    utf8_concat(start + bar + middle, bar);
    utf8_concat(start + bar + middle + bar, end);
    utf8_injective(input, start + bar + middle + bar + end);
}

/// A cell text split in three: `middle` is the answer, `start` and `end` are
/// always shown.
#[derive(Clone, Debug, PartialEq, Eq)]
pub struct TriSplit {
    pub start: String,
    pub middle: String,
    pub end: String,
}

/// The bytes of the three parts.
pub struct TriSplitText {
    pub start: Seq<u8>,
    pub middle: Seq<u8>,
    pub end: Seq<u8>,
}

impl View for TriSplit {
    type V = TriSplitText;

    open spec fn view(&self) -> TriSplitText {
        TriSplitText { start: utf8(self.start@), middle: utf8(self.middle@), end: utf8(self.end@) }
    }
}

impl TriSplit {
    pub fn new(start: String, middle: String, end: String) -> (r: Self)
        ensures
            r.start == start,
            r.middle == middle,
            r.end == end,
    {
        Self { start, middle, end }
    }

    /// A copy with the same three texts.
    pub fn copy(&self) -> (r: Self)
        ensures
            r.start@ == self.start@,
            r.middle@ == self.middle@,
            r.end@ == self.end@,
            r@ == self@,
    {
        Self { start: self.start.clone(), middle: self.middle.clone(), end: self.end.clone() }
    }
}

/// A parsed cell: a label, or an interactive span.
#[derive(Clone, Debug, PartialEq, Eq)]
pub enum ParsedCell {
    Label(String),
    Interactive(TriSplit),
}

impl View for ParsedCell {
    type V = CellText;

    open spec fn view(&self) -> CellText {
        match self {
            ParsedCell::Label(s) => CellText::Label(utf8(s@)),
            ParsedCell::Interactive(t) => CellText::Interactive {
                start: utf8(t.start@),
                middle: utf8(t.middle@),
                end: utf8(t.end@),
            },
        }
    }
}

impl ParsedCell {
    pub fn is_interactive(&self) -> (r: bool)
        ensures
            r == (self@ is Interactive),
            r == (self is Interactive),
    {
        match self {
            ParsedCell::Interactive(_) => true,
            _ => false,
        }
    }

    /// A copy with the same texts.
    pub fn copy(&self) -> (r: Self)
        ensures
            r@ == self@,
    {
        match self {
            ParsedCell::Label(s) => ParsedCell::Label(s.clone()),
            ParsedCell::Interactive(t) => ParsedCell::Interactive(t.copy()),
        }
    }
}

/// The index of the first `|` in `bytes`.
pub fn find_bar(bytes: &[u8]) -> (r: Option<usize>)
    ensures
        match r {
            Some(i) => first_bar(bytes@) == Some(i as int) && i < bytes@.len() && bytes@[i as int]
                == BAR,
            None => first_bar(bytes@) is None,
        },
{
    let mut i: usize = 0;
    while i < bytes.len()
        invariant
            0 <= i <= bytes@.len(),
            forall|k: int| 0 <= k < i ==> bytes@[k] != BAR,
        decreases bytes@.len() - i,
    {
        if bytes[i] == BAR {
            proof {
                first_bar_found(bytes@, i as int);
            }
            return Some(i);
        }
        i = i + 1;
    }
    proof {
        first_bar_absent(bytes@);
    }
    None
}

/// In well-formed UTF-8 a bar stands where a character begins, and the next
/// character begins right after it.
proof fn bar_at_boundary(b: Seq<u8>, i: int)
    requires
        valid_utf8(b),
        0 <= i < b.len(),
        b[i] == BAR,
    ensures
        is_char_boundary(b, i),
        valid_utf8(b.subrange(i, b.len() as int)),
        is_char_boundary(b.subrange(i, b.len() as int), 1),
        valid_utf8(b.subrange(i + 1, b.len() as int)),
{
    is_char_boundary_iff_not_is_continuation_byte(b, i);
    valid_utf8_split(b, i);
    let s = b.subrange(i, b.len() as int);
    assert(s[0] == BAR);
    assert(is_leading_byte_width_1(s[0]));
    assert(length_of_first_scalar(s) == 1);
    assert(valid_utf8(pop_first_scalar(s)));
    assert(pop_first_scalar(s) =~= b.subrange(i + 1, b.len() as int));
    reveal_with_fuel(is_char_boundary, 2);
    assert(is_char_boundary(pop_first_scalar(s), 0));
    assert(is_char_boundary(s, 1));
}

/// Parses a raw cell text. A text with two bars or more becomes an
/// interactive span, any other text a label that holds it unchanged.
pub fn split_bars(str: String) -> (cell: ParsedCell)
    ensures
        cell@ == parse(utf8(str@)),
        cell is Label ==> cell->Label_0@ == str@,
        cell is Interactive ==> cell->Interactive_0.start@ + seq!['|']
            + cell->Interactive_0.middle@ + seq!['|'] + cell->Interactive_0.end@ == str@,
{
    let whole = str.as_str();
    let bytes = whole.as_bytes();
    proof {
        encode_utf8_valid_utf8(str@);
    }
    match find_bar(bytes) {
        None => ParsedCell::Label(str),
        Some(left) => {
            proof {
                bar_at_boundary(bytes@, left as int);
            }
            let (start, from_bar) = whole.split_at(left);
            let (_, rest) = from_bar.split_at(1);
            let ghost rest_bytes = bytes@.subrange(left + 1, bytes@.len() as int);
            assert(rest.spec_bytes() =~= rest_bytes);
            match find_bar(rest.as_bytes()) {
                None => ParsedCell::Label(str),
                Some(right) => {
                    proof {
                        bar_at_boundary(rest_bytes, right as int);
                    }
                    let (middle, from_bar) = rest.split_at(right);
                    let (_, end) = from_bar.split_at(1);
                    assert(end.spec_bytes() =~= rest_bytes.subrange(
                        right + 1,
                        rest_bytes.len() as int,
                    ));
                    proof {
                        parse_joins_texts(str@, start@, middle@, end@);
                    }
                    ParsedCell::Interactive(
                        TriSplit::new(start.to_owned(), middle.to_owned(), end.to_owned()),
                    )
                },
            }
        },
    }
}

} // verus!
