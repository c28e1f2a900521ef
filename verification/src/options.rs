//! The answer options of the drop-down mode: the distinct answers of the
//! table or of each of its columns, in an order picked at random.

use crate::grid::{grid, is_location_grid, locations, predict_options_style_type,
    predicted_style, Location, ParsedTable};
use crate::mode::OptionsStyleType;
use crate::parse::{CellText, ParsedCell};
use crate::text::{texts, utf8};
use itertools::Itertools;
use rand::rngs::ThreadRng;
use rand::seq::SliceRandom;
use vstd::prelude::*;
use vstd::seq_lib::*;

verus! {

/// What each cell of a list holds.
pub open spec fn cell_texts(cells: Seq<&ParsedCell>) -> Seq<CellText> {
    Seq::new(cells.len(), |i: int| cells[i]@)
}

/// The answers of the interactive cells of a list, in order.
pub open spec fn answers(cells: Seq<CellText>) -> Seq<Seq<u8>>
    decreases cells.len(),
{
    if cells.len() == 0 {
        seq![]
    } else {
        let before = answers(cells.drop_last());
        match cells.last() {
            CellText::Interactive { middle, .. } => before.push(middle),
            CellText::Label(_) => before,
        }
    }
}

/// The cells of a table, row after row.
pub open spec fn flat(g: Seq<Seq<CellText>>) -> Seq<CellText>
    decreases g.len(),
{
    if g.len() == 0 {
        seq![]
    } else {
        flat(g.drop_last()) + g.last()
    }
}

/// The cells of column `c`, from the rows that reach it, top down.
pub open spec fn column(g: Seq<Seq<CellText>>, c: int) -> Seq<CellText>
    decreases g.len(),
{
    if g.len() == 0 {
        seq![]
    } else if 0 <= c < g.last().len() {
        column(g.drop_last(), c).push(g.last()[c])
    } else {
        column(g.drop_last(), c)
    }
}

/// The length of the longest row.
pub open spec fn max_columns<A>(g: Seq<Seq<A>>) -> nat
    decreases g.len(),
{
    if g.len() == 0 {
        0
    } else if g.last().len() > max_columns(g.drop_last()) {
        g.last().len()
    } else {
        max_columns(g.drop_last())
    }
}

/// The items of `s` without repetitions: of equal items the first stays,
/// and what stays keeps its order.
pub open spec fn distinct(s: Seq<Seq<u8>>) -> Seq<Seq<u8>>
    decreases s.len(),
{
    if s.len() == 0 {
        s
    } else if distinct(s.drop_last()).contains(s.last()) {
        distinct(s.drop_last())
    } else {
        distinct(s.drop_last()).push(s.last())
    }
}

/// `distinct` holds every item of the list, once.
pub proof fn distinct_spec(s: Seq<Seq<u8>>)
    ensures
        distinct(s).no_duplicates(),
        forall|x: Seq<u8>| distinct(s).contains(x) <==> s.contains(x),
        distinct(s).len() <= s.len(),
    decreases s.len(),
{
    if s.len() > 0 {
        let head = s.drop_last();
        let d = distinct(head);
        distinct_spec(head);
        assert forall|x: Seq<u8>| distinct(s).contains(x) <==> s.contains(x) by {
            if s.contains(x) {
                let i = choose|i: int| 0 <= i < s.len() && s[i] == x;
                if i < s.len() - 1 {
                    assert(head[i] == x);
                    assert(head.contains(x));
                    assert(d.contains(x));
                    let k = choose|k: int| 0 <= k < d.len() && d[k] == x;
                    assert(distinct(s)[k] == x);
                } else if !d.contains(s.last()) {
                    assert(distinct(s)[d.len() as int] == x);
                }
            }
            if distinct(s).contains(x) {
                let k = choose|k: int| 0 <= k < distinct(s).len() && distinct(s)[k] == x;
                if k < d.len() {
                    assert(d[k] == x);
                    assert(d.contains(x));
                    assert(head.contains(x));
                    let i = choose|i: int| 0 <= i < head.len() && head[i] == x;
                    assert(s[i] == x);
                } else {
                    assert(s[s.len() - 1] == x);
                }
            }
        }
    }
}

/// Whether two lists hold the same items, each as often, in any order.
pub open spec fn is_permutation(a: Seq<Seq<u8>>, b: Seq<Seq<u8>>) -> bool {
    a.to_multiset() == b.to_multiset()
}

/// The options of the drop-down mode.
#[derive(Clone, Debug, PartialEq, Eq)]
pub enum DropDownOptionsStyle {
    /// The mode cannot be chosen.
    Disabled,
    /// Every cell offers these.
    All { options: Vec<String> },
    /// A cell offers those of its column.
    ByCol { col_options: Vec<Vec<String>> },
}

impl DropDownOptionsStyle {
    pub fn is_disabled(&self) -> (r: bool)
        ensures
            r == (self is Disabled),
    {
        match self {
            DropDownOptionsStyle::Disabled => true,
            _ => false,
        }
    }

    /// One list of options for the whole table. A choice among fewer than
    /// two is none: the style is then disabled.
    pub fn all_of(options: Vec<String>) -> (style: Self)
        ensures
            options@.len() > 1 ==> style == (DropDownOptionsStyle::All { options }),
            options@.len() <= 1 ==> style is Disabled,
    {
        if options.len() > 1 {
            DropDownOptionsStyle::All { options }
        } else {
            DropDownOptionsStyle::Disabled
        }
    }
}

/// Whether `style` is a style of the given kind for the table `g`: its
/// options are the distinct answers in scope, in some order, and a single
/// list with fewer than two options has given way to the disabled style.
pub open spec fn style_fits(
    style: DropDownOptionsStyle,
    kind: OptionsStyleType,
    g: Seq<Seq<CellText>>,
) -> bool {
    match kind {
        OptionsStyleType::Disabled => style is Disabled,
        OptionsStyleType::All => {
            let candidates = distinct(answers(flat(g)));
            if candidates.len() > 1 {
                style is All && is_permutation(texts(style->options@), candidates)
            } else {
                style is Disabled
            }
        },
        OptionsStyleType::ByCol => {
            &&& style is ByCol
            &&& style->col_options@.len() == max_columns(g)
            &&& forall|c: int|
                0 <= c < max_columns(g) ==> is_permutation(
                    texts((#[trigger] style->col_options@[c])@),
                    distinct(answers(column(g, c))),
                )
        },
    }
}

/// A list in some order of a list without repetitions has none either, is
/// as long, and holds the same items.
pub proof fn permutation_of_distinct(a: Seq<Seq<u8>>, b: Seq<Seq<u8>>)
    requires
        is_permutation(a, b),
        b.no_duplicates(),
    ensures
        a.no_duplicates(),
        a.len() == b.len(),
        forall|x: Seq<u8>| a.contains(x) <==> b.contains(x),
{
    to_multiset_len(a);
    to_multiset_len(b);
    b.lemma_multiset_has_no_duplicates();
    a.lemma_multiset_has_no_duplicates_conv();
    assert forall|x: Seq<u8>| a.contains(x) <==> b.contains(x) by {
        to_multiset_contains(a, x);
        to_multiset_contains(b, x);
    }
}

/// A single list of options for a whole table gives way to the disabled
/// style exactly where the table has fewer than two distinct answers. Where
/// it stays, it holds two options or more: the answers of the table, each
/// once.
pub proof fn single_list_needs_two_options(style: DropDownOptionsStyle, g: Seq<Seq<CellText>>)
    requires
        style_fits(style, OptionsStyleType::All, g),
    ensures
        style is Disabled <==> distinct(answers(flat(g))).len() <= 1,
        !(style is ByCol),
        style is All ==> {
            &&& style->options@.len() >= 2
            &&& texts(style->options@).no_duplicates()
            &&& forall|x: Seq<u8>|
                texts(style->options@).contains(x) <==> answers(flat(g)).contains(x)
        },
{
    let candidates = distinct(answers(flat(g)));
    distinct_spec(answers(flat(g)));
    if style is All {
        permutation_of_distinct(texts(style->options@), candidates);
    }
}

/// With options by column, every column of the table has its list, which
/// holds the answers of the column, each once.
pub proof fn column_lists_hold_the_answers(
    style: DropDownOptionsStyle,
    g: Seq<Seq<CellText>>,
    c: int,
)
    requires
        style_fits(style, OptionsStyleType::ByCol, g),
        0 <= c < max_columns(g),
    ensures
        style is ByCol,
        c < style->col_options@.len(),
        texts(style->col_options@[c]@).no_duplicates(),
        forall|x: Seq<u8>|
            texts(style->col_options@[c]@).contains(x) <==> answers(column(g, c)).contains(x),
{
    distinct_spec(answers(column(g, c)));
    permutation_of_distinct(texts(style->col_options@[c]@), distinct(answers(column(g, c))));
}

/// `rand::rngs::ThreadRng`, the generator that `rand::thread_rng` hands out.
#[verifier::external_type_specification]
#[verifier::external_body]
pub struct ExThreadRng(ThreadRng);

/// `rand::thread_rng`: the random number generator of the running thread.
/// Nothing is claimed of it. It ends the program where the system has no
/// randomness to seed it with.
pub assume_specification[ rand::thread_rng ]() -> (rng: ThreadRng)
;

/// `Itertools::unique` of itertools, on a list of strings: of equal strings
/// the first stays, and what stays keeps its order.
#[verifier::external_body]
fn unique(items: Vec<String>) -> (kept: Vec<String>)
    ensures
        texts(kept@) == distinct(texts(items@)),
{
    items.into_iter().unique().collect()
}

/// `SliceRandom::shuffle` of rand: the list holds afterwards what it held
/// before, in an order that the generator picked.
#[verifier::external_body]
fn shuffle(options: &mut Vec<String>, rng: &mut ThreadRng)
    ensures
        is_permutation(texts(final(options)@), texts(old(options)@)),
{
    options.shuffle(rng)
}

/// The answers of the interactive cells of a list, in order.
pub fn collect_answers(cells: &Vec<&ParsedCell>) -> (middles: Vec<String>)
    ensures
        texts(middles@) == answers(cell_texts(cells@)),
{
    let ghost all = cell_texts(cells@);
    let mut middles: Vec<String> = Vec::new();
    let mut i: usize = 0;
    assert(texts(middles@) =~= answers(all.take(0)));
    while i < cells.len()
        invariant
            all == cell_texts(cells@),
            0 <= i <= cells@.len(),
            texts(middles@) == answers(all.take(i as int)),
        decreases cells@.len() - i,
    {
        let ghost before = middles@;
        let cell: &ParsedCell = cells[i];
        proof {
            assert(all.take(i + 1).drop_last() =~= all.take(i as int));
            assert(all.take(i + 1).last() == cell@);
        }
        match cell {
            ParsedCell::Interactive(text) => {
                middles.push(text.middle.clone());
                assert(texts(middles@) =~= texts(before).push(utf8(text.middle@)));
            },
            ParsedCell::Label(_) => {},
        }
        i = i + 1;
    }
    assert(all.take(cells@.len() as int) =~= all);
    middles
}

/// The options that a list of cells gives: the distinct answers of its
/// interactive cells, in an order picked at random.
pub fn create_options(unfiltered_options: Vec<&ParsedCell>) -> (options: Vec<String>)
    ensures
        is_permutation(texts(options@), distinct(answers(cell_texts(unfiltered_options@)))),
        options@.len() == distinct(answers(cell_texts(unfiltered_options@))).len(),
{
    let mut rng = rand::thread_rng();
    let middles = collect_answers(&unfiltered_options);
    let mut options = unique(middles);
    let ghost kept = texts(options@);
    shuffle(&mut options, &mut rng);
    proof {
        to_multiset_len(texts(options@));
        to_multiset_len(kept);
    }
    options
}

/// The cells of the table, row after row.
pub fn flat_cells<'a>(parsed_table: &'a ParsedTable) -> (cells: Vec<&'a ParsedCell>)
    ensures
        cell_texts(cells@) == flat(grid(parsed_table@)),
{
    let ghost g = grid(parsed_table@);
    let mut cells: Vec<&'a ParsedCell> = Vec::new();
    let mut r: usize = 0;
    assert(cell_texts(cells@) =~= flat(g.take(0)));
    while r < parsed_table.len()
        invariant
            g == grid(parsed_table@),
            0 <= r <= parsed_table@.len(),
            cell_texts(cells@) == flat(g.take(r as int)),
        decreases parsed_table@.len() - r,
    {
        let row = &parsed_table[r];
        let ghost done = cell_texts(cells@);
        let mut c: usize = 0;
        assert(cell_texts(cells@) =~= done + g[r as int].take(0));
        while c < row.len()
            invariant
                g == grid(parsed_table@),
                0 <= r < parsed_table@.len(),
                *row == parsed_table@[r as int],
                0 <= c <= row@.len(),
                cell_texts(cells@) == done + g[r as int].take(c as int),
            decreases row@.len() - c,
        {
            let ghost before = cell_texts(cells@);
            cells.push(&row[c]);
            assert(cell_texts(cells@) =~= before.push(row@[c as int]@));
            assert(g[r as int].take(c + 1) =~= g[r as int].take(c as int).push(row@[c as int]@));
            assert(cell_texts(cells@) =~= done + g[r as int].take(c + 1));
            c = c + 1;
        }
        proof {
            assert(g[r as int].take(row@.len() as int) =~= g[r as int]);
            assert(g.take(r + 1).drop_last() =~= g.take(r as int));
            assert(g.take(r + 1).last() == g[r as int]);
        }
        r = r + 1;
    }
    assert(g.take(parsed_table@.len() as int) =~= g);
    cells
}

/// The cells of column `c`, from the rows that reach it, top down.
pub fn column_cells<'a>(parsed_table: &'a ParsedTable, c: usize) -> (cells: Vec<&'a ParsedCell>)
    ensures
        cell_texts(cells@) == column(grid(parsed_table@), c as int),
{
    let ghost g = grid(parsed_table@);
    let mut cells: Vec<&'a ParsedCell> = Vec::new();
    let mut r: usize = 0;
    assert(cell_texts(cells@) =~= column(g.take(0), c as int));
    while r < parsed_table.len()
        invariant
            g == grid(parsed_table@),
            0 <= r <= parsed_table@.len(),
            cell_texts(cells@) == column(g.take(r as int), c as int),
        decreases parsed_table@.len() - r,
    {
        let row = &parsed_table[r];
        let ghost before = cell_texts(cells@);
        proof {
            assert(g.take(r + 1).drop_last() =~= g.take(r as int));
            assert(g.take(r + 1).last() == g[r as int]);
        }
        if c < row.len() {
            cells.push(&row[c]);
            assert(cell_texts(cells@) =~= before.push(g[r as int][c as int]));
        }
        r = r + 1;
    }
    assert(g.take(parsed_table@.len() as int) =~= g);
    cells
}

/// The length of the longest row of the table.
pub fn widest_row(parsed_table: &ParsedTable) -> (width: usize)
    ensures
        width == max_columns(grid(parsed_table@)),
{
    let ghost g = grid(parsed_table@);
    let mut width: usize = 0;
    let mut r: usize = 0;
    assert(g.take(0).len() == 0);
    while r < parsed_table.len()
        invariant
            g == grid(parsed_table@),
            0 <= r <= parsed_table@.len(),
            width == max_columns(g.take(r as int)),
        decreases parsed_table@.len() - r,
    {
        proof {
            assert(g.take(r + 1).drop_last() =~= g.take(r as int));
            assert(g.take(r + 1).last() == g[r as int]);
        }
        if parsed_table[r].len() > width {
            width = parsed_table[r].len();
        }
        r = r + 1;
    }
    assert(g.take(parsed_table@.len() as int) =~= g);
    width
}

/// The options style of a table: of the kind that was declared for it, or
/// else of the kind that its shape calls for, with the distinct answers of
/// the table or of each column as options.
pub fn create_options_style(
    options_style_type: Option<OptionsStyleType>,
    parsed_table: &ParsedTable,
    location_table: &Vec<Vec<Location>>,
) -> (style: DropDownOptionsStyle)
    requires
        is_location_grid(locations(location_table@), grid(parsed_table@)),
    ensures
        style_fits(
            style,
            match options_style_type {
                Some(declared) => declared,
                None => predicted_style(grid(parsed_table@)),
            },
            grid(parsed_table@),
        ),
{
    let ghost g = grid(parsed_table@);
    match predict_options_style_type(options_style_type, parsed_table, location_table) {
        OptionsStyleType::Disabled => DropDownOptionsStyle::Disabled,
        OptionsStyleType::All => {
            let options = create_options(flat_cells(parsed_table));
            DropDownOptionsStyle::all_of(options)
        },
        OptionsStyleType::ByCol => {
            let width = widest_row(parsed_table);
            let mut col_options: Vec<Vec<String>> = Vec::new();
            let mut c: usize = 0;
            while c < width
                invariant
                    g == grid(parsed_table@),
                    0 <= c <= width,
                    col_options@.len() == c,
                    forall|k: int|
                        0 <= k < c ==> is_permutation(
                            texts((#[trigger] col_options@[k])@),
                            distinct(answers(column(g, k))),
                        ),
                decreases width - c,
            {
                col_options.push(create_options(column_cells(parsed_table, c)));
                c = c + 1;
            }
            DropDownOptionsStyle::ByCol { col_options }
        },
    }
}

} // verus!
