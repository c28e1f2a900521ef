//! The table of parsed cells, the table of their locations, and the
//! prediction of the options style from where the interactive cells lie.

use crate::mode::OptionsStyleType;
use crate::parse::{parse, split_bars, CellText, ParsedCell};
use crate::text::utf8;
use vstd::prelude::*;

verus! {

/// The row and the column of a cell.
pub type Location = (usize, usize);

/// The raw texts of a table, row by row.
pub type DataTable = Vec<Vec<String>>;

/// The parsed cells of a table, row by row.
pub type ParsedTable = Vec<Vec<ParsedCell>>;

/// What the cells of a parsed table hold.
pub open spec fn grid(t: Seq<Vec<ParsedCell>>) -> Seq<Seq<CellText>> {
    Seq::new(t.len(), |r: int| Seq::new(t[r]@.len(), |c: int| t[r]@[c]@))
}

/// What the texts of a table parse to.
pub open spec fn parsed_grid(t: Seq<Vec<String>>) -> Seq<Seq<CellText>> {
    Seq::new(t.len(), |r: int| Seq::new(t[r]@.len(), |c: int| parse(utf8(t[r]@[c]@))))
}

/// The locations of the cells of a table, each at its own place.
pub open spec fn location_grid(t: Seq<Vec<String>>) -> Seq<Seq<(int, int)>> {
    Seq::new(t.len(), |r: int| Seq::new(t[r]@.len(), |c: int| (r, c)))
}

/// What a table of locations holds.
pub open spec fn locations(l: Seq<Vec<Location>>) -> Seq<Seq<(int, int)>> {
    Seq::new(
        l.len(),
        |r: int| Seq::new(l[r]@.len(), |c: int| (l[r]@[c].0 as int, l[r]@[c].1 as int)),
    )
}

/// Two tables have the same number of rows, and each row of one is as long
/// as that row of the other.
pub open spec fn same_shape<A, B>(a: Seq<Seq<A>>, b: Seq<Seq<B>>) -> bool {
    &&& a.len() == b.len()
    &&& forall|r: int| 0 <= r < a.len() ==> (#[trigger] a[r]).len() == b[r].len()
}

/// `l` holds, at each place of `g`, that place.
pub open spec fn is_location_grid<A>(l: Seq<Seq<(int, int)>>, g: Seq<Seq<A>>) -> bool {
    &&& same_shape(l, g)
    &&& forall|r: int, c: int| 0 <= r < l.len() && 0 <= c < l[r].len() ==> l[r][c] == (r, c)
}

/// The parsed cells and the locations of one table have the same shape, and
/// every location leads to a parsed cell.
pub proof fn tables_same_shape(t: Seq<Vec<String>>)
    ensures
        same_shape(parsed_grid(t), location_grid(t)),
        is_location_grid(location_grid(t), parsed_grid(t)),
        forall|r: int, c: int|
            0 <= r < location_grid(t).len() && 0 <= c < location_grid(t)[r].len() ==> {
                let at = #[trigger] location_grid(t)[r][c];
                0 <= at.0 < parsed_grid(t).len() && 0 <= at.1 < parsed_grid(t)[at.0].len()
            },
{
}

/// Parses every text of a table.
pub fn create_parsed_table(table: &DataTable) -> (parsed: ParsedTable)
    ensures
        grid(parsed@) == parsed_grid(table@),
{
    let mut parsed: Vec<Vec<ParsedCell>> = Vec::new();
    let mut r: usize = 0;
    while r < table.len()
        invariant
            0 <= r <= table@.len(),
            parsed@.len() == r,
            forall|i: int| 0 <= i < r ==> (#[trigger] parsed@[i])@.len() == table@[i]@.len(),
            forall|i: int, j: int|
                0 <= i < r && 0 <= j < parsed@[i]@.len() ==> (#[trigger] parsed@[i]@[j])@ == parse(
                    utf8(table@[i]@[j]@),
                ),
        decreases table@.len() - r,
    {
        let row = &table[r];
        let mut cells: Vec<ParsedCell> = Vec::new();
        let mut c: usize = 0;
        while c < row.len()
            invariant
                0 <= c <= row@.len(),
                cells@.len() == c,
                forall|j: int| 0 <= j < c ==> (#[trigger] cells@[j])@ == parse(utf8(row@[j]@)),
            decreases row@.len() - c,
        {
            cells.push(split_bars(row[c].clone()));
            c = c + 1;
        }
        parsed.push(cells);
        r = r + 1;
    }
    assert(grid(parsed@) =~~= parsed_grid(table@));
    parsed
}

/// The locations of the cells of a table: as many rows as the table has,
/// each as long as that row, each location at its own place.
pub fn create_location_table(table: &DataTable) -> (located: Vec<Vec<Location>>)
    ensures
        locations(located@) == location_grid(table@),
{
    let mut located: Vec<Vec<Location>> = Vec::new();
    let mut r: usize = 0;
    while r < table.len()
        invariant
            0 <= r <= table@.len(),
            located@.len() == r,
            forall|i: int| 0 <= i < r ==> (#[trigger] located@[i])@.len() == table@[i]@.len(),
            forall|i: int, j: int|
                0 <= i < r && 0 <= j < located@[i]@.len() ==> (#[trigger] located@[i]@[j]).0 == i
                    && located@[i]@[j].1 == j,
        decreases table@.len() - r,
    {
        let width = table[r].len();
        let mut row: Vec<Location> = Vec::new();
        let mut c: usize = 0;
        while c < width
            invariant
                0 <= c <= width,
                row@.len() == c,
                forall|j: int| 0 <= j < c ==> (#[trigger] row@[j]).0 == r && row@[j].1 == j,
            decreases width - c,
        {
            row.push((r, c));
            c = c + 1;
        }
        located.push(row);
        r = r + 1;
    }
    assert(locations(located@) =~~= location_grid(table@));
    located
}

/// Whether the cell at row `r` and column `c` of `g` is interactive.
pub open spec fn interactive_at(g: Seq<Seq<CellText>>, r: int, c: int) -> bool {
    0 <= r < g.len() && 0 <= c < g[r].len() && g[r][c] is Interactive
}

/// Whether `g` has an interactive cell.
pub open spec fn has_interactive(g: Seq<Seq<CellText>>) -> bool {
    exists|r: int, c: int| interactive_at(g, r, c)
}

/// Whether `p` comes before `q` when the cells are read row by row.
pub open spec fn comes_before(p: (int, int), q: (int, int)) -> bool {
    p.0 < q.0 || (p.0 == q.0 && p.1 < q.1)
}

/// Whether `p` is the first interactive cell of `g`, read row by row.
pub open spec fn is_top_left(g: Seq<Seq<CellText>>, p: (int, int)) -> bool {
    &&& interactive_at(g, p.0, p.1)
    &&& forall|r: int, c: int| #[trigger] interactive_at(g, r, c) ==> !comes_before((r, c), p)
}

/// Whether `p` is the last interactive cell of `g`, read row by row.
pub open spec fn is_bottom_right(g: Seq<Seq<CellText>>, p: (int, int)) -> bool {
    &&& interactive_at(g, p.0, p.1)
    &&& forall|r: int, c: int| #[trigger] interactive_at(g, r, c) ==> !comes_before(p, (r, c))
}

/// The first interactive cell of a table that has one.
pub open spec fn top_left(g: Seq<Seq<CellText>>) -> (int, int) {
    choose|p: (int, int)| is_top_left(g, p)
}

/// The last interactive cell of a table that has one.
pub open spec fn bottom_right(g: Seq<Seq<CellText>>) -> (int, int) {
    choose|p: (int, int)| is_bottom_right(g, p)
}

/// Whether the block from `tl` to `br` starts in the first column and ends
/// in the last column of the row of `br`.
pub open spec fn extends_horizontally(
    g: Seq<Seq<CellText>>,
    tl: (int, int),
    br: (int, int),
) -> bool {
    tl.1 == 0 && br.1 == g[br.0].len() - 1
}

/// Whether row `r`, column `c` lies in the rectangle from `tl` to `br`.
pub open spec fn in_rectangle(tl: (int, int), br: (int, int), r: int, c: int) -> bool {
    tl.0 <= r <= br.0 && tl.1 <= c <= br.1
}

/// Whether the interactive cells of `g` are the cells of `g` in the
/// rectangle from `tl` to `br`, all of them and no others.
pub open spec fn forms_a_grid(g: Seq<Seq<CellText>>, tl: (int, int), br: (int, int)) -> bool {
    forall|r: int, c: int|
        0 <= r < g.len() && 0 <= c < g[r].len() ==> (#[trigger] interactive_at(g, r, c)
            == in_rectangle(tl, br, r, c))
}

/// The options style that the shape of a table calls for: none without an
/// interactive cell; by column where the block from the first to the last
/// interactive cell spans the width and holds the interactive cells and
/// nothing else; else all answers together.
pub open spec fn predicted_style(g: Seq<Seq<CellText>>) -> OptionsStyleType {
    if !has_interactive(g) {
        OptionsStyleType::Disabled
    } else if extends_horizontally(g, top_left(g), bottom_right(g)) && forms_a_grid(
        g,
        top_left(g),
        bottom_right(g),
    ) {
        OptionsStyleType::ByCol
    } else {
        OptionsStyleType::All
    }
}

/// A table has one first interactive cell at most.
pub proof fn top_left_unique(g: Seq<Seq<CellText>>, p: (int, int))
    requires
        is_top_left(g, p),
    ensures
        top_left(g) == p,
        has_interactive(g),
{
    let q = top_left(g);
    assert(interactive_at(g, p.0, p.1));
    assert(interactive_at(g, q.0, q.1));
}

/// A table has one last interactive cell at most.
pub proof fn bottom_right_unique(g: Seq<Seq<CellText>>, p: (int, int))
    requires
        is_bottom_right(g, p),
    ensures
        bottom_right(g) == p,
        has_interactive(g),
{
    let q = bottom_right(g);
    assert(interactive_at(g, p.0, p.1));
    assert(interactive_at(g, q.0, q.1));
}

/// The cell that a location of the table leads to.
pub fn get_location_unchecked<'a>(table: &'a ParsedTable, location: &Location) -> (cell:
    &'a ParsedCell)
    requires
        location.0 < table@.len(),
        location.1 < table@[location.0 as int]@.len(),
    ensures
        *cell == table@[location.0 as int]@[location.1 as int],
{
    &table[location.0][location.1]
}

/// The cell at a location, if the table has that place.
pub fn get_location<'a>(table: &'a ParsedTable, location: &Location) -> (cell: Option<
    &'a ParsedCell,
>)
    ensures
        match cell {
            Some(c) => location.0 < table@.len() && location.1 < table@[location.0 as int]@.len()
                && *c == table@[location.0 as int]@[location.1 as int],
            None => !(location.0 < table@.len() && location.1 < table@[location.0 as int]@.len()),
        },
{
    if location.0 < table.len() && location.1 < table[location.0].len() {
        Some(&table[location.0][location.1])
    } else {
        None
    }
}

/// Whether `a` lies left of `of`.
pub fn left(a: &Location, of: &Location) -> (r: bool)
    ensures
        r == (a.1 < of.1),
{
    a.1 < of.1
}

/// Whether `a` lies right of `of`.
pub fn right(a: &Location, of: &Location) -> (r: bool)
    ensures
        r == (a.1 > of.1),
{
    a.1 > of.1
}

/// Whether `a` lies above `of`.
pub fn above(a: &Location, of: &Location) -> (r: bool)
    ensures
        r == (a.0 < of.0),
{
    a.0 < of.0
}

/// Whether `a` lies below `of`.
pub fn below(a: &Location, of: &Location) -> (r: bool)
    ensures
        r == (a.0 > of.0),
{
    a.0 > of.0
}

/// The first interactive cell of the table, read row by row.
pub fn first_interactive(parsed_table: &ParsedTable, location_table: &Vec<Vec<Location>>) -> (r:
    Option<Location>)
    requires
        is_location_grid(locations(location_table@), grid(parsed_table@)),
    ensures
        match r {
            Some(p) => is_top_left(grid(parsed_table@), (p.0 as int, p.1 as int)),
            None => !has_interactive(grid(parsed_table@)),
        },
{
    let ghost g = grid(parsed_table@);
    let ghost l = locations(location_table@);
    let mut r: usize = 0;
    while r < location_table.len()
        invariant
            g == grid(parsed_table@),
            l == locations(location_table@),
            is_location_grid(l, g),
            0 <= r <= location_table@.len(),
            forall|i: int, j: int| #[trigger] interactive_at(g, i, j) ==> i >= r,
        decreases location_table@.len() - r,
    {
        let row = &location_table[r];
        assert(l[r as int].len() == g[r as int].len());
        let mut c: usize = 0;
        while c < row.len()
            invariant
                g == grid(parsed_table@),
                l == locations(location_table@),
                is_location_grid(l, g),
                0 <= r < location_table@.len(),
                *row == location_table@[r as int],
                0 <= c <= row@.len(),
                forall|i: int, j: int| #[trigger]
                    interactive_at(g, i, j) ==> i > r || (i == r && j >= c),
            decreases row@.len() - c,
        {
            let location = &row[c];
            assert(l[r as int][c as int] == (r as int, c as int));
            assert(l[r as int].len() == g[r as int].len());
            if get_location_unchecked(parsed_table, location).is_interactive() {
                assert(interactive_at(g, r as int, c as int));
                return Some(*location);
            }
            c = c + 1;
        }
        r = r + 1;
    }
    None
}

/// The last interactive cell of the table, read row by row.
pub fn last_interactive(parsed_table: &ParsedTable, location_table: &Vec<Vec<Location>>) -> (r:
    Option<Location>)
    requires
        is_location_grid(locations(location_table@), grid(parsed_table@)),
    ensures
        match r {
            Some(p) => is_bottom_right(grid(parsed_table@), (p.0 as int, p.1 as int)),
            None => !has_interactive(grid(parsed_table@)),
        },
{
    let ghost g = grid(parsed_table@);
    let ghost l = locations(location_table@);
    let mut r: usize = location_table.len();
    while r > 0
        invariant
            g == grid(parsed_table@),
            l == locations(location_table@),
            is_location_grid(l, g),
            0 <= r <= location_table@.len(),
            forall|i: int, j: int| #[trigger] interactive_at(g, i, j) ==> i < r,
        decreases r,
    {
        r = r - 1;
        let row = &location_table[r];
        assert(l[r as int].len() == g[r as int].len());
        let mut c: usize = row.len();
        while c > 0
            invariant
                g == grid(parsed_table@),
                l == locations(location_table@),
                is_location_grid(l, g),
                0 <= r < location_table@.len(),
                *row == location_table@[r as int],
                0 <= c <= row@.len(),
                forall|i: int, j: int| #[trigger]
                    interactive_at(g, i, j) ==> i < r || (i == r && j < c),
            decreases c,
        {
            c = c - 1;
            let location = &row[c];
            assert(l[r as int][c as int] == (r as int, c as int));
            assert(l[r as int].len() == g[r as int].len());
            if get_location_unchecked(parsed_table, location).is_interactive() {
                assert(interactive_at(g, r as int, c as int));
                return Some(*location);
            }
        }
    }
    None
}

/// Whether the interactive cells are the cells of the rectangle from
/// `top_left` to `bottom_right`, all of them and no others.
pub fn partitions_table(
    parsed_table: &ParsedTable,
    location_table: &Vec<Vec<Location>>,
    top_left: &Location,
    bottom_right: &Location,
) -> (r: bool)
    requires
        is_location_grid(locations(location_table@), grid(parsed_table@)),
    ensures
        r == forms_a_grid(
            grid(parsed_table@),
            (top_left.0 as int, top_left.1 as int),
            (bottom_right.0 as int, bottom_right.1 as int),
        ),
{
    let ghost g = grid(parsed_table@);
    let ghost l = locations(location_table@);
    let ghost tl = (top_left.0 as int, top_left.1 as int);
    let ghost br = (bottom_right.0 as int, bottom_right.1 as int);
    let mut r: usize = 0;
    while r < location_table.len()
        invariant
            g == grid(parsed_table@),
            l == locations(location_table@),
            is_location_grid(l, g),
            tl == (top_left.0 as int, top_left.1 as int),
            br == (bottom_right.0 as int, bottom_right.1 as int),
            0 <= r <= location_table@.len(),
            forall|i: int, j: int|
                0 <= i < r && 0 <= j < g[i].len() ==> (#[trigger] interactive_at(g, i, j)
                    == in_rectangle(tl, br, i, j)),
        decreases location_table@.len() - r,
    {
        let row = &location_table[r];
        assert(l[r as int].len() == g[r as int].len());
        let mut c: usize = 0;
        while c < row.len()
            invariant
                g == grid(parsed_table@),
                l == locations(location_table@),
                is_location_grid(l, g),
                tl == (top_left.0 as int, top_left.1 as int),
                br == (bottom_right.0 as int, bottom_right.1 as int),
                0 <= r < location_table@.len(),
                *row == location_table@[r as int],
                row@.len() == g[r as int].len(),
                0 <= c <= row@.len(),
                forall|i: int, j: int|
                    0 <= i < r && 0 <= j < g[i].len() ==> (#[trigger] interactive_at(g, i, j)
                        == in_rectangle(tl, br, i, j)),
                forall|j: int|
                    0 <= j < c ==> (#[trigger] interactive_at(g, r as int, j) == in_rectangle(
                        tl,
                        br,
                        r as int,
                        j,
                    )),
            decreases row@.len() - c,
        {
            let loc = &row[c];
            assert(l[r as int][c as int] == (r as int, c as int));
            let outside = left(loc, top_left) || above(loc, top_left) || right(loc, bottom_right)
                || below(loc, bottom_right);
            let interactive = get_location_unchecked(parsed_table, loc).is_interactive();
            assert(interactive == interactive_at(g, r as int, c as int));
            assert(outside == !in_rectangle(tl, br, r as int, c as int));
            if interactive == outside {
                return false;
            }
            c = c + 1;
        }
        r = r + 1;
    }
    true
}

/// The kind of options style of a table: the one that was declared for it,
/// or else the one that its shape calls for.
pub fn predict_options_style_type(
    options_style_type: Option<OptionsStyleType>,
    parsed_table: &ParsedTable,
    location_table: &Vec<Vec<Location>>,
) -> (kind: OptionsStyleType)
    requires
        is_location_grid(locations(location_table@), grid(parsed_table@)),
    ensures
        kind == match options_style_type {
            Some(declared) => declared,
            None => predicted_style(grid(parsed_table@)),
        },
{
    if let Some(declared) = options_style_type {
        return declared;
    }
    let ghost g = grid(parsed_table@);
    let top_left = match first_interactive(parsed_table, location_table) {
        None => {
            return OptionsStyleType::Disabled;
        },
        Some(p) => p,
    };
    proof {
        top_left_unique(g, (top_left.0 as int, top_left.1 as int));
    }
    let bottom_right = match last_interactive(parsed_table, location_table) {
        None => {
            return OptionsStyleType::Disabled;
        },
        Some(p) => p,
    };
    proof {
        bottom_right_unique(g, (bottom_right.0 as int, bottom_right.1 as int));
    }
    let extends = top_left.1 == 0 && bottom_right.1 == parsed_table[bottom_right.0].len() - 1;
    if extends {
        if partitions_table(parsed_table, location_table, &top_left, &bottom_right) {
            return OptionsStyleType::ByCol;
        }
    }
    OptionsStyleType::All
}

} // verus!
