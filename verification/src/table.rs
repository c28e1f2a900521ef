//! The exercise table: its state, the messages that change it, and what is
//! drawn for each cell and beside the table.

use crate::exercise::{has_category, ExerciseCategory};
use crate::grid::{create_location_table, create_parsed_table, first_interactive, grid,
    has_interactive, interactive_at, is_location_grid, location_grid, locations, parsed_grid,
    predicted_style, tables_same_shape, DataTable, Location, ParsedTable};
use crate::mode::{ExerciseMode, OptionsStyleType};
use crate::options::{create_options_style, max_columns, style_fits, widest_row,
    DropDownOptionsStyle};
use crate::parse::{CellText, ParsedCell, TriSplit};
use vstd::prelude::*;

verus! {

/// A table as a lesson declares it.
#[derive(Clone, Debug, PartialEq)]
pub struct TableLayout {
    pub table: DataTable,
    /// The column that names the rows; it is never asked for.
    pub key_col: Option<usize>,
    pub shuffle_rows: Option<bool>,
    pub default_mode: Option<ExerciseMode>,
    pub options_style_type: Option<OptionsStyleType>,
}

/// What a table is told.
#[derive(Clone, Copy, Debug)]
pub enum TableMsg {
    SwitchMode(ExerciseMode),
    CheckClicked,
    CellClicked(Location),
    Reset,
    Error,
}

impl TableMsg {
    /// The message for a choice in the mode selector: a switch to the mode
    /// of that name, or `Error` where the text names no mode.
    pub fn from_selection(value: &str) -> (msg: TableMsg)
        ensures
            match msg {
                TableMsg::SwitchMode(m) => value@ == m.name(),
                TableMsg::Error => forall|m: ExerciseMode| value@ != m.name(),
                _ => false,
            },
    {
        match ExerciseMode::from_str(value) {
            Ok(mode) => TableMsg::SwitchMode(mode),
            Err(_) => TableMsg::Error,
        }
    }
}

/// The length of the longest answer in column `c`, in bytes.
pub open spec fn longest_answer(g: Seq<Seq<CellText>>, c: int) -> nat
    decreases g.len(),
{
    if g.len() == 0 {
        0
    } else {
        let above = longest_answer(g.drop_last(), c);
        let row = g.last();
        if 0 <= c < row.len() && row[c] is Interactive && row[c]->middle.len() > above {
            row[c]->middle.len()
        } else {
            above
        }
    }
}

/// The width of the text field of each column: half the length of the
/// longest answer of the column, rounded down.
pub fn max_length(table: &ParsedTable) -> (sizes: Vec<usize>)
    ensures
        sizes@.len() == max_columns(grid(table@)),
        forall|c: int|
            0 <= c < sizes@.len() ==> #[trigger] sizes@[c] == longest_answer(grid(table@), c) / 2,
{
    let ghost g = grid(table@);
    let width = widest_row(table);
    let mut sizes: Vec<usize> = Vec::new();
    let mut c: usize = 0;
    while c < width
        invariant
            g == grid(table@),
            0 <= c <= width,
            sizes@.len() == c,
            forall|k: int| 0 <= k < c ==> #[trigger] sizes@[k] == longest_answer(g, k) / 2,
        decreases width - c,
    {
        let mut longest: usize = 0;
        let mut r: usize = 0;
        assert(g.take(0).len() == 0);
        while r < table.len()
            invariant
                g == grid(table@),
                0 <= r <= table@.len(),
                longest == longest_answer(g.take(r as int), c as int),
            decreases table@.len() - r,
        {
            proof {
                assert(g.take(r + 1).drop_last() =~= g.take(r as int));
                assert(g.take(r + 1).last() == g[r as int]);
            }
            let row = &table[r];
            if c < row.len() {
                assert(g[r as int][c as int] == row@[c as int]@);
                if let ParsedCell::Interactive(split) = &row[c] {
                    let len = split.middle.as_str().as_bytes().len();
                    assert(len == g[r as int][c as int]->middle.len());
                    if len > longest {
                        longest = len;
                    }
                }
            }
            r = r + 1;
        }
        assert(g.take(table@.len() as int) =~= g);
        sizes.push(longest / 2);
        c = c + 1;
    }
    sizes
}

/// The mode in which a table starts: disabled without an interactive cell;
/// else the declared one; else hover-to-reveal for a conjugation and
/// click-to-reveal for anything else.
pub open spec fn initial_mode(
    interactive: bool,
    default_mode: Option<ExerciseMode>,
    categories: Seq<ExerciseCategory>,
) -> ExerciseMode {
    if !interactive {
        ExerciseMode::Disabled
    } else {
        match default_mode {
            Some(mode) => mode,
            None => if categories.contains(ExerciseCategory::Conjugation) {
                ExerciseMode::HoverReveal
            } else {
                ExerciseMode::ClickReveal
            },
        }
    }
}

/// The signal that the checking was asked for on a table without an
/// interactive cell.
#[derive(Clone, Copy, Debug, PartialEq, Eq, Structural)]
pub struct InvalidState;

/// What tells the instances of a cell apart: a cell is made anew when the
/// mode changes or a reset was asked for.
#[derive(Clone, Copy, Debug, PartialEq, Eq, Structural)]
pub struct CellKey {
    pub mode: ExerciseMode,
    pub row: usize,
    pub col: usize,
    pub reset: bool,
}

/// What is drawn for a cell.
#[derive(Debug, PartialEq)]
pub enum CellRender<'a> {
    /// Plain text.
    Label(&'a String),
    /// The three parts, all visible.
    Shown(&'a TriSplit),
    /// The answer is visible while the pointer is over it.
    HoverSpoiler(&'a TriSplit),
    /// Nothing.
    Empty,
    /// The answer is visible after a click.
    ClickSpoiler { text: &'a TriSplit, key: CellKey },
    /// A cell of the key column, shown as plain text.
    KeyCell(&'a TriSplit),
    /// A field in which the answer is typed.
    TypeField { text: &'a TriSplit, check_mode: bool, size: usize, key: CellKey },
    /// A list from which the answer is chosen.
    DropDown {
        text: &'a TriSplit,
        options: &'a Vec<String>,
        location: Location,
        check_mode: bool,
        key: CellKey,
    },
}

/// The controls beside a table.
#[derive(Clone, Copy, Debug, PartialEq, Eq, Structural)]
pub struct SideControls {
    /// The mode selector is there.
    pub mode_selector: bool,
    /// The selector offers the drop-down mode.
    pub drop_down_enabled: bool,
    /// The check button is there.
    pub check_button: bool,
    /// The check button shows as pressed.
    pub check_clicked: bool,
    /// The reset button is there.
    pub reset_button: bool,
}

/// An exercise table while it is shown.
pub struct Table {
    pub parsed_table: ParsedTable,
    pub location_table: Vec<Vec<Location>>,
    /// Whether answers are checked; there only with an interactive cell.
    pub input_tracking: Option<bool>,
    /// Flipped by every reset.
    pub reset: bool,
    pub mode: ExerciseMode,
    pub options_style: DropDownOptionsStyle,
    /// The width of the text field of each column.
    pub type_field_size: Vec<usize>,
}

impl Table {
    /// What the cells of the table hold.
    pub open spec fn cells(&self) -> Seq<Seq<CellText>> {
        grid(self.parsed_table@)
    }

    /// The two tables have the same shape and every location is at its own
    /// place, the checking is tracked just when a cell is interactive, and
    /// there is a field width, and with options by column a list of
    /// options, for each column.
    pub open spec fn wf(&self) -> bool {
        &&& is_location_grid(locations(self.location_table@), self.cells())
        &&& (self.input_tracking is Some <==> has_interactive(self.cells()))
        &&& self.type_field_size@.len() == max_columns(self.cells())
        &&& (self.options_style is ByCol ==> self.options_style->col_options@.len() == max_columns(
            self.cells(),
        ))
    }

    /// The table of a layout, ready to be shown for the first time.
    pub fn create(table_layout: &TableLayout, categories: &Vec<ExerciseCategory>) -> (table: Self)
        ensures
            table.wf(),
            table.cells() == parsed_grid(table_layout.table@),
            locations(table.location_table@) == location_grid(table_layout.table@),
            table.input_tracking == (if has_interactive(table.cells()) {
                Some(false)
            } else {
                None
            }),
            !table.reset,
            table.mode == initial_mode(
                has_interactive(table.cells()),
                table_layout.default_mode,
                categories@,
            ),
            style_fits(
                table.options_style,
                match table_layout.options_style_type {
                    Some(declared) => declared,
                    None => predicted_style(table.cells()),
                },
                table.cells(),
            ),
            forall|c: int|
                0 <= c < table.type_field_size@.len() ==> #[trigger] table.type_field_size@[c]
                    == longest_answer(table.cells(), c) / 2,
    {
        let parsed_table = create_parsed_table(&table_layout.table);
        let location_table = create_location_table(&table_layout.table);
        proof {
            tables_same_shape(table_layout.table@);
        }
        let options_style = create_options_style(
            table_layout.options_style_type,
            &parsed_table,
            &location_table,
        );
        let interactive = first_interactive(&parsed_table, &location_table).is_some();
        let type_field_size = max_length(&parsed_table);
        let mode = if !interactive {
            ExerciseMode::Disabled
        } else {
            match table_layout.default_mode {
                Some(mode) => mode,
                None => if has_category(categories, ExerciseCategory::Conjugation) {
                    ExerciseMode::HoverReveal
                } else {
                    ExerciseMode::ClickReveal
                },
            }
        };
        Self {
            parsed_table,
            location_table,
            input_tracking: if interactive {
                Some(false)
            } else {
                None
            },
            reset: false,
            mode,
            options_style,
            type_field_size,
        }
    }

    /// Whether answers are checked at the moment.
    pub fn is_checking(&self) -> (r: bool)
        ensures
            r == (self.input_tracking == Some(true)),
    {
        match &self.input_tracking {
            None => false,
            Some(checking) => *checking,
        }
    }

    /// Whether answers are checked, on a table that tracks it.
    pub fn is_checking_unwrap(&self) -> (r: bool)
        requires
            self.input_tracking is Some,
        ensures
            Some(r) == self.input_tracking,
    {
        match &self.input_tracking {
            None => false,
            Some(checking) => *checking,
        }
    }

    /// Whether a switch to `next` changes the table: not to the mode it is
    /// in, and not to the drop-down mode while there are no options.
    pub open spec fn accepts(&self, next: ExerciseMode) -> bool {
        next != self.mode && !(next is DropDown && self.options_style is Disabled)
    }

    /// Switches to another mode. A switch to the mode that the table is in
    /// changes nothing and asks for no redraw, and neither does a switch to
    /// the drop-down mode while the options style is disabled.
    pub fn switch_mode(&mut self, next: ExerciseMode) -> (redraw: bool)
        ensures
            redraw == old(self).accepts(next),
            redraw ==> *final(self) == (Table { mode: next, ..*old(self) }),
            !redraw ==> *final(self) == *old(self),
            old(self).wf() ==> final(self).wf(),
    {
        if self.mode == next {
            return false;
        }
        if next == ExerciseMode::DropDown && self.options_style.is_disabled() {
            return false;
        }
        self.mode = next;
        true
    }

    /// Turns the checking on or off. On a table without an interactive
    /// cell there is nothing to check: the table stays as it is and the
    /// call fails.
    pub fn toggle_checking(&mut self) -> (r: Result<(), InvalidState>)
        requires
            old(self).wf(),
        ensures
            final(self).wf(),
            r is Ok <==> has_interactive(old(self).cells()),
            r is Ok ==> *final(self) == (Table {
                input_tracking: Some(!old(self).input_tracking->0),
                ..*old(self)
            }),
            r is Err ==> *final(self) == *old(self),
    {
        match self.input_tracking {
            None => Err(InvalidState),
            Some(checking) => {
                self.input_tracking = Some(!checking);
                Ok(())
            },
        }
    }

    /// Clears what the cells hold, by flipping the mark that their keys
    /// carry, and turns the checking off.
    pub fn reset_cells(&mut self)
        ensures
            *final(self) == (Table {
                reset: !old(self).reset,
                input_tracking: if old(self).input_tracking is Some {
                    Some(false)
                } else {
                    None
                },
                ..*old(self)
            }),
            old(self).wf() ==> final(self).wf(),
    {
        self.reset = !self.reset;
        if self.input_tracking.is_some() {
            self.input_tracking = Some(false);
        }
    }

    /// Takes a message and says whether the table has to be drawn again.
    /// The check button is there only on a table with an interactive cell,
    /// so `CheckClicked` is for such a table only.
    pub fn update(&mut self, msg: TableMsg) -> (redraw: bool)
        requires
            old(self).wf(),
            msg is CheckClicked ==> has_interactive(old(self).cells()),
        ensures
            final(self).wf(),
            final(self).parsed_table == old(self).parsed_table,
            final(self).location_table == old(self).location_table,
            final(self).options_style == old(self).options_style,
            final(self).type_field_size == old(self).type_field_size,
            match msg {
                TableMsg::SwitchMode(next) => {
                    &&& redraw == old(self).accepts(next)
                    &&& final(self).mode == (if redraw {
                        next
                    } else {
                        old(self).mode
                    })
                    &&& final(self).input_tracking == old(self).input_tracking
                    &&& final(self).reset == old(self).reset
                },
                TableMsg::CheckClicked => {
                    &&& redraw
                    &&& final(self).input_tracking == Some(!old(self).input_tracking->0)
                    &&& final(self).mode == old(self).mode
                    &&& final(self).reset == old(self).reset
                },
                TableMsg::Reset => {
                    &&& redraw
                    &&& final(self).reset == !old(self).reset
                    &&& final(self).input_tracking == (if old(self).input_tracking is Some {
                        Some(false)
                    } else {
                        None
                    })
                    &&& final(self).mode == old(self).mode
                },
                TableMsg::CellClicked(_) | TableMsg::Error => {
                    &&& !redraw
                    &&& *final(self) == *old(self)
                },
            },
    {
        match msg {
            TableMsg::SwitchMode(next_mode) => self.switch_mode(next_mode),
            TableMsg::CheckClicked => {
                let toggled = self.toggle_checking();
                assert(toggled is Ok);
                true
            },
            TableMsg::Reset => {
                self.reset_cells();
                true
            },
            TableMsg::CellClicked(_) => false,
            TableMsg::Error => false,
        }
    }

    /// The controls beside the table: none on a disabled table; else the
    /// mode selector, the check button in the modes that take input and
    /// the reset button in the modes that can be reset.
    pub fn side_controls(&self) -> (controls: SideControls)
        ensures
            controls.mode_selector == !(self.mode is Disabled),
            controls.drop_down_enabled == !(self.options_style is Disabled),
            controls.check_button == self.mode.takes_input(),
            controls.check_clicked == (self.input_tracking == Some(true)),
            controls.reset_button == self.mode.resettable(),
    {
        SideControls {
            mode_selector: self.mode != ExerciseMode::Disabled,
            drop_down_enabled: !self.options_style.is_disabled(),
            check_button: self.mode.has_input(),
            check_clicked: self.is_checking(),
            reset_button: self.mode.is_resettable(),
        }
    }

    /// The key of the cell at a location: the mode, the location and the
    /// mark that a reset flips.
    pub open spec fn key_at(&self, location: Location) -> CellKey {
        CellKey { mode: self.mode, row: location.0, col: location.1, reset: self.reset }
    }

    /// The key of the cell at a location.
    pub fn cell_key(&self, location: &Location) -> (key: CellKey)
        ensures
            key == self.key_at(*location),
    {
        CellKey { mode: self.mode, row: location.0, col: location.1, reset: self.reset }
    }

    /// Whether a cell can be drawn: it is a cell of the table, and where it
    /// is interactive the table is not disabled and, for a drop-down list
    /// outside the key column, has options.
    pub open spec fn can_draw(&self, location: Location, key_col: Option<usize>) -> bool {
        &&& location.0 < self.parsed_table@.len()
        &&& location.1 < self.parsed_table@[location.0 as int]@.len()
        &&& self.parsed_table@[location.0 as int]@[location.1 as int] is Interactive ==> {
            &&& !(self.mode is Disabled)
            &&& (self.mode is DropDown && key_col != Some(location.1) ==> !(self.options_style
                is Disabled))
        }
    }

    /// Whether a cell can be drawn.
    pub fn is_drawable(&self, location: &Location, key_col: Option<usize>) -> (r: bool)
        ensures
            r == self.can_draw(*location, key_col),
    {
        if location.0 >= self.parsed_table.len() {
            return false;
        }
        let row = &self.parsed_table[location.0];
        if location.1 >= row.len() {
            return false;
        }
        if !row[location.1].is_interactive() {
            return true;
        }
        let in_key_col = match key_col {
            Some(col) => location.1 == col,
            None => false,
        };
        match self.mode {
            ExerciseMode::Disabled => false,
            ExerciseMode::DropDown => in_key_col || !self.options_style.is_disabled(),
            _ => true,
        }
    }

    /// What is drawn for the cell at a location. A label is plain text. An
    /// interactive cell follows the mode; in the modes that take input a
    /// cell of the key column is plain text too.
    pub fn mediated_cell<'a>(&'a self, location: &Location, key_col: Option<usize>) -> (drawn:
        CellRender<'a>)
        requires
            self.wf(),
            self.can_draw(*location, key_col),
        ensures
            ({
                let cell = self.parsed_table@[location.0 as int]@[location.1 as int];
                let key = CellKey { mode: self.mode, row: location.0, col: location.1, reset: self.reset };
                match cell {
                    ParsedCell::Label(val) => drawn == CellRender::Label(&val),
                    ParsedCell::Interactive(text) => match self.mode {
                        ExerciseMode::Disabled => false,
                        ExerciseMode::Show => drawn == CellRender::Shown(&text),
                        ExerciseMode::HoverReveal => drawn == CellRender::HoverSpoiler(&text),
                        ExerciseMode::CensorByLetter => drawn == CellRender::Empty,
                        ExerciseMode::ClickReveal => drawn == (CellRender::ClickSpoiler {
                            text: &text,
                            key,
                        }),
                        ExerciseMode::TypeField => if key_col == Some(location.1) {
                            drawn == CellRender::KeyCell(&text)
                        } else {
                            &&& self.input_tracking is Some
                            &&& drawn == (CellRender::TypeField {
                                text: &text,
                                check_mode: self.input_tracking->0,
                                size: self.type_field_size@[location.1 as int],
                                key,
                            })
                        },
                        ExerciseMode::DropDown => if key_col == Some(location.1) {
                            drawn == CellRender::KeyCell(&text)
                        } else {
                            &&& self.input_tracking is Some
                            &&& drawn is DropDown
                            &&& *drawn->DropDown_text == text
                            &&& drawn->DropDown_location == *location
                            &&& drawn->DropDown_check_mode == self.input_tracking->0
                            &&& drawn->DropDown_key == key
                            &&& match self.options_style {
                                DropDownOptionsStyle::All { options } => *drawn->options
                                    == options,
                                DropDownOptionsStyle::ByCol { col_options } => *drawn->options
                                    == col_options@[location.1 as int],
                                DropDownOptionsStyle::Disabled => false,
                            }
                        },
                    },
                }
            }),
    {
        let ghost g = self.cells();
        let row = &self.parsed_table[location.0];
        let cell = &row[location.1];
        proof {
            row_within_widest(g, location.0 as int);
        }
        match cell {
            ParsedCell::Label(val) => CellRender::Label(val),
            ParsedCell::Interactive(text) => {
                assert(interactive_at(g, location.0 as int, location.1 as int));
                let key = self.cell_key(location);
                let in_key_col = match key_col {
                    Some(col) => location.1 == col,
                    None => false,
                };
                match self.mode {
                    ExerciseMode::Show => CellRender::Shown(text),
                    ExerciseMode::HoverReveal => CellRender::HoverSpoiler(text),
                    ExerciseMode::CensorByLetter => CellRender::Empty,
                    ExerciseMode::ClickReveal => CellRender::ClickSpoiler { text, key },
                    ExerciseMode::TypeField => {
                        if in_key_col {
                            CellRender::KeyCell(text)
                        } else {
                            CellRender::TypeField {
                                text,
                                check_mode: self.is_checking_unwrap(),
                                size: self.type_field_size[location.1],
                                key,
                            }
                        }
                    },
                    ExerciseMode::DropDown => {
                        if in_key_col {
                            CellRender::KeyCell(text)
                        } else {
                            let options = match &self.options_style {
                                DropDownOptionsStyle::All { options } => options,
                                DropDownOptionsStyle::ByCol { col_options } => &col_options[location.1],
                                DropDownOptionsStyle::Disabled => vstd::pervasive::unreached(),
                            };
                            CellRender::DropDown {
                                text,
                                options,
                                location: *location,
                                check_mode: self.is_checking_unwrap(),
                                key,
                            }
                        }
                    },
                    ExerciseMode::Disabled => vstd::pervasive::unreached(),
                }
            },
        }
    }
}

/// A switch to another mode and a reset give every cell another key, and
/// two cells of one table never share a key: so the state that a cell
/// keeps is dropped by a switch or a reset, and only then.
pub proof fn keys_tell_cells_apart(before: Table, after: Table, a: Location, b: Location)
    ensures
        before.mode != after.mode || before.reset != after.reset ==> before.key_at(a)
            != after.key_at(b),
        before.mode == after.mode && before.reset == after.reset ==> (before.key_at(a)
            == after.key_at(b) <==> a == b),
{
}

/// No row is longer than the longest.
pub proof fn row_within_widest<A>(g: Seq<Seq<A>>, r: int)
    requires
        0 <= r < g.len(),
    ensures
        g[r].len() <= max_columns(g),
    decreases g.len(),
{
    if r < g.len() - 1 {
        row_within_widest(g.drop_last(), r);
    }
}

} // verus!
