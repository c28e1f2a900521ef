use pali_course::exercise::ExerciseCategory;
use pali_course::grid::{create_location_table, create_parsed_table, first_interactive,
    get_location, get_location_unchecked, last_interactive, partitions_table,
    predict_options_style_type};
use pali_course::mode::{ExerciseMode, OptionsStyleType};
use pali_course::options::{collect_answers, column_cells, create_options, create_options_style,
    flat_cells, widest_row, DropDownOptionsStyle};
use pali_course::parse::{split_bars, ParsedCell};
use pali_course::table::{max_length, CellKey, CellRender, InvalidState, Table, TableLayout,
    TableMsg};

fn data(rows: &[&[&str]]) -> Vec<Vec<String>> {
    rows.iter().map(|row| row.iter().map(|s| s.to_string()).collect()).collect()
}

fn layout(rows: &[&[&str]]) -> TableLayout {
    TableLayout {
        table: data(rows),
        key_col: None,
        shuffle_rows: None,
        default_mode: None,
        options_style_type: None,
    }
}

fn sorted(mut v: Vec<String>) -> Vec<String> {
    v.sort();
    v
}

fn strings(v: &[&str]) -> Vec<String> {
    v.iter().map(|s| s.to_string()).collect()
}

fn predicted(rows: &[&[&str]]) -> OptionsStyleType {
    let d = data(rows);
    let parsed = create_parsed_table(&d);
    let located = create_location_table(&d);
    predict_options_style_type(None, &parsed, &located)
}

fn style(rows: &[&[&str]], declared: Option<OptionsStyleType>) -> DropDownOptionsStyle {
    let d = data(rows);
    let parsed = create_parsed_table(&d);
    let located = create_location_table(&d);
    create_options_style(declared, &parsed, &located)
}

#[test]
fn full_block_is_by_column() {
    let rows: &[&[&str]] = &[&["x|a|y", "x|b|y"], &["x|c|y", "x|d|y"]];
    assert_eq!(predicted(rows), OptionsStyleType::ByCol);
    match style(rows, None) {
        DropDownOptionsStyle::ByCol { col_options } => {
            assert_eq!(col_options.len(), 2);
            assert_eq!(sorted(col_options[0].clone()), strings(&["a", "c"]));
            assert_eq!(sorted(col_options[1].clone()), strings(&["b", "d"]));
        },
        other => panic!("not by column: {:?}", other),
    }
}

#[test]
fn single_row_is_by_column_with_one_option_each() {
    let rows: &[&[&str]] = &[&["bhav|aami|", "bhav|aama|"]];
    assert_eq!(predicted(rows), OptionsStyleType::ByCol);
    assert_eq!(
        style(rows, None),
        DropDownOptionsStyle::ByCol { col_options: vec![strings(&["aami"]), strings(&["aama"])] }
    );
}

#[test]
fn block_beside_a_label_gives_all_and_one_option_disables() {
    let rows: &[&[&str]] = &[&["label", "x|ans|y"]];
    assert_eq!(predicted(rows), OptionsStyleType::All);
    assert_eq!(style(rows, None), DropDownOptionsStyle::Disabled);
}

#[test]
fn no_interactive_cell_disables() {
    let rows: &[&[&str]] = &[&["a", "b"], &["c"]];
    assert_eq!(predicted(rows), OptionsStyleType::Disabled);
    assert_eq!(style(rows, None), DropDownOptionsStyle::Disabled);
    assert_eq!(predicted(&[]), OptionsStyleType::Disabled);
}

#[test]
fn header_row_above_a_block_is_by_column() {
    let rows: &[&[&str]] = &[&["one", "two"], &["|a|", "|b|"], &["|c|", "|a|"]];
    assert_eq!(predicted(rows), OptionsStyleType::ByCol);
    match style(rows, None) {
        DropDownOptionsStyle::ByCol { col_options } => {
            assert_eq!(sorted(col_options[0].clone()), strings(&["a", "c"]));
            assert_eq!(sorted(col_options[1].clone()), strings(&["a", "b"]));
        },
        other => panic!("not by column: {:?}", other),
    }
}

#[test]
fn triangle_is_no_grid() {
    let rows: &[&[&str]] = &[&["|a|", "x"], &["|b|", "|c|"]];
    assert_eq!(predicted(rows), OptionsStyleType::All);
    match style(rows, None) {
        DropDownOptionsStyle::All { options } => {
            assert_eq!(sorted(options), strings(&["a", "b", "c"]))
        },
        other => panic!("not all: {:?}", other),
    }
}

#[test]
fn two_blocks_are_no_grid() {
    let rows: &[&[&str]] = &[&["|a|", "|b|"], &["x", "y"], &["|c|", "|d|"]];
    assert_eq!(predicted(rows), OptionsStyleType::All);
}

#[test]
fn label_column_before_the_block_gives_all() {
    let rows: &[&[&str]] = &[&["I", "|a|"], &["you", "|b|"]];
    assert_eq!(predicted(rows), OptionsStyleType::All);
    match style(rows, None) {
        DropDownOptionsStyle::All { options } => assert_eq!(sorted(options), strings(&["a", "b"])),
        other => panic!("not all: {:?}", other),
    }
}

#[test]
fn block_that_stops_before_the_last_column_gives_all() {
    let rows: &[&[&str]] = &[&["|a|", "x"], &["|b|", "y"]];
    assert_eq!(predicted(rows), OptionsStyleType::All);
}

#[test]
fn declared_kind_is_honoured() {
    let rows: &[&[&str]] = &[&["x|a|y", "x|b|y"], &["x|c|y", "x|d|y"]];
    let d = data(rows);
    let parsed = create_parsed_table(&d);
    let located = create_location_table(&d);
    for kind in [OptionsStyleType::Disabled, OptionsStyleType::All, OptionsStyleType::ByCol] {
        assert_eq!(predict_options_style_type(Some(kind), &parsed, &located), kind);
    }
    assert_eq!(style(rows, Some(OptionsStyleType::Disabled)), DropDownOptionsStyle::Disabled);
    match style(rows, Some(OptionsStyleType::All)) {
        DropDownOptionsStyle::All { options } => {
            assert_eq!(sorted(options), strings(&["a", "b", "c", "d"]))
        },
        other => panic!("not all: {:?}", other),
    }
    match style(&[&["l", "|a|"], &["m"]], Some(OptionsStyleType::ByCol)) {
        DropDownOptionsStyle::ByCol { col_options } => {
            assert_eq!(col_options, vec![strings(&[]), strings(&["a"])])
        },
        other => panic!("not by column: {:?}", other),
    }
}

#[test]
fn single_list_of_one_option_is_disabled() {
    assert_eq!(DropDownOptionsStyle::all_of(vec![]), DropDownOptionsStyle::Disabled);
    assert_eq!(DropDownOptionsStyle::all_of(strings(&["a"])), DropDownOptionsStyle::Disabled);
    assert_eq!(
        DropDownOptionsStyle::all_of(strings(&["a", "b"])),
        DropDownOptionsStyle::All { options: strings(&["a", "b"]) }
    );
    assert!(DropDownOptionsStyle::Disabled.is_disabled());
    assert!(!DropDownOptionsStyle::all_of(strings(&["a", "b"])).is_disabled());
    let rows: &[&[&str]] = &[&["l", "|same|"], &["m", "|same|"]];
    assert_eq!(predicted(rows), OptionsStyleType::All);
    assert_eq!(style(rows, None), DropDownOptionsStyle::Disabled);
}

#[test]
fn options_hold_each_answer_once() {
    let cells: Vec<ParsedCell> = ["|b|", "l", "|a|", "|b|", "|c|", "|a|"]
        .iter()
        .map(|s| split_bars(s.to_string()))
        .collect();
    let refs: Vec<&ParsedCell> = cells.iter().collect();
    assert_eq!(collect_answers(&refs), strings(&["b", "a", "b", "c", "a"]));
    let options = create_options(refs);
    assert_eq!(options.len(), 3);
    assert_eq!(sorted(options), strings(&["a", "b", "c"]));
}

#[test]
fn options_come_in_changing_order() {
    let cells: Vec<ParsedCell> = ["|a|", "|b|", "|c|", "|d|", "|e|", "|f|", "|g|", "|h|"]
        .iter()
        .map(|s| split_bars(s.to_string()))
        .collect();
    let in_order = strings(&["a", "b", "c", "d", "e", "f", "g", "h"]);
    let mut moved = false;
    for _ in 0..50 {
        let options = create_options(cells.iter().collect());
        assert_eq!(sorted(options.clone()), in_order);
        if options != in_order {
            moved = true;
        }
    }
    assert!(moved);
}

#[test]
fn cells_are_listed_by_row_and_by_column() {
    let d = data(&[&["a", "|b|"], &["|c|"], &[], &["d", "e", "|f|"]]);
    let parsed = create_parsed_table(&d);
    let flat: Vec<ParsedCell> = flat_cells(&parsed).into_iter().cloned().collect();
    let expected: Vec<ParsedCell> =
        ["a", "|b|", "|c|", "d", "e", "|f|"].iter().map(|s| split_bars(s.to_string())).collect();
    assert_eq!(flat, expected);
    let second: Vec<ParsedCell> = column_cells(&parsed, 1).into_iter().cloned().collect();
    let expected: Vec<ParsedCell> = ["|b|", "e"].iter().map(|s| split_bars(s.to_string())).collect();
    assert_eq!(second, expected);
    assert!(column_cells(&parsed, 3).is_empty());
    assert_eq!(widest_row(&parsed), 3);
    assert_eq!(widest_row(&Vec::new()), 0);
}

#[test]
fn first_and_last_interactive_cells() {
    let d = data(&[&["a", "|b|"], &["|c|", "d"], &["e"]]);
    let parsed = create_parsed_table(&d);
    let located = create_location_table(&d);
    assert_eq!(first_interactive(&parsed, &located), Some((0, 1)));
    assert_eq!(last_interactive(&parsed, &located), Some((1, 0)));
    assert!(!partitions_table(&parsed, &located, &(0, 1), &(1, 0)));
    let d = data(&[&["a"], &["b"]]);
    let parsed = create_parsed_table(&d);
    let located = create_location_table(&d);
    assert_eq!(first_interactive(&parsed, &located), None);
    assert_eq!(last_interactive(&parsed, &located), None);
    let d = data(&[&["h", "i"], &["|a|", "|b|"]]);
    let parsed = create_parsed_table(&d);
    let located = create_location_table(&d);
    assert!(partitions_table(&parsed, &located, &(1, 0), &(1, 1)));
}

#[test]
fn cells_are_looked_up_by_location() {
    let d = data(&[&["a", "|b|"], &["c"]]);
    let parsed = create_parsed_table(&d);
    assert_eq!(get_location_unchecked(&parsed, &(0, 1)), &split_bars("|b|".to_string()));
    assert_eq!(get_location(&parsed, &(1, 0)), Some(&ParsedCell::Label("c".to_string())));
    assert_eq!(get_location(&parsed, &(1, 1)), None);
    assert_eq!(get_location(&parsed, &(2, 0)), None);
}

#[test]
fn field_width_is_half_the_longest_answer() {
    let d = data(&[&["l", "|abcdefg|", "|ab|"], &["|abc|", "|x|"], &["longlabel"]]);
    let parsed = create_parsed_table(&d);
    assert_eq!(max_length(&parsed), vec![1, 3, 1]);
    assert_eq!(max_length(&create_parsed_table(&data(&[&["|ā|"]]))), vec![1]);
    assert_eq!(max_length(&Vec::new()), Vec::<usize>::new());
}

#[test]
fn table_starts_in_the_mode_of_its_kind() {
    let interactive = layout(&[&["|a|", "|b|"]]);
    let t = Table::create(&interactive, &vec![]);
    assert_eq!(t.mode, ExerciseMode::ClickReveal);
    assert_eq!(t.input_tracking, Some(false));
    assert!(!t.reset);
    let t = Table::create(&interactive, &vec![ExerciseCategory::Vocab]);
    assert_eq!(t.mode, ExerciseMode::ClickReveal);
    let t = Table::create(&interactive, &vec![ExerciseCategory::Verbs, ExerciseCategory::Conjugation]);
    assert_eq!(t.mode, ExerciseMode::HoverReveal);
    let mut declared = interactive.clone();
    declared.default_mode = Some(ExerciseMode::TypeField);
    let t = Table::create(&declared, &vec![ExerciseCategory::Conjugation]);
    assert_eq!(t.mode, ExerciseMode::TypeField);
    let mut plain = layout(&[&["a", "b"]]);
    let t = Table::create(&plain, &vec![ExerciseCategory::Conjugation]);
    assert_eq!(t.mode, ExerciseMode::Disabled);
    assert_eq!(t.input_tracking, None);
    plain.default_mode = Some(ExerciseMode::Show);
    let t = Table::create(&plain, &vec![]);
    assert_eq!(t.mode, ExerciseMode::Disabled);
}

#[test]
fn table_holds_both_tables_and_the_sizes() {
    let l = layout(&[&["x|a|y", "x|bcde|y"], &["x|c|y", "x|d|y"]]);
    let t = Table::create(&l, &vec![]);
    assert_eq!(t.parsed_table, create_parsed_table(&l.table));
    assert_eq!(t.location_table, create_location_table(&l.table));
    assert_eq!(t.type_field_size, vec![0, 2]);
    match &t.options_style {
        DropDownOptionsStyle::ByCol { col_options } => assert_eq!(col_options.len(), 2),
        other => panic!("not by column: {:?}", other),
    }
}

#[test]
fn switch_to_the_same_mode_changes_nothing() {
    let mut t = Table::create(&layout(&[&["|a|", "|b|"]]), &vec![]);
    let mode = t.mode;
    assert!(!t.update(TableMsg::SwitchMode(mode)));
    assert_eq!(t.mode, mode);
    assert_eq!(t.input_tracking, Some(false));
    assert!(!t.reset);
    assert!(t.update(TableMsg::SwitchMode(ExerciseMode::TypeField)));
    assert_eq!(t.mode, ExerciseMode::TypeField);
    assert!(!t.switch_mode(ExerciseMode::TypeField));
    assert_eq!(t.mode, ExerciseMode::TypeField);
    assert!(t.switch_mode(ExerciseMode::DropDown));
    assert_eq!(t.mode, ExerciseMode::DropDown);
}

#[test]
fn drop_down_is_refused_without_options() {
    let mut t = Table::create(&layout(&[&["label", "x|ans|y"]]), &vec![]);
    assert_eq!(t.options_style, DropDownOptionsStyle::Disabled);
    assert!(!t.side_controls().drop_down_enabled);
    assert!(!t.update(TableMsg::SwitchMode(ExerciseMode::DropDown)));
    assert_eq!(t.mode, ExerciseMode::ClickReveal);
    assert!(t.update(TableMsg::SwitchMode(ExerciseMode::TypeField)));
}

#[test]
fn checking_is_toggled_on_interactive_tables_only() {
    let mut t = Table::create(&layout(&[&["|a|", "|b|"]]), &vec![]);
    assert!(!t.is_checking());
    assert!(t.update(TableMsg::CheckClicked));
    assert!(t.is_checking());
    assert!(t.is_checking_unwrap());
    assert_eq!(t.toggle_checking(), Ok(()));
    assert!(!t.is_checking());
    let mut plain = Table::create(&layout(&[&["a", "b"]]), &vec![]);
    assert_eq!(plain.toggle_checking(), Err(InvalidState));
    assert_eq!(plain.input_tracking, None);
    assert!(!plain.is_checking());
}

#[test]
fn reset_flips_the_mark_and_stops_checking() {
    let mut t = Table::create(&layout(&[&["|a|", "|b|"]]), &vec![]);
    t.update(TableMsg::CheckClicked);
    assert!(t.update(TableMsg::Reset));
    assert!(t.reset);
    assert_eq!(t.input_tracking, Some(false));
    assert!(t.update(TableMsg::Reset));
    assert!(!t.reset);
    let mut plain = Table::create(&layout(&[&["a"]]), &vec![]);
    assert!(plain.update(TableMsg::Reset));
    assert!(plain.reset);
    assert_eq!(plain.input_tracking, None);
}

#[test]
fn other_messages_change_nothing() {
    let mut t = Table::create(&layout(&[&["|a|", "|b|"]]), &vec![]);
    assert!(!t.update(TableMsg::CellClicked((0, 0))));
    assert!(!t.update(TableMsg::Error));
    assert_eq!(t.mode, ExerciseMode::ClickReveal);
    assert_eq!(t.input_tracking, Some(false));
    assert!(!t.reset);
}

#[test]
fn selection_becomes_a_message() {
    assert!(matches!(
        TableMsg::from_selection("TypeField"),
        TableMsg::SwitchMode(ExerciseMode::TypeField)
    ));
    assert!(matches!(TableMsg::from_selection("Show"), TableMsg::SwitchMode(ExerciseMode::Show)));
    assert!(matches!(TableMsg::from_selection("typefield"), TableMsg::Error));
    assert!(matches!(TableMsg::from_selection(""), TableMsg::Error));
}

#[test]
fn side_controls_follow_the_mode() {
    let mut t = Table::create(&layout(&[&["|a|", "|b|"], &["|c|", "|d|"]]), &vec![]);
    let c = t.side_controls();
    assert!(c.mode_selector && c.reset_button && !c.check_button && c.drop_down_enabled);
    t.switch_mode(ExerciseMode::Show);
    let c = t.side_controls();
    assert!(c.mode_selector && !c.reset_button && !c.check_button);
    t.switch_mode(ExerciseMode::TypeField);
    let c = t.side_controls();
    assert!(c.mode_selector && c.reset_button && c.check_button && !c.check_clicked);
    t.update(TableMsg::CheckClicked);
    assert!(t.side_controls().check_clicked);
    let plain = Table::create(&layout(&[&["a"]]), &vec![]);
    let c = plain.side_controls();
    assert!(!c.mode_selector && !c.reset_button && !c.check_button && !c.drop_down_enabled);
}

#[test]
fn cells_are_drawn_by_kind_and_mode() {
    let l = layout(&[&["row", "bhav|aami|"], &["row", "bhav|aama|"]]);
    let mut t = Table::create(&l, &vec![]);
    let text = match split_bars("bhav|aami|".to_string()) {
        ParsedCell::Interactive(t) => t,
        ParsedCell::Label(_) => panic!("label"),
    };
    let label = "row".to_string();
    assert_eq!(t.mediated_cell(&(0, 0), None), CellRender::Label(&label));
    let key = CellKey { mode: ExerciseMode::ClickReveal, row: 0, col: 1, reset: false };
    assert_eq!(t.cell_key(&(0, 1)), key);
    assert_eq!(t.mediated_cell(&(0, 1), None), CellRender::ClickSpoiler { text: &text, key });
    t.switch_mode(ExerciseMode::Show);
    assert_eq!(t.mediated_cell(&(0, 1), None), CellRender::Shown(&text));
    assert_eq!(t.mediated_cell(&(0, 0), None), CellRender::Label(&label));
    t.switch_mode(ExerciseMode::HoverReveal);
    assert_eq!(t.mediated_cell(&(0, 1), None), CellRender::HoverSpoiler(&text));
    t.switch_mode(ExerciseMode::CensorByLetter);
    assert_eq!(t.mediated_cell(&(0, 1), None), CellRender::Empty);
    t.switch_mode(ExerciseMode::TypeField);
    t.update(TableMsg::CheckClicked);
    let key = CellKey { mode: ExerciseMode::TypeField, row: 0, col: 1, reset: false };
    assert_eq!(
        t.mediated_cell(&(0, 1), None),
        CellRender::TypeField { text: &text, check_mode: true, size: 2, key }
    );
    assert_eq!(t.mediated_cell(&(0, 1), Some(1)), CellRender::KeyCell(&text));
    assert_eq!(t.mediated_cell(&(0, 1), Some(0)).eq(&CellRender::KeyCell(&text)), false);
    t.update(TableMsg::Reset);
    let key = CellKey { mode: ExerciseMode::TypeField, row: 0, col: 1, reset: true };
    assert_eq!(
        t.mediated_cell(&(0, 1), None),
        CellRender::TypeField { text: &text, check_mode: false, size: 2, key }
    );
}

#[test]
fn drop_down_cells_offer_the_options_in_scope() {
    let l = layout(&[&["row", "|a|"], &["row", "|b|"]]);
    let mut t = Table::create(&l, &vec![]);
    assert!(t.switch_mode(ExerciseMode::DropDown));
    match t.mediated_cell(&(1, 1), None) {
        CellRender::DropDown { text, options, location, check_mode, key } => {
            assert_eq!(text.middle, "b");
            assert_eq!(sorted(options.clone()), strings(&["a", "b"]));
            assert_eq!(location, (1, 1));
            assert!(!check_mode);
            assert_eq!(key, CellKey { mode: ExerciseMode::DropDown, row: 1, col: 1, reset: false });
        },
        other => panic!("no drop-down: {:?}", other),
    }
    let l = layout(&[&["|k|", "|a|"], &["|l|", "|b|"]]);
    let mut t = Table::create(&l, &vec![]);
    t.switch_mode(ExerciseMode::DropDown);
    match t.mediated_cell(&(0, 1), Some(0)) {
        CellRender::DropDown { options, .. } => {
            assert_eq!(sorted(options.clone()), strings(&["a", "b"]))
        },
        other => panic!("no drop-down: {:?}", other),
    }
    assert!(matches!(t.mediated_cell(&(0, 0), Some(0)), CellRender::KeyCell(_)));
}
