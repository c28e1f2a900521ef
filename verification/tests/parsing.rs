use pali_course::grid::{create_location_table, create_parsed_table};
use pali_course::parse::{find_bar, split_bars, ParsedCell, TriSplit};

fn interactive(start: &str, middle: &str, end: &str) -> ParsedCell {
    ParsedCell::Interactive(TriSplit::new(start.to_string(), middle.to_string(), end.to_string()))
}

fn joined(cell: &ParsedCell) -> String {
    match cell {
        ParsedCell::Label(text) => text.clone(),
        ParsedCell::Interactive(t) => format!("{}|{}|{}", t.start, t.middle, t.end),
    }
}

#[test]
fn two_bars_give_three_parts() {
    assert_eq!(split_bars("bhav|aami|".to_string()), interactive("bhav", "aami", ""));
    assert_eq!(split_bars("bhav|aa|ti".to_string()), interactive("bhav", "aa", "ti"));
    assert_eq!(split_bars("x|ans|y".to_string()), interactive("x", "ans", "y"));
}

#[test]
fn no_bar_gives_a_label() {
    assert_eq!(split_bars("label".to_string()), ParsedCell::Label("label".to_string()));
    assert_eq!(split_bars(String::new()), ParsedCell::Label(String::new()));
}

#[test]
fn one_bar_gives_a_label_with_the_bar() {
    assert_eq!(split_bars("only|one".to_string()), ParsedCell::Label("only|one".to_string()));
    assert_eq!(split_bars("|".to_string()), ParsedCell::Label("|".to_string()));
}

#[test]
fn bare_bars_give_empty_parts() {
    assert_eq!(split_bars("||".to_string()), interactive("", "", ""));
}

#[test]
fn further_bars_stay_in_the_end() {
    assert_eq!(split_bars("a|b|c|d".to_string()), interactive("a", "b", "c|d"));
    assert_eq!(split_bars("|||".to_string()), interactive("", "", "|"));
}

#[test]
fn parts_with_letters_of_several_bytes() {
    assert_eq!(split_bars("gacch|ā|mi ñ".to_string()), interactive("gacch", "ā", "mi ñ"));
    assert_eq!(split_bars("ṭ|ḍ|ṇ".to_string()), interactive("ṭ", "ḍ", "ṇ"));
    assert_eq!(split_bars("ā|ī".to_string()), ParsedCell::Label("ā|ī".to_string()));
}

#[test]
fn parts_put_together_are_the_text() {
    for raw in ["a|b|c", "||", "x|ans|y", "bhav|aami|", "|only|", "ā|ī|ū", "no bars", "one|bar"] {
        let cell = split_bars(raw.to_string());
        assert_eq!(joined(&cell), raw);
        assert_eq!(cell.is_interactive(), raw.matches('|').count() == 2);
    }
}

#[test]
fn first_bar_is_found() {
    assert_eq!(find_bar("ab|c|".as_bytes()), Some(2));
    assert_eq!(find_bar("|".as_bytes()), Some(0));
    assert_eq!(find_bar("abc".as_bytes()), None);
    assert_eq!(find_bar("".as_bytes()), None);
}

#[test]
fn copies_hold_the_same_texts() {
    let cell = interactive("a", "b", "c");
    assert_eq!(cell.copy(), cell);
    let label = ParsedCell::Label("l".to_string());
    assert_eq!(label.copy(), label);
    assert!(cell.is_interactive());
    assert!(!label.is_interactive());
}

#[test]
fn tables_have_the_shape_of_the_data() {
    let data = vec![
        vec!["a".to_string(), "b|c|d".to_string(), "e".to_string()],
        vec![],
        vec!["f|g|".to_string()],
    ];
    let parsed = create_parsed_table(&data);
    let located = create_location_table(&data);
    assert_eq!(parsed.len(), 3);
    assert_eq!(located.len(), 3);
    for r in 0..data.len() {
        assert_eq!(parsed[r].len(), data[r].len());
        assert_eq!(located[r].len(), data[r].len());
        for c in 0..data[r].len() {
            assert_eq!(located[r][c], (r, c));
            assert_eq!(parsed[r][c], split_bars(data[r][c].clone()));
        }
    }
    assert_eq!(parsed[0][1], interactive("b", "c", "d"));
    assert_eq!(parsed[2][0], interactive("f", "g", ""));
}

#[test]
fn empty_table_gives_empty_tables() {
    let data: Vec<Vec<String>> = vec![];
    assert!(create_parsed_table(&data).is_empty());
    assert!(create_location_table(&data).is_empty());
}
