use pali_course::cell::{check_input, convert_iso_shorthand, judge, judge_entry, DropDownCell,
    DropDownCellMsg, SpoilerCell, SpoilerCellMsg, TypeFieldCell, TypeFieldCellMsg, Verdict};
use pali_course::parse::{split_bars, ParsedCell};
use pali_course::text::{bytes_eq, replace_bytes, same_text, stands_at};

fn answer_of(raw: &str) -> String {
    match split_bars(raw.to_string()) {
        ParsedCell::Interactive(t) => t.middle,
        ParsedCell::Label(_) => panic!("not interactive"),
    }
}

#[test]
fn typed_answer_is_trimmed_and_compared() {
    let answer = answer_of("bhav|ati|");
    assert_eq!(check_input(true, "  ati  ".to_string(), answer.clone()), "correct_cell");
    assert_eq!(check_input(true, "ati".to_string(), answer.clone()), "correct_cell");
    assert_eq!(check_input(true, "bhavati".to_string(), answer.clone()), "incorrect_cell");
    assert_eq!(check_input(true, "".to_string(), answer.clone()), "");
}

#[test]
fn typed_answer_is_compared_with_its_shorthands_written_out() {
    let answer = answer_of("bhav|aami|");
    assert_eq!(answer, "aami");
    assert_eq!(check_input(true, "bhavaami".to_string(), answer.clone()), "incorrect_cell");
    assert_eq!(check_input(true, "".to_string(), answer.clone()), "");
    // `aa` is a shorthand: what is compared is `āmi`.
    assert_eq!(check_input(true, "  aami  ".to_string(), answer.clone()), "incorrect_cell");
    assert_eq!(check_input(true, "  aami  ".to_string(), answer_of("bhav|āmi|")), "correct_cell");
}

#[test]
fn spaces_alone_are_no_answer() {
    assert_eq!(check_input(true, "   ".to_string(), "aami".to_string()), "");
    assert_eq!(check_input(true, " ".to_string(), "".to_string()), "");
}

#[test]
fn nothing_is_judged_while_checking_is_off() {
    assert_eq!(check_input(false, "aami".to_string(), "aami".to_string()), "");
    assert_eq!(check_input(false, "wrong".to_string(), "aami".to_string()), "");
    assert_eq!(judge(false, "wrong".to_string(), "aami"), Verdict::Unanswered);
}

#[test]
fn comparison_minds_the_case_and_inner_spaces() {
    assert_eq!(judge(true, "Aami".to_string(), "aami"), Verdict::Incorrect);
    assert_eq!(judge(true, "a ami".to_string(), "aami"), Verdict::Incorrect);
    assert_eq!(judge(true, " a b ".to_string(), "a b"), Verdict::Correct);
    assert_eq!(judge(true, "aam".to_string(), "aami"), Verdict::Incorrect);
    assert_eq!(judge(true, "aamii".to_string(), "aami"), Verdict::Incorrect);
    assert_eq!(judge(true, "x".to_string(), ""), Verdict::Incorrect);
    assert_eq!(judge(true, "\taami".to_string(), "aami"), Verdict::Incorrect);
}

#[test]
fn shorthand_equals_the_letter() {
    assert_eq!(check_input(true, "aa".to_string(), "ā".to_string()), "correct_cell");
    assert_eq!(check_input(true, " gacchaami ".to_string(), "gacchāmi".to_string()), "correct_cell");
    assert_eq!(check_input(true, "a".to_string(), "ā".to_string()), "incorrect_cell");
}

#[test]
fn every_shorthand_is_written_out() {
    assert_eq!(convert_iso_shorthand("aa".as_bytes()), "ā".as_bytes());
    assert_eq!(convert_iso_shorthand("ii".as_bytes()), "ī".as_bytes());
    assert_eq!(convert_iso_shorthand("uu".as_bytes()), "ū".as_bytes());
    assert_eq!(convert_iso_shorthand(".t".as_bytes()), "ṭ".as_bytes());
    assert_eq!(convert_iso_shorthand(".d".as_bytes()), "ḍ".as_bytes());
    assert_eq!(convert_iso_shorthand("`n".as_bytes()), "ṅ".as_bytes());
    assert_eq!(convert_iso_shorthand("~n".as_bytes()), "ñ".as_bytes());
    assert_eq!(convert_iso_shorthand(".n".as_bytes()), "ṇ".as_bytes());
    assert_eq!(convert_iso_shorthand(".m".as_bytes()), "ṃ".as_bytes());
    assert_eq!(convert_iso_shorthand(".l".as_bytes()), "ḷ".as_bytes());
}

#[test]
fn shorthands_are_taken_from_the_left() {
    assert_eq!(convert_iso_shorthand("aaa".as_bytes()), "āa".as_bytes());
    assert_eq!(convert_iso_shorthand("aaaa".as_bytes()), "āā".as_bytes());
    assert_eq!(convert_iso_shorthand("sa.mgha.m".as_bytes()), "saṃghaṃ".as_bytes());
    assert_eq!(convert_iso_shorthand("pa~n~naa".as_bytes()), "paññā".as_bytes());
    assert_eq!(convert_iso_shorthand("plain".as_bytes()), "plain".as_bytes());
    assert_eq!(convert_iso_shorthand("".as_bytes()), "".as_bytes());
}

#[test]
fn entry_is_judged_on_bytes() {
    assert_eq!(judge_entry(b"  ab ", b"ab"), Verdict::Correct);
    assert_eq!(judge_entry(b"ab", b"ab"), Verdict::Correct);
    assert_eq!(judge_entry(b"", b"ab"), Verdict::Unanswered);
    assert_eq!(judge_entry(b"    ", b"ab"), Verdict::Unanswered);
    assert_eq!(judge_entry(b" ba ", b"ab"), Verdict::Incorrect);
    assert_eq!(judge_entry(b" a", b"a "), Verdict::Incorrect);
}

#[test]
fn verdicts_have_their_classes() {
    assert_eq!(Verdict::Unanswered.class(), "");
    assert_eq!(Verdict::Correct.class(), "correct_cell");
    assert_eq!(Verdict::Incorrect.class(), "incorrect_cell");
}

#[test]
fn texts_are_compared() {
    assert!(same_text("abc", "abc"));
    assert!(!same_text("abc", "abd"));
    assert!(!same_text("abc", "ab"));
    assert!(same_text("", ""));
    assert!(bytes_eq(b"ab", b"ab"));
    assert!(!bytes_eq(b"ab", b"a"));
    assert!(!bytes_eq(b"ab", b"ac"));
}

#[test]
fn click_reveals_and_hides_again() {
    let cell_text = split_bars("bhav|aa|ti".to_string());
    assert!(cell_text.is_interactive());
    let mut cell = SpoilerCell::create();
    assert!(cell.is_hidden());
    assert_eq!(cell.spoil_class(), "spoiler_button invisible");
    assert!(cell.update(SpoilerCellMsg::FlipState));
    assert!(!cell.is_hidden());
    assert_eq!(cell.spoil_class(), "spoiler_button visible");
    assert!(cell.update(SpoilerCellMsg::FlipState));
    assert!(cell.is_hidden());
}

#[test]
fn spoil_and_reveal_leave_the_state() {
    let mut cell = SpoilerCell::create();
    assert!(!cell.update(SpoilerCellMsg::Spoil));
    assert!(cell.spoiled);
    assert!(cell.update(SpoilerCellMsg::Reveal));
    assert!(cell.spoiled);
    cell.update(SpoilerCellMsg::FlipState);
    assert!(cell.update(SpoilerCellMsg::Spoil));
    assert!(!cell.spoiled);
    assert!(!cell.update(SpoilerCellMsg::Reveal));
    assert!(!cell.spoiled);
}

#[test]
fn drop_down_cell_holds_the_choice() {
    let mut cell = DropDownCell::create();
    assert_eq!(cell.selected, "");
    assert_eq!(cell.checked_class(true, "ati"), "");
    assert!(cell.update(DropDownCellMsg::Update("anti".to_string())));
    assert_eq!(cell.selected, "anti");
    assert_eq!(cell.checked_class(true, "ati"), "incorrect_cell");
    assert!(cell.update(DropDownCellMsg::Update("ati".to_string())));
    assert_eq!(cell.checked_class(true, "ati"), "correct_cell");
    assert_eq!(cell.checked_class(false, "ati"), "");
}

#[test]
fn type_field_cell_redraws_on_new_text_only() {
    let mut cell = TypeFieldCell::create();
    assert_eq!(cell.content, "");
    assert_eq!(cell.width, 20);
    assert!(!cell.update(TypeFieldCellMsg::Update("".to_string(), 5)));
    assert_eq!(cell.width, 20);
    assert!(cell.update(TypeFieldCellMsg::Update("aa".to_string(), 7)));
    assert_eq!(cell.content, "aa");
    assert_eq!(cell.width, 7);
    assert!(!cell.update(TypeFieldCellMsg::Update("aa".to_string(), 9)));
    assert_eq!(cell.width, 7);
    assert_eq!(cell.checked_class(true, "ā"), "correct_cell");
}

#[test]
fn occurrences_are_replaced_from_the_left() {
    assert_eq!(replace_bytes(b"abcabc", b"bc", b"x"), b"axax".to_vec());
    assert_eq!(replace_bytes(b"aaa", b"aa", b"b"), b"ba".to_vec());
    assert_eq!(replace_bytes(b"aaaa", b"aa", b""), b"".to_vec());
    assert_eq!(replace_bytes(b"abc", b"", b"x"), b"abc".to_vec());
    assert_eq!(replace_bytes(b"abc", b"abcd", b"x"), b"abc".to_vec());
    assert_eq!(replace_bytes(b"", b"a", b"x"), b"".to_vec());
    assert_eq!(replace_bytes(b"ab", b"b", b"bb"), b"abb".to_vec());
    assert_eq!(replace_bytes("pa~n~naa".as_bytes(), "~n".as_bytes(), "ñ".as_bytes()), "paññaa".as_bytes().to_vec());
}

#[test]
fn replacement_agrees_with_the_standard_one() {
    let texts = ["", "a", "aa", "aaa", "abab", "ababa", "xaay", ".t.t", "a.l", "~n~", "bhavaami"];
    let pairs = [("aa", "ā"), ("ab", "ba"), ("aba", "x"), (".t", "ṭ"), ("a", "aa"), ("~n", "")];
    for text in texts {
        for (from, to) in pairs {
            assert_eq!(
                replace_bytes(text.as_bytes(), from.as_bytes(), to.as_bytes()),
                text.replace(from, to).into_bytes()
            );
        }
    }
}

#[test]
fn pattern_is_looked_for_at_a_place() {
    assert!(stands_at(b"abc", 1, b"bc"));
    assert!(stands_at(b"abc", 3, b""));
    assert!(!stands_at(b"abc", 2, b"bc"));
    assert!(!stands_at(b"abc", 0, b"b"));
}
