use pali_course::exercise::{has_category, Exercise, ExerciseCategory, ExerciseLevel, Explanation,
    ExplanationMsg};
use pali_course::mode::{ExerciseMode, OptionsStyleType};
use pali_course::theme::ThemeKind;

const MODES: [ExerciseMode; 7] = [
    ExerciseMode::Disabled,
    ExerciseMode::Show,
    ExerciseMode::HoverReveal,
    ExerciseMode::ClickReveal,
    ExerciseMode::CensorByLetter,
    ExerciseMode::TypeField,
    ExerciseMode::DropDown,
];

fn exercise() -> Exercise {
    Exercise {
        exercise_level: None,
        categories: None,
        info: None,
        title: None,
        path: None,
        table_layout: None,
        explanation: None,
        page: None,
    }
}

#[test]
fn modes_are_found_by_name() {
    for mode in MODES {
        assert_eq!(ExerciseMode::from_str(&mode.to_string()), Ok(mode));
    }
    assert_eq!(ExerciseMode::DropDown.to_string(), "DropDown");
    assert_eq!(ExerciseMode::from_str("CensorByLetter"), Ok(ExerciseMode::CensorByLetter));
    assert_eq!(ExerciseMode::from_str("dropdown"), Err(()));
    assert_eq!(ExerciseMode::from_str(""), Err(()));
    assert_eq!(ExerciseMode::from_str("Show "), Err(()));
}

#[test]
fn modes_with_input_and_reset() {
    for mode in MODES {
        let input = matches!(mode, ExerciseMode::TypeField | ExerciseMode::DropDown);
        assert_eq!(mode.has_input(), input);
        assert_eq!(mode.is_resettable(), input || mode == ExerciseMode::ClickReveal);
    }
}

#[test]
fn option_kinds_are_found_by_name() {
    assert_eq!(OptionsStyleType::from_str("Disabled"), Ok(OptionsStyleType::Disabled));
    assert_eq!(OptionsStyleType::from_str("All"), Ok(OptionsStyleType::All));
    assert_eq!(OptionsStyleType::from_str("ByCol"), Ok(OptionsStyleType::ByCol));
    assert_eq!(OptionsStyleType::from_str("ByColumn"), Err(()));
    assert_eq!(OptionsStyleType::from_str("all"), Err(()));
}

#[test]
fn categories_have_two_names() {
    let all = ExerciseCategory::elements_vec();
    assert_eq!(all.len(), 6);
    for category in all {
        assert_eq!(ExerciseCategory::from_str(&category.to_string()), Ok(category));
    }
    assert_eq!(ExerciseCategory::Tam.to_string(), "tam");
    assert_eq!(ExerciseCategory::Tam.to_proper_string(), "Tense-Aspect-Mood");
    assert_eq!(ExerciseCategory::Conjugation.to_proper_string(), "Conjugations");
    assert_eq!(ExerciseCategory::Declension.to_proper_string(), "Declension");
    assert_eq!(ExerciseCategory::from_str("Vocab"), Err(()));
    assert!(has_category(&vec![ExerciseCategory::Tam, ExerciseCategory::Verbs], ExerciseCategory::Verbs));
    assert!(!has_category(&vec![ExerciseCategory::Tam], ExerciseCategory::Verbs));
}

#[test]
fn levels_are_regular_unless_important() {
    assert_eq!(ExerciseLevel::from_str("Important"), Ok(ExerciseLevel::Important));
    assert_eq!(ExerciseLevel::from_str("Regular"), Ok(ExerciseLevel::Regular));
    assert_eq!(ExerciseLevel::from_str("anything"), Ok(ExerciseLevel::Regular));
}

#[test]
fn exercise_is_named_by_path_then_title() {
    let mut e = exercise();
    assert_eq!(e.effective_path(), "404");
    assert_eq!(e.table_id(&None), "anon-anon");
    e.title = Some("Present tense".to_string());
    assert_eq!(e.effective_path(), "Present tense");
    assert_eq!(e.table_id(&Some("lesson1".to_string())), "lesson1-Present tense");
    e.path = Some("present".to_string());
    assert_eq!(e.effective_path(), "present");
    assert!(!e.is_important());
    e.exercise_level = Some("Important".to_string());
    assert!(e.is_important());
    e.exercise_level = Some("Regular".to_string());
    assert!(!e.is_important());
    assert!(!e.in_category(ExerciseCategory::Vocab));
    e.categories = Some(vec![ExerciseCategory::Vocab]);
    assert!(e.in_category(ExerciseCategory::Vocab));
    assert!(!e.in_category(ExerciseCategory::Tam));
}

#[test]
fn explanation_is_uncovered_by_a_click() {
    let mut e = Explanation::create();
    assert!(e.spoiled);
    assert_eq!(e.spoil_class(), "spoiler_button invisible");
    assert_eq!(e.outer_class(&ThemeKind::Dark), "fade-in fade-in--dark explanation");
    assert!(e.update(ExplanationMsg::FlipState));
    assert!(!e.spoiled);
    assert_eq!(e.spoil_class(), "spoiler_button visible");
    assert_eq!(
        e.outer_class(&ThemeKind::Light),
        "table-secondary table-secondary--light explanation"
    );
    assert!(e.update(ExplanationMsg::FlipState));
    assert!(e.spoiled);
}

#[test]
fn classes_follow_the_theme() {
    assert_eq!(ThemeKind::Dark.css_class_themed("table-area"), "table-area table-area--dark");
    assert_eq!(ThemeKind::Light.css_class_themed("filter"), "filter filter--light");
    assert_eq!(ThemeKind::Light.css_class_themed(""), " --light");
}

#[test]
fn themes_take_turns() {
    assert_eq!(ThemeKind::elements_vec(), vec![ThemeKind::Dark, ThemeKind::Light]);
    assert_eq!(ThemeKind::Dark.next(), ThemeKind::Light);
    assert_eq!(ThemeKind::Light.next(), ThemeKind::Dark);
}

#[test]
fn themes_have_their_colours() {
    let dark = ThemeKind::Dark.current();
    assert_eq!(dark.kind, ThemeKind::Dark);
    assert_eq!(dark.font_color, "white");
    assert_eq!(dark.content_background_color, "#101014");
    assert_eq!(dark.default_background_color, "#151515");
    assert_eq!(dark.toolbar_background_color, "rgb(175, 100, 10)");
    assert_eq!(dark.icon_background_color, "#235");
    assert_eq!(dark.other_background_color, "rgb(50, 50, 50)");
    assert_eq!(dark.hover_color, "#AAA");
    assert_eq!(dark.icon_name, "moon_icon");
    assert_eq!(dark.link_color, "#AB90FF");
    let light = ThemeKind::Light.current();
    assert_eq!(light.kind, ThemeKind::Light);
    assert_eq!(light.font_color, "black");
    assert_eq!(light.content_background_color, "rgb(237, 244, 255)");
    assert_eq!(light.default_background_color, "#D5D5D5");
    assert_eq!(light.toolbar_background_color, "rgb(225, 129, 17)");
    assert_eq!(light.icon_background_color, "#24F");
    assert_eq!(light.other_background_color, "white");
    assert_eq!(light.hover_color, "#444");
    assert_eq!(light.icon_name, "sun_icon");
    assert_eq!(light.link_color, "#5a2ab9");
}
