//! Exercises, their categories and levels, and the explanation that a click
//! uncovers.

use crate::table::TableLayout;
use crate::text::same_text;
use crate::theme::ThemeKind;
use vstd::prelude::*;
use vstd::string::*;

verus! {

/// What an exercise trains.
#[derive(Clone, Copy, Debug, PartialEq, Eq, Structural)]
pub enum ExerciseCategory {
    Conjugation,
    Tam,
    Verbs,
    Vocab,
    Aorist,
    Declension,
}

impl ExerciseCategory {
    /// The name of the category in paths.
    pub open spec fn name(self) -> Seq<char> {
        match self {
            ExerciseCategory::Conjugation => "conjugation"@,
            ExerciseCategory::Tam => "tam"@,
            ExerciseCategory::Verbs => "verbs"@,
            ExerciseCategory::Vocab => "vocab"@,
            ExerciseCategory::Aorist => "aorist"@,
            ExerciseCategory::Declension => "declension"@,
        }
    }

    /// The name of the category in titles.
    pub open spec fn proper_name(self) -> Seq<char> {
        match self {
            ExerciseCategory::Conjugation => "Conjugations"@,
            ExerciseCategory::Tam => "Tense-Aspect-Mood"@,
            ExerciseCategory::Verbs => "Verbs"@,
            ExerciseCategory::Vocab => "Vocab"@,
            ExerciseCategory::Aorist => "Aorist"@,
            ExerciseCategory::Declension => "Declension"@,
        }
    }

    /// All categories, in the order in which they are listed.
    pub open spec fn listed() -> Seq<ExerciseCategory> {
        seq![
            ExerciseCategory::Conjugation,
            ExerciseCategory::Tam,
            ExerciseCategory::Verbs,
            ExerciseCategory::Vocab,
            ExerciseCategory::Aorist,
            ExerciseCategory::Declension,
        ]
    }

    /// The name of the category in paths.
    pub fn to_string(&self) -> (r: String)
        ensures
            r@ == self.name(),
    {
        match self {
            ExerciseCategory::Conjugation => "conjugation",
            ExerciseCategory::Tam => "tam",
            ExerciseCategory::Verbs => "verbs",
            ExerciseCategory::Vocab => "vocab",
            ExerciseCategory::Aorist => "aorist",
            ExerciseCategory::Declension => "declension",
        }.to_owned()
    }

    /// The category of a name; an error for a text that names none.
    pub fn from_str(s: &str) -> (r: Result<ExerciseCategory, ()>)
        ensures
            match r {
                Ok(c) => s@ == c.name(),
                Err(_) => forall|c: ExerciseCategory| s@ != c.name(),
            },
    {
        if same_text(s, "conjugation") {
            Ok(ExerciseCategory::Conjugation)
        } else if same_text(s, "tam") {
            Ok(ExerciseCategory::Tam)
        } else if same_text(s, "vocab") {
            Ok(ExerciseCategory::Vocab)
        } else if same_text(s, "verbs") {
            Ok(ExerciseCategory::Verbs)
        } else if same_text(s, "aorist") {
            Ok(ExerciseCategory::Aorist)
        } else if same_text(s, "declension") {
            Ok(ExerciseCategory::Declension)
        } else {
            Err(())
        }
    }

    /// The name of the category in titles.
    pub fn to_proper_string(&self) -> (r: String)
        ensures
            r@ == self.proper_name(),
    {
        match self {
            ExerciseCategory::Conjugation => "Conjugations",
            ExerciseCategory::Tam => "Tense-Aspect-Mood",
            ExerciseCategory::Verbs => "Verbs",
            ExerciseCategory::Vocab => "Vocab",
            ExerciseCategory::Aorist => "Aorist",
            ExerciseCategory::Declension => "Declension",
        }.to_owned()
    }

    /// All categories, in the order in which they are listed.
    pub fn elements_vec() -> (all: Vec<ExerciseCategory>)
        ensures
            all@ == Self::listed(),
    {
        let mut all: Vec<ExerciseCategory> = Vec::new();
        all.push(ExerciseCategory::Conjugation);
        all.push(ExerciseCategory::Tam);
        all.push(ExerciseCategory::Verbs);
        all.push(ExerciseCategory::Vocab);
        all.push(ExerciseCategory::Aorist);
        all.push(ExerciseCategory::Declension);
        assert(all@ =~= Self::listed());
        all
    }
}

/// No two categories share a name in paths, so a category is found again
/// from its name.
pub proof fn category_names_differ(a: ExerciseCategory, b: ExerciseCategory)
    ensures
        a.name() == b.name() <==> a == b,
{
    reveal_strlit("conjugation");
    reveal_strlit("tam");
    reveal_strlit("verbs");
    reveal_strlit("vocab");
    reveal_strlit("aorist");
    reveal_strlit("declension");
    if a != b {
        let x = a.name();
        let y = b.name();
        if x.len() == y.len() {
            assert(x[1] != y[1]);
        }
    }
}

/// Whether a list of categories holds a given one.
pub fn has_category(categories: &Vec<ExerciseCategory>, wanted: ExerciseCategory) -> (r: bool)
    ensures
        r == categories@.contains(wanted),
{
    let mut i: usize = 0;
    while i < categories.len()
        invariant
            0 <= i <= categories@.len(),
            forall|k: int| 0 <= k < i ==> categories@[k] != wanted,
        decreases categories@.len() - i,
    {
        if categories[i] == wanted {
            return true;
        }
        i = i + 1;
    }
    false
}

/// How much an exercise matters.
#[derive(Clone, Copy, Debug, PartialEq, Eq, Structural)]
pub enum ExerciseLevel {
    Regular,
    Important,
}

impl ExerciseLevel {
    /// The level of a name: important for `Important`, regular for any
    /// other text.
    pub fn from_str(s: &str) -> (r: Result<ExerciseLevel, ()>)
        ensures
            r == Ok::<ExerciseLevel, ()>(
                if s@ == "Important"@ {
                    ExerciseLevel::Important
                } else {
                    ExerciseLevel::Regular
                },
            ),
    {
        if same_text(s, "Important") {
            Ok(ExerciseLevel::Important)
        } else {
            Ok(ExerciseLevel::Regular)
        }
    }
}

/// One exercise of a lesson.
#[derive(Clone, Debug, PartialEq)]
pub struct Exercise {
    pub exercise_level: Option<String>,
    pub categories: Option<Vec<ExerciseCategory>>,
    pub info: Option<String>,
    pub title: Option<String>,
    /// How the exercise is referred to in a path.
    pub path: Option<String>,
    pub table_layout: Option<TableLayout>,
    pub explanation: Option<String>,
    pub page: Option<i32>,
}

impl Exercise {
    /// The name of the exercise in a path: its path, else its title, else
    /// `404`.
    pub open spec fn path_name(&self) -> Seq<char> {
        match (self.path, self.title) {
            (Some(path), _) => path@,
            (None, Some(title)) => title@,
            (None, None) => "404"@,
        }
    }

    /// The name of the exercise in a path: its path, else its title, else
    /// `404`.
    pub fn effective_path(&self) -> (r: String)
        ensures
            r@ == self.path_name(),
    {
        match &self.path {
            Some(path) => path.clone(),
            None => match &self.title {
                Some(title) => title.clone(),
                None => "404".to_owned(),
            },
        }
    }

    /// Whether the level of the exercise is `Important`.
    pub fn is_important(&self) -> (r: bool)
        ensures
            r == (self.exercise_level is Some && self.exercise_level->0@ == "Important"@),
    {
        match &self.exercise_level {
            Some(level) => match ExerciseLevel::from_str(level.as_str()) {
                Ok(l) => l == ExerciseLevel::Important,
                Err(_) => false,
            },
            None => false,
        }
    }

    /// Whether the exercise belongs to a category.
    pub fn in_category(&self, category: ExerciseCategory) -> (r: bool)
        ensures
            r == (self.categories is Some && self.categories->0@.contains(category)),
    {
        match &self.categories {
            Some(categories) => has_category(categories, category),
            None => false,
        }
    }

    /// The name under which the table of the exercise is kept: the path of
    /// the lesson and the title of the exercise with a hyphen between them,
    /// each `anon` where it is missing.
    pub fn table_id(&self, lesson_path: &Option<String>) -> (id: String)
        ensures
            id@ == (match lesson_path {
                Some(p) => p@,
                None => "anon"@,
            }) + "-"@ + (match self.title {
                Some(t) => t@,
                None => "anon"@,
            }),
    {
        let mut id = match lesson_path {
            Some(p) => p.clone(),
            None => "anon".to_owned(),
        };
        id.append("-");
        match &self.title {
            Some(t) => id.append(t.as_str()),
            None => id.append("anon"),
        }
        id
    }
}

/// What an explanation is told.
#[derive(Clone, Copy, Debug, PartialEq, Eq, Structural)]
pub enum ExplanationMsg {
    FlipState,
}

/// An explanation that a click uncovers and covers again.
pub struct Explanation {
    pub spoiled: bool,
}

impl Explanation {
    /// A new explanation is covered.
    pub fn create() -> (r: Self)
        ensures
            r.spoiled,
    {
        Self { spoiled: true }
    }

    /// Uncovers a covered explanation and covers an uncovered one; it is
    /// always drawn again.
    pub fn update(&mut self, msg: ExplanationMsg) -> (redraw: bool)
        ensures
            redraw,
            final(self).spoiled == !old(self).spoiled,
    {
        match msg {
            ExplanationMsg::FlipState => {
                self.spoiled = !self.spoiled;
                true
            },
        }
    }

    /// The style class of the text.
    pub fn spoil_class(&self) -> (r: &'static str)
        ensures
            r@ == (if self.spoiled {
                "spoiler_button invisible"@
            } else {
                "spoiler_button visible"@
            }),
    {
        if self.spoiled {
            "spoiler_button invisible"
        } else {
            "spoiler_button visible"
        }
    }

    /// The style class of the box: the themed class `fade-in` while covered
    /// and `table-secondary` while not, followed by ` explanation`.
    pub fn outer_class(&self, theme: &ThemeKind) -> (class: String)
        ensures
            class@ == (if self.spoiled {
                "fade-in"@ + " "@ + "fade-in"@
            } else {
                "table-secondary"@ + " "@ + "table-secondary"@
            }) + theme.suffix() + " explanation"@,
    {
        let mut class = theme.css_class_themed(
            if self.spoiled {
                "fade-in"
            } else {
                "table-secondary"
            },
        );
        class.append(" explanation");
        class
    }
}

} // verus!
