//! The display modes of an exercise table and the kinds of answer options.

use crate::text::same_text;
use vstd::prelude::*;
use vstd::string::*;

verus! {

/// How the answers of a table are shown and entered.
#[derive(Clone, Copy, Debug, PartialEq, Eq, Structural)]
pub enum ExerciseMode {
    Disabled,
    /// Everything is visible.
    Show,
    /// The answer shows while the pointer is over it.
    HoverReveal,
    /// The answer shows after a click.
    ClickReveal,
    /// Declared, and drawn as nothing.
    CensorByLetter,
    /// The answer is typed.
    TypeField,
    /// The answer is chosen from a list.
    DropDown,
}

impl ExerciseMode {
    /// The name of the mode.
    pub open spec fn name(self) -> Seq<char> {
        match self {
            ExerciseMode::Show => "Show"@,
            ExerciseMode::HoverReveal => "HoverReveal"@,
            ExerciseMode::ClickReveal => "ClickReveal"@,
            ExerciseMode::CensorByLetter => "CensorByLetter"@,
            ExerciseMode::TypeField => "TypeField"@,
            ExerciseMode::DropDown => "DropDown"@,
            ExerciseMode::Disabled => "Disabled"@,
        }
    }

    /// Whether the cells of this mode keep state that a reset clears.
    pub open spec fn resettable(self) -> bool {
        self is ClickReveal || self is TypeField || self is DropDown
    }

    /// Whether answers are entered in this mode.
    pub open spec fn takes_input(self) -> bool {
        self is TypeField || self is DropDown
    }

    pub fn is_resettable(&self) -> (r: bool)
        ensures
            r == self.resettable(),
    {
        match self {
            ExerciseMode::ClickReveal | ExerciseMode::TypeField | ExerciseMode::DropDown => true,
            _ => false,
        }
    }

    pub fn has_input(&self) -> (r: bool)
        ensures
            r == self.takes_input(),
    {
        match self {
            ExerciseMode::TypeField | ExerciseMode::DropDown => true,
            _ => false,
        }
    }

    /// The mode of a name; an error for a text that names none.
    pub fn from_str(s: &str) -> (r: Result<ExerciseMode, ()>)
        ensures
            match r {
                Ok(m) => s@ == m.name(),
                Err(_) => forall|m: ExerciseMode| s@ != m.name(),
            },
    {
        if same_text(s, "Show") {
            Ok(ExerciseMode::Show)
        } else if same_text(s, "HoverReveal") {
            Ok(ExerciseMode::HoverReveal)
        } else if same_text(s, "ClickReveal") {
            Ok(ExerciseMode::ClickReveal)
        } else if same_text(s, "CensorByLetter") {
            Ok(ExerciseMode::CensorByLetter)
        } else if same_text(s, "TypeField") {
            Ok(ExerciseMode::TypeField)
        } else if same_text(s, "DropDown") {
            Ok(ExerciseMode::DropDown)
        } else if same_text(s, "Disabled") {
            Ok(ExerciseMode::Disabled)
        } else {
            Err(())
        }
    }

    /// The name of the mode.
    pub fn to_string(&self) -> (r: String)
        ensures
            r@ == self.name(),
    {
        match self {
            ExerciseMode::Show => "Show",
            ExerciseMode::HoverReveal => "HoverReveal",
            ExerciseMode::ClickReveal => "ClickReveal",
            ExerciseMode::CensorByLetter => "CensorByLetter",
            ExerciseMode::TypeField => "TypeField",
            ExerciseMode::DropDown => "DropDown",
            ExerciseMode::Disabled => "Disabled",
        }.to_owned()
    }
}

/// No two modes share a name, so a mode is found again from its name.
pub proof fn mode_names_differ(a: ExerciseMode, b: ExerciseMode)
    ensures
        a.name() == b.name() <==> a == b,
{
    reveal_strlit("Show");
    reveal_strlit("HoverReveal");
    reveal_strlit("ClickReveal");
    reveal_strlit("CensorByLetter");
    reveal_strlit("TypeField");
    reveal_strlit("DropDown");
    reveal_strlit("Disabled");
    if a != b {
        let x = a.name();
        let y = b.name();
        if x.len() == y.len() {
            assert(x[0] != y[0] || x[1] != y[1]);
        }
    }
}

/// Where the options of the drop-down mode come from.
#[derive(Clone, Copy, Debug, PartialEq, Eq, Structural)]
pub enum OptionsStyleType {
    /// There is no choice to offer.
    Disabled,
    /// Every answer of the table is offered in every cell.
    All,
    /// A cell offers the answers of its column.
    ByCol,
}

impl OptionsStyleType {
    /// The name of the kind.
    pub open spec fn name(self) -> Seq<char> {
        match self {
            OptionsStyleType::Disabled => "Disabled"@,
            OptionsStyleType::All => "All"@,
            OptionsStyleType::ByCol => "ByCol"@,
        }
    }

    /// The kind of a name; an error for a text that names none.
    pub fn from_str(s: &str) -> (r: Result<OptionsStyleType, ()>)
        ensures
            match r {
                Ok(k) => s@ == k.name(),
                Err(_) => forall|k: OptionsStyleType| s@ != k.name(),
            },
    {
        if same_text(s, "Disabled") {
            Ok(OptionsStyleType::Disabled)
        } else if same_text(s, "All") {
            Ok(OptionsStyleType::All)
        } else if same_text(s, "ByCol") {
            Ok(OptionsStyleType::ByCol)
        } else {
            Err(())
        }
    }
}

/// No two kinds of options style share a name.
pub proof fn option_kind_names_differ(a: OptionsStyleType, b: OptionsStyleType)
    ensures
        a.name() == b.name() <==> a == b,
{
    reveal_strlit("Disabled");
    reveal_strlit("All");
    reveal_strlit("ByCol");
    if a != b {
        assert(a.name().len() != b.name().len());
    }
}

} // verus!
