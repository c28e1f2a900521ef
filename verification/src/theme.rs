//! The two colour themes and the style classes that follow the theme.

use vstd::prelude::*;
use vstd::string::*;

verus! {

/// The kind of a theme.
#[derive(Clone, Copy, Debug, PartialEq, Eq, Structural)]
pub enum ThemeKind {
    Dark,
    Light,
}

/// The colours and the icon of a theme.
#[derive(Clone, Debug, PartialEq)]
pub struct Theme {
    pub kind: ThemeKind,
    pub font_color: String,
    pub content_background_color: String,
    pub default_background_color: String,
    pub toolbar_background_color: String,
    pub icon_background_color: String,
    pub other_background_color: String,
    pub hover_color: String,
    pub icon_name: String,
    pub link_color: String,
}

impl ThemeKind {
    /// What the theme adds to the name of a class.
    pub open spec fn suffix(self) -> Seq<char> {
        match self {
            ThemeKind::Dark => "--dark"@,
            ThemeKind::Light => "--light"@,
        }
    }

    /// The kinds in the order in which the switch goes through them.
    pub open spec fn cycle() -> Seq<ThemeKind> {
        seq![ThemeKind::Dark, ThemeKind::Light]
    }

    /// The kind after this one in the cycle, the first after the last.
    pub open spec fn following(self) -> ThemeKind {
        match self {
            ThemeKind::Dark => ThemeKind::Light,
            ThemeKind::Light => ThemeKind::Dark,
        }
    }

    /// The colours of this kind of theme.
    pub fn current(&self) -> (theme: Theme)
        ensures
            theme.kind == *self,
            theme.font_color@ == (if self is Dark {
                "white"@
            } else {
                "black"@
            }),
            theme.content_background_color@ == (if self is Dark {
                "#101014"@
            } else {
                "rgb(237, 244, 255)"@
            }),
            theme.default_background_color@ == (if self is Dark {
                "#151515"@
            } else {
                "#D5D5D5"@
            }),
            theme.toolbar_background_color@ == (if self is Dark {
                "rgb(175, 100, 10)"@
            } else {
                "rgb(225, 129, 17)"@
            }),
            theme.icon_background_color@ == (if self is Dark {
                "#235"@
            } else {
                "#24F"@
            }),
            theme.other_background_color@ == (if self is Dark {
                "rgb(50, 50, 50)"@
            } else {
                "white"@
            }),
            theme.hover_color@ == (if self is Dark {
                "#AAA"@
            } else {
                "#444"@
            }),
            theme.icon_name@ == (if self is Dark {
                "moon_icon"@
            } else {
                "sun_icon"@
            }),
            theme.link_color@ == (if self is Dark {
                "#AB90FF"@
            } else {
                "#5a2ab9"@
            }),
    {
        match self {
            ThemeKind::Dark => Theme {
                kind: ThemeKind::Dark,
                font_color: "white".to_owned(),
                content_background_color: "#101014".to_owned(),
                default_background_color: "#151515".to_owned(),
                toolbar_background_color: "rgb(175, 100, 10)".to_owned(),
                icon_background_color: "#235".to_owned(),
                other_background_color: "rgb(50, 50, 50)".to_owned(),
                hover_color: "#AAA".to_owned(),
                icon_name: "moon_icon".to_owned(),
                link_color: "#AB90FF".to_owned(),
            },
            ThemeKind::Light => Theme {
                kind: ThemeKind::Light,
                font_color: "black".to_owned(),
                content_background_color: "rgb(237, 244, 255)".to_owned(),
                default_background_color: "#D5D5D5".to_owned(),
                toolbar_background_color: "rgb(225, 129, 17)".to_owned(),
                icon_background_color: "#24F".to_owned(),
                other_background_color: "white".to_owned(),
                hover_color: "#444".to_owned(),
                icon_name: "sun_icon".to_owned(),
                link_color: "#5a2ab9".to_owned(),
            },
        }
    }

    /// The kinds in the order in which the switch goes through them.
    pub fn elements_vec() -> (kinds: Vec<ThemeKind>)
        ensures
            kinds@ == Self::cycle(),
    {
        let mut kinds: Vec<ThemeKind> = Vec::new();
        kinds.push(ThemeKind::Dark);
        kinds.push(ThemeKind::Light);
        assert(kinds@ =~= Self::cycle());
        kinds
    }

    /// The kind that the switch turns this one into.
    pub fn next(&self) -> (kind: ThemeKind)
        ensures
            kind == self.following(),
    {
        let kinds = Self::elements_vec();
        let mut at: usize = 0;
        while at < kinds.len() && kinds[at] != *self
            invariant
                kinds@ == Self::cycle(),
                0 <= at <= 2,
                forall|k: int| 0 <= k < at ==> kinds@[k] != *self,
            decreases 2 - at,
        {
            at = at + 1;
        }
        assert(at < 2) by {
            if at == 2 {
                assert(kinds@[0] != *self && kinds@[1] != *self);
            }
        }
        kinds[(at + 1) % kinds.len()]
    }

    /// The class with its themed twin: `class` becomes `class class--dark`
    /// or `class class--light`.
    pub fn css_class_themed(&self, class_name: &str) -> (themed_class: String)
        ensures
            themed_class@ == class_name@ + " "@ + class_name@ + self.suffix(),
    {
        let mut themed_class: String = String::new();
        themed_class.append(class_name);
        themed_class.append(" ");
        themed_class.append(class_name);
        themed_class.append(
            match self {
                ThemeKind::Dark => "--dark",
                ThemeKind::Light => "--light",
            },
        );
        assert(themed_class@ =~= class_name@ + " "@ + class_name@ + self.suffix());
        themed_class
    }
}

} // verus!
