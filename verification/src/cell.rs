//! The state that single cells keep while they are shown, and the judging
//! of what a learner entered against the answer.

use crate::text::{bytes_eq, replace_all, replace_bytes, same_text, trim_end, trim_end_skips,
    trim_start, trim_start_skips, trimmed, utf8, SPACE};
use vstd::prelude::*;
use vstd::string::*;

verus! {

/// The text with the ASCII shorthands for letters with diacritics written
/// out, one shorthand after the other in the order of the table:
/// `aa`, `ii`, `uu`, `.t`, `.d`, `` `n ``, `~n`, `.n`, `.m`, `.l`.
pub open spec fn iso_shorthand(s: Seq<u8>) -> Seq<u8> {
    let s = replace_all(s, utf8("aa"@), utf8("ā"@));
    let s = replace_all(s, utf8("ii"@), utf8("ī"@));
    let s = replace_all(s, utf8("uu"@), utf8("ū"@));
    let s = replace_all(s, utf8(".t"@), utf8("ṭ"@));
    let s = replace_all(s, utf8(".d"@), utf8("ḍ"@));
    let s = replace_all(s, utf8("`n"@), utf8("ṅ"@));
    let s = replace_all(s, utf8("~n"@), utf8("ñ"@));
    let s = replace_all(s, utf8(".n"@), utf8("ṇ"@));
    let s = replace_all(s, utf8(".m"@), utf8("ṃ"@));
    replace_all(s, utf8(".l"@), utf8("ḷ"@))
}

/// Writes out the ASCII shorthands of a text, given and returned as its
/// bytes.
pub fn convert_iso_shorthand(shorthand: &[u8]) -> (r: Vec<u8>)
    ensures
        r@ == iso_shorthand(shorthand@),
{
    let s = replace_bytes(shorthand, "aa".as_bytes(), "ā".as_bytes());
    let s = replace_bytes(s.as_slice(), "ii".as_bytes(), "ī".as_bytes());
    let s = replace_bytes(s.as_slice(), "uu".as_bytes(), "ū".as_bytes());
    let s = replace_bytes(s.as_slice(), ".t".as_bytes(), "ṭ".as_bytes());
    let s = replace_bytes(s.as_slice(), ".d".as_bytes(), "ḍ".as_bytes());
    let s = replace_bytes(s.as_slice(), "`n".as_bytes(), "ṅ".as_bytes());
    let s = replace_bytes(s.as_slice(), "~n".as_bytes(), "ñ".as_bytes());
    let s = replace_bytes(s.as_slice(), ".n".as_bytes(), "ṇ".as_bytes());
    let s = replace_bytes(s.as_slice(), ".m".as_bytes(), "ṃ".as_bytes());
    replace_bytes(s.as_slice(), ".l".as_bytes(), "ḷ".as_bytes())
}

/// How an entry compares with the answer.
#[derive(Clone, Copy, Debug, PartialEq, Eq, Structural)]
pub enum Verdict {
    /// Nothing is judged, or nothing but spaces was entered.
    Unanswered,
    Correct,
    Incorrect,
}

/// The verdict on an entry whose shorthands are written out: without its
/// leading and trailing spaces it is compared with the answer byte by byte.
pub open spec fn verdict_on(entry: Seq<u8>, answer: Seq<u8>) -> Verdict {
    let t = trimmed(entry);
    if t.len() == 0 {
        Verdict::Unanswered
    } else if t == answer {
        Verdict::Correct
    } else {
        Verdict::Incorrect
    }
}

/// The verdict on what was entered in a cell: none while checking is off;
/// else that on the content with its shorthands written out.
pub open spec fn verdict(check_mode: bool, content: Seq<u8>, answer: Seq<u8>) -> Verdict {
    if check_mode {
        verdict_on(iso_shorthand(content), answer)
    } else {
        Verdict::Unanswered
    }
}

/// The style class that shows a verdict.
pub open spec fn class_of(v: Verdict) -> Seq<char> {
    match v {
        Verdict::Unanswered => ""@,
        Verdict::Correct => "correct_cell"@,
        Verdict::Incorrect => "incorrect_cell"@,
    }
}

impl Verdict {
    /// The style class that shows this verdict.
    pub fn class(self) -> (r: &'static str)
        ensures
            r@ == class_of(self),
    {
        match self {
            Verdict::Unanswered => "",
            Verdict::Correct => "correct_cell",
            Verdict::Incorrect => "incorrect_cell",
        }
    }
}

/// Judges an entry whose shorthands are written out against the answer.
pub fn judge_entry(entry: &[u8], answer: &[u8]) -> (v: Verdict)
    ensures
        v == verdict_on(entry@, answer@),
{
    let n = entry.len();
    let mut start: usize = 0;
    while start < n && entry[start] == SPACE
        invariant
            n == entry@.len(),
            0 <= start <= n,
            forall|k: int| 0 <= k < start ==> entry@[k] == SPACE,
        decreases n - start,
    {
        start = start + 1;
    }
    let ghost tail = entry@.subrange(start as int, n as int);
    proof {
        trim_start_skips(entry@, start as int);
    }
    if start == n {
        assert(trimmed(entry@).len() == 0);
        return Verdict::Unanswered;
    }
    assert(tail[0] == entry@[start as int]);
    assert(trim_start(entry@) == tail);
    let mut end: usize = n;
    while entry[end - 1] == SPACE
        invariant
            n == entry@.len(),
            start < end <= n,
            entry@[start as int] != SPACE,
            forall|k: int| end <= k < n ==> entry@[k] == SPACE,
        decreases end,
    {
        end = end - 1;
    }
    let ghost core = entry@.subrange(start as int, end as int);
    proof {
        assert forall|k: int| end - start <= k < tail.len() implies tail[k] == SPACE by {
            assert(tail[k] == entry@[k + start]);
        }
        trim_end_skips(tail, end - start);
        assert(tail.subrange(0, end - start) =~= core);
        assert(core.last() == entry@[end - 1]);
        assert(trim_end(core) == core);
        assert(trimmed(entry@) == core);
    }
    let answered = vstd::slice::slice_subrange(entry, start, end);
    if bytes_eq(answered, answer) {
        Verdict::Correct
    } else {
        Verdict::Incorrect
    }
}

/// Judges what was entered in a cell against the answer.
pub fn judge(check_mode: bool, content: String, answer: &str) -> (v: Verdict)
    ensures
        v == verdict(check_mode, utf8(content@), utf8(answer@)),
{
    if check_mode {
        let entry = convert_iso_shorthand(content.as_str().as_bytes());
        judge_entry(entry.as_slice(), answer.as_bytes())
    } else {
        Verdict::Unanswered
    }
}

/// The style class for what was entered in a cell: empty while checking is
/// off or nothing was entered, else that of a correct or an incorrect entry.
pub fn check_input(check_mode: bool, content: String, answer: String) -> (class: &'static str)
    ensures
        class@ == class_of(verdict(check_mode, utf8(content@), utf8(answer@))),
{
    judge(check_mode, content, answer.as_str()).class()
}

/// What a click-to-reveal cell is told.
#[derive(Clone, Copy, Debug, PartialEq, Eq, Structural)]
pub enum SpoilerCellMsg {
    FlipState,
    Spoil,
    Reveal,
}

/// A click-to-reveal cell: while it is spoiled its answer is hidden.
pub struct SpoilerCell {
    pub spoiled: bool,
}

impl SpoilerCell {
    /// A new cell hides its answer.
    pub fn create() -> (r: Self)
        ensures
            r.spoiled,
    {
        Self { spoiled: true }
    }

    /// Takes a message and says whether the cell has to be drawn again.
    /// `FlipState` turns a hidden answer into a shown one and back. `Spoil`
    /// and `Reveal` leave the state as it is: `Spoil` asks for a redraw of a
    /// cell that shows its answer, `Reveal` of one that hides it.
    pub fn update(&mut self, msg: SpoilerCellMsg) -> (redraw: bool)
        ensures
            final(self).spoiled == (if msg is FlipState {
                !old(self).spoiled
            } else {
                old(self).spoiled
            }),
            redraw == match msg {
                SpoilerCellMsg::FlipState => true,
                SpoilerCellMsg::Spoil => !old(self).spoiled,
                SpoilerCellMsg::Reveal => old(self).spoiled,
            },
    {
        match msg {
            SpoilerCellMsg::FlipState => {
                self.spoiled = !self.spoiled;
                true
            },
            SpoilerCellMsg::Spoil => {
                if self.spoiled {
                    false
                } else {
                    self.spoiled = false;
                    true
                }
            },
            SpoilerCellMsg::Reveal => {
                if !self.spoiled {
                    false
                } else {
                    self.spoiled = true;
                    true
                }
            },
        }
    }

    /// Whether the answer is hidden.
    pub fn is_hidden(&self) -> (r: bool)
        ensures
            r == self.spoiled,
    {
        self.spoiled
    }

    /// The style class of the answer's span.
    pub fn spoil_class(&self) -> (r: &'static str)
        ensures
            r@ == (if self.spoiled {
                "spoiler_button invisible"@
            } else {
                "spoiler_button visible"@
            }),
    {
        if self.spoiled {
            "spoiler_button invisible"
        } else {
            "spoiler_button visible"
        }
    }
}

/// What a drop-down cell is told: the choice that was made.
#[derive(Clone, Debug, PartialEq)]
pub enum DropDownCellMsg {
    Update(String),
}

/// A drop-down cell with the choice made in it.
pub struct DropDownCell {
    pub selected: String,
}

impl DropDownCell {
    /// A new cell has nothing chosen.
    pub fn create() -> (r: Self)
        ensures
            r.selected@.len() == 0,
    {
        Self { selected: String::new() }
    }

    /// Takes the choice; the cell is always drawn again.
    pub fn update(&mut self, msg: DropDownCellMsg) -> (redraw: bool)
        ensures
            redraw,
            final(self).selected == msg->Update_0,
    {
        match msg {
            DropDownCellMsg::Update(value) => {
                self.selected = value;
                true
            },
        }
    }

    /// The style class for the choice held, judged against `answer`.
    pub fn checked_class(&self, check_mode: bool, answer: &str) -> (class: &'static str)
        ensures
            class@ == class_of(verdict(check_mode, utf8(self.selected@), utf8(answer@))),
    {
        judge(check_mode, self.selected.clone(), answer).class()
    }
}

/// What a text-entry cell is told: the text now in it, and its width.
#[derive(Clone, Debug, PartialEq)]
pub enum TypeFieldCellMsg {
    Update(String, i32),
}

/// A text-entry cell with the text entered in it.
pub struct TypeFieldCell {
    pub content: String,
    pub width: i32,
}

impl TypeFieldCell {
    /// A new cell is empty and 20 wide.
    pub fn create() -> (r: Self)
        ensures
            r.content@.len() == 0,
            r.width == 20,
    {
        Self { content: String::new(), width: 20 }
    }

    /// Takes the text and the width where the text differs from the one
    /// held, and asks for a redraw then; else nothing changes.
    pub fn update(&mut self, msg: TypeFieldCellMsg) -> (redraw: bool)
        ensures
            redraw == (old(self).content@ != msg->Update_0@),
            redraw ==> final(self).content == msg->Update_0 && final(self).width == msg->Update_1,
            !redraw ==> *final(self) == *old(self),
    {
        match msg {
            TypeFieldCellMsg::Update(value, width) => {
                if !same_text(self.content.as_str(), value.as_str()) {
                    self.content = value;
                    self.width = width;
                    true
                } else {
                    false
                }
            },
        }
    }

    /// The style class for the text held, judged against `answer`.
    pub fn checked_class(&self, check_mode: bool, answer: &str) -> (class: &'static str)
        ensures
            class@ == class_of(verdict(check_mode, utf8(self.content@), utf8(answer@))),
    {
        judge(check_mode, self.content.clone(), answer).class()
    }
}

} // verus!
