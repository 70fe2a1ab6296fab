//! The smallest editable unit: a line of text and a caret in it.

use vstd::prelude::*;
use vstd::string::*;
use crate::intent::{Intent, Progress};
use crate::ResultKind;
use crate::text::{caret_span, Emphasis, Span, SpanView, caret_glyph};

verus! {

/// `String::push`: appends one character to the end of the string.
pub assume_specification[ String::push ](s: &mut String, ch: char)
    ensures
        final(s)@ == old(s)@.push(ch),
;

/// The model of a blank field that contracts speak of.
pub struct FieldState {
    /// The characters typed so far.
    pub text: Seq<char>,
    /// How many characters stand before the caret.
    pub cursor: int,
}

impl FieldState {
    /// The caret is an insertion point of the text.
    pub open spec fn wf(self) -> bool {
        0 <= self.cursor <= self.text.len()
    }

    /// The field nobody has typed into.
    pub open spec fn empty() -> FieldState {
        FieldState { text: Seq::empty(), cursor: 0 }
    }

    /// The text before the caret.
    pub open spec fn before(self) -> Seq<char> {
        self.text.take(self.cursor)
    }

    /// The text from the caret on.
    pub open spec fn after(self) -> Seq<char> {
        self.text.skip(self.cursor)
    }

    /// Typing `c`: it goes in at the caret, and the caret moves behind it.
    pub open spec fn insert(self, c: char) -> FieldState {
        FieldState { text: self.text.insert(self.cursor, c), cursor: self.cursor + 1 }
    }

    /// Backspace: the character before the caret goes, and the caret follows.
    /// At the start of the text nothing happens.
    pub open spec fn delete_before_cursor(self) -> FieldState {
        if self.cursor > 0 {
            FieldState { text: self.text.remove(self.cursor - 1), cursor: self.cursor - 1 }
        } else {
            self
        }
    }

    /// Moving the caret by `delta` characters, stopping at either end.
    pub open spec fn move_cursor(self, delta: int) -> FieldState {
        let target = self.cursor + delta;
        let cursor = if target < 0 {
            0
        } else if target > self.text.len() {
            self.text.len() as int
        } else {
            target
        };
        FieldState { text: self.text, cursor }
    }

    /// The field after one intent. Only the four editing intents change it.
    pub open spec fn apply(self, intent: Intent) -> FieldState {
        match intent {
            Intent::Insert(c) => self.insert(c),
            Intent::DeletePrev => self.delete_before_cursor(),
            Intent::CursorLeft => self.move_cursor(-1),
            Intent::CursorRight => self.move_cursor(1),
            _ => self,
        }
    }

    /// What the field answers to one intent: it goes on waiting after an
    /// edit, and hands every structural intent to the level above.
    pub open spec fn answer(intent: Intent) -> Progress {
        if intent.is_edit() {
            Progress::Waiting
        } else {
            Progress::Finished(intent.outcome())
        }
    }

    /// The field while it is being edited: the text before the caret, the
    /// caret, the text after it.
    pub open spec fn active_spans(self) -> Seq<SpanView> {
        seq![
            SpanView { content: self.before(), emphasis: Emphasis::Active },
            SpanView { content: caret_glyph(), emphasis: Emphasis::Caret },
            SpanView { content: self.after(), emphasis: Emphasis::Active },
        ]
    }
}

/// Backspace takes back what was just typed: the text and the caret are
/// what they were before the character went in.
pub proof fn lemma_delete_undoes_insert(field: FieldState, c: char)
    requires
        field.wf(),
    ensures
        field.insert(c).delete_before_cursor() == field,
{
    assert(field.text.insert(field.cursor, c).remove(field.cursor) =~= field.text);
}

/// No intent moves the caret out of the text.
pub proof fn lemma_apply_keeps_wf(field: FieldState, intent: Intent)
    requires
        field.wf(),
    ensures
        field.apply(intent).wf(),
{
}

/// An editable text with a caret. The caret always stands at an insertion
/// point: at most as many characters precede it as the text has.
#[derive(Debug)]
pub struct BlankField {
    text: String,
    cursor: usize,
}

impl View for BlankField {
    type V = FieldState;

    closed spec fn view(&self) -> FieldState {
        FieldState { text: self.text@, cursor: self.cursor as int }
    }
}

impl Default for BlankField {
    /// The empty field, with the caret at the start.
    fn default() -> (field: Self)
        ensures
            field@ == FieldState::empty(),
            field.wf(),
    {
        BlankField { text: String::new(), cursor: 0 }
    }
}

impl BlankField {
    /// The caret is an insertion point of the text.
    pub open spec fn wf(&self) -> bool {
        self@.wf()
    }

    /// The text typed so far.
    pub fn text(&self) -> (text: &str)
        ensures
            text@ == self@.text,
    {
        self.text.as_str()
    }

    /// Gives up the field for the text typed into it.
    pub fn into_text(self) -> (text: String)
        ensures
            text@ == self@.text,
    {
        self.text
    }

    /// How many characters stand before the caret.
    pub fn cursor(&self) -> (cursor: usize)
        ensures
            cursor == self@.cursor,
    {
        self.cursor
    }

    /// Whether nothing has been typed.
    pub fn is_empty(&self) -> (empty: bool)
        ensures
            empty == (self@.text.len() == 0),
    {
        self.text.as_str().is_empty()
    }

    /// Types `c` at the caret.
    pub fn insert(&mut self, c: char)
        requires
            old(self).wf(),
        ensures
            final(self)@ == old(self)@.insert(c),
            final(self).wf(),
    {
        let len = self.text.as_str().unicode_len();
        let mut text = String::from_str(self.text.as_str().substring_char(0, self.cursor));
        text.push(c);
        let caret = text.as_str().unicode_len();
        text.append(self.text.as_str().substring_char(self.cursor, len));
        self.text = text;
        self.cursor = caret;
    }

    /// Removes the character before the caret, if there is one.
    pub fn delete_before_cursor(&mut self)
        requires
            old(self).wf(),
        ensures
            final(self)@ == old(self)@.delete_before_cursor(),
            final(self).wf(),
    {
        if self.cursor > 0 {
            let len = self.text.as_str().unicode_len();
            let mut text = String::from_str(self.text.as_str().substring_char(0, self.cursor - 1));
            text.append(self.text.as_str().substring_char(self.cursor, len));
            self.text = text;
            self.cursor = self.cursor - 1;
        }
    }

    /// Moves the caret by `delta` characters, towards the end for a positive
    /// `delta` and towards the start for a negative one, and stops at either
    /// end of the text.
    pub fn move_cursor(&mut self, delta: isize)
        requires
            old(self).wf(),
        ensures
            final(self)@ == old(self)@.move_cursor(delta as int),
            final(self).wf(),
    {
        if delta >= 0 {
            let len = self.text.as_str().unicode_len();
            let room = len - self.cursor;
            let steps = delta as usize;
            self.cursor = if steps < room {
                self.cursor + steps
            } else {
                len
            };
        } else {
            let back: usize = (-(delta + 1)) as usize + 1;
            self.cursor = if back < self.cursor {
                self.cursor - back
            } else {
                0
            };
        }
    }

    /// The text on either side of the caret, for a front end that draws the
    /// caret between the two.
    pub fn render(&self) -> (halves: (&str, &str))
        requires
            self.wf(),
        ensures
            halves.0@ == self@.before(),
            halves.1@ == self@.after(),
    {
        let text = self.text.as_str();
        let len = text.unicode_len();
        (text.substring_char(0, self.cursor), text.substring_char(self.cursor, len))
    }

    /// One turn of the field: an editing intent changes the text or the
    /// caret and the field goes on waiting; any other intent leaves the field
    /// as it is and is passed up.
    pub fn get_input(&mut self, intent: Intent) -> (progress: Progress)
        requires
            old(self).wf(),
        ensures
            final(self)@ == old(self)@.apply(intent),
            final(self).wf(),
            progress == FieldState::answer(intent),
    {
        match intent {
            Intent::Insert(c) => {
                self.insert(c);
                Progress::Waiting
            },
            Intent::DeletePrev => {
                self.delete_before_cursor();
                Progress::Waiting
            },
            Intent::CursorLeft => {
                self.move_cursor(-1);
                Progress::Waiting
            },
            Intent::CursorRight => {
                self.move_cursor(1);
                Progress::Waiting
            },
            Intent::Confirm => Progress::Finished(ResultKind::Completed),
            Intent::Cancel => Progress::Finished(ResultKind::Canceled),
            Intent::NextUnit => Progress::Finished(ResultKind::NextBlock),
            Intent::PrevUnit => Progress::Finished(ResultKind::PrevBlock),
        }
    }
}

/// The spans of a field that is being edited: both halves of its text with
/// the caret between them.
pub fn style_active_blank_field(blank_field: &BlankField) -> (spans: Vec<Span<'_>>)
    requires
        blank_field.wf(),
    ensures
        spans.deep_view() == blank_field@.active_spans(),
{
    let (before, after) = blank_field.render();
    let mut spans: Vec<Span<'_>> = Vec::new();
    spans.push(Span { content: before, emphasis: Emphasis::Active });
    spans.push(caret_span());
    spans.push(Span { content: after, emphasis: Emphasis::Active });
    spans
}

} // verus!
