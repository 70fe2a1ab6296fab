//! A paragraph: fixed text and blank fields in one line, with one field
//! active at a time.

use vstd::prelude::*;
use crate::blank_field::style_active_blank_field;
use crate::intent::{Intent, Progress};
use crate::paragraph_item_wrapper::{ItemView, ParagraphItemWrapper};
use crate::paragraph_state::{
    lemma_seek_backward, lemma_seek_forward, seek_backward, seek_forward, ParagraphState,
};
use crate::schema::ParagraphItem;
use crate::text::Span;
use crate::ResultKind;

verus! {

/// Fixed text and blank fields in display order, and the position of the
/// field that is active. While the paragraph has a placeholder the cursor
/// stands on one.
#[derive(Debug)]
pub struct ParagraphWrapper {
    items: Vec<ParagraphItemWrapper>,
    cursor: usize,
}

impl View for ParagraphWrapper {
    type V = ParagraphState;

    closed spec fn view(&self) -> ParagraphState {
        ParagraphState {
            items: self.items@.map_values(|item: ParagraphItemWrapper| item@),
            cursor: self.cursor as int,
        }
    }
}

impl ParagraphWrapper {
    /// Every field is well formed, and the cursor stands on a placeholder
    /// whenever the paragraph has one.
    pub open spec fn wf(&self) -> bool {
        self@.wf()
    }

    /// The paragraph of the handed-in items, with its first placeholder
    /// active.
    pub fn new(items: Vec<ParagraphItem>) -> (paragraph: Self)
        ensures
            paragraph@ == ParagraphState::fresh(items@),
            paragraph.wf(),
            paragraph@.items == items@.map_values(|item: ParagraphItem| ItemView::fresh(item)),
            paragraph@.has_placeholder() ==> paragraph@.is_first(paragraph@.cursor),
    {
        let ghost handed_in = items@;
        let mut wrapped: Vec<ParagraphItemWrapper> = Vec::new();
        for item in iter: items
            invariant
                iter.seq() == handed_in,
                wrapped@.len() == iter.index(),
                forall|i: int|
                    0 <= i < wrapped@.len() ==> (#[trigger] wrapped@[i])@ == ItemView::fresh(
                        handed_in[i],
                    ) && wrapped@[i].wf(),
        {
            wrapped.push(ParagraphItemWrapper::new(item));
        }
        let mut paragraph = ParagraphWrapper { items: wrapped, cursor: 0 };
        proof {
            assert(paragraph@.items =~= handed_in.map_values(
                |item: ParagraphItem| ItemView::fresh(item),
            ));
        }
        let at = paragraph.seek_forward(0);
        proof {
            lemma_seek_forward(paragraph@.items, 0);
        }
        if at < paragraph.items.len() {
            paragraph.cursor = at;
        }
        proof {
            assert(paragraph@.has_placeholder() ==> paragraph@.is_placeholder(at as int));
        }
        paragraph
    }

    /// How many items the paragraph has.
    pub fn len(&self) -> (len: usize)
        ensures
            len == self@.items.len(),
    {
        self.items.len()
    }

    /// The item at position `at`.
    pub fn item(&self, at: usize) -> (item: &ParagraphItemWrapper)
        requires
            at < self@.items.len(),
        ensures
            item@ == self@.items[at as int],
    {
        &self.items[at]
    }

    /// The position of the active placeholder.
    pub fn cursor(&self) -> (cursor: usize)
        ensures
            cursor == self@.cursor,
    {
        self.cursor
    }

    /// Whether the paragraph has anything to edit.
    pub fn has_placeholder(&self) -> (has: bool)
        requires
            self.wf(),
        ensures
            has == self@.has_placeholder(),
    {
        self.cursor < self.items.len() && self.holds_placeholder(self.cursor)
    }

    fn holds_placeholder(&self, at: usize) -> (holds: bool)
        requires
            at < self@.items.len(),
        ensures
            holds == self@.is_placeholder(at as int),
    {
        match &self.items[at] {
            ParagraphItemWrapper::Placeholder(_) => true,
            ParagraphItemWrapper::Text(_) => false,
        }
    }

    fn seek_forward(&self, from: usize) -> (found: usize)
        requires
            from <= self@.items.len(),
        ensures
            found == seek_forward(self@.items, from as int),
    {
        let mut at = from;
        while at < self.items.len()
            invariant
                from <= at <= self@.items.len(),
                seek_forward(self@.items, from as int) == seek_forward(self@.items, at as int),
            decreases self@.items.len() - at,
        {
            if self.holds_placeholder(at) {
                return at;
            }
            at = at + 1;
        }
        at
    }

    fn seek_backward(&self, from: usize) -> (found: Option<usize>)
        requires
            from < self@.items.len(),
        ensures
            found is Some <==> seek_backward(self@.items, from as int) >= 0,
            found is Some ==> found->0 == seek_backward(self@.items, from as int),
    {
        let mut at = from;
        loop
            invariant
                at <= from < self@.items.len(),
                seek_backward(self@.items, from as int) == seek_backward(self@.items, at as int),
            decreases at,
        {
            if self.holds_placeholder(at) {
                return Some(at);
            }
            if at == 0 {
                assert(seek_backward(self@.items, -1) == -1);
                return None;
            }
            at = at - 1;
        }
    }

    /// Makes the first placeholder the active one. Answers nothing, and
    /// changes nothing, where the paragraph has no placeholder.
    pub fn select_first_placeholder(&mut self) -> (found: Option<()>)
        requires
            old(self).wf(),
        ensures
            final(self)@ == old(self)@.select_first(),
            final(self).wf(),
            found is Some <==> old(self)@.has_placeholder(),
            found is Some ==> old(self)@.is_first(final(self)@.cursor),
    {
        proof {
            lemma_seek_forward(self@.items, 0);
        }
        let at = self.seek_forward(0);
        if at < self.items.len() {
            self.cursor = at;
            assert(final(self)@.is_placeholder(at as int));
            Some(())
        } else {
            None
        }
    }

    /// Makes the last placeholder the active one. Answers nothing, and
    /// changes nothing, where the paragraph has no placeholder.
    pub fn select_last_placeholder(&mut self) -> (found: Option<()>)
        requires
            old(self).wf(),
        ensures
            final(self)@ == old(self)@.select_last(),
            final(self).wf(),
            found is Some <==> old(self)@.has_placeholder(),
            found is Some ==> old(self)@.is_last(final(self)@.cursor),
    {
        proof {
            lemma_seek_backward(self@.items, self@.items.len() - 1);
        }
        if self.items.len() == 0 {
            return None;
        }
        match self.seek_backward(self.items.len() - 1) {
            Some(at) => {
                self.cursor = at;
                assert(final(self)@.is_placeholder(at as int));
                Some(())
            },
            None => None,
        }
    }

    /// Steps to the next placeholder, passing over fixed text. Answers
    /// `Some(true)` where it moved, `Some(false)` where the active
    /// placeholder is the last one, and nothing where the paragraph has no
    /// placeholder; in the last two cases nothing changes.
    pub fn select_next_placeholder(&mut self) -> (moved: Option<bool>)
        requires
            old(self).wf(),
        ensures
            final(self)@ == old(self)@.select_next(),
            final(self).wf(),
            moved == old(self)@.moved(old(self)@.has_next()),
            moved != Some(true) ==> final(self)@ == old(self)@,
            moved == Some(true) ==> old(self)@.cursor < final(self)@.cursor && old(
                self,
            )@.is_placeholder(final(self)@.cursor) && old(self)@.none_between(
                old(self)@.cursor,
                final(self)@.cursor,
            ),
            moved == Some(false) ==> old(self)@.is_last(old(self)@.cursor),
    {
        if !self.has_placeholder() {
            return None;
        }
        proof {
            lemma_seek_forward(self@.items, self@.cursor + 1);
        }
        assert(self.cursor < self.items.len());
        let at = self.seek_forward(self.cursor + 1);
        if at < self.items.len() {
            self.cursor = at;
            assert(final(self)@.is_placeholder(at as int));
            Some(true)
        } else {
            Some(false)
        }
    }

    /// Steps to the previous placeholder, passing over fixed text. Answers
    /// `Some(true)` where it moved, `Some(false)` where the active
    /// placeholder is the first one, and nothing where the paragraph has no
    /// placeholder; in the last two cases nothing changes.
    pub fn select_prev_placeholder(&mut self) -> (moved: Option<bool>)
        requires
            old(self).wf(),
        ensures
            final(self)@ == old(self)@.select_prev(),
            final(self).wf(),
            moved == old(self)@.moved(old(self)@.has_prev()),
            moved != Some(true) ==> final(self)@ == old(self)@,
            moved == Some(true) ==> final(self)@.cursor < old(self)@.cursor && old(
                self,
            )@.is_placeholder(final(self)@.cursor) && old(self)@.none_between(
                final(self)@.cursor,
                old(self)@.cursor,
            ),
            moved == Some(false) ==> old(self)@.is_first(old(self)@.cursor),
    {
        if !self.has_placeholder() {
            return None;
        }
        proof {
            lemma_seek_backward(self@.items, self@.cursor - 1);
        }
        if self.cursor == 0 {
            return Some(false);
        }
        match self.seek_backward(self.cursor - 1) {
            Some(at) => {
                self.cursor = at;
                assert(final(self)@.is_placeholder(at as int));
                Some(true)
            },
            None => Some(false),
        }
    }
    /// Enters the paragraph: from the left its first placeholder becomes
    /// active, from the right its last. Answers nothing, and changes
    /// nothing, where the paragraph has no placeholder.
    pub fn enter(&mut self, start_from_left: bool) -> (entered: Option<()>)
        requires
            old(self).wf(),
        ensures
            final(self)@ == old(self)@.enter(start_from_left),
            final(self).wf(),
            entered is Some <==> old(self)@.has_placeholder(),
            entered is Some ==> if start_from_left {
                old(self)@.is_first(final(self)@.cursor)
            } else {
                old(self)@.is_last(final(self)@.cursor)
            },
    {
        if start_from_left {
            self.select_first_placeholder()
        } else {
            self.select_last_placeholder()
        }
    }

    /// One turn of the paragraph. An editing intent goes to the active
    /// field. Confirming steps to the next placeholder and finishes the
    /// paragraph where there is none; asking for the next or previous unit
    /// steps there and, where there is none, finishes the paragraph with that
    /// request for the level above; cancelling finishes it at once.
    pub fn get_input(&mut self, intent: Intent) -> (progress: Option<Progress>)
        requires
            old(self).wf(),
        ensures
            final(self)@ == old(self)@.step(intent),
            final(self).wf(),
            progress == old(self)@.answer(intent),
            progress is Some <==> old(self)@.has_placeholder(),
            intent is Cancel ==> final(self)@ == old(self)@,
    {
        if !self.has_placeholder() {
            return None;
        }
        let answer = match &mut self.items[self.cursor] {
            ParagraphItemWrapper::Placeholder(field) => field.get_input(intent),
            ParagraphItemWrapper::Text(_) => vstd::pervasive::unreached(),
        };
        proof {
            assert(self@.items =~= old(self)@.items.update(
                old(self)@.cursor,
                ItemView::Placeholder(old(self)@.active_field().apply(intent)),
            ));
            assert(self@.is_placeholder(self@.cursor));
            if !intent.is_edit() {
                assert(self@.items =~= old(self)@.items);
            }
        }
        match answer {
            Progress::Waiting => Some(Progress::Waiting),
            Progress::Finished(ResultKind::Canceled) => Some(
                Progress::Finished(ResultKind::Canceled),
            ),
            Progress::Finished(ResultKind::PrevBlock) => match self.select_prev_placeholder() {
                Some(true) => Some(Progress::Waiting),
                _ => Some(Progress::Finished(ResultKind::PrevBlock)),
            },
            Progress::Finished(kind) => match self.select_next_placeholder() {
                Some(true) => Some(Progress::Waiting),
                _ => Some(Progress::Finished(kind)),
            },
        }
    }

    /// The line as it is drawn while no field of it is being edited.
    pub fn as_line(&self) -> (line: Vec<Span<'_>>)
        ensures
            line.deep_view() == self@.static_line(),
    {
        let mut line: Vec<Span<'_>> = Vec::new();
        let mut at: usize = 0;
        while at < self.items.len()
            invariant
                at <= self.items@.len(),
                line.deep_view() == self@.static_line().take(at as int),
            decreases self.items@.len() - at,
        {
            let span = self.items[at].as_span();
            let ghost drawn = line.deep_view();
            line.push(span);
            assert(line.deep_view() =~= drawn.push(span@));
            at = at + 1;
        }
        line
    }

    /// The line as it is drawn while the active field is being edited: the
    /// items before it as they stand, the field with its caret, the items
    /// after it as they stand.
    pub fn compose_line(&self) -> (line: Vec<Span<'_>>)
        requires
            self.wf(),
        ensures
            line.deep_view() == self@.live_line(),
    {
        if !self.has_placeholder() {
            return self.as_line();
        }
        let mut line: Vec<Span<'_>> = Vec::new();
        let mut at: usize = 0;
        while at < self.cursor
            invariant
                at <= self.cursor < self.items@.len(),
                line.deep_view() == self@.static_line().take(at as int),
            decreases self.cursor - at,
        {
            let span = self.items[at].as_span();
            let ghost drawn = line.deep_view();
            line.push(span);
            assert(line.deep_view() =~= drawn.push(span@));
            at = at + 1;
        }
        if let ParagraphItemWrapper::Placeholder(field) = &self.items[self.cursor] {
            let mut active = style_active_blank_field(field);
            line.append(&mut active);
        }
        assert(self.cursor < self.items.len());
        at = self.cursor + 1;
        let ghost head = line.deep_view();
        while at < self.items.len()
            invariant
                self.cursor < at <= self.items@.len(),
                line.deep_view() == head + self@.static_line().subrange(
                    self.cursor + 1,
                    at as int,
                ),
            decreases self.items@.len() - at,
        {
            let span = self.items[at].as_span();
            let ghost drawn = line.deep_view();
            line.push(span);
            assert(line.deep_view() =~= drawn.push(span@));
            at = at + 1;
        }
        line
    }

    /// Gives up the paragraph for the text of its placeholders, in display
    /// order.
    pub fn finalize(self) -> (answers: Vec<String>)
        ensures
            answers.deep_view() == self@.answers(),
    {
        let ghost items = self@.items;
        let ghost wrapped = self.items@;
        let mut answers: Vec<String> = Vec::new();
        for item in iter: self.items
            invariant
                iter.seq() == wrapped,
                items == wrapped.map_values(|item: ParagraphItemWrapper| item@),
                answers.deep_view() == items.take(iter.index()).filter_map(
                    |item: ItemView| item.answer(),
                ),
        {
            proof {
                items.lemma_filter_map_take_succ(|item: ItemView| item.answer(), iter.index());
            }
            match item {
                ParagraphItemWrapper::Placeholder(field) => answers.push(field.into_text()),
                ParagraphItemWrapper::Text(_) => {},
            }
        }
        assert(items.take(items.len() as int) =~= items);
        answers
    }
}

} // verus!
