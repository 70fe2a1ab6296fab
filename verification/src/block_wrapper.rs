//! One block of a document. Of the four kinds only the paragraph can be
//! drawn, edited and collected; the others are kept as they are handed in.

use vstd::prelude::*;
use crate::intent::{Intent, Progress};
use crate::one_of_wrapper::OneOfWrapper;
use crate::paragraph_state::ParagraphState;
use crate::paragraph_wrapper::ParagraphWrapper;
use crate::schema::Block;
use crate::text::{Span, SpanView};

verus! {

/// The model of a block that contracts speak of.
pub enum BlockView {
    Order,
    AnyOf,
    OneOf(Seq<Seq<char>>),
    Paragraph(ParagraphState),
}

impl BlockView {
    /// A paragraph is well formed; the other kinds hold nothing that could
    /// be ill formed.
    pub open spec fn wf(self) -> bool {
        self is Paragraph ==> self->Paragraph_0.wf()
    }

    /// What a handed-in block starts as.
    pub open spec fn fresh(block: Block) -> BlockView {
        match block {
            Block::Order(_) => BlockView::Order,
            Block::AnyOf(_) => BlockView::AnyOf,
            Block::OneOf(items) => BlockView::OneOf(items.deep_view()),
            Block::Paragraph(items) => BlockView::Paragraph(ParagraphState::fresh(items@)),
        }
    }

    /// Whether the block has a unit to edit.
    pub open spec fn can_enter(self) -> bool {
        self is Paragraph && self->Paragraph_0.has_placeholder()
    }

    /// The block as it is entered from the left or from the right.
    pub open spec fn enter(self, start_from_left: bool) -> BlockView {
        match self {
            BlockView::Paragraph(paragraph) => BlockView::Paragraph(
                paragraph.enter(start_from_left),
            ),
            _ => self,
        }
    }

    /// The block after one intent.
    pub open spec fn step(self, intent: Intent) -> BlockView {
        match self {
            BlockView::Paragraph(paragraph) => BlockView::Paragraph(paragraph.step(intent)),
            _ => self,
        }
    }

    /// What the block answers to one intent: nothing where it has no unit to
    /// edit.
    pub open spec fn answer(self, intent: Intent) -> Option<Progress> {
        match self {
            BlockView::Paragraph(paragraph) => paragraph.answer(intent),
            _ => None,
        }
    }

    /// The lines of the block while it is not active.
    pub open spec fn static_lines(self) -> Seq<Seq<SpanView>> {
        match self {
            BlockView::Paragraph(paragraph) => seq![paragraph.static_line()],
            _ => Seq::empty(),
        }
    }

    /// The lines of the block while it is active.
    pub open spec fn live_lines(self) -> Seq<Seq<SpanView>> {
        match self {
            BlockView::Paragraph(paragraph) => seq![paragraph.live_line()],
            _ => Seq::empty(),
        }
    }

    /// The text of every placeholder of the block, in display order.
    pub open spec fn answers(self) -> Seq<Seq<char>> {
        match self {
            BlockView::Paragraph(paragraph) => paragraph.answers(),
            _ => Seq::empty(),
        }
    }
}

/// One block of a document.
#[derive(Debug)]
pub enum BlockWrapper {
    Order,
    AnyOf,
    OneOf(OneOfWrapper),
    Paragraph(ParagraphWrapper),
}

impl View for BlockWrapper {
    type V = BlockView;

    open spec fn view(&self) -> BlockView {
        match *self {
            BlockWrapper::Order => BlockView::Order,
            BlockWrapper::AnyOf => BlockView::AnyOf,
            BlockWrapper::OneOf(one_of) => BlockView::OneOf(one_of@),
            BlockWrapper::Paragraph(paragraph) => BlockView::Paragraph(paragraph@),
        }
    }
}

impl BlockWrapper {
    /// A paragraph is well formed; the other kinds hold nothing that could
    /// be ill formed.
    pub open spec fn wf(&self) -> bool {
        self@.wf()
    }

    /// The block as it stands before anyone has typed.
    pub fn new(block: Block) -> (wrapper: Self)
        ensures
            wrapper@ == BlockView::fresh(block),
            wrapper.wf(),
    {
        match block {
            Block::Order(_) => BlockWrapper::Order,
            Block::AnyOf(_) => BlockWrapper::AnyOf,
            Block::OneOf(items) => BlockWrapper::OneOf(OneOfWrapper::new(items)),
            Block::Paragraph(items) => BlockWrapper::Paragraph(ParagraphWrapper::new(items)),
        }
    }

    /// Whether the block is a paragraph, the one kind that can be drawn,
    /// edited and collected.
    pub fn is_paragraph(&self) -> (is: bool)
        ensures
            is == (self@ is Paragraph),
    {
        match self {
            BlockWrapper::Paragraph(_) => true,
            _ => false,
        }
    }

    /// Enters the block from the left or from the right, which makes its
    /// first or its last unit the active one. Answers nothing, and changes
    /// nothing, where the block has no unit to edit.
    pub fn enter(&mut self, start_from_left: bool) -> (entered: Option<()>)
        requires
            old(self).wf(),
            old(self)@ is Paragraph,
        ensures
            final(self)@ == old(self)@.enter(start_from_left),
            final(self).wf(),
            entered is Some <==> old(self)@.can_enter(),
    {
        match self {
            BlockWrapper::Paragraph(paragraph) => paragraph.enter(start_from_left),
            _ => vstd::pervasive::unreached(),
        }
    }

    /// One turn of the block: the intent goes to its active unit, and the
    /// block answers whether it goes on waiting or has finished, and how.
    /// It answers nothing where it has no unit to edit.
    pub fn get_input(&mut self, intent: Intent) -> (progress: Option<Progress>)
        requires
            old(self).wf(),
            old(self)@ is Paragraph,
        ensures
            final(self)@ == old(self)@.step(intent),
            final(self).wf(),
            progress == old(self)@.answer(intent),
    {
        match self {
            BlockWrapper::Paragraph(paragraph) => paragraph.get_input(intent),
            _ => vstd::pervasive::unreached(),
        }
    }

    /// The lines of the block as they are drawn while it is not active.
    pub fn as_lines(&self) -> (lines: Vec<Vec<Span<'_>>>)
        requires
            self@ is Paragraph,
        ensures
            lines.deep_view() == self@.static_lines(),
    {
        let mut lines: Vec<Vec<Span<'_>>> = Vec::new();
        match self {
            BlockWrapper::Paragraph(paragraph) => lines.push(paragraph.as_line()),
            _ => vstd::pervasive::unreached(),
        }
        lines
    }

    /// The lines of the block as they are drawn while it is active.
    pub fn compose_lines(&self) -> (lines: Vec<Vec<Span<'_>>>)
        requires
            self.wf(),
            self@ is Paragraph,
        ensures
            lines.deep_view() == self@.live_lines(),
    {
        let mut lines: Vec<Vec<Span<'_>>> = Vec::new();
        match self {
            BlockWrapper::Paragraph(paragraph) => lines.push(paragraph.compose_line()),
            _ => vstd::pervasive::unreached(),
        }
        lines
    }

    /// Gives up the block for the text of its placeholders, in display
    /// order.
    pub fn finalize(self) -> (answers: Vec<String>)
        requires
            self@ is Paragraph,
        ensures
            answers.deep_view() == self@.answers(),
    {
        match self {
            BlockWrapper::Paragraph(paragraph) => paragraph.finalize(),
            _ => vstd::pervasive::unreached(),
        }
    }
}

} // verus!
