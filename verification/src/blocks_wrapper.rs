//! A whole document: its blocks in order, the block that is active, and the
//! side from which that block was entered.

use vstd::prelude::*;
use crate::block_wrapper::{BlockView, BlockWrapper};
use crate::blocks_state::{all_paragraphs, lemma_fresh_implemented, BlocksState};
use crate::intent::{Intent, Progress};
use crate::schema::Block;
use crate::split_at_mid;
use crate::text::Span;
use crate::ResultKind;

verus! {

/// The blocks of a document, the position of the active one, and the side
/// from which it is entered.
#[derive(Debug)]
pub struct BlocksWrapper {
    blocks: Vec<BlockWrapper>,
    cursor: usize,
    enter_from_left: bool,
}

impl View for BlocksWrapper {
    type V = BlocksState;

    closed spec fn view(&self) -> BlocksState {
        BlocksState {
            blocks: self.blocks@.map_values(|block: BlockWrapper| block@),
            cursor: self.cursor as int,
            enter_from_left: self.enter_from_left,
        }
    }
}

impl BlocksWrapper {
    /// Every block is well formed, and the cursor names a block whenever the
    /// document has one.
    pub open spec fn wf(&self) -> bool {
        self@.wf()
    }

    /// The document of the handed-in blocks, with its first block active.
    pub fn new(blocks: Vec<Block>) -> (document: Self)
        ensures
            document@ == BlocksState::fresh(blocks@),
            document.wf(),
            document@.implemented() <==> all_paragraphs(blocks@),
    {
        let ghost handed_in = blocks@;
        let mut wrapped: Vec<BlockWrapper> = Vec::new();
        for block in iter: blocks
            invariant
                iter.seq() == handed_in,
                wrapped@.len() == iter.index(),
                forall|i: int|
                    0 <= i < wrapped@.len() ==> (#[trigger] wrapped@[i])@ == BlockView::fresh(
                        handed_in[i],
                    ) && wrapped@[i].wf(),
        {
            wrapped.push(BlockWrapper::new(block));
        }
        let document = BlocksWrapper { blocks: wrapped, cursor: 0, enter_from_left: true };
        proof {
            assert(document@.blocks =~= handed_in.map_values(
                |block: Block| BlockView::fresh(block),
            ));
            lemma_fresh_implemented(handed_in);
        }
        document
    }

    /// How many blocks the document has.
    pub fn len(&self) -> (len: usize)
        ensures
            len == self@.blocks.len(),
    {
        self.blocks.len()
    }

    /// The position of the active block.
    pub fn cursor(&self) -> (cursor: usize)
        ensures
            cursor == self@.cursor,
    {
        self.cursor
    }

    /// Whether the active block is entered at its first unit.
    pub fn enter_from_left(&self) -> (from_left: bool)
        ensures
            from_left == self@.enter_from_left,
    {
        self.enter_from_left
    }

    /// The block at position `at`.
    pub fn block(&self, at: usize) -> (block: &BlockWrapper)
        requires
            at < self@.blocks.len(),
        ensures
            block@ == self@.blocks[at as int],
    {
        &self.blocks[at]
    }

    /// Whether every block is a paragraph, the one kind that can be drawn,
    /// edited and collected.
    pub fn is_implemented(&self) -> (all: bool)
        ensures
            all == self@.implemented(),
    {
        let mut at: usize = 0;
        while at < self.blocks.len()
            invariant
                at <= self.blocks@.len(),
                forall|i: int| 0 <= i < at ==> (#[trigger] self@.blocks[i]) is Paragraph,
            decreases self.blocks@.len() - at,
        {
            if !self.blocks[at].is_paragraph() {
                assert(!(self@.blocks[at as int] is Paragraph));
                return false;
            }
            at = at + 1;
        }
        true
    }

    /// Makes the first block the active one, to be entered from the left.
    /// Answers nothing, and changes nothing, in an empty document.
    pub fn select_first_block(&mut self) -> (found: Option<()>)
        requires
            old(self).wf(),
        ensures
            final(self)@ == old(self)@.select_first(),
            final(self).wf(),
            found is Some <==> old(self)@.blocks.len() > 0,
    {
        if self.blocks.len() == 0 {
            return None;
        }
        self.cursor = 0;
        self.enter_from_left = true;
        Some(())
    }

    /// Steps to the next block, to be entered from the left. Answers
    /// `Some(true)` where it moved, `Some(false)` where the active block is
    /// the last one, and nothing in an empty document; in the last two cases
    /// nothing changes.
    pub fn select_next_block(&mut self) -> (moved: Option<bool>)
        requires
            old(self).wf(),
        ensures
            final(self)@ == old(self)@.select_next(),
            final(self).wf(),
            moved == old(self)@.moved(old(self)@.has_next()),
            moved != Some(true) ==> final(self)@ == old(self)@,
    {
        if self.blocks.len() == 0 {
            return None;
        }
        if self.cursor + 1 < self.blocks.len() {
            self.cursor = self.cursor + 1;
            self.enter_from_left = true;
            Some(true)
        } else {
            Some(false)
        }
    }

    /// Steps to the previous block, to be entered from the right. Answers
    /// `Some(true)` where it moved, `Some(false)` where the active block is
    /// the first one, and nothing in an empty document; in the last two
    /// cases nothing changes.
    pub fn select_prev_block(&mut self) -> (moved: Option<bool>)
        requires
            old(self).wf(),
        ensures
            final(self)@ == old(self)@.select_prev(),
            final(self).wf(),
            moved == old(self)@.moved(old(self)@.has_prev()),
            moved != Some(true) ==> final(self)@ == old(self)@,
    {
        if self.blocks.len() == 0 {
            return None;
        }
        if self.cursor > 0 {
            self.cursor = self.cursor - 1;
            self.enter_from_left = false;
            Some(true)
        } else {
            Some(false)
        }
    }

    /// Enters the active block from the side that the document remembers.
    /// Answers that the document waits for intents, or nothing where the
    /// block has no unit to edit.
    fn enter_active(&mut self) -> (progress: Option<Progress>)
        requires
            old(self).wf(),
            old(self)@.implemented(),
        ensures
            final(self)@ == old(self)@.enter_active(),
            final(self).wf(),
            final(self)@.implemented(),
            progress == old(self)@.entered(),
    {
        let from_left = self.enter_from_left;
        let entered = match split_at_mid(self.blocks.as_mut_slice(), self.cursor) {
            Some((_, active, _)) => active.enter(from_left),
            None => None,
        };
        proof {
            if old(self)@.blocks.len() > 0 {
                assert(self@.blocks =~= old(self)@.enter_active().blocks);
            }
        }
        match entered {
            Some(_) => Some(Progress::Waiting),
            None => None,
        }
    }

    /// Starts a session: the first unit of the first block becomes active.
    /// Answers nothing where the document is empty or its first block has no
    /// unit to edit: there is no session to run then.
    pub fn enter(&mut self) -> (entered: Option<()>)
        requires
            old(self).wf(),
            old(self)@.implemented(),
        ensures
            final(self)@ == old(self)@.enter(),
            final(self).wf(),
            final(self)@.implemented(),
            entered is Some <==> old(self)@.select_first().can_enter(),
    {
        self.select_first_block();
        match self.enter_active() {
            Some(_) => Some(()),
            None => None,
        }
    }

    /// One turn of the document. The intent goes to the active block, whose
    /// neighbours stay as they are. A block that finishes as completed hands
    /// over to the next block, and the document finishes as completed after
    /// its last block. A block that finishes asking for the next or previous
    /// block hands over to that block where there is one, and the block that
    /// is then active is entered. A cancelled block cancels the document at
    /// once.
    pub fn get_input(&mut self, intent: Intent) -> (progress: Option<Progress>)
        requires
            old(self).wf(),
            old(self)@.implemented(),
        ensures
            final(self)@ == old(self)@.step(intent),
            final(self).wf(),
            final(self)@.implemented(),
            progress == old(self)@.answer(intent),
            intent is Cancel ==> final(self)@ == old(self)@,
    {
        let answer = match split_at_mid(self.blocks.as_mut_slice(), self.cursor) {
            Some((_, active, _)) => active.get_input(intent),
            None => None,
        };
        proof {
            if old(self)@.blocks.len() > 0 {
                assert(self@.blocks =~= old(self)@.with_active(
                    old(self)@.active().step(intent),
                ).blocks);
            }
            if old(self)@.blocks.len() == 0 || intent is Cancel {
                assert(self@.blocks =~= old(self)@.blocks);
            }
        }
        match answer {
            Some(Progress::Finished(ResultKind::Completed)) => match self.select_next_block() {
                Some(true) => self.enter_active(),
                _ => answer,
            },
            Some(Progress::Finished(ResultKind::NextBlock)) => {
                self.select_next_block();
                self.enter_active()
            },
            Some(Progress::Finished(ResultKind::PrevBlock)) => {
                self.select_prev_block();
                self.enter_active()
            },
            _ => answer,
        }
    }

    /// The lines of all blocks, one block after the other, with the active
    /// block as edited where `live` is set.
    fn lines(&self, live: bool) -> (text: Vec<Vec<Span<'_>>>)
        requires
            self.wf(),
            self@.implemented(),
        ensures
            text.deep_view() == self@.lines_by_block(self@.blocks.len() as int, live).flatten(),
    {
        let mut text: Vec<Vec<Span<'_>>> = Vec::new();
        let mut at: usize = 0;
        while at < self.blocks.len()
            invariant
                at <= self.blocks@.len(),
                self.wf(),
                self@.implemented(),
                text.deep_view() == self@.lines_by_block(at as int, live).flatten(),
            decreases self.blocks@.len() - at,
        {
            assert(self@.blocks[at as int].wf());
            let mut lines = if live && at == self.cursor {
                self.blocks[at].compose_lines()
            } else {
                self.blocks[at].as_lines()
            };
            let ghost added = lines.deep_view();
            text.append(&mut lines);
            proof {
                self@.lines_by_block(at as int, live).lemma_flatten_push(added);
                assert(self@.lines_by_block(at + 1, live) =~= self@.lines_by_block(
                    at as int,
                    live,
                ).push(added));
            }
            at = at + 1;
        }
        text
    }

    /// The whole document as it is drawn while nothing is being edited.
    pub fn as_lines(&self) -> (text: Vec<Vec<Span<'_>>>)
        requires
            self.wf(),
            self@.implemented(),
        ensures
            text.deep_view() == self@.static_text(),
    {
        self.lines(false)
    }

    /// The whole document as it is drawn during a session: the active block
    /// with the caret in its active field, every other block as it stands.
    pub fn compose_lines(&self) -> (text: Vec<Vec<Span<'_>>>)
        requires
            self.wf(),
            self@.implemented(),
        ensures
            text.deep_view() == self@.live_text(),
    {
        self.lines(true)
    }

    /// Gives up the document for the text of its placeholders: one list for
    /// each block, in display order.
    pub fn finalize(self) -> (answers: Vec<Vec<String>>)
        requires
            self@.implemented(),
        ensures
            answers.deep_view() == self@.answers(),
    {
        let ghost state = self@;
        let ghost wrapped = self.blocks@;
        let mut answers: Vec<Vec<String>> = Vec::new();
        for block in iter: self.blocks
            invariant
                iter.seq() == wrapped,
                state.blocks == wrapped.map_values(|block: BlockWrapper| block@),
                state.implemented(),
                answers.deep_view() == state.answers().take(iter.index()),
        {
            assert(state.blocks[iter.index()] is Paragraph);
            let ghost collected = answers.deep_view();
            let block_answers = block.finalize();
            let ghost added = block_answers.deep_view();
            answers.push(block_answers);
            assert(answers.deep_view() =~= collected.push(added));
        }
        answers
    }
}

} // verus!
