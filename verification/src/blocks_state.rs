//! The model of a document: its blocks, the position of the active one, the
//! side from which it is entered, and what each intent makes of them.

use vstd::prelude::*;
use crate::block_wrapper::BlockView;
use crate::intent::{Intent, Progress};
use crate::paragraph_state::{lemma_enter, lemma_step_keeps_shape};
use crate::schema::Block;
use crate::text::SpanView;
use crate::ResultKind;

verus! {

/// Whether every handed-in block is a paragraph, the one kind that can be
/// drawn, edited and collected.
pub open spec fn all_paragraphs(blocks: Seq<Block>) -> bool {
    forall|i: int| 0 <= i < blocks.len() ==> (#[trigger] blocks[i]) is Paragraph
}

/// The model of a document that contracts speak of.
pub struct BlocksState {
    /// The blocks in display order.
    pub blocks: Seq<BlockView>,
    /// The position of the active block, or 0 in an empty document.
    pub cursor: int,
    /// Whether the active block is entered at its first unit (else at its
    /// last).
    pub enter_from_left: bool,
}

impl BlocksState {
    /// Every block is well formed, and the cursor names a block whenever the
    /// document has one.
    pub open spec fn wf(self) -> bool {
        &&& forall|i: int| 0 <= i < self.blocks.len() ==> (#[trigger] self.blocks[i]).wf()
        &&& if self.blocks.len() == 0 {
            self.cursor == 0
        } else {
            0 <= self.cursor < self.blocks.len()
        }
    }

    /// Every block is of the one kind that can be drawn, edited and
    /// collected.
    pub open spec fn implemented(self) -> bool {
        forall|i: int| 0 <= i < self.blocks.len() ==> (#[trigger] self.blocks[i]) is Paragraph
    }

    /// The document made of handed-in blocks, with its first block active.
    pub open spec fn fresh(blocks: Seq<Block>) -> BlocksState {
        BlocksState {
            blocks: blocks.map_values(|block: Block| BlockView::fresh(block)),
            cursor: 0,
            enter_from_left: true,
        }
    }

    /// Whether a block follows the active one.
    pub open spec fn has_next(self) -> bool {
        self.cursor + 1 < self.blocks.len()
    }

    /// Whether a block precedes the active one.
    pub open spec fn has_prev(self) -> bool {
        0 < self.cursor < self.blocks.len()
    }

    /// The document with its first block active, to be entered from the
    /// left; unchanged where it is empty.
    pub open spec fn select_first(self) -> BlocksState {
        if self.blocks.len() == 0 {
            self
        } else {
            BlocksState { blocks: self.blocks, cursor: 0, enter_from_left: true }
        }
    }

    /// The document with the block after the active one active, to be
    /// entered from the left; unchanged where none follows.
    pub open spec fn select_next(self) -> BlocksState {
        if self.has_next() {
            BlocksState { blocks: self.blocks, cursor: self.cursor + 1, enter_from_left: true }
        } else {
            self
        }
    }

    /// The document with the block before the active one active, to be
    /// entered from the right; unchanged where none precedes.
    pub open spec fn select_prev(self) -> BlocksState {
        if self.has_prev() {
            BlocksState { blocks: self.blocks, cursor: self.cursor - 1, enter_from_left: false }
        } else {
            self
        }
    }

    /// What a step reports: nothing for an empty document, else whether the
    /// cursor moved.
    pub open spec fn moved(self, can_move: bool) -> Option<bool> {
        if self.blocks.len() == 0 {
            None
        } else {
            Some(can_move)
        }
    }

    /// The active block.
    pub open spec fn active(self) -> BlockView
        recommends
            0 <= self.cursor < self.blocks.len(),
    {
        self.blocks[self.cursor]
    }

    /// The same document with `block` in place of the active block.
    pub open spec fn with_active(self, block: BlockView) -> BlocksState {
        BlocksState {
            blocks: self.blocks.update(self.cursor, block),
            cursor: self.cursor,
            enter_from_left: self.enter_from_left,
        }
    }

    /// Whether the active block has a unit to edit.
    pub open spec fn can_enter(self) -> bool {
        self.blocks.len() > 0 && self.active().can_enter()
    }

    /// The document after its active block was entered from the side that
    /// the document remembers.
    pub open spec fn enter_active(self) -> BlocksState {
        if self.blocks.len() == 0 {
            self
        } else {
            self.with_active(self.active().enter(self.enter_from_left))
        }
    }

    /// What entering the active block answers: the document waits for
    /// intents where the block has a unit to edit, and answers nothing where
    /// it has none.
    pub open spec fn entered(self) -> Option<Progress> {
        if self.can_enter() {
            Some(Progress::Waiting)
        } else {
            None
        }
    }

    /// The document at the start of a session: the first unit of its first
    /// block is active.
    pub open spec fn enter(self) -> BlocksState {
        self.select_first().enter_active()
    }

    /// The document after one intent. The intent goes to the active block.
    /// Where that block finishes as completed, the next block is entered, if
    /// there is one. Where it finishes asking for the next or the previous
    /// block, the document moves there if it can and enters the block that
    /// is then active. A cancelled block is left as it is.
    pub open spec fn step(self, intent: Intent) -> BlocksState {
        if self.blocks.len() == 0 {
            self
        } else {
            let stepped = self.with_active(self.active().step(intent));
            match self.active().answer(intent) {
                Some(Progress::Finished(ResultKind::Completed)) => if stepped.has_next() {
                    stepped.select_next().enter_active()
                } else {
                    stepped
                },
                Some(Progress::Finished(ResultKind::NextBlock)) => {
                    stepped.select_next().enter_active()
                },
                Some(Progress::Finished(ResultKind::PrevBlock)) => {
                    stepped.select_prev().enter_active()
                },
                _ => stepped,
            }
        }
    }

    /// What the document answers to one intent. It answers nothing where it
    /// is empty, where the active block answers nothing, or where the block
    /// it moves to has no unit to edit. It finishes as cancelled as soon as
    /// the active block does, and as completed where the last block does.
    /// Otherwise it goes on waiting.
    pub open spec fn answer(self, intent: Intent) -> Option<Progress> {
        if self.blocks.len() == 0 {
            None
        } else {
            let stepped = self.with_active(self.active().step(intent));
            match self.active().answer(intent) {
                Some(Progress::Finished(ResultKind::Completed)) => if stepped.has_next() {
                    stepped.select_next().entered()
                } else {
                    Some(Progress::Finished(ResultKind::Completed))
                },
                Some(Progress::Finished(ResultKind::NextBlock)) => stepped.select_next().entered(),
                Some(Progress::Finished(ResultKind::PrevBlock)) => stepped.select_prev().entered(),
                other => other,
            }
        }
    }

    /// The lines of block `i`: as edited where `live` is set and the block is
    /// the active one, else as they stand.
    pub open spec fn block_lines(self, i: int, live: bool) -> Seq<Seq<SpanView>> {
        if live && i == self.cursor {
            self.blocks[i].live_lines()
        } else {
            self.blocks[i].static_lines()
        }
    }

    /// The lines of each of the first `n` blocks.
    pub open spec fn lines_by_block(self, n: int, live: bool) -> Seq<Seq<Seq<SpanView>>> {
        Seq::new(n as nat, |i: int| self.block_lines(i, live))
    }

    /// The whole document as it is drawn while nothing is being edited: the
    /// lines of its blocks, one block after the other.
    pub open spec fn static_text(self) -> Seq<Seq<SpanView>> {
        self.lines_by_block(self.blocks.len() as int, false).flatten()
    }

    /// The whole document as it is drawn during a session: the active block
    /// as edited, every other block as it stands.
    pub open spec fn live_text(self) -> Seq<Seq<SpanView>> {
        self.lines_by_block(self.blocks.len() as int, true).flatten()
    }

    /// A session can go on: the document is well formed, every block is a
    /// paragraph, and the active block has a placeholder.
    pub open spec fn live(self) -> bool {
        self.wf() && self.implemented() && self.can_enter()
    }

    /// The document and its answer after the intents were handed over one by
    /// one, for as long as the document went on waiting. Once it has
    /// finished, or answers nothing, the intents that are left are not
    /// looked at.
    pub open spec fn run(self, intents: Seq<Intent>) -> (BlocksState, Option<Progress>)
        decreases intents.len(),
    {
        if intents.len() == 0 {
            (self, Some(Progress::Waiting))
        } else {
            match self.answer(intents[0]) {
                Some(Progress::Waiting) => self.step(intents[0]).run(intents.skip(1)),
                other => (self.step(intents[0]), other),
            }
        }
    }

    /// The text of every placeholder, block by block.
    pub open spec fn answers(self) -> Seq<Seq<Seq<char>>> {
        self.blocks.map_values(|block: BlockView| block.answers())
    }
}

/// A fresh document is made of paragraphs alone exactly where the blocks
/// handed in are.
pub proof fn lemma_fresh_implemented(blocks: Seq<Block>)
    ensures
        BlocksState::fresh(blocks).implemented() <==> all_paragraphs(blocks),
{
    let fresh = BlocksState::fresh(blocks);
    if all_paragraphs(blocks) {
        assert forall|i: int| 0 <= i < fresh.blocks.len() implies (
        #[trigger] fresh.blocks[i]) is Paragraph by {
            assert(blocks[i] is Paragraph);
        }
    }
    if fresh.implemented() {
        assert forall|i: int| 0 <= i < blocks.len() implies (#[trigger] blocks[i]) is Paragraph by {
            assert(fresh.blocks[i] is Paragraph);
        }
    }
}

/// One intent keeps a well-formed document of paragraphs what it is, with
/// as many blocks as before.
pub proof fn lemma_step_keeps_wf(state: BlocksState, intent: Intent)
    requires
        state.wf(),
        state.implemented(),
    ensures
        state.step(intent).wf(),
        state.step(intent).implemented(),
        state.step(intent).blocks.len() == state.blocks.len(),
{
    if state.blocks.len() > 0 {
        lemma_step_keeps_shape(state.active()->Paragraph_0, intent);
        let stepped = state.with_active(state.active().step(intent));
        lemma_enter_active_keeps_wf(stepped.select_next());
        lemma_enter_active_keeps_wf(stepped.select_prev());
    }
}

/// Entering the active block keeps a well-formed document of paragraphs
/// what it is, with as many blocks as before.
pub proof fn lemma_enter_active_keeps_wf(state: BlocksState)
    requires
        state.wf(),
        state.implemented(),
    ensures
        state.enter_active().wf(),
        state.enter_active().implemented(),
        state.enter_active().blocks.len() == state.blocks.len(),
        state.enter_active().can_enter() == state.can_enter(),
        state.enter_active().cursor == state.cursor,
        state.enter_active().enter_from_left == state.enter_from_left,
{
    if state.blocks.len() > 0 {
        lemma_enter(state.active()->Paragraph_0, state.enter_from_left);
    }
}

/// A session that goes on waiting after an intent can still go on: the
/// block that is then active has a placeholder.
pub proof fn lemma_waiting_stays_live(state: BlocksState, intent: Intent)
    requires
        state.live(),
        state.answer(intent) == Some(Progress::Waiting),
    ensures
        state.step(intent).live(),
{
    lemma_step_keeps_shape(state.active()->Paragraph_0, intent);
    let stepped = state.with_active(state.active().step(intent));
    lemma_enter_active_keeps_wf(stepped.select_next());
    lemma_enter_active_keeps_wf(stepped.select_prev());
}

/// Stepping backward out of the first unit of a block lands on the last
/// placeholder of the block before it, not on its first.
pub proof fn lemma_previous_block_entered_at_last(state: BlocksState)
    requires
        state.live(),
        state.has_prev(),
        !state.active()->Paragraph_0.has_prev(),
        state.blocks[state.cursor - 1].can_enter(),
    ensures
        state.answer(Intent::PrevUnit) == Some(Progress::Waiting),
        ({
            let after = state.step(Intent::PrevUnit);
            let target = state.blocks[state.cursor - 1]->Paragraph_0;
            &&& after.cursor == state.cursor - 1
            &&& !after.enter_from_left
            &&& after.active() == BlockView::Paragraph(target.select_last())
            &&& target.is_last(target.select_last().cursor)
        }),
{
    lemma_enter(state.blocks[state.cursor - 1]->Paragraph_0, false);
}

/// Stepping forward out of the last unit of a block lands on the first
/// placeholder of the block after it.
pub proof fn lemma_next_block_entered_at_first(state: BlocksState)
    requires
        state.live(),
        state.has_next(),
        !state.active()->Paragraph_0.has_next(),
        state.blocks[state.cursor + 1].can_enter(),
    ensures
        state.answer(Intent::NextUnit) == Some(Progress::Waiting),
        state.answer(Intent::Confirm) == Some(Progress::Waiting),
        state.step(Intent::Confirm) == state.step(Intent::NextUnit),
        ({
            let after = state.step(Intent::NextUnit);
            let target = state.blocks[state.cursor + 1]->Paragraph_0;
            &&& after.cursor == state.cursor + 1
            &&& after.enter_from_left
            &&& after.active() == BlockView::Paragraph(target.select_first())
            &&& target.is_first(target.select_first().cursor)
        }),
{
    lemma_enter(state.blocks[state.cursor + 1]->Paragraph_0, true);
}

/// Cancelling a session that can go on finishes it at once as cancelled and
/// leaves the document as it stands.
pub proof fn lemma_cancel(state: BlocksState)
    requires
        state.live(),
    ensures
        state.answer(Intent::Cancel) == Some(Progress::Finished(ResultKind::Canceled)),
        state.step(Intent::Cancel) == state,
{
    assert(state.step(Intent::Cancel).blocks =~= state.blocks);
}

/// A document finishes as completed or as cancelled, never in another way.
pub proof fn lemma_finishes_completed_or_canceled(state: BlocksState, intent: Intent)
    ensures
        state.answer(intent) matches Some(Progress::Finished(kind)) ==> kind
            == ResultKind::Completed || kind == ResultKind::Canceled,
{
}

/// Whatever intents came before: where the session still waits after them,
/// a cancel that follows finishes it at once as cancelled, and the document
/// is left as those intents made it.
pub proof fn lemma_run_ending_in_cancel(state: BlocksState, intents: Seq<Intent>)
    requires
        state.live(),
        state.run(intents).1 == Some(Progress::Waiting),
    ensures
        state.run(intents.push(Intent::Cancel)) == (
            state.run(intents).0,
            Some(Progress::Finished(ResultKind::Canceled)),
        ),
    decreases intents.len(),
{
    let all = intents.push(Intent::Cancel);
    if intents.len() == 0 {
        lemma_cancel(state);
    } else {
        assert(all.skip(1) =~= intents.skip(1).push(Intent::Cancel));
        lemma_waiting_stays_live(state, intents[0]);
        lemma_run_ending_in_cancel(state.step(intents[0]), intents.skip(1));
    }
}

/// One intent changes what is typed in the active block alone: every other
/// block keeps its items, and a block that is active neither before nor
/// after the intent stays exactly as it is.
pub proof fn lemma_step_keeps_other_blocks(state: BlocksState, intent: Intent, i: int)
    requires
        state.wf(),
        state.implemented(),
        0 <= i < state.blocks.len(),
        i != state.cursor,
    ensures
        state.step(intent).blocks[i]->Paragraph_0.items == state.blocks[i]->Paragraph_0.items,
        i != state.step(intent).cursor ==> state.step(intent).blocks[i] == state.blocks[i],
{
}

} // verus!
