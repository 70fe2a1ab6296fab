//! The model of a paragraph: its items, the position of the active
//! placeholder, and what each step of navigation and each intent makes of
//! them.

use vstd::prelude::*;
use crate::blank_field::FieldState;
use crate::intent::{Intent, Progress};
use crate::paragraph_item_wrapper::ItemView;
use crate::schema::ParagraphItem;
use crate::text::SpanView;
use crate::ResultKind;

verus! {

/// Whether position `i` of `items` holds a placeholder.
pub open spec fn placeholder_at(items: Seq<ItemView>, i: int) -> bool {
    0 <= i < items.len() && items[i] is Placeholder
}

/// The first placeholder at or after `from`, or the number of items where
/// none is left.
pub open spec fn seek_forward(items: Seq<ItemView>, from: int) -> int
    decreases items.len() - from,
{
    if from >= items.len() {
        items.len() as int
    } else if placeholder_at(items, from) {
        from
    } else {
        seek_forward(items, from + 1)
    }
}

/// The last placeholder at or before `from`, or -1 where none is left.
pub open spec fn seek_backward(items: Seq<ItemView>, from: int) -> int
    decreases from + 1,
{
    if from < 0 {
        -1
    } else if placeholder_at(items, from) {
        from
    } else {
        seek_backward(items, from - 1)
    }
}

/// Every placeholder position from `from` on, in increasing order.
pub open spec fn placeholders_from(items: Seq<ItemView>, from: int) -> Seq<int>
    decreases items.len() - from,
{
    if from >= items.len() {
        Seq::empty()
    } else if placeholder_at(items, from) {
        seq![from] + placeholders_from(items, from + 1)
    } else {
        placeholders_from(items, from + 1)
    }
}

/// The model of a paragraph that contracts speak of.
pub struct ParagraphState {
    /// The items in display order.
    pub items: Seq<ItemView>,
    /// The position of the active placeholder, or 0 where there is none.
    pub cursor: int,
}

impl ParagraphState {
    /// Whether position `i` holds a placeholder.
    #[verifier::inline]
    pub open spec fn is_placeholder(self, i: int) -> bool {
        placeholder_at(self.items, i)
    }

    /// Whether the paragraph has anything to edit.
    pub open spec fn has_placeholder(self) -> bool {
        exists|i: int| self.is_placeholder(i)
    }

    /// Whether no placeholder stands strictly between `low` and `high`.
    pub open spec fn none_between(self, low: int, high: int) -> bool {
        forall|k: int| low < k < high ==> !self.is_placeholder(k)
    }

    /// Whether `at` is the first placeholder of the paragraph.
    pub open spec fn is_first(self, at: int) -> bool {
        self.is_placeholder(at) && self.none_between(-1, at)
    }

    /// Whether `at` is the last placeholder of the paragraph.
    pub open spec fn is_last(self, at: int) -> bool {
        self.is_placeholder(at) && self.none_between(at, self.items.len() as int)
    }

    /// Every field is well formed, and the cursor stands on a placeholder
    /// whenever the paragraph has one.
    pub open spec fn wf(self) -> bool {
        &&& forall|i: int| 0 <= i < self.items.len() ==> (#[trigger] self.items[i]).wf()
        &&& if self.has_placeholder() {
            self.is_placeholder(self.cursor)
        } else {
            self.cursor == 0
        }
    }

    /// The same paragraph with the cursor at `cursor`.
    pub open spec fn with_cursor(self, cursor: int) -> ParagraphState {
        ParagraphState { items: self.items, cursor }
    }

    /// The paragraph made of handed-in items: every placeholder starts
    /// empty, and the first of them is active.
    pub open spec fn fresh(items: Seq<ParagraphItem>) -> ParagraphState {
        let start = ParagraphState {
            items: items.map_values(|item: ParagraphItem| ItemView::fresh(item)),
            cursor: 0,
        };
        start.select_first()
    }

    /// The position of the first placeholder.
    pub open spec fn first_placeholder(self) -> int
        recommends
            self.has_placeholder(),
    {
        seek_forward(self.items, 0)
    }

    /// The position of the last placeholder.
    pub open spec fn last_placeholder(self) -> int
        recommends
            self.has_placeholder(),
    {
        seek_backward(self.items, self.items.len() - 1)
    }

    /// Whether a placeholder follows the active one.
    pub open spec fn has_next(self) -> bool {
        seek_forward(self.items, self.cursor + 1) < self.items.len()
    }

    /// Whether a placeholder precedes the active one.
    pub open spec fn has_prev(self) -> bool {
        seek_backward(self.items, self.cursor - 1) >= 0
    }

    /// The paragraph with its first placeholder active; unchanged where it
    /// has none.
    pub open spec fn select_first(self) -> ParagraphState {
        if self.has_placeholder() {
            self.with_cursor(self.first_placeholder())
        } else {
            self
        }
    }

    /// The paragraph with its last placeholder active; unchanged where it
    /// has none.
    pub open spec fn select_last(self) -> ParagraphState {
        if self.has_placeholder() {
            self.with_cursor(self.last_placeholder())
        } else {
            self
        }
    }

    /// The paragraph with the placeholder after the active one active;
    /// unchanged where none follows.
    pub open spec fn select_next(self) -> ParagraphState {
        if self.has_placeholder() && self.has_next() {
            self.with_cursor(seek_forward(self.items, self.cursor + 1))
        } else {
            self
        }
    }

    /// The paragraph with the placeholder before the active one active;
    /// unchanged where none precedes.
    pub open spec fn select_prev(self) -> ParagraphState {
        if self.has_placeholder() && self.has_prev() {
            self.with_cursor(seek_backward(self.items, self.cursor - 1))
        } else {
            self
        }
    }

    /// The paragraph as it is entered: from the left its first placeholder
    /// becomes active, from the right its last.
    pub open spec fn enter(self, start_from_left: bool) -> ParagraphState {
        if start_from_left {
            self.select_first()
        } else {
            self.select_last()
        }
    }

    /// The field of the active placeholder.
    pub open spec fn active_field(self) -> FieldState
        recommends
            self.is_placeholder(self.cursor),
    {
        self.items[self.cursor]->Placeholder_0
    }

    /// The paragraph after an editing intent went to the active field.
    pub open spec fn edit(self, intent: Intent) -> ParagraphState {
        ParagraphState {
            items: self.items.update(
                self.cursor,
                ItemView::Placeholder(self.active_field().apply(intent)),
            ),
            cursor: self.cursor,
        }
    }

    /// The paragraph after one intent. An edit goes to the active field;
    /// confirming and asking for the next unit both step forward, asking for
    /// the previous unit steps backward, each only as far as a placeholder
    /// is there; cancelling changes nothing, and neither does anything in a
    /// paragraph without placeholders.
    pub open spec fn step(self, intent: Intent) -> ParagraphState {
        if !self.has_placeholder() {
            self
        } else {
            match intent {
                Intent::Confirm | Intent::NextUnit => self.select_next(),
                Intent::PrevUnit => self.select_prev(),
                Intent::Cancel => self,
                _ => self.edit(intent),
            }
        }
    }

    /// What the paragraph answers to one intent: nothing where it has no
    /// placeholder; else it goes on waiting after an edit or a step to
    /// another placeholder, and finishes where cancelled or where the step
    /// asked for has no placeholder to land on, reporting what was asked.
    pub open spec fn answer(self, intent: Intent) -> Option<Progress> {
        if !self.has_placeholder() {
            None
        } else {
            let stays = match intent {
                Intent::Confirm | Intent::NextUnit => self.has_next(),
                Intent::PrevUnit => self.has_prev(),
                Intent::Cancel => false,
                _ => true,
            };
            if stays {
                Some(Progress::Waiting)
            } else {
                Some(Progress::Finished(intent.outcome()))
            }
        }
    }

    /// The line as it is drawn while no field of it is being edited.
    pub open spec fn static_line(self) -> Seq<SpanView> {
        self.items.map_values(|item: ItemView| item.static_span())
    }

    /// The line as it is drawn while its active field is being edited: the
    /// items before it, the field with its caret, the items after it.
    pub open spec fn live_line(self) -> Seq<SpanView> {
        if self.is_placeholder(self.cursor) {
            self.static_line().take(self.cursor) + self.active_field().active_spans()
                + self.static_line().skip(self.cursor + 1)
        } else {
            self.static_line()
        }
    }

    /// The text of every placeholder, in display order.
    pub open spec fn answers(self) -> Seq<Seq<char>> {
        self.items.filter_map(|item: ItemView| item.answer())
    }

    /// The positions that are active one after the other while the cursor,
    /// starting where it stands, steps forward until a step no longer moves
    /// it.
    pub open spec fn forward_walk(self) -> Seq<int>
        decreases self.items.len() - self.cursor,
    {
        if self.is_placeholder(self.cursor) && self.has_next() {
            proof {
                lemma_seek_forward(self.items, self.cursor + 1);
            }
            seq![self.cursor] + self.select_next().forward_walk()
        } else {
            seq![self.cursor]
        }
    }

    /// What a step reports: nothing for a paragraph without placeholders,
    /// else whether the cursor moved.
    pub open spec fn moved(self, can_move: bool) -> Option<bool> {
        if self.has_placeholder() {
            Some(can_move)
        } else {
            None
        }
    }
}

/// What `seek_forward` finds: it stays in range, lands on a placeholder
/// unless it runs off the end, and passes over no placeholder on its way.
pub proof fn lemma_seek_forward(items: Seq<ItemView>, from: int)
    requires
        0 <= from <= items.len(),
    ensures
        from <= seek_forward(items, from) <= items.len(),
        seek_forward(items, from) < items.len() ==> placeholder_at(
            items,
            seek_forward(items, from),
        ),
        forall|k: int| from <= k < seek_forward(items, from) ==> !placeholder_at(items, k),
    decreases items.len() - from,
{
    if from < items.len() && !placeholder_at(items, from) {
        lemma_seek_forward(items, from + 1);
    }
}

/// What `seek_backward` finds: it stays in range, lands on a placeholder
/// unless it runs off the start, and passes over no placeholder on its way.
pub proof fn lemma_seek_backward(items: Seq<ItemView>, from: int)
    requires
        -1 <= from < items.len(),
    ensures
        -1 <= seek_backward(items, from) <= from,
        seek_backward(items, from) >= 0 ==> placeholder_at(items, seek_backward(items, from)),
        forall|k: int| seek_backward(items, from) < k <= from ==> !placeholder_at(items, k),
    decreases from + 1,
{
    if from >= 0 && !placeholder_at(items, from) {
        lemma_seek_backward(items, from - 1);
    }
}

/// A paragraph with a placeholder has a first and a last one, and there the
/// two seeks from the ends land.
pub proof fn lemma_ends(state: ParagraphState)
    ensures
        state.has_placeholder() <==> seek_forward(state.items, 0) < state.items.len(),
        state.has_placeholder() <==> seek_backward(state.items, state.items.len() - 1) >= 0,
{
    lemma_seek_forward(state.items, 0);
    lemma_seek_backward(state.items, state.items.len() - 1);
    if state.has_placeholder() {
        let i = choose|i: int| state.is_placeholder(i);
    }
}

/// A placeholder follows the active one exactly where one stands anywhere
/// behind it, and precedes it exactly where one stands anywhere before it.
pub proof fn lemma_has_neighbour(state: ParagraphState)
    requires
        0 <= state.cursor < state.items.len(),
    ensures
        state.has_next() <==> !state.none_between(state.cursor, state.items.len() as int),
        state.has_prev() <==> !state.none_between(-1, state.cursor),
{
    lemma_seek_forward(state.items, state.cursor + 1);
    lemma_seek_backward(state.items, state.cursor - 1);
}

/// Two paragraphs with placeholders at the same positions either both have
/// one or both have none.
proof fn lemma_same_positions(before: ParagraphState, after: ParagraphState)
    requires
        forall|i: int| after.is_placeholder(i) == before.is_placeholder(i),
    ensures
        after.has_placeholder() == before.has_placeholder(),
{
    if before.has_placeholder() {
        let i = choose|i: int| before.is_placeholder(i);
    }
    if after.has_placeholder() {
        let i = choose|i: int| after.is_placeholder(i);
    }
}

/// `placeholders_from` lists the placeholders and nothing else: its entries
/// increase strictly, each is a placeholder at or after `from`, and every
/// such placeholder is among them.
pub proof fn lemma_placeholders_from(items: Seq<ItemView>, from: int)
    requires
        0 <= from,
    ensures
        forall|a: int, b: int|
            0 <= a < b < placeholders_from(items, from).len() ==> placeholders_from(items, from)[a]
                < placeholders_from(items, from)[b],
        forall|a: int|
            0 <= a < placeholders_from(items, from).len() ==> from <= (#[trigger] placeholders_from(
                items,
                from,
            )[a]) && placeholder_at(items, placeholders_from(items, from)[a]),
        forall|k: int|
            from <= k && placeholder_at(items, k) ==> placeholders_from(items, from).contains(k),
    decreases items.len() - from,
{
    if from < items.len() {
        lemma_placeholders_from(items, from + 1);
        let rest = placeholders_from(items, from + 1);
        let all = placeholders_from(items, from);
        if placeholder_at(items, from) {
            assert forall|k: int| from <= k && placeholder_at(items, k) implies all.contains(
                k,
            ) by {
                if k == from {
                    assert(all[0] == k);
                } else {
                    let at = choose|at: int| 0 <= at < rest.len() && rest[at] == k;
                    assert(all[at + 1] == k);
                }
            }
        }
    }
}

/// Fixed text before the next placeholder adds nothing to the list.
proof fn lemma_placeholders_skip(items: Seq<ItemView>, from: int)
    requires
        0 <= from <= items.len(),
    ensures
        placeholders_from(items, from) == placeholders_from(items, seek_forward(items, from)),
    decreases items.len() - from,
{
    if from < items.len() && !placeholder_at(items, from) {
        lemma_placeholders_skip(items, from + 1);
    }
}

proof fn lemma_walk_from(state: ParagraphState)
    requires
        state.is_placeholder(state.cursor),
    ensures
        state.forward_walk() == placeholders_from(state.items, state.cursor),
        !state.with_cursor(state.forward_walk().last()).has_next(),
    decreases state.items.len() - state.cursor,
{
    lemma_seek_forward(state.items, state.cursor + 1);
    lemma_placeholders_skip(state.items, state.cursor + 1);
    if state.has_next() {
        lemma_walk_from(state.select_next());
    }
}

/// Selecting the first placeholder and then stepping forward for as long as
/// the step moves makes every placeholder active exactly once, in display
/// order, and ends on a placeholder from which the step reports that it did
/// not move.
pub proof fn lemma_forward_walk_visits_every_placeholder(state: ParagraphState)
    requires
        state.has_placeholder(),
    ensures
        ({
            let walk = state.select_first().forward_walk();
            &&& walk == placeholders_from(state.items, 0)
            &&& forall|a: int, b: int| 0 <= a < b < walk.len() ==> walk[a] < walk[b]
            &&& forall|k: int| state.is_placeholder(k) <==> walk.contains(k)
            &&& state.with_cursor(walk.last()).select_next() == state.with_cursor(walk.last())
            &&& state.with_cursor(walk.last()).moved(state.with_cursor(walk.last()).has_next())
                == Some(false)
        }),
{
    lemma_seek_forward(state.items, 0);
    lemma_placeholders_skip(state.items, 0);
    lemma_walk_from(state.select_first());
    lemma_placeholders_from(state.items, 0);
}

/// A step forward from the last placeholder changes nothing and reports
/// that it did not move, however often it is taken.
pub proof fn lemma_select_next_at_last(state: ParagraphState)
    requires
        state.has_placeholder(),
        !state.has_next(),
    ensures
        state.select_next() == state,
        state.moved(state.select_next().has_next()) == Some(false),
{
}

/// One intent keeps a well-formed paragraph well formed and leaves its
/// shape alone: it has as many items as before, the same positions hold
/// placeholders, and fixed text is untouched.
pub proof fn lemma_step_keeps_shape(state: ParagraphState, intent: Intent)
    requires
        state.wf(),
    ensures
        state.step(intent).wf(),
        state.step(intent).items.len() == state.items.len(),
        forall|i: int| state.step(intent).is_placeholder(i) == state.is_placeholder(i),
        forall|i: int|
            0 <= i < state.items.len() && !state.is_placeholder(i) ==> state.step(intent).items[i]
                == state.items[i],
        state.step(intent).has_placeholder() == state.has_placeholder(),
{
    if state.has_placeholder() {
        lemma_seek_forward(state.items, state.cursor + 1);
        lemma_seek_backward(state.items, state.cursor - 1);
    }
    lemma_same_positions(state, state.step(intent));
}

/// Entering keeps a well-formed paragraph well formed, changes no item, and
/// lands on the first placeholder from the left and on the last from the
/// right.
pub proof fn lemma_enter(state: ParagraphState, start_from_left: bool)
    requires
        state.wf(),
    ensures
        state.enter(start_from_left).wf(),
        state.enter(start_from_left).items == state.items,
        state.enter(start_from_left).has_placeholder() == state.has_placeholder(),
        state.has_placeholder() ==> if start_from_left {
            state.is_first(state.enter(start_from_left).cursor)
        } else {
            state.is_last(state.enter(start_from_left).cursor)
        },
{
    lemma_seek_forward(state.items, 0);
    lemma_seek_backward(state.items, state.items.len() - 1);
    lemma_same_positions(state, state.enter(start_from_left));
}

/// Cancelling a paragraph that has a placeholder finishes it at once and
/// changes nothing.
pub proof fn lemma_cancel(state: ParagraphState)
    requires
        state.has_placeholder(),
    ensures
        state.answer(Intent::Cancel) == Some(Progress::Finished(ResultKind::Canceled)),
        state.step(Intent::Cancel) == state,
{
}

} // verus!
