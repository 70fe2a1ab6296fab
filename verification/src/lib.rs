//! Cursor navigation and composition for fill-in-the-blank documents.
//!
//! A document is a sequence of blocks, a block holds a paragraph, and a
//! paragraph mixes fixed text with editable blank fields. The types here keep
//! track of the one active field, apply decoded user intents to it, and
//! compose what a terminal front end should draw.

use vstd::prelude::*;
use vstd::string::*;
use crate::blank_field::BlankField;
use crate::blocks_state::{all_paragraphs, BlocksState};
use crate::blocks_wrapper::BlocksWrapper;
use crate::intent::{Intent, Progress};
use crate::schema::Block;

pub mod blank_field;
pub mod block_wrapper;
pub mod blocks_state;
pub mod blocks_wrapper;
pub mod intent;
pub mod one_of_wrapper;
pub mod paragraph_item_wrapper;
pub mod paragraph_state;
pub mod paragraph_wrapper;
pub mod schema;
pub mod text;

verus! {

/// How one level of the editor finished its turn.
#[derive(Debug, Clone, Copy, PartialEq, Eq, Structural)]
pub enum ResultKind {
    Completed,
    Canceled,
    NextBlock,
    PrevBlock,
}

/// `<[T]>::split_first_mut`: hands out the first element and the rest of the
/// slice, both mutably, or nothing for an empty slice. Whatever is written
/// through the two references is what the slice holds afterwards.
pub assume_specification<T>[ <[T]>::split_first_mut ](slice: &mut [T]) -> (res: Option<
    (&mut T, &mut [T]),
>)
    ensures
        old(slice)@.len() == 0 ==> res is None && final(slice)@ == old(slice)@,
        old(slice)@.len() != 0 ==> {
            let (first, rest) = res.unwrap();
            &&& res is Some
            &&& *first == old(slice)@[0]
            &&& rest@ == old(slice)@.skip(1)
            &&& final(slice)@ == seq![*final(first)] + final(rest)@
        },
;

/// Splits a slice three ways around position `mid`: everything before it, the
/// element itself, and everything after it. The element and both neighbour
/// slices are borrowed from the same storage, so nothing is copied.
pub fn split_at_mid<E>(slice: &mut [E], mid: usize) -> (res: Option<(&mut [E], &mut E, &mut [E])>)
    requires
        mid <= old(slice)@.len(),
    ensures
        res is Some <==> mid < old(slice)@.len(),
        res is Some ==> {
            let (head, active, tail) = res->0;
            &&& head@ == old(slice)@.take(mid as int)
            &&& *active == old(slice)@[mid as int]
            &&& tail@ == old(slice)@.skip(mid + 1)
            &&& final(slice)@ == final(head)@ + seq![*final(active)] + final(tail)@
        },
        res is None ==> final(slice)@ == old(slice)@,
{
    let (head, tail) = slice.split_at_mut(mid);
    match tail.split_first_mut() {
        Some((active, rest)) => Some((head, active, rest)),
        None => None,
    }
}

/// A session on a document after a turn: still open, with the document as it
/// now stands, or closed, with the way it ended and the text of every
/// placeholder, block by block.
#[derive(Debug)]
pub enum Session {
    Open(BlocksWrapper),
    Closed(ResultKind, Vec<Vec<String>>),
}

/// Starts a session on the handed-in document: the first placeholder of its
/// first block becomes active. Answers nothing where the document is empty
/// or its first block has no placeholder: there is nothing to collect then.
pub fn begin(input_request: Vec<Block>) -> (document: Option<BlocksWrapper>)
    requires
        all_paragraphs(input_request@),
    ensures
        document is Some <==> BlocksState::fresh(input_request@).select_first().can_enter(),
        document matches Some(entered) ==> {
            &&& entered@ == BlocksState::fresh(input_request@).enter()
            &&& entered.wf()
            &&& entered@.implemented()
        },
{
    let mut document = BlocksWrapper::new(input_request);
    match document.enter() {
        Some(_) => Some(document),
        None => None,
    }
}

/// One turn of a session: the intent goes to the document, and a document
/// that has finished is given up for the text of its placeholders. The
/// session closes as completed or as cancelled, never in another way.
/// Nothing is answered where the document cannot go on: where it is empty,
/// or where the block that became active has no placeholder.
pub fn get_input(document: BlocksWrapper, intent: Intent) -> (session: Option<Session>)
    requires
        document.wf(),
        document@.implemented(),
    ensures
        match document@.answer(intent) {
            None => session is None,
            Some(Progress::Waiting) => {
                &&& session matches Some(Session::Open(next))
                &&& next@ == document@.step(intent)
                &&& next.wf()
                &&& next@.implemented()
            },
            Some(Progress::Finished(kind)) => {
                &&& session matches Some(Session::Closed(closed, answers))
                &&& closed == kind
                &&& (kind == ResultKind::Completed || kind == ResultKind::Canceled)
                &&& answers.deep_view() == document@.step(intent).answers()
            },
        },
        intent is Cancel && document@.can_enter() ==> {
            &&& session matches Some(Session::Closed(closed, answers))
            &&& closed == ResultKind::Canceled
            &&& answers.deep_view() == document@.answers()
        },
{
    let mut document = document;
    match document.get_input(intent) {
        None => None,
        Some(Progress::Waiting) => Some(Session::Open(document)),
        Some(Progress::Finished(kind)) => Some(Session::Closed(kind, document.finalize())),
    }
}

/// One turn of a session on a single field. An editing intent changes the
/// field and the session goes on. Confirming and cancelling both end it with
/// the text as it stands, reported as completed. A request for the next or
/// previous unit has nowhere to go, and the session goes on unchanged.
pub fn get_text_input(blank_field: &mut BlankField, intent: Intent) -> (finished: Option<
    (ResultKind, String),
>)
    requires
        old(blank_field).wf(),
    ensures
        final(blank_field)@ == old(blank_field)@.apply(intent),
        final(blank_field).wf(),
        finished is Some <==> intent is Confirm || intent is Cancel,
        finished matches Some((kind, text)) ==> kind == ResultKind::Completed && text@ == old(
            blank_field,
        )@.text,
{
    match blank_field.get_input(intent) {
        Progress::Finished(ResultKind::Completed) | Progress::Finished(ResultKind::Canceled) => {
            Some((ResultKind::Completed, String::from_str(blank_field.text())))
        },
        _ => None,
    }
}

} // verus!
