//! Decoded user actions and what a turn of the editor answers to them.

use vstd::prelude::*;
use crate::ResultKind;

verus! {

/// One decoded user action. A front end turns key presses into these and
/// hands them over one at a time.
#[derive(Debug, Clone, Copy, PartialEq, Eq, Structural)]
pub enum Intent {
    /// Type a character at the caret.
    Insert(char),
    /// Remove the character before the caret.
    DeletePrev,
    /// Move the caret one character towards the start.
    CursorLeft,
    /// Move the caret one character towards the end.
    CursorRight,
    /// Accept the active field and go on.
    Confirm,
    /// Abandon the session.
    Cancel,
    /// Go to the next editable unit.
    NextUnit,
    /// Go to the previous editable unit.
    PrevUnit,
}

/// What a level of the editor answers after one intent.
#[derive(Debug, Clone, Copy, PartialEq, Eq, Structural)]
pub enum Progress {
    /// The level is still active: draw it again and hand over the next intent.
    Waiting,
    /// The level has finished, and how.
    Finished(ResultKind),
}

impl Intent {
    /// Whether the intent changes only the text or caret of the active field.
    pub open spec fn is_edit(self) -> bool {
        self is Insert || self is DeletePrev || self is CursorLeft || self is CursorRight
    }

    /// What a structural intent asks of the level above the active field.
    pub open spec fn outcome(self) -> ResultKind
        recommends
            !self.is_edit(),
    {
        match self {
            Intent::Cancel => ResultKind::Canceled,
            Intent::NextUnit => ResultKind::NextBlock,
            Intent::PrevUnit => ResultKind::PrevBlock,
            _ => ResultKind::Completed,
        }
    }
}

} // verus!
