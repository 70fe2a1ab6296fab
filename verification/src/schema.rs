//! The shape of a document as it is handed in, before anyone has typed.

use vstd::prelude::*;

verus! {

/// One item of a paragraph as it is handed in.
#[derive(Debug)]
pub enum ParagraphItem {
    /// Fixed text.
    Text(String),
    /// A blank for the user to fill.
    Placeholder,
}

/// One block of a document as it is handed in.
#[derive(Debug)]
pub enum Block {
    /// Items to be put in order.
    Order(Vec<String>),
    /// Items of which any number may be chosen.
    AnyOf(Vec<String>),
    /// Items of which one is chosen.
    OneOf(Vec<String>),
    /// Text with blanks.
    Paragraph(Vec<ParagraphItem>),
}

} // verus!
