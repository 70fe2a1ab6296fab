//! One item of a paragraph: fixed text, or a blank field.

use vstd::prelude::*;
use crate::blank_field::{BlankField, FieldState};
use crate::schema::ParagraphItem;
use crate::text::{empty_marker, empty_span, Emphasis, Span, SpanView};

verus! {

/// The model of a paragraph item that contracts speak of.
pub enum ItemView {
    Text(Seq<char>),
    Placeholder(FieldState),
}

impl ItemView {
    /// A placeholder's field is well formed; fixed text always is.
    pub open spec fn wf(self) -> bool {
        self is Placeholder ==> self->Placeholder_0.wf()
    }

    /// What the item contributes to the answers: a placeholder its text,
    /// fixed text nothing.
    pub open spec fn answer(self) -> Option<Seq<char>> {
        match self {
            ItemView::Text(_) => None,
            ItemView::Placeholder(field) => Some(field.text),
        }
    }

    /// What a handed-in item starts as.
    pub open spec fn fresh(value: ParagraphItem) -> ItemView {
        match value {
            ParagraphItem::Text(text) => ItemView::Text(text@),
            ParagraphItem::Placeholder => ItemView::Placeholder(FieldState::empty()),
        }
    }

    /// The item as it is drawn while it is not being edited: fixed text
    /// plainly, a filled field with its text set off, an empty field as a
    /// marker.
    pub open spec fn static_span(self) -> SpanView {
        match self {
            ItemView::Text(text) => SpanView { content: text, emphasis: Emphasis::Plain },
            ItemView::Placeholder(field) => if field.text.len() == 0 {
                SpanView { content: empty_marker(), emphasis: Emphasis::Empty }
            } else {
                SpanView { content: field.text, emphasis: Emphasis::Filled }
            },
        }
    }
}

/// Fixed text, or a placeholder that owns the field the user types into.
#[derive(Debug)]
pub enum ParagraphItemWrapper {
    Text(String),
    Placeholder(BlankField),
}

impl View for ParagraphItemWrapper {
    type V = ItemView;

    open spec fn view(&self) -> ItemView {
        match *self {
            ParagraphItemWrapper::Text(text) => ItemView::Text(text@),
            ParagraphItemWrapper::Placeholder(field) => ItemView::Placeholder(field@),
        }
    }
}

impl ParagraphItemWrapper {
    /// A placeholder's field is well formed; fixed text always is.
    pub open spec fn wf(&self) -> bool {
        self@.wf()
    }

    /// The item as it stands before anyone has typed: fixed text stays as it
    /// is, a placeholder gets an empty field.
    pub fn new(value: ParagraphItem) -> (item: Self)
        ensures
            item@ == ItemView::fresh(value),
            item.wf(),
    {
        match value {
            ParagraphItem::Text(text) => ParagraphItemWrapper::Text(text),
            ParagraphItem::Placeholder => ParagraphItemWrapper::Placeholder(BlankField::default()),
        }
    }

    /// The span that shows the item while it is not being edited.
    pub fn as_span(&self) -> (span: Span<'_>)
        ensures
            span@ == self@.static_span(),
    {
        match self {
            ParagraphItemWrapper::Text(text) => Span {
                content: text.as_str(),
                emphasis: Emphasis::Plain,
            },
            ParagraphItemWrapper::Placeholder(field) => {
                if field.is_empty() {
                    empty_span()
                } else {
                    Span { content: field.text(), emphasis: Emphasis::Filled }
                }
            },
        }
    }
}

} // verus!
