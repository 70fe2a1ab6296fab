//! Styled text fragments: what the editor hands to a front end for drawing.

use vstd::prelude::*;

verus! {

/// How a fragment is meant to stand out when drawn.
#[derive(Debug, Clone, Copy, PartialEq, Eq, Structural)]
pub enum Emphasis {
    /// Fixed text of the document.
    Plain,
    /// What the user has typed into a field that is not being edited.
    Filled,
    /// The marker that stands for a field nobody has typed into yet.
    Empty,
    /// The text of the field being edited, on either side of the caret.
    Active,
    /// The caret itself.
    Caret,
}

/// One run of text with a single emphasis. The text is borrowed from the
/// document, so composing a line copies no characters.
#[derive(Debug, Clone, Copy, PartialEq, Eq)]
pub struct Span<'a> {
    pub content: &'a str,
    pub emphasis: Emphasis,
}

/// The model of a span that contracts speak of: its characters and its
/// emphasis.
pub struct SpanView {
    pub content: Seq<char>,
    pub emphasis: Emphasis,
}

impl<'a> View for Span<'a> {
    type V = SpanView;

    open spec fn view(&self) -> SpanView {
        SpanView { content: self.content@, emphasis: self.emphasis }
    }
}

impl<'a> DeepView for Span<'a> {
    type V = SpanView;

    open spec fn deep_view(&self) -> SpanView {
        self@
    }
}

/// The glyph drawn where the next typed character will go.
pub open spec fn caret_glyph() -> Seq<char> {
    seq!['|']
}

/// The text drawn in place of a field that is still empty.
pub open spec fn empty_marker() -> Seq<char> {
    seq!['_', '_', '_']
}

/// The caret as a span.
pub fn caret_span() -> (span: Span<'static>)
    ensures
        span@ == (SpanView { content: caret_glyph(), emphasis: Emphasis::Caret }),
{
    let content: &'static str = "|";
    proof {
        reveal_strlit("|");
        assert(content@ =~= caret_glyph());
    }
    Span { content, emphasis: Emphasis::Caret }
}

/// The marker of an empty field as a span.
pub fn empty_span() -> (span: Span<'static>)
    ensures
        span@ == (SpanView { content: empty_marker(), emphasis: Emphasis::Empty }),
{
    let content: &'static str = "___";
    proof {
        reveal_strlit("___");
        assert(content@ =~= empty_marker());
    }
    Span { content, emphasis: Emphasis::Empty }
}

} // verus!
