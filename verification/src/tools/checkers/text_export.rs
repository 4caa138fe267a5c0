//! Locations handed back by the text extractor.

use vstd::prelude::*;
use crate::diag::Span;

verus! {

/// A byte offset inside a syntax node.
#[derive(Clone, Copy, Debug, PartialEq, Eq, Structural)]
pub struct SourceSpanOffset {
    pub span: Span,
    pub offset: usize,
}

/// A range of extracted text, mapped back to where it stands in the source.
#[derive(Clone, Copy, Debug, PartialEq, Eq, Structural)]
pub struct MappedSpan {
    /// Where the range starts.
    pub span: SourceSpanOffset,
    /// Where the range ends, when the end could be mapped as well.
    pub span_end: Option<SourceSpanOffset>,
}

} // verus!
