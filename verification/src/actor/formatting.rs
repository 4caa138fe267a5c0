//! What the formatting worker is started with and what it is asked.

use vstd::prelude::*;

verus! {

/// Which formatter formats the sources.
#[derive(Clone, Copy, Debug, PartialEq, Eq, Structural)]
pub enum FormatterMode {
    /// None: formatting is switched off.
    Disable,
    Typstyle,
    Typstfmt,
}

/// How positions in a text are counted.
#[derive(Clone, Copy, Debug, PartialEq, Eq, Structural)]
pub enum PositionEncoding {
    Utf8,
    Utf16,
}

/// The settings of the formatting worker.
#[derive(Clone, Copy, Debug, PartialEq, Eq, Structural)]
pub struct FormattingConfig {
    pub mode: FormatterMode,
    /// The line width to format to.
    pub width: u32,
}

/// One formatting job.
#[derive(Debug)]
pub struct FormattingRequest {
    /// The number of the request, under which whoever asked waits for the
    /// answer.
    pub id: u64,
    pub source: String,
    pub width: u32,
    pub position_encoding: PositionEncoding,
}

} // verus!
