//! Prose checkers and the text extraction they work on.

pub mod nlprule;
pub mod text_export;
