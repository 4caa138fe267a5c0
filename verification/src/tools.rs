//! Analysis passes that run beside the compiler.

pub mod checkers;
