//! A small text-substitution library: it collects the four positional values
//! of an invocation (target pattern, replacement, input path, output path),
//! replaces every non-overlapping match of the pattern in a text through the
//! regex engine, and composes the tool's usage banner and diagnostics.

pub mod args;
pub mod engine;
pub mod report;
