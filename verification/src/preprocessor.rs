//! Source locations and error values reported by the GLSL preprocessor
//! collaborator.
//!
//! The preprocessor itself interprets textual directives at build time and is
//! not part of this crate; these are the values through which its outcomes
//! are reported to callers.

use vstd::prelude::*;

verus! {

/// A line of preprocessed output: the file it came from (`None` for the root
/// source) and its 1-based line number there.
#[derive(Clone, PartialEq, Debug)]
pub struct LineId {
    pub file: Option<String>,
    pub line: usize,
}

impl LineId {
    /// A line of the root source, identified by number alone.
    pub fn root(line: usize) -> (r: LineId)
        ensures
            r.file is None,
            r.line == line,
    {
        LineId { file: None, line }
    }

    /// A line of an included file.
    pub fn included(file: String, line: usize) -> (r: LineId)
        ensures
            r.file == Some(file),
            r.line == line,
    {
        LineId { file: Some(file), line }
    }
}

/// The source line a diagnostic points at: its location and its text.
#[derive(Clone, Debug)]
pub struct SourceSpan {
    pub line: LineId,
    pub snip: String,
}

impl SourceSpan {
    pub fn new(line: LineId, snip: String) -> (r: SourceSpan)
        ensures
            r.line == line,
            r.snip == snip,
    {
        SourceSpan { line, snip }
    }
}

/// What went wrong while interpreting a directive.
#[derive(Clone, Debug)]
pub enum PreprocErrorType {
    /// A `@` line whose command is not recognised.
    UnknownDirective,
    /// A recognised directive missing a required part.
    Malformed(&'static str),
    /// A `match` over a name that no `define` has given a value.
    UndefinedTarget(String),
    /// A `match` whose cases never cover its target value.
    MissedCase(String),
    /// A case listed twice within one `match`.
    DuplicateCase(String),
    /// A `$name` substitution with no definition.
    Undefined(String),
    /// An `include` whose file could not be read; carries the path and the
    /// reader's diagnostic text.
    Include(String, String),
    /// Any other structural fault, described in place.
    Other(&'static str),
}

/// A preprocessor failure: what went wrong and where.
#[derive(Clone, Debug)]
pub struct PreprocError {
    pub ty: PreprocErrorType,
    pub span: SourceSpan,
}

impl PreprocError {
    pub fn new(ty: PreprocErrorType, span: SourceSpan) -> (r: PreprocError)
        ensures
            r.ty == ty,
            r.span == span,
    {
        PreprocError { ty, span }
    }
}

} // verus!
