//! Positions in alisp source and the errors of reading and evaluating.
use super::symbol::SymbolId;
use crate::text::{concat_str, decimal, owned, usize_to_string};
use vstd::prelude::*;

verus! {

/// A line and column in source text.
#[derive(Debug, Clone, Copy, PartialEq, Eq, Structural)]
pub struct SourceLocation {
    pub line: usize,
    pub column: usize,
}

impl SourceLocation {
    /// The location at `line`, `column`.
    pub fn new(line: usize, column: usize) -> (r: Self)
        ensures
            r.line == line,
            r.column == column,
    {
        SourceLocation { line, column }
    }
}

/// A stretch of source text.
#[derive(Debug, Clone, Copy, PartialEq, Eq, Structural)]
pub struct SourceSpan {
    pub start: SourceLocation,
    pub end: SourceLocation,
}

impl SourceSpan {
    /// The span that starts and ends at `line`, `column`.
    pub fn single_point(line: usize, column: usize) -> (r: Self)
        ensures
            r.start == (SourceLocation { line, column }),
            r.end == r.start,
    {
        let loc = SourceLocation::new(line, column);
        SourceSpan { start: loc, end: loc }
    }
}

/// An I/O error kind from std.
#[verifier::external_type_specification]
#[verifier::external_body]
pub struct ExIoErrorKind(std::io::ErrorKind);

/// `Clone` of `io::ErrorKind`, a `Copy` type: the same kind.
pub assume_specification[ <std::io::ErrorKind as Clone>::clone ](k: &std::io::ErrorKind) -> (r: std::io::ErrorKind)
    ensures
        r == *k,
;

/// What went wrong while reading source text.
#[derive(Debug, Clone, PartialEq)]
pub enum ReaderErrorKind {
    UnexpectedChar(char),
    UnterminatedString,
    InvalidNumber(String),
    UnexpectedToken(String),
    UnexpectedEof,
    Io(std::io::ErrorKind),
}

/// An error while reading source text.
#[derive(Debug, Clone, PartialEq)]
pub struct ReaderError {
    pub kind: ReaderErrorKind,
    pub span: SourceSpan,
    pub message: String,
}

impl ReaderError {
    /// An error of `kind` at `span` with `message`.
    pub fn new(kind: ReaderErrorKind, span: SourceSpan, message: &str) -> (r: Self)
        ensures
            r.kind == kind,
            r.span == span,
            r.message@ == message@,
    {
        ReaderError { kind, span, message: owned(message) }
    }

    /// `reader error at LINE:COLUMN - MESSAGE`.
    pub fn describe(&self) -> (r: String)
        ensures
            r@ == "reader error at "@ + decimal(self.span.start.line as nat) + ":"@ + decimal(
                self.span.start.column as nat,
            ) + " - "@ + self.message@,
    {
        let a = concat_str("reader error at ", usize_to_string(self.span.start.line).as_str());
        let b = concat_str(a.as_str(), ":");
        let c = concat_str(b.as_str(), usize_to_string(self.span.start.column).as_str());
        let d = concat_str(c.as_str(), " - ");
        concat_str(d.as_str(), self.message.as_str())
    }
}

/// What went wrong while evaluating.
#[allow(inconsistent_fields)]
#[derive(Debug, Clone, PartialEq)]
pub enum EvalErrorKind {
    NameNotFound(SymbolId),
    ArityMismatch { expected: usize, found: usize },
    TypeMismatch { expected: &'static str, found: &'static str },
    DivisionByZero,
    InvalidLetBinding,
    InvalidDefineTarget,
    Reader(ReaderError),
    Runtime(String),
}

/// An error while evaluating.
#[derive(Debug, Clone, PartialEq)]
pub struct EvalError {
    pub kind: EvalErrorKind,
    pub span: Option<SourceSpan>,
    pub message: String,
}

impl EvalError {
    /// An error of `kind`, perhaps at `span`, with `message`.
    pub fn new(kind: EvalErrorKind, span: Option<SourceSpan>, message: &str) -> (r: Self)
        ensures
            r.kind == kind,
            r.span == span,
            r.message@ == message@,
    {
        EvalError { kind, span, message: owned(message) }
    }

    /// The evaluation error for a reading error: same place and message.
    pub fn from_reader(err: ReaderError) -> (r: Self)
        ensures
            r.kind == EvalErrorKind::Reader(err),
            r.span == Some(err.span),
            r.message@ == err.message@,
    {
        let span = err.span;
        let message = err.message.clone();
        EvalError { kind: EvalErrorKind::Reader(err), span: Some(span), message }
    }

    /// `LINE:COLUMN: MESSAGE`, or the message alone without a place.
    pub fn describe(&self) -> (r: String)
        ensures
            r@ == match self.span {
                Some(s) => decimal(s.start.line as nat) + ":"@ + decimal(s.start.column as nat) + ": "@ + self.message@,
                None => self.message@,
            },
    {
        match self.span {
            Some(s) => {
                let a = concat_str(usize_to_string(s.start.line).as_str(), ":");
                let b = concat_str(a.as_str(), usize_to_string(s.start.column).as_str());
                let c = concat_str(b.as_str(), ": ");
                concat_str(c.as_str(), self.message.as_str())
            },
            None => self.message.clone(),
        }
    }
}

} // verus!
