use vstd::prelude::*;
use crate::videoclip::ClipProgram;

verus! {

/// What an [`AppError`] says, with each text as a sequence of characters.
pub enum Failure {
    InvalidPattern(Seq<char>),
    UnknownFormat(Seq<char>),
    GrammarMismatch(Seq<char>, ClipProgram),
    MissingField(Seq<char>, Seq<char>),
    FieldParseError(Seq<char>, Seq<char>, Seq<char>),
}

/// Every way in which reading a clip's filename can fail.
#[derive(Debug, PartialEq, Eq)]
pub enum AppError {
    /// A grammar's pattern (the text held) is not a regular expression.
    InvalidPattern(String),
    /// The filename (the text held) carries the marker of no known grammar.
    UnknownFormat(String),
    /// The filename carries the marker of the program's grammar, but does not have the
    /// structure that the grammar's pattern asks for.
    GrammarMismatch(String, ClipProgram),
    /// The pattern matched the filename (second text) but left the slot of the named
    /// field (first text) empty.
    MissingField(String, String),
    /// The token (second text) captured for the named field (first text) of the filename
    /// (third text) is no date or time of day.
    FieldParseError(String, String, String),
}

impl View for AppError {
    type V = Failure;

    open spec fn view(&self) -> Failure {
        match *self {
            AppError::InvalidPattern(pattern) => Failure::InvalidPattern(pattern@),
            AppError::UnknownFormat(file) => Failure::UnknownFormat(file@),
            AppError::GrammarMismatch(file, program) => Failure::GrammarMismatch(file@, program),
            AppError::MissingField(field, file) => Failure::MissingField(field@, file@),
            AppError::FieldParseError(field, raw, file) => Failure::FieldParseError(
                field@,
                raw@,
                file@,
            ),
        }
    }
}

} // verus!
