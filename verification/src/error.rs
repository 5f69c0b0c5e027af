//! The ways in which directive processing fails.

use vstd::prelude::*;

verus! {

/// What went wrong.
#[derive(Clone, Copy, PartialEq, Eq, Structural, Debug)]
pub enum ErrorKind {
    /// A quote was opened in a directive and never closed.
    UnterminatedQuote,
    /// A name was expanded as an alias that no earlier directive of the module defines.
    UnknownAlias,
    /// A glob or a regular expression of the configuration does not compile.
    InvalidPattern,
    /// The program of a directive could not be launched.
    SpawnFailure,
    /// The program of a directive ran and returned a failing status.
    NonZeroExit,
}

/// A failure together with the place it belongs to.
#[derive(Clone, Debug, PartialEq, Eq)]
pub struct GenerateError {
    pub kind: ErrorKind,
    /// The module at fault; `None` where the configuration is at fault.
    pub specifier: Option<String>,
    /// Line and character of the directive at fault, both counted from 1.
    pub position: Option<(usize, usize)>,
    /// The pattern that does not compile or the program that did not run;
    /// empty where the kind names neither.
    pub subject: String,
}

/// What a `GenerateError` stands for.
pub struct GenerateErrorView {
    pub kind: ErrorKind,
    pub specifier: Option<Seq<char>>,
    pub position: Option<(nat, nat)>,
    pub subject: Seq<char>,
}

impl View for GenerateError {
    type V = GenerateErrorView;

    open spec fn view(&self) -> GenerateErrorView {
        GenerateErrorView {
            kind: self.kind,
            specifier: match self.specifier {
                Some(s) => Some(s@),
                None => None,
            },
            position: match self.position {
                Some((line, character)) => Some((line as nat, character as nat)),
                None => None,
            },
            subject: self.subject@,
        }
    }
}

/// The error for a pattern of the configuration that does not compile.
pub open spec fn invalid_pattern(pattern: Seq<char>) -> GenerateErrorView {
    GenerateErrorView {
        kind: ErrorKind::InvalidPattern,
        specifier: None,
        position: None,
        subject: pattern,
    }
}

impl GenerateError {
    /// The error for the pattern `pattern` of the configuration, which does
    /// not compile.
    pub fn for_pattern(pattern: &String) -> (e: GenerateError)
        ensures
            e@ == invalid_pattern(pattern@),
    {
        GenerateError {
            kind: ErrorKind::InvalidPattern,
            specifier: None,
            position: None,
            subject: pattern.clone(),
        }
    }
}

} // verus!
