//! The error taxonomy of the parser.
//!
//! The first error encountered anywhere aborts the parse; no partial
//! document is ever returned. User-visible failures carry the offending
//! source text so an author can fix the file; the internal-mismatch
//! variants indicate a defect in the grammar-to-builder mapping itself.

use vstd::prelude::*;
use vstd::string::*;

verus! {

/// A typed parse failure.
///
/// * `ParseError` — a token was recognized but its value could not be
///   accepted (a numeral out of range, a malformed header line); carries
///   the offending text.
/// * `InvalidRule` — a line matched no known statement grammar; carries
///   the literal line.
/// * `MissingFields` — the network or credentials header is absent after
///   a structurally valid parse; carries the names of the missing fields.
/// * `SerializationError` — the document could not be converted to its
///   external representation; reserved for defensive handling.
/// * `Unexpected` — a required sub-rule was absent from a matched rule;
///   an internal invariant violation, not a user error.
/// * `UnreachableRule` — a sub-tree matched a rule kind its builder does
///   not recognize (a duplicated script clause, for example).
#[derive(Debug, PartialEq)]
pub enum ParserError {
    ParseError(String),
    InvalidRule(String),
    MissingFields(String),
    SerializationError,
    Unexpected(String),
    UnreachableRule(String),
}

/// Mathematical counterpart of [`ParserError`].
pub enum ParserErrorV {
    ParseError(Seq<char>),
    InvalidRule(Seq<char>),
    MissingFields(Seq<char>),
    SerializationError,
    Unexpected(Seq<char>),
    UnreachableRule(Seq<char>),
}

impl View for ParserError {
    type V = ParserErrorV;

    open spec fn view(&self) -> ParserErrorV {
        match self {
            ParserError::ParseError(s) => ParserErrorV::ParseError(s@),
            ParserError::InvalidRule(s) => ParserErrorV::InvalidRule(s@),
            ParserError::MissingFields(s) => ParserErrorV::MissingFields(s@),
            ParserError::SerializationError => ParserErrorV::SerializationError,
            ParserError::Unexpected(s) => ParserErrorV::Unexpected(s@),
            ParserError::UnreachableRule(s) => ParserErrorV::UnreachableRule(s@),
        }
    }
}

/// The single-line rendering of an error, as a sequence of characters.
pub open spec fn sp_message(e: ParserErrorV) -> Seq<char> {
    match e {
        ParserErrorV::ParseError(s) => "Error parsing file: "@ + s,
        ParserErrorV::InvalidRule(s) => "Invalid matching rule: "@ + s,
        ParserErrorV::MissingFields(s) => "Missing fields: "@ + s,
        ParserErrorV::SerializationError => "Serialization error"@,
        ParserErrorV::Unexpected(s) => "Unexpected rule: "@ + s,
        ParserErrorV::UnreachableRule(s) => "Unreachable rule: "@ + s,
    }
}

impl ParserError {
    /// A single-line, human-readable rendering of the error.
    pub fn message(&self) -> (r: String)
        ensures
            r@ == sp_message(self@),
    {
        match self {
            ParserError::ParseError(s) => {
                let mut m = String::from_str("Error parsing file: ");
                m.append(s.as_str());
                m
            },
            ParserError::InvalidRule(s) => {
                let mut m = String::from_str("Invalid matching rule: ");
                m.append(s.as_str());
                m
            },
            ParserError::MissingFields(s) => {
                let mut m = String::from_str("Missing fields: ");
                m.append(s.as_str());
                m
            },
            ParserError::SerializationError => String::from_str("Serialization error"),
            ParserError::Unexpected(s) => {
                let mut m = String::from_str("Unexpected rule: ");
                m.append(s.as_str());
                m
            },
            ParserError::UnreachableRule(s) => {
                let mut m = String::from_str("Unreachable rule: ");
                m.append(s.as_str());
                m
            },
        }
    }
}

} // verus!
