//! A verified parser for a line-oriented network-test definition language.
//!
//! A test definition file names a network topology, a credential reference,
//! an optional description, and an ordered list of assertion statements
//! (liveness checks, metric comparisons, log matches, control actions).
//! [`parse`] turns the raw text of such a file into a [`ast::TestDefinition`]
//! or reports the first [`errors::ParserError`] encountered.

pub mod ast;
pub mod cleaner;
pub mod doc;
pub mod errors;
pub mod json;
pub mod laws;
pub mod scan;
pub mod stmt;

pub use ast::Assertion;
pub use ast::AssertionKind;
pub use ast::Comparison;
pub use ast::Operator;
pub use ast::TestDefinition;
pub use cleaner::NamespaceCI;
pub use doc::parse;
pub use doc::ZombieNetParser;
pub use errors::ParserError;
pub use json::parse_to_json;
pub use json::to_json;
