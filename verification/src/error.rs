//! The failures of a session.

use vstd::prelude::*;
use vstd::string::StringExecFns;

verus! {

/// What can go wrong with a formula or with one evaluation of it.
#[derive(Debug, PartialEq, Eq)]
pub enum Error {
    /// The request text is no formula with an interval; the text says why.
    ParseError(String),
    /// The formula holds an operator other than `+`, `-`, `*` and `/`.
    UnsupportedOperator,
    /// A division by zero, or a decimal whose scale is out of range.
    Arithmetic,
}

impl Error {
    /// The text of the failure, as it is shown to a client.
    pub fn message(&self) -> (r: String)
        ensures
            self matches Error::ParseError(reason) ==> r@ == "Stream request parse error: "@
                + reason@,
            self is UnsupportedOperator ==> r@ == "Unsupported operator in formula"@,
            self is Arithmetic ==> r@ == "Arithmetic failure in evaluation"@,
    {
        match self {
            Error::ParseError(reason) => {
                "Stream request parse error: ".to_owned().concat(reason.as_str())
            },
            Error::UnsupportedOperator => "Unsupported operator in formula".to_owned(),
            Error::Arithmetic => "Arithmetic failure in evaluation".to_owned(),
        }
    }
}

} // verus!
