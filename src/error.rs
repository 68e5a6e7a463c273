//! The one error kind that parsing reports.
use vstd::prelude::*;
use vstd::string::*;

verus! {

/// A roll expression that could not be parsed; `details` names the offending text.
#[derive(Clone, Debug, PartialEq)]
pub struct ParseError {
    pub details: String,
}

impl ParseError {
    pub fn new(msg: &str) -> (r: ParseError)
        ensures
            r.details@ == msg@,
    {
        ParseError { details: String::from_str(msg) }
    }

    /// The text that this error reports.
    pub fn message(&self) -> (r: String)
        ensures
            r@ == self.details@,
    {
        self.details.clone()
    }
}

impl Default for ParseError {
    fn default() -> (r: ParseError)
        ensures
            r.details@ == Seq::<char>::empty(),
    {
        ParseError { details: String::new() }
    }
}

} // verus!
