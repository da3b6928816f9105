//! Errors of the front end that parses source text.

use vstd::prelude::*;

verus! {

/// A parse failure, with the parser's message.
#[derive(Debug)]
pub struct JsError {
    pub error: String,
}

impl JsError {
    pub fn new(error: String) -> (r: Self)
        ensures
            r.error@ == error@,
    {
        JsError { error }
    }
}

} // verus!
