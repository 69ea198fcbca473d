//! Answers that are errors throughout.
use vstd::prelude::*;

verus! {

/// Body of an answer whose HTTP status says that the call failed.
#[derive(PartialEq, Eq, Debug)]
pub struct AtbbankErrorResponse {
    pub error_code: Option<String>,
    pub error_message: Option<String>,
}

impl Default for AtbbankErrorResponse {
    fn default() -> (r: Self)
        ensures
            r.error_code is None,
            r.error_message is None,
    {
        AtbbankErrorResponse { error_code: None, error_message: None }
    }
}

} // verus!
