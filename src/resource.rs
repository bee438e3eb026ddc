use vstd::prelude::*;

verus! {

/// The error object that the remote API returns in the body of a failed
/// response: a machine-readable code and a human-readable message.
#[derive(Debug, Clone)]
pub struct ErrorObject {
    pub code: String,
    pub message: String,
}

impl ErrorObject {
    pub fn new(code: String, message: String) -> (r: ErrorObject)
        ensures
            r.code@ == code@,
            r.message@ == message@,
    {
        ErrorObject { code, message }
    }
}

} // verus!
