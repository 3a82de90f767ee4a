use vstd::prelude::*;

verus! {

/// The one error kind raised on malformed input; callers tell failures
/// apart by the message alone.
pub struct LumolError {
    pub message: String,
}

impl LumolError {
    /// An error carrying `message`.
    pub fn new(message: String) -> (r: Self)
        ensures
            r.message@ == message@,
    {
        LumolError { message }
    }
}

} // verus!
