use vstd::prelude::*;

verus! {

/// A bare textual result, as returned by the first version of the work endpoint.
#[derive(Clone, Debug)]
pub struct Result {
    pub result: String,
}

impl Result {
    /// Wraps a text as a result.
    pub fn new(result: String) -> (r: Self)
        ensures
            r.result == result,
    {
        Result { result }
    }
}

} // verus!
