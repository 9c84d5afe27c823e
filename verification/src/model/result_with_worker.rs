use vstd::prelude::*;

use crate::model::computing_result::ComputingResult;
use crate::model::worker::Load;

verus! {

/// A worker's reply to a task: the result, if running it succeeded, and the
/// worker's load at the time of the reply.
#[derive(Clone, Debug)]
pub struct ResultWithLoad {
    pub result: Option<ComputingResult>,
    pub load: Load,
}

impl ResultWithLoad {
    /// Builds a reply from its parts.
    pub fn new(result: Option<ComputingResult>, load: Load) -> (reply: Self)
        ensures
            reply.result == result,
            reply.load == load,
    {
        Self { result, load }
    }
}

} // verus!
