use vstd::prelude::*;

verus! {

/// What running a task produced: its standard output and error, how long it
/// took in milliseconds, and, for Java, the compiled class in Base64.
#[derive(Clone, Debug)]
pub struct ComputingResult {
    pub stdout: String,
    pub stderr: String,
    pub duration: u128,
    pub bytecode: Option<String>,
}

impl ComputingResult {
    /// Builds a result from its parts.
    pub fn new(stdout: String, stderr: String, duration: u128, bytecode: Option<String>) -> (result: Self)
        ensures
            result.stdout == stdout,
            result.stderr == stderr,
            result.duration == duration,
            result.bytecode == bytecode,
    {
        ComputingResult { stdout, stderr, duration, bytecode }
    }

    /// A fresh result equal to this one.
    pub fn duplicate(&self) -> (twin: Self)
        ensures
            twin == *self,
    {
        let bytecode = match &self.bytecode {
            Some(b) => Some(b.clone()),
            None => None,
        };
        ComputingResult {
            stdout: self.stdout.clone(),
            stderr: self.stderr.clone(),
            duration: self.duration,
            bytecode: bytecode,
        }
    }
}

} // verus!
