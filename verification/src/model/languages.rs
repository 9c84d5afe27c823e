use vstd::prelude::*;

verus! {

/// The languages a worker knows how to run.
#[derive(Clone, Copy, Debug, PartialEq, Eq, Structural)]
pub enum Language {
    SHELL,
    JAVA,
}

} // verus!
