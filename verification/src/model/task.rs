use vstd::prelude::*;

use crate::model::languages::Language;

verus! {

/// A unit of work submitted by a client: source code and the language it is written in.
#[derive(Clone, Debug)]
pub struct Task {
    pub code: String,
    pub lang: Language,
}

impl Task {
    /// Builds a task from its code and language.
    pub fn new(code: String, lang: Language) -> (task: Self)
        ensures
            task.code == code,
            task.lang == lang,
    {
        Task { code, lang }
    }

    /// A fresh task equal to this one.
    pub fn duplicate(&self) -> (twin: Self)
        ensures
            twin == *self,
    {
        Task { code: self.code.clone(), lang: self.lang }
    }
}

} // verus!
