//! The error with which a background task ends.

use vstd::prelude::*;
use vstd::string::StringExecFns;

verus! {

/// Why a task ended.
#[derive(Debug, Clone)]
pub struct ModuleError {
    reason: String,
}

impl View for ModuleError {
    type V = Seq<char>;

    /// The reason that was given.
    closed spec fn view(&self) -> Seq<char> {
        self.reason@
    }
}

impl ModuleError {
    pub fn new(reason: String) -> (error: ModuleError)
        ensures
            error@ == reason@,
    {
        ModuleError { reason }
    }

    /// The reason that was given.
    pub fn reason(&self) -> (reason: &String)
        ensures
            reason@ == self@,
    {
        &self.reason
    }

    /// The error as one line of text: a fixed heading and the reason.
    pub fn message(&self) -> (text: String)
        ensures
            text@ == "ModuleErrorr: reason: "@ + self@,
    {
        let mut text = String::from_str("ModuleErrorr: reason: ");
        text.append(self.reason.as_str());
        text
    }
}

} // verus!
