//! The plugin's error: a message for the user.

use crate::text::{join2, join4};
use vstd::prelude::*;

verus! {

/// Something went wrong, and this is what to tell the user.
#[derive(Debug, Clone, PartialEq, Eq)]
pub struct PluginError {
    message: String,
}

impl View for PluginError {
    type V = Seq<char>;

    closed spec fn view(&self) -> Seq<char> {
        self.message@
    }
}

impl PluginError {
    pub fn new(message: String) -> (error: Self)
        ensures
            error@ == message@,
    {
        Self { message }
    }

    /// The text shown to the user.
    pub fn message(&self) -> (message: &str)
        ensures
            message@ == self@,
    {
        self.message.as_str()
    }
}

/// A result whose error is seen as its message.
pub open spec fn unit_view(result: Result<(), PluginError>) -> Result<(), Seq<char>> {
    match result {
        Ok(()) => Ok(()),
        Err(error) => Err(error@),
    }
}

/// A file operation that failed: the path it was made on and what the system said.
#[derive(Debug, Clone, PartialEq, Eq)]
pub struct IoFailure {
    pub path: String,
    pub error: String,
}

/// What went wrong, on which path, and what the system said.
pub open spec fn path_failure_text(problem: Seq<char>, path: Seq<char>, error: Seq<char>) -> Seq<
    char,
> {
    problem + path + ": "@ + error
}

/// The error that says what went wrong, on which path, and what the system said.
pub fn path_failure(problem: &str, path: &str, error: &str) -> (failure: PluginError)
    ensures
        failure@ == path_failure_text(problem@, path@, error@),
{
    PluginError::new(join4(problem, path, ": ", error))
}

impl IoFailure {
    /// The message for this failure, after a few words that say what failed.
    pub open spec fn text(self, problem: Seq<char>) -> Seq<char> {
        path_failure_text(problem, self.path@, self.error@)
    }

    /// The error for this failure, after a few words that say what failed.
    pub fn describe(&self, problem: &str) -> (error: PluginError)
        ensures
            error@ == self.text(problem@),
    {
        path_failure(problem, self.path.as_str(), self.error.as_str())
    }
}

/// An error whose message is `problem` followed by `detail`.
pub fn detailed(problem: &str, detail: &str) -> (error: PluginError)
    ensures
        error@ == problem@ + detail@,
{
    PluginError::new(join2(problem, detail))
}

} // verus!
