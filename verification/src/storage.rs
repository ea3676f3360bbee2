//! Reading and writing the state file: what each file operation's outcome means and
//! which operation comes next.

use crate::error;
use crate::error::{detailed, path_failure, IoFailure, PluginError};
use crate::state;
use crate::state::PersistedState;
use crate::text;
use crate::text::{decimal_text, join3, join4};
use vstd::prelude::*;

verus! {

/// The name of the state file in the plugin's state directory.
pub const STATE_FILE_NAME: &'static str = "state.json";

/// The name of the file that is locked while the state is being updated.
pub const LOCK_FILE_NAME: &'static str = "state.lock";

/// Why the state could not be locked.
#[derive(Debug, Clone, PartialEq, Eq)]
pub enum LockFailure {
    /// The lock file could not be opened.
    Open(IoFailure),
    /// The lock file was opened and could not be locked.
    Lock(IoFailure),
}

impl LockFailure {
    /// The message for this failure.
    pub open spec fn text(self) -> Seq<char> {
        match self {
            LockFailure::Open(failure) => failure.text("failed to open plugin state lock "@),
            LockFailure::Lock(failure) => failure.text("failed to lock plugin state "@),
        }
    }

    /// The error for this failure.
    pub fn describe(&self) -> (error: PluginError)
        ensures
            error@ == self.text(),
    {
        match self {
            LockFailure::Open(failure) => failure.describe("failed to open plugin state lock "),
            LockFailure::Lock(failure) => failure.describe("failed to lock plugin state "),
        }
    }
}

/// What came of reading a file.
#[derive(Debug, Clone, PartialEq, Eq)]
pub enum FileRead {
    Contents(String),
    NotFound,
    Failed(IoFailure),
}

/// A state, or the message of the error that came instead.
pub open spec fn read_view(read: Result<PersistedState, PluginError>) -> Result<
    state::Saved,
    Seq<char>,
> {
    match read {
        Ok(state) => Ok(state@),
        Err(error) => Err(error@),
    }
}

/// The state that was decoded, or the initial one where the file held no state.
pub open spec fn decoded_state(decoded: Option<PersistedState>) -> state::Saved {
    match decoded {
        Some(state) => state@,
        None => state::Saved::initial(),
    }
}

/// The state that was decoded, or the initial one where the file held no state.
pub fn state_or_initial(decoded: Option<PersistedState>) -> (state: PersistedState)
    ensures
        state@ == decoded_state(decoded),
{
    match decoded {
        Some(state) => state,
        None => PersistedState::default(),
    }
}

/// What reading the state file gives. A file that is not there, and one in which
/// `decode` finds no state, stand for the initial state.
pub open spec fn state_read<F: FnOnce(String) -> Option<PersistedState>>(
    read: FileRead,
    decode: F,
    state: Result<state::Saved, Seq<char>>,
) -> bool {
    match read {
        FileRead::Contents(contents) => exists|decoded: Option<PersistedState>| #[trigger]
            decode.ensures((contents,), decoded) && state == Ok::<state::Saved, Seq<char>>(
                decoded_state(decoded),
            ),
        FileRead::NotFound => state == Ok::<state::Saved, Seq<char>>(state::Saved::initial()),
        FileRead::Failed(failure) => state == Err::<state::Saved, Seq<char>>(
            failure.text("failed to read plugin state "@),
        ),
    }
}

/// The state that was kept, from what came of reading its file.
pub fn read_state<F: FnOnce(String) -> Option<PersistedState>>(
    read: FileRead,
    decode: F,
) -> (state: Result<PersistedState, PluginError>)
    requires
        forall|contents: String| decode.requires((contents,)),
    ensures
        state_read(read, decode, read_view(state)),
{
    match read {
        FileRead::Contents(contents) => Ok(state_or_initial(decode(contents))),
        FileRead::NotFound => Ok(PersistedState::default()),
        FileRead::Failed(failure) => Err(failure.describe("failed to read plugin state ")),
    }
}

/// The name under which a process writes a new state at a given time, before it takes
/// the place of the old one.
pub open spec fn temp_name(process_id: u32, now_ms: u64) -> Seq<char> {
    "."@ + STATE_FILE_NAME@ + ".tmp."@ + text::decimal(process_id as nat) + "."@ + text::decimal(
        now_ms as nat,
    )
}

/// The name of the temporary file for a new state.
pub fn temp_file_name(process_id: u32, now_ms: u64) -> (name: String)
    ensures
        name@ == temp_name(process_id, now_ms),
{
    let start = join3(".", STATE_FILE_NAME, ".tmp.");
    let process = decimal_text(process_id as u64);
    let time = decimal_text(now_ms);
    join4(start.as_str(), process.as_str(), ".", time.as_str())
}

/// The files that writing a state touches, as they are shown in messages: the
/// directory, the temporary file in it, and the file that is replaced.
#[derive(Debug, Clone, PartialEq, Eq)]
pub struct WritePaths {
    pub parent: String,
    pub temp: String,
    pub target: String,
}

/// The next thing to do to write a state, up to the outcome.
#[derive(Debug)]
pub enum WriteStep {
    /// Create the directory of the state file.
    CreateParent,
    /// Create the temporary file, which must not exist yet.
    CreateTemp,
    /// Write the state to the temporary file as indented JSON.
    Serialize,
    /// Write a line feed to the temporary file.
    EndLine,
    /// Make the system store the temporary file.
    Sync,
    /// Rename the temporary file to the state file.
    Replace,
    /// Remove the temporary file, whether that works or not.
    RemoveTemp(PluginError),
    /// Nothing more: this is what came of it.
    Done(Result<(), PluginError>),
}

/// The next thing to do to write a state, with messages as characters.
pub enum Writing {
    CreateParent,
    CreateTemp,
    Serialize,
    EndLine,
    Sync,
    Replace,
    RemoveTemp(Seq<char>),
    Done(Result<(), Seq<char>>),
}

impl View for WriteStep {
    type V = Writing;

    open spec fn view(&self) -> Writing {
        match self {
            WriteStep::CreateParent => Writing::CreateParent,
            WriteStep::CreateTemp => Writing::CreateTemp,
            WriteStep::Serialize => Writing::Serialize,
            WriteStep::EndLine => Writing::EndLine,
            WriteStep::Sync => Writing::Sync,
            WriteStep::Replace => Writing::Replace,
            WriteStep::RemoveTemp(error) => Writing::RemoveTemp(error@),
            WriteStep::Done(outcome) => Writing::Done(error::unit_view(*outcome)),
        }
    }
}

/// The outcome of one file operation, with the system's words as characters.
pub open spec fn answer_view(answer: Result<(), String>) -> Result<(), Seq<char>> {
    match answer {
        Ok(()) => Ok(()),
        Err(error) => Err(error@),
    }
}

impl Writing {
    /// The first thing to do: there is nothing to do for a path without a directory.
    pub open spec fn first(path: Seq<char>, has_parent: bool) -> Writing {
        if has_parent {
            Writing::CreateParent
        } else {
            Writing::Done(Err("plugin state path has no parent directory: "@ + path))
        }
    }

    /// What comes after this worked.
    pub open spec fn then_next(self) -> Writing {
        match self {
            Writing::CreateParent => Writing::CreateTemp,
            Writing::CreateTemp => Writing::Serialize,
            Writing::Serialize => Writing::EndLine,
            Writing::EndLine => Writing::Sync,
            Writing::Sync => Writing::Replace,
            Writing::Replace => Writing::Done(Ok(())),
            Writing::RemoveTemp(error) => Writing::Done(Err(error)),
            Writing::Done(outcome) => Writing::Done(outcome),
        }
    }

    /// The message where this failed and the system said `error`.
    pub open spec fn failure(self, error: Seq<char>, paths: WritePaths) -> Seq<char> {
        match self {
            Writing::CreateParent => error::path_failure_text(
                "failed to create plugin state directory "@,
                paths.parent@,
                error,
            ),
            Writing::CreateTemp => error::path_failure_text(
                "failed to create temporary plugin state "@,
                paths.temp@,
                error,
            ),
            Writing::Serialize => error::path_failure_text(
                "failed to serialize plugin state "@,
                paths.temp@,
                error,
            ),
            Writing::EndLine => error::path_failure_text(
                "failed to write plugin state "@,
                paths.temp@,
                error,
            ),
            Writing::Sync => error::path_failure_text(
                "failed to sync plugin state "@,
                paths.temp@,
                error,
            ),
            Writing::Replace => error::path_failure_text(
                "failed to replace plugin state "@,
                paths.target@,
                error,
            ),
            Writing::RemoveTemp(earlier) => earlier,
            Writing::Done(_) => error,
        }
    }

    /// What comes after this was tried: whatever follows where it worked, and
    /// otherwise the error. Only after a failed renaming is the temporary file removed
    /// first; an earlier failure leaves it where it is.
    pub open spec fn next(self, answer: Result<(), Seq<char>>, paths: WritePaths) -> Writing {
        match answer {
            Ok(()) => self.then_next(),
            Err(error) => match self {
                Writing::Replace => Writing::RemoveTemp(self.failure(error, paths)),
                Writing::Done(outcome) => Writing::Done(outcome),
                _ => Writing::Done(Err(self.failure(error, paths))),
            },
        }
    }
}

/// The first thing to do to write a state to `path`.
pub fn begin_write(path: &str, has_parent: bool) -> (step: WriteStep)
    ensures
        step@ == Writing::first(path@, has_parent),
{
    if has_parent {
        WriteStep::CreateParent
    } else {
        WriteStep::Done(Err(detailed("plugin state path has no parent directory: ", path)))
    }
}

/// The next thing to do to write a state, from what came of the last one.
pub fn write_state(step: WriteStep, answer: Result<(), String>, paths: &WritePaths) -> (next:
    WriteStep)
    ensures
        next@ == step@.next(answer_view(answer), *paths),
{
    match answer {
        Ok(()) => match step {
            WriteStep::CreateParent => WriteStep::CreateTemp,
            WriteStep::CreateTemp => WriteStep::Serialize,
            WriteStep::Serialize => WriteStep::EndLine,
            WriteStep::EndLine => WriteStep::Sync,
            WriteStep::Sync => WriteStep::Replace,
            WriteStep::Replace => WriteStep::Done(Ok(())),
            WriteStep::RemoveTemp(error) => WriteStep::Done(Err(error)),
            WriteStep::Done(outcome) => WriteStep::Done(outcome),
        },
        Err(error) => {
            let error = error.as_str();
            let temp = paths.temp.as_str();
            match step {
                WriteStep::CreateParent => WriteStep::Done(
                    Err(
                        path_failure(
                            "failed to create plugin state directory ",
                            paths.parent.as_str(),
                            error,
                        ),
                    ),
                ),
                WriteStep::CreateTemp => WriteStep::Done(
                    Err(path_failure("failed to create temporary plugin state ", temp, error)),
                ),
                WriteStep::Serialize => WriteStep::Done(
                    Err(path_failure("failed to serialize plugin state ", temp, error)),
                ),
                WriteStep::EndLine => WriteStep::Done(
                    Err(path_failure("failed to write plugin state ", temp, error)),
                ),
                WriteStep::Sync => WriteStep::Done(
                    Err(path_failure("failed to sync plugin state ", temp, error)),
                ),
                WriteStep::Replace => WriteStep::RemoveTemp(
                    path_failure("failed to replace plugin state ", paths.target.as_str(), error),
                ),
                WriteStep::RemoveTemp(earlier) => WriteStep::Done(Err(earlier)),
                WriteStep::Done(outcome) => WriteStep::Done(outcome),
            }
        },
    }
}

} // verus!
