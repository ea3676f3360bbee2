//! Reading, locking and writing the state file.

use crate::conduct::words;
use crate::error::PluginError;
use crate::memory::Stored;
use crate::state::PersistedState;
use crate::storage;
use crate::storage::{
    begin_write, read_state, state_or_initial, temp_file_name, write_state, FileRead, LockFailure,
    WritePaths, WriteStep,
};
use crate::text;
use vstd::prelude::*;

verus! {

/// The files in the state directory have their own names.
pub proof fn files_are_named()
    ensures
        storage::STATE_FILE_NAME@ == "state.json"@,
        storage::LOCK_FILE_NAME@ == "state.lock"@,
{
}

/// Whether two states keep the same.
pub open spec fn same_state(left: PersistedState, right: PersistedState) -> bool {
    left.workspaces@ == right.workspaces@ && left.updated_unix_ms == right.updated_unix_ms
}

/// Whether a state keeps nothing.
pub open spec fn keeps_nothing(state: PersistedState) -> bool {
    state.workspaces@ == Map::<Seq<char>, Stored>::empty() && state.updated_unix_ms == 0
}

/// `LockFailure::describe` tells whether opening or locking failed, on which path, and
/// what the system said.
pub proof fn lock_failures_are_told(failure: &LockFailure, error: PluginError)
    requires
        call_ensures(LockFailure::describe, (failure,), error),
    ensures
        *failure matches LockFailure::Open(io) ==> error@ == "failed to open plugin state lock "@
            + io.path@ + ": "@ + io.error@,
        *failure matches LockFailure::Lock(io) ==> error@ == "failed to lock plugin state "@
            + io.path@ + ": "@ + io.error@,
{
}

/// `state_or_initial` gives the state that was decoded, and one that keeps nothing where
/// none was.
pub proof fn decoded_states_are_taken(decoded: Option<PersistedState>, state: PersistedState)
    requires
        call_ensures(state_or_initial, (decoded,), state),
    ensures
        decoded matches Some(found) ==> same_state(state, found),
        decoded is None ==> keeps_nothing(state),
{
}

/// `read_state` gives the state that is decoded from the file. It gives one that keeps
/// nothing where there is no file or no state in it, and an error only where the file
/// could not be read.
pub proof fn states_are_read<F: FnOnce(String) -> Option<PersistedState>>(
    read: FileRead,
    decode: F,
    state: Result<PersistedState, PluginError>,
)
    requires
        call_ensures(read_state::<F>, (read, decode), state),
    ensures
        read matches FileRead::Contents(contents) ==> state is Ok && exists|
            decoded: Option<PersistedState>,
        | #[trigger]
            decode.ensures((contents,), decoded) && (if decoded is Some {
                same_state(state->Ok_0, decoded->0)
            } else {
                keeps_nothing(state->Ok_0)
            }),
        read is NotFound ==> state is Ok && keeps_nothing(state->Ok_0),
        read matches FileRead::Failed(io) ==> (state matches Err(error) && error@
            == "failed to read plugin state "@ + io.path@ + ": "@ + io.error@),
{
    if let FileRead::Contents(contents) = read {
        let decoded = choose|decoded: Option<PersistedState>| #[trigger]
            decode.ensures((contents,), decoded) && storage::read_view(state) == Ok::<
                crate::state::Saved,
                Seq<char>,
            >(storage::decoded_state(decoded));
        assert(decode.ensures((contents,), decoded));
    }
}

/// `temp_file_name` is made of the name of the state file, the process and the time, both
/// in decimal digits.
pub proof fn temporary_files_are_named(process_id: u32, now_ms: u64, name: String)
    requires
        call_ensures(temp_file_name, (process_id, now_ms), name),
    ensures
        exists|process: Seq<char>, time: Seq<char>|
            name@ == #[trigger] (".state.json.tmp."@ + process + "."@ + time)
                && words::is_number(process, process_id as nat) && words::is_number(
                time,
                now_ms as nat,
            ),
{
    reveal_strlit(".state.json.tmp.");
    reveal_strlit(".");
    reveal_strlit("state.json");
    reveal_strlit(".tmp.");
    let process = text::decimal(process_id as nat);
    let time = text::decimal(now_ms as nat);
    words::lemma_decimal(process_id as nat);
    words::lemma_decimal(now_ms as nat);
    assert("."@ + "state.json"@ + ".tmp."@ =~= ".state.json.tmp."@);
    assert(name@ == ".state.json.tmp."@ + process + "."@ + time);
}

/// `begin_write` starts with the directory, and gives up at once exactly if the path has
/// none.
pub proof fn writes_begin_with_the_directory(path: &str, has_parent: bool, step: WriteStep)
    requires
        call_ensures(begin_write, (path, has_parent), step),
    ensures
        has_parent ==> step is CreateParent,
        !has_parent ==> (step matches WriteStep::Done(Err(error)) && error@
            == "plugin state path has no parent directory: "@ + path@),
{
}

/// `write_state` goes on with the next operation where one worked: the directory, the
/// temporary file, the state, the line feed, the storing, the renaming, and then it is
/// done. After the removal of the temporary file it ends with the error from before.
pub proof fn writes_go_on(step: WriteStep, paths: &WritePaths, next: WriteStep)
    requires
        call_ensures(write_state, (step, Ok(()), paths), next),
    ensures
        step is CreateParent ==> next is CreateTemp,
        step is CreateTemp ==> next is Serialize,
        step is Serialize ==> next is EndLine,
        step is EndLine ==> next is Sync,
        step is Sync ==> next is Replace,
        step is Replace ==> (next matches WriteStep::Done(outcome) && outcome is Ok),
        step matches WriteStep::RemoveTemp(earlier) ==> (next matches WriteStep::Done(Err(error))
            && error@ == earlier@),
        step matches WriteStep::Done(Ok(())) ==> (next matches WriteStep::Done(outcome)
            && outcome is Ok),
        step matches WriteStep::Done(Err(earlier)) ==> (next matches WriteStep::Done(Err(error))
            && error@ == earlier@),
{
}

/// `write_state` ends with an error where an operation failed, and tells which, on which
/// path, and what the system said. After a renaming that failed it removes the temporary
/// file first, whether that works or not.
pub proof fn writes_fail(step: WriteStep, words: String, paths: &WritePaths, next: WriteStep)
    requires
        call_ensures(write_state, (step, Err(words), paths), next),
    ensures
        step is CreateParent ==> (next matches WriteStep::Done(Err(error)) && error@
            == "failed to create plugin state directory "@ + paths.parent@ + ": "@ + words@),
        step is CreateTemp ==> (next matches WriteStep::Done(Err(error)) && error@
            == "failed to create temporary plugin state "@ + paths.temp@ + ": "@ + words@),
        step is Serialize ==> (next matches WriteStep::Done(Err(error)) && error@
            == "failed to serialize plugin state "@ + paths.temp@ + ": "@ + words@),
        step is EndLine ==> (next matches WriteStep::Done(Err(error)) && error@
            == "failed to write plugin state "@ + paths.temp@ + ": "@ + words@),
        step is Sync ==> (next matches WriteStep::Done(Err(error)) && error@
            == "failed to sync plugin state "@ + paths.temp@ + ": "@ + words@),
        step is Replace ==> (next matches WriteStep::RemoveTemp(error) && error@
            == "failed to replace plugin state "@ + paths.target@ + ": "@ + words@),
        step matches WriteStep::RemoveTemp(earlier) ==> (next matches WriteStep::Done(Err(error))
            && error@ == earlier@),
        step matches WriteStep::Done(Ok(())) ==> (next matches WriteStep::Done(outcome)
            && outcome is Ok),
        step matches WriteStep::Done(Err(earlier)) ==> (next matches WriteStep::Done(Err(error))
            && error@ == earlier@),
{
}

} // verus!
