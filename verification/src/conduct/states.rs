//! What is kept of all workspaces, and how it changes.

use crate::conduct;
use crate::conduct::{memories, words};
use crate::herdr::TabSnapshot;
use crate::memory::{Memory, Stored, WorkspaceTabState};
use crate::state;
use crate::state::{Change, PersistedState, StateStore, Update, Workspaces};
use std::time::SystemTime;
use vstd::prelude::*;

verus! {

/// The two ids of an entry.
pub open spec fn ids(stored: WorkspaceTabState) -> Stored {
    Stored {
        current_tab_id: conduct::chars(stored.current_tab_id),
        last_tab_id: conduct::chars(stored.last_tab_id),
    }
}

/// The two ids of a memory.
pub open spec fn memory_ids(memory: Memory) -> Stored {
    match memory {
        Memory::Empty => Stored { current_tab_id: None, last_tab_id: None },
        Memory::Current { current, last } => Stored {
            current_tab_id: Some(current@),
            last_tab_id: conduct::chars(last),
        },
    }
}

/// Whether this is what is remembered of a workspace: what is stored for it, and nothing
/// where nothing is stored.
pub open spec fn is_remembered(
    stored: Map<Seq<char>, Stored>,
    workspace_id: Seq<char>,
    memory: Memory,
) -> bool {
    if stored.contains_key(workspace_id) {
        memories::stored_as(
            stored[workspace_id].current_tab_id,
            stored[workspace_id].last_tab_id,
            memory,
        )
    } else {
        memory is Empty
    }
}

/// `Workspaces::get` finds what an entry stores for its workspace, and nothing exactly if
/// no entry is for it.
pub proof fn entries_are_found(
    workspaces: &Workspaces,
    workspace_id: &str,
    found: Option<&WorkspaceTabState>,
    entries: &Vec<(String, WorkspaceTabState)>,
)
    requires
        call_ensures(Workspaces::get, (workspaces, workspace_id), found),
        call_ensures(Workspaces::entries, (workspaces,), entries),
    ensures
        forall|i: int|
            0 <= i < entries@.len() && (#[trigger] entries@[i]).0@ == workspace_id@ ==> (
            found matches Some(stored) && ids(*stored) == ids(entries@[i].1)),
        found is Some ==> exists|i: int|
            0 <= i < entries@.len() && (#[trigger] entries@[i]).0@ == workspace_id@,
        forall|i: int, j: int|
            0 <= i < j < entries@.len() ==> (#[trigger] entries@[i]).0@ != (
            #[trigger] entries@[j]).0@,
{
    assert forall|i: int|
        0 <= i < entries@.len() && (#[trigger] entries@[i]).0@ == workspace_id@ implies (
    found matches Some(stored) && ids(*stored) == ids(entries@[i].1)) by {
        assert(state::entry_for(entries@, i, workspace_id@));
        let j = choose|j: int| #[trigger] state::entry_for(entries@, j, workspace_id@);
        assert(state::entry_for(entries@, j, workspace_id@));
        assert(i == j);
    }
    if found is Some {
        let j = choose|j: int| #[trigger] state::entry_for(entries@, j, workspace_id@);
        assert(state::entry_for(entries@, j, workspace_id@));
    }
}

/// What is stored is seen by workspace: `Workspaces::get` gives what is seen, and nothing
/// exactly if nothing is.
pub proof fn stored_workspaces_are_seen(
    workspaces: &Workspaces,
    workspace_id: &str,
    found: Option<&WorkspaceTabState>,
)
    requires
        call_ensures(Workspaces::get, (workspaces, workspace_id), found),
    ensures
        found is Some <==> workspaces@.contains_key(workspace_id@),
        found matches Some(stored) ==> workspaces@[workspace_id@] == ids(*stored),
{
}

proof fn lemma_last_entry(entries: Seq<(String, WorkspaceTabState)>, i: int)
    requires
        0 <= i < entries.len(),
        forall|j: int| i < j < entries.len() ==> (#[trigger] entries[j]).0@ != entries[i].0@,
    ensures
        state::last_entries(entries).contains_key(entries[i].0@),
        state::last_entries(entries)[entries[i].0@] == ids(entries[i].1),
    decreases entries.len(),
{
    if i < entries.len() - 1 {
        assert(entries[entries.len() - 1].0@ != entries[i].0@);
        lemma_last_entry(entries.drop_last(), i);
    }
}

proof fn lemma_no_entry(entries: Seq<(String, WorkspaceTabState)>, workspace_id: Seq<char>)
    requires
        forall|j: int| 0 <= j < entries.len() ==> (#[trigger] entries[j]).0@ != workspace_id,
    ensures
        !state::last_entries(entries).contains_key(workspace_id),
    decreases entries.len(),
{
    if entries.len() > 0 {
        assert(entries[entries.len() - 1].0@ != workspace_id);
        lemma_no_entry(entries.drop_last(), workspace_id);
    }
}

/// `Workspaces::from_entries` stores for a workspace what the last entry for it says,
/// wherever it stands, and nothing for a workspace without an entry.
pub proof fn last_entries_count(
    entries: Vec<(String, WorkspaceTabState)>,
    workspaces: Workspaces,
    workspace_id: &str,
    found: Option<&WorkspaceTabState>,
    i: int,
)
    requires
        call_ensures(Workspaces::from_entries, (entries,), workspaces),
        call_ensures(Workspaces::get, (&workspaces, workspace_id), found),
    ensures
        0 <= i < entries@.len() && entries@[i].0@ == workspace_id@ && (forall|j: int|
            i < j < entries@.len() ==> (#[trigger] entries@[j]).0@ != workspace_id@) ==> (
        found matches Some(stored) && ids(*stored) == ids(entries@[i].1)),
        (forall|j: int| 0 <= j < entries@.len() ==> (#[trigger] entries@[j]).0@ != workspace_id@)
            ==> found is None,
{
    if 0 <= i < entries@.len() && entries@[i].0@ == workspace_id@ && (forall|j: int|
        i < j < entries@.len() ==> (#[trigger] entries@[j]).0@ != workspace_id@) {
        lemma_last_entry(entries@, i);
    }
    if forall|j: int| 0 <= j < entries@.len() ==> (#[trigger] entries@[j]).0@ != workspace_id@ {
        lemma_no_entry(entries@, workspace_id@);
    }
}

/// `Workspaces::new` stores nothing, a copy stores the same, and `Workspaces::same` tells
/// apart what is stored.
pub proof fn workspaces_are_compared(
    blank: Workspaces,
    left: &Workspaces,
    right: &Workspaces,
    copy: Workspaces,
    same: bool,
)
    requires
        call_ensures(Workspaces::new, (), blank),
        call_ensures(Workspaces::clone, (left,), copy),
        call_ensures(Workspaces::same, (left, right), same),
    ensures
        blank@ == Map::<Seq<char>, Stored>::empty(),
        copy@ == left@,
        same <==> left@ == right@,
{
}

/// `Workspaces::insert` stores both ids for the workspace and touches no other.
pub proof fn entries_are_stored(
    workspaces: &mut Workspaces,
    workspace_id: &str,
    stored: WorkspaceTabState,
)
    requires
        call_ensures(Workspaces::insert, (workspaces, workspace_id, stored), ()),
    ensures
        final(workspaces)@ == old(workspaces)@.insert(workspace_id@, ids(stored)),
{
}

/// `PersistedState::default` keeps nothing, and a copy keeps the same.
pub proof fn states_are_copied(
    initial: PersistedState,
    state: &PersistedState,
    copy: PersistedState,
)
    requires
        call_ensures(PersistedState::default, (), initial),
        call_ensures(PersistedState::clone, (state,), copy),
    ensures
        initial.workspaces@ == Map::<Seq<char>, Stored>::empty(),
        initial.updated_unix_ms == 0,
        copy.workspaces@ == state.workspaces@,
        copy.updated_unix_ms == state.updated_unix_ms,
{
}

/// `PersistedState::get_workspace` gives what is stored for the workspace, however many
/// workspaces there are.
pub proof fn workspaces_are_remembered(state: &PersistedState, workspace_id: &str, memory: Memory)
    requires
        call_ensures(PersistedState::get_workspace, (state, workspace_id), memory),
    ensures
        is_remembered(state.workspaces@, workspace_id@, memory),
{
    if state.workspaces@.contains_key(workspace_id@) {
        memories::lemma_stored_as(state.workspaces@[workspace_id@], memory);
    }
}

/// `PersistedState::set_workspace_at` stores both ids of the memory for the workspace,
/// touches no other, and keeps the time.
pub proof fn workspaces_are_set(
    state: &mut PersistedState,
    workspace_id: &str,
    memory: Memory,
    now_ms: u64,
)
    requires
        call_ensures(PersistedState::set_workspace_at, (state, workspace_id, memory, now_ms), ()),
    ensures
        final(state).workspaces@ == old(state).workspaces@.insert(
            workspace_id@,
            memory_ids(memory),
        ),
        final(state).updated_unix_ms == now_ms,
{
}

/// `PersistedState::set_workspace` does the same, at the time of some reading of the
/// clock.
pub proof fn workspaces_are_set_now(state: &mut PersistedState, workspace_id: &str, memory: Memory)
    requires
        call_ensures(PersistedState::set_workspace, (state, workspace_id, memory), ()),
    ensures
        final(state).workspaces@ == old(state).workspaces@.insert(
            workspace_id@,
            memory_ids(memory),
        ),
        exists|time: SystemTime| #[trigger] words::reads(time, final(state).updated_unix_ms),
{
    let time = choose|time: SystemTime|
        final(state)@ == old(state)@.with(
            workspace_id@,
            memory@,
            #[trigger] crate::clock::unix_millis(time),
        );
    assert(words::reads(time, final(state).updated_unix_ms));
}

proof fn lemma_remembered(state: PersistedState, workspace_id: Seq<char>, memory: Memory)
    requires
        is_remembered(state.workspaces@, workspace_id, memory),
    ensures
        memory@ == state@.memory_of(workspace_id),
{
    if state.workspaces@.contains_key(workspace_id) {
        if let Some(last) = state.workspaces@[workspace_id].last_tab_id {
            if last.len() == 0 {
                assert(last =~= Seq::<char>::empty());
            }
        }
    }
}

/// `Change::apply` of a focus stores what the memory of the workspace becomes when the
/// tab gets the focus.
pub proof fn focus_is_applied(
    state: &mut PersistedState,
    workspace_id: String,
    tab_id: String,
    now_ms: u64,
    target: Option<String>,
    memory: Memory,
    tab: &str,
    next: Memory,
)
    requires
        call_ensures(
            Change::apply,
            (Change::Focus { workspace_id, tab_id }, state, now_ms),
            target,
        ),
        is_remembered(old(state).workspaces@, workspace_id@, memory),
        tab@ == tab_id@,
        call_ensures(Memory::after_focus, (memory, tab), next),
    ensures
        target is None,
        final(state).workspaces@ == old(state).workspaces@.insert(workspace_id@, memory_ids(next)),
        final(state).updated_unix_ms == now_ms,
{
    lemma_remembered(*old(state), workspace_id@, memory);
}

/// `Change::apply` of a close stores what the memory of the workspace becomes when the
/// tab is closed.
pub proof fn close_is_applied(
    state: &mut PersistedState,
    workspace_id: String,
    closed_tab_id: String,
    focused_tab_id: Option<String>,
    now_ms: u64,
    target: Option<String>,
    memory: Memory,
    closed: &str,
    next: Memory,
)
    requires
        call_ensures(
            Change::apply,
            (Change::Close { workspace_id, closed_tab_id, focused_tab_id }, state, now_ms),
            target,
        ),
        is_remembered(old(state).workspaces@, workspace_id@, memory),
        closed@ == closed_tab_id@,
        call_ensures(Memory::after_close, (memory, closed, &focused_tab_id), next),
    ensures
        target is None,
        final(state).workspaces@ == old(state).workspaces@.insert(workspace_id@, memory_ids(next)),
        final(state).updated_unix_ms == now_ms,
{
    lemma_remembered(*old(state), workspace_id@, memory);
}

/// `Change::apply` of a toggle gives the tab that the memory of the workspace says, and
/// stores what the toggle leaves to be remembered, or else leaves the state alone.
pub proof fn toggle_is_applied(
    state: &mut PersistedState,
    workspace_id: String,
    current_tab_id: String,
    tabs: TabSnapshot,
    now_ms: u64,
    target: Option<String>,
    memory: Memory,
    current: &str,
    toggled: (Option<Memory>, Option<String>),
)
    requires
        call_ensures(
            Change::apply,
            (Change::Toggle { workspace_id, current_tab_id, tabs }, state, now_ms),
            target,
        ),
        is_remembered(old(state).workspaces@, workspace_id@, memory),
        current@ == current_tab_id@,
        call_ensures(Memory::toggle, (memory, current, &tabs), toggled),
    ensures
        conduct::chars(target) == conduct::chars(toggled.1),
        toggled.0 matches Some(next) ==> final(state).workspaces@ == old(state).workspaces@.insert(
            workspace_id@,
            memory_ids(next),
        ) && final(state).updated_unix_ms == now_ms,
        toggled.0 is None ==> final(state).workspaces@ == old(state).workspaces@
            && final(state).updated_unix_ms == old(state).updated_unix_ms,
{
    lemma_remembered(*old(state), workspace_id@, memory);
}

/// Whether a state with this memory of a workspace is to be written: it is exactly if
/// that is not what was stored, and then with every other workspace as it was.
pub open spec fn is_to_be_written(
    previous: PersistedState,
    workspace_id: Seq<char>,
    next: Memory,
    now_ms: u64,
    write: Option<PersistedState>,
) -> bool {
    let workspaces = previous.workspaces@.insert(workspace_id, memory_ids(next));
    &&& write is Some <==> workspaces != previous.workspaces@
    &&& write matches Some(state) ==> state.workspaces@ == workspaces && state.updated_unix_ms
        == now_ms
}

/// `StateStore::update` with a focus asks for what the memory of the workspace becomes to
/// be written, exactly if that is not what was stored.
pub proof fn focus_is_written(
    previous: PersistedState,
    store: StateStore,
    workspace_id: String,
    tab_id: String,
    now_ms: u64,
    update: Update,
    memory: Memory,
    tab: &str,
    next: Memory,
)
    requires
        call_ensures(StateStore::new, (previous,), store),
        call_ensures(
            StateStore::update,
            (&store, Change::Focus { workspace_id, tab_id }, now_ms),
            update,
        ),
        is_remembered(previous.workspaces@, workspace_id@, memory),
        tab@ == tab_id@,
        call_ensures(Memory::after_focus, (memory, tab), next),
    ensures
        update.target is None,
        is_to_be_written(previous, workspace_id@, next, now_ms, update.write),
{
    lemma_remembered(previous, workspace_id@, memory);
}

/// `StateStore::update` with a close asks for what the memory of the workspace becomes to
/// be written, exactly if that is not what was stored.
pub proof fn close_is_written(
    previous: PersistedState,
    store: StateStore,
    workspace_id: String,
    closed_tab_id: String,
    focused_tab_id: Option<String>,
    now_ms: u64,
    update: Update,
    memory: Memory,
    closed: &str,
    next: Memory,
)
    requires
        call_ensures(StateStore::new, (previous,), store),
        call_ensures(
            StateStore::update,
            (&store, Change::Close { workspace_id, closed_tab_id, focused_tab_id }, now_ms),
            update,
        ),
        is_remembered(previous.workspaces@, workspace_id@, memory),
        closed@ == closed_tab_id@,
        call_ensures(Memory::after_close, (memory, closed, &focused_tab_id), next),
    ensures
        update.target is None,
        is_to_be_written(previous, workspace_id@, next, now_ms, update.write),
{
    lemma_remembered(previous, workspace_id@, memory);
}

/// `StateStore::update` with a toggle gives the tab that the memory of the workspace says,
/// and asks for what the toggle leaves to be remembered to be written, exactly if that is
/// not what was stored.
pub proof fn toggle_is_written(
    previous: PersistedState,
    store: StateStore,
    workspace_id: String,
    current_tab_id: String,
    tabs: TabSnapshot,
    now_ms: u64,
    update: Update,
    memory: Memory,
    current: &str,
    toggled: (Option<Memory>, Option<String>),
)
    requires
        call_ensures(StateStore::new, (previous,), store),
        call_ensures(
            StateStore::update,
            (&store, Change::Toggle { workspace_id, current_tab_id, tabs }, now_ms),
            update,
        ),
        is_remembered(previous.workspaces@, workspace_id@, memory),
        current@ == current_tab_id@,
        call_ensures(Memory::toggle, (memory, current, &tabs), toggled),
    ensures
        conduct::chars(update.target) == conduct::chars(toggled.1),
        toggled.0 matches Some(next) ==> is_to_be_written(
            previous,
            workspace_id@,
            next,
            now_ms,
            update.write,
        ),
        toggled.0 is None ==> update.write is None,
{
    lemma_remembered(previous, workspace_id@, memory);
}

} // verus!
