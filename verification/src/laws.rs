//! What holds of the plugin as a whole.

use crate::command;
use crate::conduct::lists;
use crate::herdr;
use crate::json;
use crate::memory::{Remembered, Stored, WorkspaceTabState};
use crate::session::{Doing, Requested};
use crate::state;
use crate::state::{Changing, PersistedState, Saved};
use crate::storage;
use crate::storage::{FileRead, WritePaths, Writing};
use crate::text;
use vstd::prelude::*;

verus! {

// What is remembered of one workspace.

/// Whatever is stored, what is read from it is in order: no empty ids, and a last tab
/// that is not the current one.
pub proof fn stored_memory_is_valid(stored: Stored)
    ensures
        stored.memory().valid(),
{
}

/// A memory that is in order is read back as it was stored.
pub proof fn stored_memory_is_read_back(memory: Remembered)
    requires
        memory.valid(),
    ensures
        Stored::of(memory).memory() == memory,
{
}

/// Each change to a memory that is in order gives one that is in order, as long as the
/// id that it makes the current one is not empty.
pub proof fn changes_keep_memory_valid(memory: Remembered, change: Changing)
    requires
        memory.valid(),
        match change {
            Changing::Toggle { current_tab_id, .. } => memory is Empty ==> current_tab_id.len() > 0,
            Changing::Focus { tab_id, .. } => tab_id.len() > 0,
            Changing::Close { closed_tab_id, focused_tab_id, .. } => memory->current
                == closed_tab_id && memory is Current ==> (focused_tab_id matches Some(tab_id)
                ==> tab_id.len() > 0),
        },
    ensures
        change.memory_after(memory) matches Some(after) ==> after.valid(),
{
}

/// After one tab got the focus and then another, the first is the last tab.
pub proof fn switching_remembers_the_previous_tab(
    memory: Remembered,
    first: Seq<char>,
    second: Seq<char>,
)
    requires
        first != second,
    ensures
        memory.after_focus(first).after_focus(second) == (Remembered::Current {
            current: second,
            last: Some(first),
        }),
{
}

/// To hear twice that a tab got the focus is the same as to hear it once.
pub proof fn focus_twice_is_focus_once(memory: Remembered, tab_id: Seq<char>)
    ensures
        memory.after_focus(tab_id).after_focus(tab_id) == memory.after_focus(tab_id),
{
}

/// After a switch from one tab to another, a toggle goes back to the first, as long as
/// it is still there.
pub proof fn toggle_goes_back(
    memory: Remembered,
    first: Seq<char>,
    second: Seq<char>,
    tabs: Seq<herdr::Listed>,
)
    requires
        first != second,
        herdr::lists(tabs, first),
    ensures
        memory.after_focus(first).after_focus(second).toggle_target(second, tabs) == Some(first),
{
}

/// A toggle, once Herdr said that the tab it went to got the focus, is undone by the
/// next toggle: it goes back to the tab that the first one left.
pub proof fn toggle_twice_returns(
    memory: Remembered,
    current: Seq<char>,
    tabs: Seq<herdr::Listed>,
    tabs_then: Seq<herdr::Listed>,
)
    requires
        memory matches Remembered::Current { current: remembered, .. } && remembered == current,
        memory.toggle_target(current, tabs) is Some,
        herdr::lists(tabs_then, current),
    ensures
        ({
            let target = memory.toggle_target(current, tabs)->0;
            memory.after_focus(target).toggle_target(target, tabs_then) == Some(current)
        }),
{
}

/// A toggle goes to a tab that is there, that is not the one it starts from, and that
/// was remembered as the last one; it then leaves the memory alone.
pub proof fn toggle_target_is_another_open_tab(
    memory: Remembered,
    current: Seq<char>,
    tabs: Seq<herdr::Listed>,
)
    requires
        memory.toggle_target(current, tabs) is Some,
    ensures
        herdr::lists(tabs, memory.toggle_target(current, tabs)->0),
        memory.toggle_target(current, tabs)->0 != current,
        memory matches Remembered::Current { last, .. } && last == memory.toggle_target(
            current,
            tabs,
        ),
        memory.toggle_update(current, tabs) is None,
{
}

/// A toggle that goes nowhere leaves no last tab behind, and after it another one in
/// the same place changes nothing.
pub proof fn fruitless_toggle_settles(
    memory: Remembered,
    current: Seq<char>,
    tabs: Seq<herdr::Listed>,
)
    requires
        memory.toggle_target(current, tabs) is None,
    ensures
        ({
            let after = match memory.toggle_update(current, tabs) {
                Some(after) => after,
                None => memory,
            };
            &&& after matches Remembered::Current { last, .. } && last is None
            &&& after.toggle_target(current, tabs) is None
            &&& after.toggle_update(current, tabs) is None
        }),
{
}

/// A tab that was closed is not remembered any more, unless it was the current one and
/// Herdr still reports it as the one that has the focus.
pub proof fn closed_tab_is_forgotten(
    memory: Remembered,
    closed: Seq<char>,
    focused: Option<Seq<char>>,
)
    requires
        memory matches Remembered::Current { current, .. } && current == closed ==> focused != Some(
            closed,
        ),
    ensures
        !memory.after_close(closed, focused).mentions(closed),
{
}

/// To close a tab that is not remembered changes nothing.
pub proof fn closing_another_tab_changes_nothing(
    memory: Remembered,
    closed: Seq<char>,
    focused: Option<Seq<char>>,
)
    requires
        memory.valid(),
        !memory.mentions(closed),
    ensures
        memory.after_close(closed, focused) == memory,
{
}

/// To close the last tab leaves the current one.
pub proof fn closing_the_last_tab_keeps_the_current_one(
    current: Seq<char>,
    last: Seq<char>,
    focused: Option<Seq<char>>,
)
    requires
        current != last,
    ensures
        (Remembered::Current { current, last: Some(last) }).after_close(last, focused) == (
        Remembered::Current { current, last: None }),
{
}

/// To hear twice that a tab was closed is the same as to hear it once.
pub proof fn close_twice_is_close_once(
    memory: Remembered,
    closed: Seq<char>,
    focused: Option<Seq<char>>,
)
    ensures
        memory.after_close(closed, focused).after_close(closed, focused) == memory.after_close(
            closed,
            focused,
        ),
{
}

// The state of all workspaces.

/// What is set for a workspace is what is read of it, and nothing else is touched.
pub proof fn set_workspace_is_read_back(
    saved: Saved,
    workspace_id: Seq<char>,
    memory: Remembered,
    now_ms: u64,
    other: Seq<char>,
)
    requires
        memory.valid(),
    ensures
        saved.with(workspace_id, memory, now_ms).memory_of(workspace_id) == memory,
        other != workspace_id ==> saved.with(workspace_id, memory, now_ms).memory_of(other)
            == saved.memory_of(other),
{
}

/// Whatever is kept, what is read of a workspace is in order.
pub proof fn kept_memory_is_valid(saved: Saved, workspace_id: Seq<char>)
    ensures
        saved.memory_of(workspace_id).valid(),
{
}

/// A change to one workspace leaves what is stored for every other alone.
pub proof fn workspaces_are_isolated(
    saved: Saved,
    change: Changing,
    now_ms: u64,
    other: Seq<char>,
)
    requires
        other != change.workspace_id(),
    ensures
        saved.changed(change, now_ms).memory_of(other) == saved.memory_of(other),
        saved.changed(change, now_ms).workspaces.contains_key(other)
            == saved.workspaces.contains_key(other),
        saved.workspaces.contains_key(other) ==> saved.changed(change, now_ms).workspaces[other]
            == saved.workspaces[other],
{
}

/// What is kept after an update, given that whatever it asks to be written is written.
pub open spec fn kept(saved: Saved, change: Changing, now_ms: u64) -> Saved {
    match saved.to_write(change, now_ms) {
        Some(written) => written,
        None => saved,
    }
}

/// Nothing is lost where nothing is written: every workspace is then remembered as the
/// change would have it.
pub proof fn only_real_changes_are_written(saved: Saved, change: Changing, now_ms: u64)
    ensures
        kept(saved, change, now_ms).workspaces == saved.changed(change, now_ms).workspaces,
        saved.to_write(change, now_ms) is Some <==> kept(saved, change, now_ms).workspaces
            != saved.workspaces,
{
}

/// A change is remembered: what is read of the workspace after the update is what the
/// change makes of what was read before, as long as that is in order.
pub proof fn changes_are_remembered(saved: Saved, change: Changing, now_ms: u64)
    requires
        change.memory_after(saved.memory_of(change.workspace_id())) matches Some(after)
            ==> after.valid(),
    ensures
        kept(saved, change, now_ms).memory_of(change.workspace_id()) == (
        match change.memory_after(saved.memory_of(change.workspace_id())) {
            Some(after) => after,
            None => saved.memory_of(change.workspace_id()),
        }),
{
    only_real_changes_are_written(saved, change, now_ms);
}

/// To hear a second time that a tab got the focus asks for nothing to be written.
pub proof fn repeated_focus_writes_nothing(
    saved: Saved,
    workspace_id: Seq<char>,
    tab_id: Seq<char>,
    now_ms: u64,
    later_ms: u64,
)
    requires
        tab_id.len() > 0 || saved.memory_of(workspace_id) is Empty,
    ensures
        kept(saved, Changing::Focus { workspace_id, tab_id }, now_ms).to_write(
            Changing::Focus { workspace_id, tab_id },
            later_ms,
        ) is None,
{
    let change = Changing::Focus { workspace_id, tab_id };
    let once = kept(saved, change, now_ms);
    let memory = saved.memory_of(workspace_id).after_focus(tab_id);
    only_real_changes_are_written(saved, change, now_ms);
    if tab_id.len() > 0 {
        changes_are_remembered(saved, change, now_ms);
        assert(once.memory_of(workspace_id) == memory);
    }
    assert(once.changed(change, later_ms).workspaces =~= once.workspaces);
}

/// The entries of a state give the same state when they are taken together again.
pub proof fn entries_give_the_state_back(entries: Seq<(String, WorkspaceTabState)>)
    requires
        state::distinct(entries),
    ensures
        state::last_entries(entries) == state::entries_map(entries),
    decreases entries.len(),
{
    let together = state::last_entries(entries);
    let map = state::entries_map(entries);
    if entries.len() == 0 {
        assert forall|id: Seq<char>| !map.contains_key(id) by {
            if map.contains_key(id) {
                let i = choose|i: int| #[trigger] state::entry_for(entries, i, id);
                assert(state::entry_for(entries, i, id));
            }
        }
        assert(together =~= map);
    } else {
        let init = entries.drop_last();
        entries_give_the_state_back(init);
        let rest = state::entries_map(init);
        let last = entries.len() - 1;
        assert forall|id: Seq<char>|
            #![trigger together.dom().contains(id)]
            #![trigger map.dom().contains(id)]
            together.contains_key(id) == map.contains_key(id) && (map.contains_key(id)
                ==> together[id] == map[id]) by {
            if map.contains_key(id) {
                let i = choose|i: int| #[trigger] state::entry_for(entries, i, id);
                assert(state::entry_for(entries, i, id));
                if i < last {
                    assert(state::entry_for(init, i, id));
                    let j = choose|j: int| #[trigger] state::entry_for(init, j, id);
                    assert(state::entry_for(init, j, id));
                    assert(init[i] == entries[i] && init[j] == entries[j]);
                    assert(i == j);
                }
            }
            if together.contains_key(id) {
                if id == entries[last].0@ {
                    assert(state::entry_for(entries, last, id));
                } else {
                    let j = choose|j: int| #[trigger] state::entry_for(init, j, id);
                    assert(state::entry_for(init, j, id));
                    assert(state::entry_for(entries, j, id));
                }
            }
        }
        assert(together =~= map);
    }
}

/// A state that `decode` finds in a file's contents is the one that is read from it.
pub proof fn decoded_state_is_read<F: FnOnce(String) -> Option<PersistedState>>(
    contents: String,
    decode: F,
    saved: Saved,
    read: Result<Saved, Seq<char>>,
)
    requires
        forall|decoded: Option<PersistedState>| #[trigger]
            decode.ensures((contents,), decoded) ==> (decoded matches Some(state) && state@
                == saved),
        storage::state_read(FileRead::Contents(contents), decode, read),
    ensures
        read == Ok::<Saved, Seq<char>>(saved),
{
}

// One run.

/// How the outside answers during one run.
pub struct World {
    pub workspaces: Result<Seq<herdr::Listed>, Seq<char>>,
    pub tabs: spec_fn(Seq<char>) -> Result<Seq<herdr::Listed>, Seq<char>>,
    pub state_dir: Result<(), Seq<char>>,
    pub lock: Result<(), Seq<char>>,
    pub read: Result<Saved, Seq<char>>,
    pub now_ms: u64,
    pub write: Result<(), Seq<char>>,
    pub focus: Result<(), Seq<char>>,
}

impl World {
    /// Whether the state can be locked, read and written, and this is the state.
    pub open spec fn keeps(self, saved: Saved) -> bool {
        &&& self.state_dir is Ok
        &&& self.lock is Ok
        &&& self.read == Ok::<Saved, Seq<char>>(saved)
        &&& self.write is Ok
    }
}

/// What a run does next.
pub open spec fn after(doing: Doing, world: World) -> Doing {
    match doing {
        Doing::ListWorkspaces { request } => Doing::after_workspaces(request, world.workspaces),
        Doing::ListTabs { workspace_id, request } => Doing::after_tabs(
            request,
            workspace_id,
            (world.tabs)(workspace_id),
        ),
        Doing::CreateStateDir { change } => Doing::after_state_dir(change, world.state_dir),
        Doing::LockState { change } => Doing::after_lock(change, world.lock),
        Doing::ReadState { change } => Doing::after_read(change, world.read, world.now_ms),
        Doing::WriteState { target, .. } => Doing::after_write(target, world.write),
        Doing::UnlockState { updated } => Doing::after_unlock(updated),
        Doing::FocusTab { .. } => Doing::Finish { outcome: world.focus },
        Doing::Finish { outcome } => Doing::Finish { outcome },
    }
}

/// How many things a run may still have to do.
pub open spec fn steps_left(doing: Doing) -> nat {
    match doing {
        Doing::ListWorkspaces { .. } => 8,
        Doing::ListTabs { .. } => 7,
        Doing::CreateStateDir { .. } => 6,
        Doing::LockState { .. } => 5,
        Doing::ReadState { .. } => 4,
        Doing::WriteState { .. } => 3,
        Doing::UnlockState { .. } => 2,
        Doing::FocusTab { .. } => 1,
        Doing::Finish { .. } => 0,
    }
}

/// What comes of a run.
pub open spec fn outcome(doing: Doing, world: World) -> Result<(), Seq<char>>
    decreases steps_left(doing),
{
    match doing {
        Doing::Finish { outcome } => outcome,
        _ => outcome(after(doing, world), world),
    }
}

/// The tab that a run asks Herdr to focus.
pub open spec fn focus_asked(doing: Doing, world: World) -> Option<Seq<char>>
    decreases steps_left(doing),
{
    match doing {
        Doing::FocusTab { tab_id } => Some(tab_id),
        Doing::Finish { .. } => None,
        _ => focus_asked(after(doing, world), world),
    }
}

/// The state that a run asks to be written.
pub open spec fn write_asked(doing: Doing, world: World) -> Option<Saved>
    decreases steps_left(doing),
{
    match doing {
        Doing::WriteState { state, .. } => Some(state),
        Doing::Finish { .. } => None,
        _ => write_asked(after(doing, world), world),
    }
}

/// The state that is there after a run that found `saved`.
pub open spec fn left_behind(doing: Doing, world: World, saved: Saved) -> Saved {
    match write_asked(doing, world) {
        Some(state) => if world.write is Ok {
            state
        } else {
            saved
        },
        None => saved,
    }
}

/// Every run ends: whatever the answers, each thing that is done brings it closer, and
/// after the start there are never more than eight.
pub proof fn runs_end(doing: Doing, world: World)
    ensures
        doing is Finish || steps_left(after(doing, world)) < steps_left(doing),
        steps_left(doing) <= 8,
{
}

/// Whether the state is locked while this is to be done.
pub open spec fn locked(doing: Doing) -> bool {
    doing is ReadState || doing is WriteState || doing is UnlockState
}

/// The state is locked from the moment the lock is taken until it is given back, which
/// happens in every run that took it, whatever the answers. It is read and written
/// in between, and a tab is focused only when it is not locked.
pub proof fn lock_is_taken_and_given_back(doing: Doing, world: World)
    ensures
        locked(after(doing, world)) <==> (doing is LockState && world.lock is Ok) || (locked(doing)
            && !(doing is UnlockState)),
        doing is ReadState || doing is WriteState ==> locked(doing),
        doing is FocusTab || doing is Finish ==> !locked(doing),
{
}

proof fn lemma_update(change: Changing, world: World, saved: Saved)
    requires
        world.keeps(saved),
    ensures
        ({
            let doing = Doing::CreateStateDir { change };
            let target = change.target(saved.memory_of(change.workspace_id()));
            &&& write_asked(doing, world) == saved.to_write(change, world.now_ms)
            &&& left_behind(doing, world, saved) == kept(saved, change, world.now_ms)
            &&& focus_asked(doing, world) == target
            &&& outcome(doing, world) == (if target is Some {
                world.focus
            } else {
                Ok(())
            })
        }),
{
    reveal_with_fuel(write_asked, 8);
    reveal_with_fuel(focus_asked, 8);
    reveal_with_fuel(outcome, 8);
}

/// A run for a tab that got the focus, and still has it, remembers it: the tab that was
/// current before, if it was another, is now the last one. No tab is focused.
pub proof fn focused_run_remembers(
    workspace_id: Seq<char>,
    tab_id: Seq<char>,
    world: World,
    saved: Saved,
)
    requires
        tab_id.len() > 0,
        (world.tabs)(workspace_id) matches Ok(tabs) && herdr::focused_id(tabs) == Some(tab_id),
        world.keeps(saved),
    ensures
        ({
            let doing = Doing::ListTabs { workspace_id, request: Requested::Focused { tab_id } };
            &&& outcome(doing, world) == Ok::<(), Seq<char>>(())
            &&& focus_asked(doing, world) is None
            &&& left_behind(doing, world, saved).memory_of(workspace_id) == saved.memory_of(
                workspace_id,
            ).after_focus(tab_id)
        }),
{
    let change = Changing::Focus { workspace_id, tab_id };
    lemma_update(change, world, saved);
    changes_are_remembered(saved, change, world.now_ms);
}

/// A run for a tab that has lost the focus again changes nothing.
pub proof fn stale_focus_changes_nothing(
    workspace_id: Seq<char>,
    tab_id: Seq<char>,
    world: World,
    saved: Saved,
)
    requires
        (world.tabs)(workspace_id) matches Ok(tabs) && herdr::focused_id(tabs) != Some(tab_id),
    ensures
        ({
            let doing = Doing::ListTabs { workspace_id, request: Requested::Focused { tab_id } };
            &&& outcome(doing, world) == Ok::<(), Seq<char>>(())
            &&& focus_asked(doing, world) is None
            &&& left_behind(doing, world, saved) == saved
        }),
{
    reveal_with_fuel(write_asked, 3);
    reveal_with_fuel(focus_asked, 3);
    reveal_with_fuel(outcome, 3);
}

/// A run for a tab that was closed forgets it, unless it was the current one and Herdr
/// still reports it as the one that has the focus. No tab is focused.
pub proof fn closed_run_forgets(
    workspace_id: Seq<char>,
    tab_id: Seq<char>,
    tabs: Seq<herdr::Listed>,
    world: World,
    saved: Saved,
)
    requires
        (world.tabs)(workspace_id) == Ok::<Seq<herdr::Listed>, Seq<char>>(tabs),
        saved.memory_of(workspace_id) matches Remembered::Current { current, .. } && current == tab_id
            ==> (herdr::focused_id(tabs) matches Some(focused) ==> focused.len() > 0 && focused
            != tab_id),
        world.keeps(saved),
    ensures
        ({
            let doing = Doing::ListTabs { workspace_id, request: Requested::Closed { tab_id } };
            let remembered = left_behind(doing, world, saved).memory_of(workspace_id);
            &&& outcome(doing, world) == Ok::<(), Seq<char>>(())
            &&& focus_asked(doing, world) is None
            &&& remembered == saved.memory_of(workspace_id).after_close(
                tab_id,
                herdr::focused_id(tabs),
            )
            &&& !remembered.mentions(tab_id)
        }),
{
    let change = Changing::Close {
        workspace_id,
        closed_tab_id: tab_id,
        focused_tab_id: herdr::focused_id(tabs),
    };
    lemma_update(change, world, saved);
    changes_are_remembered(saved, change, world.now_ms);
    closed_tab_is_forgotten(saved.memory_of(workspace_id), tab_id, herdr::focused_id(tabs));
}

/// A toggle from a tab asks for the tab that the memory of the workspace says, and ends
/// as that request does. Where there is none, the run ends well.
pub proof fn toggle_run_asks_for_the_last_tab(
    workspace_id: Seq<char>,
    tabs: Seq<herdr::Listed>,
    world: World,
    saved: Saved,
)
    requires
        (world.tabs)(workspace_id) == Ok::<Seq<herdr::Listed>, Seq<char>>(tabs),
        herdr::focused_id(tabs) is Some,
        world.keeps(saved),
    ensures
        ({
            let doing = Doing::ListTabs { workspace_id, request: Requested::Toggle };
            let current = herdr::focused_id(tabs)->0;
            let target = saved.memory_of(workspace_id).toggle_target(current, tabs);
            &&& focus_asked(doing, world) == target
            &&& outcome(doing, world) == (if target is Some {
                world.focus
            } else {
                Ok(())
            })
            &&& target is Some ==> left_behind(doing, world, saved) == saved
        }),
{
    let current_tab_id = herdr::focused_id(tabs)->0;
    let change = Changing::Toggle { workspace_id, current_tab_id, tabs };
    lemma_update(change, world, saved);
}

/// A toggle from the tab in focus reaches the last tab wherever the two stand in the list
/// of tabs, and leaves the state as it is.
pub proof fn toggle_reaches_the_last_tab_in_any_place(
    workspace_id: Seq<char>,
    tabs: Seq<herdr::Listed>,
    at: int,
    to: int,
    remembered: Seq<char>,
    world: World,
    saved: Saved,
)
    requires
        (world.tabs)(workspace_id) == Ok::<Seq<herdr::Listed>, Seq<char>>(tabs),
        lists::first_focused(tabs, at),
        0 <= to < tabs.len(),
        tabs[to].id != tabs[at].id,
        saved.memory_of(workspace_id) == (Remembered::Current {
            current: remembered,
            last: Some(tabs[to].id),
        }),
        world.keeps(saved),
    ensures
        ({
            let doing = Doing::ListTabs { workspace_id, request: Requested::Toggle };
            &&& focus_asked(doing, world) == Some(tabs[to].id)
            &&& left_behind(doing, world, saved) == saved
            &&& outcome(doing, world) == world.focus
        }),
{
    lists::first_focused_entry_counts(tabs, at);
    lists::listed_ids_are_found(tabs, tabs[to].id);
    toggle_run_asks_for_the_last_tab(workspace_id, tabs, world, saved);
}

/// A tab that got the focus is remembered as the current one wherever it stands in the
/// list of tabs, and the tab that was current before it as the last one.
pub proof fn focus_is_remembered_in_any_place(
    workspace_id: Seq<char>,
    tabs: Seq<herdr::Listed>,
    at: int,
    before: Seq<char>,
    last: Option<Seq<char>>,
    world: World,
    saved: Saved,
)
    requires
        (world.tabs)(workspace_id) == Ok::<Seq<herdr::Listed>, Seq<char>>(tabs),
        lists::first_focused(tabs, at),
        tabs[at].id.len() > 0,
        tabs[at].id != before,
        saved.memory_of(workspace_id) == (Remembered::Current { current: before, last }),
        world.keeps(saved),
    ensures
        ({
            let request = Requested::Focused { tab_id: tabs[at].id };
            let doing = Doing::ListTabs { workspace_id, request };
            left_behind(doing, world, saved).memory_of(workspace_id) == (Remembered::Current {
                current: tabs[at].id,
                last: Some(before),
            })
        }),
{
    lists::first_focused_entry_counts(tabs, at);
    focused_run_remembers(workspace_id, tabs[at].id, world, saved);
}

/// Where the current tab was closed, the tab in focus is remembered as the current one,
/// wherever it stands in the list of tabs and whatever the last tab was.
pub proof fn close_is_remembered_in_any_place(
    workspace_id: Seq<char>,
    closed: Seq<char>,
    tabs: Seq<herdr::Listed>,
    at: int,
    last: Option<Seq<char>>,
    world: World,
    saved: Saved,
)
    requires
        (world.tabs)(workspace_id) == Ok::<Seq<herdr::Listed>, Seq<char>>(tabs),
        lists::first_focused(tabs, at),
        tabs[at].id.len() > 0,
        tabs[at].id != closed,
        saved.memory_of(workspace_id) == (Remembered::Current { current: closed, last }),
        world.keeps(saved),
    ensures
        ({
            let request = Requested::Closed { tab_id: closed };
            let doing = Doing::ListTabs { workspace_id, request };
            left_behind(doing, world, saved).memory_of(workspace_id) == (Remembered::Current {
                current: tabs[at].id,
                last: if last == Some(tabs[at].id) {
                    None
                } else {
                    last
                },
            })
        }),
{
    kept_memory_is_valid(saved, workspace_id);
    lists::first_focused_entry_counts(tabs, at);
    closed_run_forgets(workspace_id, closed, tabs, world, saved);
}

/// The point of the plugin: after the focus went to one tab of a workspace and then to
/// another, a toggle from there asks for the first one, as long as it is still there.
pub proof fn toggle_returns_to_the_previous_tab(
    workspace_id: Seq<char>,
    first: Seq<char>,
    second: Seq<char>,
    tabs: Seq<herdr::Listed>,
    saved: Saved,
    world1: World,
    world2: World,
    world3: World,
)
    requires
        first.len() > 0,
        second.len() > 0,
        first != second,
        (world1.tabs)(workspace_id) matches Ok(tabs1) && herdr::focused_id(tabs1) == Some(first),
        world1.keeps(saved),
        (world2.tabs)(workspace_id) matches Ok(tabs2) && herdr::focused_id(tabs2) == Some(second),
        world2.keeps(
            left_behind(
                Doing::ListTabs { workspace_id, request: Requested::Focused { tab_id: first } },
                world1,
                saved,
            ),
        ),
        (world3.tabs)(workspace_id) == Ok::<Seq<herdr::Listed>, Seq<char>>(tabs),
        herdr::focused_id(tabs) == Some(second),
        herdr::lists(tabs, first),
        world3.keeps(
            left_behind(
                Doing::ListTabs { workspace_id, request: Requested::Focused { tab_id: second } },
                world2,
                world2.read->Ok_0,
            ),
        ),
    ensures
        focus_asked(Doing::ListTabs { workspace_id, request: Requested::Toggle }, world3) == Some(
            first,
        ),
{
    focused_run_remembers(workspace_id, first, world1, saved);
    focused_run_remembers(workspace_id, second, world2, world2.read->Ok_0);
    toggle_goes_back(saved.memory_of(workspace_id), first, second, tabs);
    toggle_run_asks_for_the_last_tab(workspace_id, tabs, world3, world3.read->Ok_0);
}

/// From a tab that was remembered as the current one, two toggles with a focus event in
/// between go to the last tab and back again.
pub proof fn toggles_go_back_and_forth(
    workspace_id: Seq<char>,
    current: Seq<char>,
    last: Seq<char>,
    tabs1: Seq<herdr::Listed>,
    tabs3: Seq<herdr::Listed>,
    saved: Saved,
    world1: World,
    world2: World,
    world3: World,
)
    requires
        saved.memory_of(workspace_id) == (Remembered::Current { current, last: Some(last) }),
        (world1.tabs)(workspace_id) == Ok::<Seq<herdr::Listed>, Seq<char>>(tabs1),
        herdr::focused_id(tabs1) == Some(current),
        herdr::lists(tabs1, last),
        world1.keeps(saved),
        (world2.tabs)(workspace_id) matches Ok(tabs2) && herdr::focused_id(tabs2) == Some(last),
        world2.keeps(
            left_behind(
                Doing::ListTabs { workspace_id, request: Requested::Toggle },
                world1,
                saved,
            ),
        ),
        (world3.tabs)(workspace_id) == Ok::<Seq<herdr::Listed>, Seq<char>>(tabs3),
        herdr::focused_id(tabs3) == Some(last),
        herdr::lists(tabs3, current),
        world3.keeps(
            left_behind(
                Doing::ListTabs { workspace_id, request: Requested::Focused { tab_id: last } },
                world2,
                world2.read->Ok_0,
            ),
        ),
    ensures
        focus_asked(Doing::ListTabs { workspace_id, request: Requested::Toggle }, world1) == Some(
            last,
        ),
        focus_asked(Doing::ListTabs { workspace_id, request: Requested::Toggle }, world3) == Some(
            current,
        ),
{
    kept_memory_is_valid(saved, workspace_id);
    toggle_run_asks_for_the_last_tab(workspace_id, tabs1, world1, saved);
    focused_run_remembers(workspace_id, last, world2, saved);
    toggle_run_asks_for_the_last_tab(workspace_id, tabs3, world3, world3.read->Ok_0);
}

/// The workspace that a run is for: the one that is named, or else the one that has the
/// focus.
pub open spec fn workspace_of_run(named: Option<Seq<char>>, world: World) -> Option<Seq<char>> {
    match (named, world.workspaces) {
        (Some(workspace_id), _) => Some(workspace_id),
        (None, Ok(workspaces)) => herdr::focused_id(workspaces),
        (None, Err(_)) => None,
    }
}

/// Whether two states store the same for a workspace, or both store nothing for it.
pub open spec fn agree_on(left: Saved, right: Saved, workspace_id: Seq<char>) -> bool {
    &&& left.workspaces.contains_key(workspace_id) == right.workspaces.contains_key(workspace_id)
    &&& left.workspaces.contains_key(workspace_id) ==> left.workspaces[workspace_id]
        == right.workspaces[workspace_id]
}

/// A run leaves what is stored for every workspace but its own alone, and so what is
/// remembered of it, whatever the answers.
pub proof fn runs_are_isolated(
    request: Requested,
    named: Option<Seq<char>>,
    world: World,
    saved: Saved,
    other: Seq<char>,
)
    requires
        workspace_of_run(named, world) != Some(other),
        world.read matches Ok(read) ==> read == saved,
    ensures
        agree_on(left_behind(Doing::begin(request, named), world, saved), saved, other),
        left_behind(Doing::begin(request, named), world, saved).memory_of(other)
            == saved.memory_of(other),
{
    reveal_with_fuel(write_asked, 9);
    let listing = match named {
        Some(_) => Doing::begin(request, named),
        None => after(Doing::begin(request, named), world),
    };
    if let Doing::CreateStateDir { change } = after(listing, world) {
        assert(workspace_of_run(named, world) == Some(change.workspace_id()));
        workspaces_are_isolated(saved, change, world.now_ms, other);
    }
}

/// A run in one workspace is not disturbed by a run for another that comes before it,
/// whatever the answers to that one: it asks for the same tab, ends the same way, and
/// leaves the same stored for its workspace. So a toggle goes where it would have gone.
pub proof fn other_workspaces_do_not_disturb(
    workspace_id: Seq<char>,
    request: Requested,
    saved: Saved,
    other_request: Requested,
    other_named: Option<Seq<char>>,
    between: World,
    undisturbed: World,
    disturbed: World,
)
    requires
        workspace_of_run(other_named, between) != Some(workspace_id),
        between.read matches Ok(read) ==> read == saved,
        (undisturbed.tabs)(workspace_id) == (disturbed.tabs)(workspace_id),
        undisturbed.keeps(saved),
        disturbed.keeps(left_behind(Doing::begin(other_request, other_named), between, saved)),
    ensures
        ({
            let doing = Doing::ListTabs { workspace_id, request };
            &&& focus_asked(doing, disturbed) == focus_asked(doing, undisturbed)
            &&& undisturbed.focus == disturbed.focus ==> outcome(doing, disturbed) == outcome(
                doing,
                undisturbed,
            )
            &&& agree_on(
                left_behind(doing, disturbed, disturbed.read->Ok_0),
                left_behind(doing, undisturbed, saved),
                workspace_id,
            )
        }),
{
    let found = disturbed.read->Ok_0;
    let doing = Doing::ListTabs { workspace_id, request };
    runs_are_isolated(other_request, other_named, between, saved, workspace_id);
    if let Doing::CreateStateDir { change } = after(doing, undisturbed) {
        lemma_update(change, undisturbed, saved);
        lemma_update(change, disturbed, found);
        only_real_changes_are_written(saved, change, undisturbed.now_ms);
        only_real_changes_are_written(found, change, disturbed.now_ms);
        assert(after(doing, disturbed) == after(doing, undisturbed));
    } else {
        reveal_with_fuel(write_asked, 3);
        reveal_with_fuel(focus_asked, 3);
        reveal_with_fuel(outcome, 3);
    }
}

/// A second run for a tab that got the focus, after a first one that was heard of and
/// kept, ends well and leaves the state exactly as it is.
pub proof fn repeated_focus_run_changes_nothing(
    workspace_id: Seq<char>,
    tab_id: Seq<char>,
    saved: Saved,
    world1: World,
    world2: World,
)
    requires
        tab_id.len() > 0 || saved.memory_of(workspace_id) is Empty,
        (world1.tabs)(workspace_id) matches Ok(tabs1) && herdr::focused_id(tabs1) == Some(tab_id),
        world1.keeps(saved),
        (world2.tabs)(workspace_id) matches Ok(tabs2) && herdr::focused_id(tabs2) == Some(tab_id),
        world2.keeps(
            left_behind(
                Doing::ListTabs { workspace_id, request: Requested::Focused { tab_id } },
                world1,
                saved,
            ),
        ),
    ensures
        ({
            let doing = Doing::ListTabs { workspace_id, request: Requested::Focused { tab_id } };
            let once = left_behind(doing, world1, saved);
            &&& outcome(doing, world2) == Ok::<(), Seq<char>>(())
            &&& focus_asked(doing, world2) is None
            &&& write_asked(doing, world2) is None
            &&& left_behind(doing, world2, once) == once
        }),
{
    let change = Changing::Focus { workspace_id, tab_id };
    lemma_update(change, world1, saved);
    lemma_update(change, world2, kept(saved, change, world1.now_ms));
    repeated_focus_writes_nothing(saved, workspace_id, tab_id, world1.now_ms, world2.now_ms);
}

/// A second run for a tab that was closed ends well and leaves what is remembered of the
/// workspace as it is. Where the tab is still remembered, because Herdr reported it as
/// the one that has the focus, it must do so again.
pub proof fn repeated_close_run_changes_nothing(
    workspace_id: Seq<char>,
    tab_id: Seq<char>,
    tabs1: Seq<herdr::Listed>,
    tabs2: Seq<herdr::Listed>,
    saved: Saved,
    world1: World,
    world2: World,
)
    requires
        (world1.tabs)(workspace_id) == Ok::<Seq<herdr::Listed>, Seq<char>>(tabs1),
        world1.keeps(saved),
        (world2.tabs)(workspace_id) == Ok::<Seq<herdr::Listed>, Seq<char>>(tabs2),
        world2.keeps(
            left_behind(
                Doing::ListTabs { workspace_id, request: Requested::Closed { tab_id } },
                world1,
                saved,
            ),
        ),
        world2.read->Ok_0.memory_of(workspace_id).mentions(tab_id) ==> herdr::focused_id(tabs2)
            == herdr::focused_id(tabs1),
    ensures
        ({
            let doing = Doing::ListTabs { workspace_id, request: Requested::Closed { tab_id } };
            let once = left_behind(doing, world1, saved);
            &&& outcome(doing, world2) == Ok::<(), Seq<char>>(())
            &&& focus_asked(doing, world2) is None
            &&& left_behind(doing, world2, once).memory_of(workspace_id) == once.memory_of(
                workspace_id,
            )
        }),
{
    let first = Changing::Close {
        workspace_id,
        closed_tab_id: tab_id,
        focused_tab_id: herdr::focused_id(tabs1),
    };
    let second = Changing::Close {
        workspace_id,
        closed_tab_id: tab_id,
        focused_tab_id: herdr::focused_id(tabs2),
    };
    let once = kept(saved, first, world1.now_ms);
    lemma_update(first, world1, saved);
    lemma_update(second, world2, once);
    only_real_changes_are_written(saved, first, world1.now_ms);
    only_real_changes_are_written(once, second, world2.now_ms);
}

/// A request that Herdr refuses ends the run with Herdr's words, and nothing is written
/// or focused.
pub proof fn refused_requests_end_the_run(
    request: Requested,
    workspace_id: Seq<char>,
    message: Seq<char>,
    world: World,
)
    ensures
        world.workspaces == Err::<Seq<herdr::Listed>, Seq<char>>(message) ==> {
            let doing = Doing::ListWorkspaces { request };
            &&& outcome(doing, world) == Err::<(), Seq<char>>(message)
            &&& write_asked(doing, world) is None
            &&& focus_asked(doing, world) is None
        },
        (world.tabs)(workspace_id) == Err::<Seq<herdr::Listed>, Seq<char>>(message) ==> {
            let doing = Doing::ListTabs { workspace_id, request };
            &&& outcome(doing, world) == Err::<(), Seq<char>>(message)
            &&& write_asked(doing, world) is None
            &&& focus_asked(doing, world) is None
        },
{
    reveal_with_fuel(write_asked, 3);
    reveal_with_fuel(focus_asked, 3);
    reveal_with_fuel(outcome, 3);
}

/// Where the state directory, the lock, the state or its writing fails, the run ends
/// with that error, and no tab is focused.
pub proof fn storage_failures_end_the_run(change: Changing, world: World)
    ensures
        ({
            let doing = Doing::CreateStateDir { change };
            let failure: Option<Seq<char>> = match (world.state_dir, world.lock, world.read) {
                (Err(message), _, _) => Some(message),
                (_, Err(message), _) => Some(message),
                (_, _, Err(message)) => Some(message),
                (_, _, Ok(saved)) => match (saved.to_write(change, world.now_ms), world.write) {
                    (Some(_), Err(message)) => Some(message),
                    _ => None,
                },
            };
            failure matches Some(message) ==> {
                &&& outcome(doing, world) == Err::<(), Seq<char>>(message)
                &&& focus_asked(doing, world) is None
            }
        }),
{
    reveal_with_fuel(focus_asked, 8);
    reveal_with_fuel(outcome, 8);
}

/// Where an event does not name its workspace, the one that has the focus is taken.
pub proof fn focused_workspace_stands_in(
    request: Requested,
    workspace_id: Seq<char>,
    workspaces: Seq<herdr::Listed>,
    world: World,
)
    requires
        world.workspaces == Ok::<Seq<herdr::Listed>, Seq<char>>(workspaces),
        herdr::focused_id(workspaces) == Some(workspace_id),
    ensures
        after(Doing::begin(request, None), world) == Doing::begin(request, Some(workspace_id)),
{
}

/// The ids that are taken from an event or a context are never empty.
pub proof fn event_ids_are_not_empty(tree: json::JsonTree)
    ensures
        json::tab_info(tree) matches Some((tab_id, workspace_id)) ==> tab_id.len() > 0 && (
        workspace_id matches Some(workspace_id) ==> workspace_id.len() > 0),
        json::text_at(tree, seq!["workspace_id"@]) matches Some(workspace_id)
            ==> workspace_id.len() > 0,
{
}

/// A command that fails is reported with the words that it printed, without the white
/// space around them: those on its error output, or else those on its output, or else
/// its exit status.
pub proof fn failed_commands_are_quoted(
    command: Seq<char>,
    stderr: Seq<char>,
    stdout: Seq<char>,
    output: herdr::CommandOutput,
)
    requires
        output.stderr@ == vstd::utf8::encode_utf8(stderr),
        output.stdout@ == vstd::utf8::encode_utf8(stdout),
    ensures
        herdr::command_failure_text(command, output) == command + " failed: "@ + (if text::trimmed(
            stderr,
        ).len() > 0 {
            text::trimmed(stderr)
        } else if text::trimmed(stdout).len() > 0 {
            text::trimmed(stdout)
        } else {
            output.status@
        }),
{
    vstd::utf8::encode_utf8_valid_utf8(stderr);
    vstd::utf8::encode_utf8_decode_utf8(stderr);
    vstd::utf8::encode_utf8_valid_utf8(stdout);
    vstd::utf8::encode_utf8_decode_utf8(stdout);
}

// Writing the state file.

/// How many things writing a state may still have to do.
pub open spec fn writes_left(step: Writing) -> nat {
    match step {
        Writing::CreateParent => 7,
        Writing::CreateTemp => 6,
        Writing::Serialize => 5,
        Writing::EndLine => 4,
        Writing::Sync => 3,
        Writing::Replace => 2,
        Writing::RemoveTemp(_) => 1,
        Writing::Done(_) => 0,
    }
}

/// What comes of writing a state, given how each operation goes.
pub open spec fn write_outcome(
    step: Writing,
    answers: spec_fn(Writing) -> Result<(), Seq<char>>,
    paths: WritePaths,
) -> Result<(), Seq<char>>
    decreases writes_left(step),
{
    match step {
        Writing::Done(outcome) => outcome,
        _ => write_outcome(step.next(answers(step), paths), answers, paths),
    }
}

/// Whether an operation is reached, given how each one goes.
pub open spec fn write_reaches(
    step: Writing,
    answers: spec_fn(Writing) -> Result<(), Seq<char>>,
    paths: WritePaths,
    goal: Writing,
) -> bool
    decreases writes_left(step),
{
    step == goal || match step {
        Writing::Done(_) => false,
        _ => write_reaches(step.next(answers(step), paths), answers, paths, goal),
    }
}

/// Writing a state works exactly if each of its operations does, and otherwise ends with
/// the error of the first that does not.
pub proof fn first_failure_ends_the_write(
    answers: spec_fn(Writing) -> Result<(), Seq<char>>,
    paths: WritePaths,
)
    ensures
        write_outcome(Writing::CreateParent, answers, paths) == (match (
            answers(Writing::CreateParent),
            answers(Writing::CreateTemp),
            answers(Writing::Serialize),
            answers(Writing::EndLine),
            answers(Writing::Sync),
            answers(Writing::Replace),
        ) {
            (Err(error), _, _, _, _, _) => Err::<(), Seq<char>>(
                Writing::CreateParent.failure(error, paths),
            ),
            (_, Err(error), _, _, _, _) => Err(Writing::CreateTemp.failure(error, paths)),
            (_, _, Err(error), _, _, _) => Err(Writing::Serialize.failure(error, paths)),
            (_, _, _, Err(error), _, _) => Err(Writing::EndLine.failure(error, paths)),
            (_, _, _, _, Err(error), _) => Err(Writing::Sync.failure(error, paths)),
            (_, _, _, _, _, Err(error)) => Err(Writing::Replace.failure(error, paths)),
            _ => Ok(()),
        }),
{
    reveal_with_fuel(write_outcome, 9);
}

/// The old state is replaced only by a new one that was written whole and stored: before
/// the renaming is tried, every operation before it has worked. And the write is
/// reported as done only if the renaming worked.
pub proof fn only_whole_files_replace_the_state(
    answers: spec_fn(Writing) -> Result<(), Seq<char>>,
    paths: WritePaths,
)
    ensures
        write_reaches(Writing::CreateParent, answers, paths, Writing::Replace) <==> answers(
            Writing::CreateParent,
        ) is Ok && answers(Writing::CreateTemp) is Ok && answers(Writing::Serialize) is Ok
            && answers(Writing::EndLine) is Ok && answers(Writing::Sync) is Ok,
        write_outcome(Writing::CreateParent, answers, paths) is Ok <==> write_reaches(
            Writing::CreateParent,
            answers,
            paths,
            Writing::Replace,
        ) && answers(Writing::Replace) is Ok,
{
    reveal_with_fuel(write_outcome, 9);
    reveal_with_fuel(write_reaches, 9);
}

/// The two files that writing a state works on, with what is in them where they are
/// there: the temporary file and the state file.
pub struct Files {
    pub temp: Option<Seq<char>>,
    pub target: Option<Seq<char>>,
}

impl Files {
    /// The temporary file with more text at its end.
    pub open spec fn appended(self, text: Seq<char>) -> Files {
        Files {
            temp: match self.temp {
                Some(contents) => Some(contents + text),
                None => None,
            },
            ..self
        }
    }

    /// The files after an operation was tried. `encoded` is the text of the new state,
    /// and `partial` is what reaches the temporary file of a text whose writing fails.
    pub open spec fn after(
        self,
        step: Writing,
        answer: Result<(), Seq<char>>,
        encoded: Seq<char>,
        partial: Seq<char>,
    ) -> Files {
        match (step, answer) {
            (Writing::CreateTemp, Ok(())) => Files { temp: Some(Seq::empty()), ..self },
            (Writing::Serialize, Ok(())) => self.appended(encoded),
            (Writing::EndLine, Ok(())) => self.appended("\n"@),
            (Writing::Serialize, Err(_)) | (Writing::EndLine, Err(_)) => self.appended(partial),
            (Writing::Replace, Ok(())) => Files { temp: None, target: self.temp },
            (Writing::RemoveTemp(_), Ok(())) => Files { temp: None, ..self },
            _ => self,
        }
    }
}

/// The files after a state was written, or as much of that was done as could be.
pub open spec fn files_after_write(
    step: Writing,
    answers: spec_fn(Writing) -> Result<(), Seq<char>>,
    paths: WritePaths,
    encoded: Seq<char>,
    partial: Seq<char>,
    files: Files,
) -> Files
    decreases writes_left(step),
{
    match step {
        Writing::Done(_) => files,
        _ => files_after_write(
            step.next(answers(step), paths),
            answers,
            paths,
            encoded,
            partial,
            files.after(step, answers(step), encoded, partial),
        ),
    }
}

/// A write that is reported as done leaves the new state in the state file, whatever was
/// there before, and no temporary file. One that fails leaves the state file as it was.
pub proof fn state_file_is_replaced_or_kept(
    answers: spec_fn(Writing) -> Result<(), Seq<char>>,
    paths: WritePaths,
    encoded: Seq<char>,
    partial: Seq<char>,
    files: Files,
)
    ensures
        ({
            let written = files_after_write(
                Writing::CreateParent,
                answers,
                paths,
                encoded,
                partial,
                files,
            );
            match write_outcome(Writing::CreateParent, answers, paths) {
                Ok(()) => written == (Files { temp: None, target: Some(encoded + "\n"@) }),
                Err(_) => written.target == files.target,
            }
        }),
{
    reveal_with_fuel(write_outcome, 9);
    reveal_with_fuel(files_after_write, 9);
    assert(Seq::<char>::empty() + encoded =~= encoded);
}

/// A temporary file stays behind only where a text could not be written to it or it could
/// not be stored, or where neither renaming nor removing it worked.
pub proof fn failed_renaming_removes_the_temporary_file(
    answers: spec_fn(Writing) -> Result<(), Seq<char>>,
    paths: WritePaths,
    encoded: Seq<char>,
    partial: Seq<char>,
    files: Files,
)
    requires
        files.temp is None,
        answers(Writing::Serialize) is Ok,
        answers(Writing::EndLine) is Ok,
        answers(Writing::Sync) is Ok,
        answers(Writing::Replace) matches Err(error) ==> answers(
            Writing::RemoveTemp(Writing::Replace.failure(error, paths)),
        ) is Ok,
    ensures
        files_after_write(
            Writing::CreateParent,
            answers,
            paths,
            encoded,
            partial,
            files,
        ).temp is None,
{
    reveal_with_fuel(files_after_write, 9);
}

/// What was written is read back: after a write that is reported as done, a read of the
/// state file gives the state that was written, whatever was there before. Here `encoded`
/// is a text of that state: with a line feed after it, `decode` finds that state in it.
pub proof fn written_state_is_read_back<F: FnOnce(String) -> Option<PersistedState>>(
    saved: Saved,
    encoded: Seq<char>,
    decode: F,
    answers: spec_fn(Writing) -> Result<(), Seq<char>>,
    paths: WritePaths,
    partial: Seq<char>,
    files: Files,
    contents: String,
    read: Result<Saved, Seq<char>>,
)
    requires
        forall|text: String, decoded: Option<PersistedState>|
            text@ == encoded + "\n"@ && #[trigger] decode.ensures((text,), decoded) ==> (
            decoded matches Some(state) && state@ == saved),
        write_outcome(Writing::CreateParent, answers, paths) is Ok,
        files_after_write(
            Writing::CreateParent,
            answers,
            paths,
            encoded,
            partial,
            files,
        ).target == Some(contents@),
        storage::state_read(FileRead::Contents(contents), decode, read),
    ensures
        read == Ok::<Saved, Seq<char>>(saved),
{
    state_file_is_replaced_or_kept(answers, paths, encoded, partial, files);
    decoded_state_is_read(contents, decode, saved, read);
}

proof fn lemma_decimal_has_no_dot(n: nat)
    ensures
        text::decimal(n).len() > 0,
        forall|i: int| 0 <= i < text::decimal(n).len() ==> #[trigger] text::decimal(n)[i] != '.',
    decreases n,
{
    if n >= 10 {
        lemma_decimal_has_no_dot(n / 10);
    }
}

proof fn lemma_decimal_injective(a: nat, b: nat)
    requires
        text::decimal(a) == text::decimal(b),
    ensures
        a == b,
    decreases a,
{
    let left = text::decimal(a);
    let right = text::decimal(b);
    if a >= 10 {
        lemma_decimal_has_no_dot(a / 10);
    }
    if b >= 10 {
        lemma_decimal_has_no_dot(b / 10);
    }
    assert(left.last() == right.last());
    if a >= 10 && b >= 10 {
        assert(left.drop_last() =~= text::decimal(a / 10));
        assert(right.drop_last() =~= text::decimal(b / 10));
        lemma_decimal_injective(a / 10, b / 10);
    }
}

proof fn lemma_split_at_dot(a: Seq<char>, b: Seq<char>, c: Seq<char>, d: Seq<char>)
    requires
        forall|i: int| 0 <= i < a.len() ==> #[trigger] a[i] != '.',
        forall|i: int| 0 <= i < c.len() ==> #[trigger] c[i] != '.',
        a + seq!['.'] + b == c + seq!['.'] + d,
    ensures
        a == c,
        b == d,
{
    let left = a + seq!['.'] + b;
    let right = c + seq!['.'] + d;
    assert(left[a.len() as int] == '.');
    assert(right[c.len() as int] == '.');
    if a.len() < c.len() {
        assert(right[a.len() as int] == c[a.len() as int]);
    }
    if c.len() < a.len() {
        assert(left[c.len() as int] == a[c.len() as int]);
    }
    assert forall|i: int| 0 <= i < a.len() implies a[i] == c[i] by {
        assert(left[i] == a[i] && right[i] == c[i]);
    }
    assert(a =~= c);
    assert(left.len() == a.len() + 1 + b.len());
    assert(right.len() == a.len() + 1 + d.len());
    assert forall|i: int| 0 <= i < b.len() implies b[i] == d[i] by {
        assert(left[a.len() + 1 + i] == b[i] && right[a.len() + 1 + i] == d[i]);
    }
    assert(b =~= d);
}

/// Two processes, or one process at two times, never write to the same temporary file.
pub proof fn temp_names_are_distinct(pid1: u32, ms1: u64, pid2: u32, ms2: u64)
    requires
        storage::temp_name(pid1, ms1) == storage::temp_name(pid2, ms2),
    ensures
        pid1 == pid2,
        ms1 == ms2,
{
    reveal_strlit(".");
    let start = "."@ + storage::STATE_FILE_NAME@ + ".tmp."@;
    let (p1, m1) = (text::decimal(pid1 as nat), text::decimal(ms1 as nat));
    let (p2, m2) = (text::decimal(pid2 as nat), text::decimal(ms2 as nat));
    let (name1, name2) = (storage::temp_name(pid1, ms1), storage::temp_name(pid2, ms2));
    assert("."@ =~= seq!['.']);
    let n = start.len() as int;
    assert(name1.skip(n) =~= p1 + seq!['.'] + m1);
    assert(name2.skip(n) =~= p2 + seq!['.'] + m2);
    lemma_decimal_has_no_dot(pid1 as nat);
    lemma_decimal_has_no_dot(pid2 as nat);
    lemma_split_at_dot(p1, m1, p2, m2);
    lemma_decimal_injective(pid1 as nat, pid2 as nat);
    lemma_decimal_injective(ms1 as nat, ms2 as nat);
}

/// The temporary file is never the state file itself.
pub proof fn temp_name_is_not_the_state_file(process_id: u32, now_ms: u64)
    ensures
        storage::temp_name(process_id, now_ms) != storage::STATE_FILE_NAME@,
{
    reveal_strlit(".");
    reveal_strlit("state.json");
    assert(storage::temp_name(process_id, now_ms)[0] == '.');
}

// The command line.

/// A command line is accepted exactly if it is one of the three subcommands, and
/// whatever else it is, the user is told how to use it.
pub proof fn refused_command_lines_show_the_usage(args: Seq<Seq<char>>)
    ensures
        command::parsed(args) is Ok <==> args.len() == 1 && (args[0] == "toggle"@ || args[0]
            == "focused"@ || args[0] == "closed"@),
        command::parsed(args) matches Err(message) ==> exists|start: Seq<char>|
            message == #[trigger] (start + command::usage_text()),
{
    if let Err(message) = command::parsed(args) {
        if message == command::usage_text() {
            assert(message =~= Seq::<char>::empty() + command::usage_text());
        } else {
            let start = "unknown subcommand: "@ + args[0] + "\n"@;
            assert(message == start + command::usage_text());
        }
    }
}

} // verus!
