//! The steps of a run.

use crate::clock;
use crate::command::Subcommand;
use crate::conduct;
use crate::conduct::{lists, words, writes};
use crate::error::{IoFailure, PluginError};
use crate::herdr::{TabSnapshot, WorkspaceSnapshot};
use crate::json::{parse_context_workspace_id, parse_event_tab_info};
use crate::session::{
    closed, closed_tab, focused, focused_tab, run, toggle, toggle_in, Action, AfterFocus, AfterLock,
    AfterRead, AfterStateDir, AfterTabs, AfterUnlock, AfterWorkspaces, AfterWrite, Doing, Request,
    RuntimeEnv,
};
use crate::state::{Change, PersistedState, StateStore, Update};
use crate::storage;
use crate::storage::LockFailure;
use std::time::SystemTime;
use vstd::prelude::*;

verus! {

/// Whether two requests are for the same.
pub open spec fn same_request(left: Request, right: Request) -> bool {
    match (left, right) {
        (Request::Toggle, Request::Toggle) => true,
        (Request::Focused { tab_id }, Request::Focused { tab_id: other }) => tab_id@ == other@,
        (Request::Closed { tab_id }, Request::Closed { tab_id: other }) => tab_id@ == other@,
        _ => false,
    }
}

/// Whether two changes are the same.
pub open spec fn same_change(left: Change, right: Change) -> bool {
    match (left, right) {
        (
            Change::Toggle { workspace_id, current_tab_id, tabs },
            Change::Toggle { workspace_id: w, current_tab_id: c, tabs: t },
        ) => workspace_id@ == w@ && current_tab_id@ == c@ && lists::same_tabs(tabs.tabs@, t.tabs@),
        (
            Change::Focus { workspace_id, tab_id },
            Change::Focus { workspace_id: w, tab_id: t },
        ) => workspace_id@ == w@ && tab_id@ == t@,
        (
            Change::Close { workspace_id, closed_tab_id, focused_tab_id },
            Change::Close { workspace_id: w, closed_tab_id: c, focused_tab_id: f },
        ) => workspace_id@ == w@ && closed_tab_id@ == c@ && conduct::chars(focused_tab_id)
            == conduct::chars(f),
        _ => false,
    }
}

proof fn lemma_same_change(left: Change, right: Change)
    requires
        left@ == right@,
    ensures
        same_change(left, right),
{
    if let Change::Toggle { tabs, .. } = left {
        if let Change::Toggle { tabs: others, .. } = right {
            lists::lemma_same_tabs(tabs, others);
        }
    }
}

/// Whether this is the end of a run in which all went well.
pub open spec fn ends_well(action: Action) -> bool {
    action matches Action::Finish { outcome } && outcome is Ok
}

/// Whether this is the end of a run with an error.
pub open spec fn ends_with(action: Action, message: Seq<char>) -> bool {
    action matches Action::Finish { outcome } && (outcome matches Err(error) && error@ == message)
}

/// Whether a request is that of a subcommand, for a tab where it is about one.
pub open spec fn is_request(request: Request, subcommand: Subcommand, tab_id: Seq<char>) -> bool {
    match subcommand {
        Subcommand::Toggle => request is Toggle,
        Subcommand::Focused => request matches Request::Focused { tab_id: id } && id@ == tab_id,
        Subcommand::Closed => request matches Request::Closed { tab_id: id } && id@ == tab_id,
    }
}

/// Whether this is the first step for a subcommand: to list the tabs of the workspace that
/// is named, or else to list the workspaces.
pub open spec fn begins(
    action: Action,
    subcommand: Subcommand,
    tab_id: Seq<char>,
    named: Option<String>,
) -> bool {
    if named is Some {
        action matches Action::ListTabs { next } && next.workspace_id@ == named->0@ && is_request(
            next.request,
            subcommand,
            tab_id,
        )
    } else {
        action matches Action::ListWorkspaces { next } && is_request(
            next.request,
            subcommand,
            tab_id,
        )
    }
}

/// Whether this is the first step for an event: there is nothing to do for one that is
/// about no tab.
pub open spec fn begins_event(
    action: Action,
    subcommand: Subcommand,
    info: Option<(String, Option<String>)>,
) -> bool {
    match info {
        Some((tab_id, named)) => begins(action, subcommand, tab_id@, named),
        None => ends_well(action),
    }
}

/// A run lists the tabs of the workspace that is named, or else the workspaces; an event
/// that is about no tab is nothing to do.
pub proof fn runs_begin(
    named: Option<String>,
    info: Option<(String, Option<String>)>,
    toggling: Action,
    focusing: Action,
    closing: Action,
)
    requires
        call_ensures(toggle_in, (named,), toggling),
        call_ensures(focused_tab, (info,), focusing),
        call_ensures(closed_tab, (info,), closing),
    ensures
        begins(toggling, Subcommand::Toggle, Seq::empty(), named),
        begins_event(focusing, Subcommand::Focused, info),
        begins_event(closing, Subcommand::Closed, info),
{
}

/// `toggle` begins in the workspace that the context names.
pub proof fn toggles_begin_in_the_context(
    runtime: &RuntimeEnv,
    raw: &str,
    named: Option<String>,
    action: Action,
)
    requires
        call_ensures(toggle, (runtime,), action),
        runtime.context_json matches Some(text) ==> text@ == raw@ && call_ensures(
            parse_context_workspace_id,
            (raw,),
            named,
        ),
        runtime.context_json is None ==> named is None,
    ensures
        begins(action, Subcommand::Toggle, Seq::empty(), named),
{
}

/// `focused` and `closed` begin with the tab that the event is about.
pub proof fn events_begin_with_their_tab(
    runtime: &RuntimeEnv,
    raw: &str,
    info: Option<(String, Option<String>)>,
    focusing: Action,
    closing: Action,
)
    requires
        call_ensures(focused, (runtime,), focusing),
        call_ensures(closed, (runtime,), closing),
        runtime.event_json matches Some(text) ==> text@ == raw@ && call_ensures(
            parse_event_tab_info,
            (raw,),
            info,
        ),
        runtime.event_json is None ==> info is None,
    ensures
        begins_event(focusing, Subcommand::Focused, info),
        begins_event(closing, Subcommand::Closed, info),
{
}

/// `run` begins as the subcommand asks: a toggle in the workspace that the context names,
/// and the others with the tab that the event is about.
pub proof fn subcommands_are_run(
    subcommand: Subcommand,
    runtime: &RuntimeEnv,
    context: &str,
    named: Option<String>,
    event: &str,
    info: Option<(String, Option<String>)>,
    action: Action,
)
    requires
        call_ensures(run, (subcommand, runtime), action),
        runtime.context_json matches Some(text) ==> text@ == context@ && call_ensures(
            parse_context_workspace_id,
            (context,),
            named,
        ),
        runtime.context_json is None ==> named is None,
        runtime.event_json matches Some(text) ==> text@ == event@ && call_ensures(
            parse_event_tab_info,
            (event,),
            info,
        ),
        runtime.event_json is None ==> info is None,
    ensures
        subcommand is Toggle ==> begins(action, subcommand, Seq::empty(), named),
        !(subcommand is Toggle) ==> begins_event(action, subcommand, info),
{
}

/// After the workspaces were listed, a run goes on with the first one that has the focus,
/// wherever it stands in the list. It ends well exactly if none has.
pub proof fn runs_go_on_in_the_focused_workspace(
    after: AfterWorkspaces,
    listed: Result<WorkspaceSnapshot, PluginError>,
    action: Action,
    i: int,
)
    requires
        call_ensures(AfterWorkspaces::resume, (after, listed), action),
    ensures
        listed matches Err(error) ==> ends_with(action, error@),
        listed matches Ok(snapshot) ==> 0 <= i < snapshot.workspaces@.len()
            && snapshot.workspaces@[i].focused && (forall|j: int|
            0 <= j < i ==> !(#[trigger] snapshot.workspaces@[j]).focused) ==> (
        action matches Action::ListTabs { next } && next.workspace_id@
            == snapshot.workspaces@[i].workspace_id@ && same_request(next.request, after.request)),
        listed matches Ok(snapshot) ==> (forall|j: int|
            0 <= j < snapshot.workspaces@.len() ==> !(#[trigger] snapshot.workspaces@[j]).focused)
            ==> ends_well(action),
{
    if let Ok(snapshot) = listed {
        lists::no_focused_entry_no_focused_id(snapshot@);
        assert forall|j: int| 0 <= j < snapshot@.len() implies (#[trigger] snapshot@[j]).focused
            == snapshot.workspaces@[j].focused by {}
        if 0 <= i < snapshot.workspaces@.len() && snapshot.workspaces@[i].focused && (forall|
            j: int,
        |
            0 <= j < i ==> !(#[trigger] snapshot.workspaces@[j]).focused) {
            lists::first_focused_entry_counts(snapshot@, i);
        }
    }
}

/// Whether a tab is the first that has the focus.
pub open spec fn in_focus(snapshot: TabSnapshot, i: int) -> bool {
    &&& 0 <= i < snapshot.tabs@.len()
    &&& snapshot.tabs@[i].focused
    &&& forall|j: int| 0 <= j < i ==> !(#[trigger] snapshot.tabs@[j]).focused
}

/// Whether no tab has the focus.
pub open spec fn none_in_focus(snapshot: TabSnapshot) -> bool {
    forall|j: int| 0 <= j < snapshot.tabs@.len() ==> !(#[trigger] snapshot.tabs@[j]).focused
}

proof fn lemma_in_focus(snapshot: TabSnapshot, i: int)
    ensures
        in_focus(snapshot, i) ==> crate::herdr::focused_id(snapshot@) == Some(
            snapshot.tabs@[i].tab_id@,
        ),
        none_in_focus(snapshot) ==> crate::herdr::focused_id(snapshot@) is None,
{
    assert forall|j: int| 0 <= j < snapshot@.len() implies (#[trigger] snapshot@[j]).focused
        == snapshot.tabs@[j].focused by {}
    if in_focus(snapshot, i) {
        lists::first_focused_entry_counts(snapshot@, i);
    }
    lists::no_focused_entry_no_focused_id(snapshot@);
}

/// A run whose tabs could not be listed ends with that error.
pub proof fn unlisted_tabs_end_the_run(after: AfterTabs, error: PluginError, action: Action)
    requires
        call_ensures(AfterTabs::resume, (after, Err(error)), action),
    ensures
        ends_with(action, error@),
{
}

/// A toggle goes on with the tab in focus and all the tabs of the workspace. It ends well
/// where no tab has the focus.
pub proof fn toggles_go_on_from_the_tab_in_focus(
    after: AfterTabs,
    snapshot: TabSnapshot,
    action: Action,
    i: int,
)
    requires
        call_ensures(AfterTabs::resume, (after, Ok(snapshot)), action),
        after.request is Toggle,
    ensures
        in_focus(snapshot, i) ==> (action matches Action::CreateStateDir { next } && (
        next.change matches Change::Toggle { workspace_id, current_tab_id, tabs } && workspace_id@
            == after.workspace_id@ && current_tab_id@ == snapshot.tabs@[i].tab_id@
            && lists::same_tabs(tabs.tabs@, snapshot.tabs@))),
        none_in_focus(snapshot) ==> ends_well(action),
{
    lemma_in_focus(snapshot, i);
    if in_focus(snapshot, i) {
        if let Action::CreateStateDir { next } = action {
            if let Change::Toggle { tabs, .. } = next.change {
                lists::lemma_same_tabs(tabs, snapshot);
            }
        }
    }
}

/// A tab that is said to have got the focus is taken note of exactly if it is the tab in
/// focus. Otherwise the run ends well.
pub proof fn focus_counts_while_it_lasts(
    after: AfterTabs,
    tab_id: String,
    snapshot: TabSnapshot,
    action: Action,
    i: int,
)
    requires
        call_ensures(AfterTabs::resume, (after, Ok(snapshot)), action),
        after.request == (Request::Focused { tab_id }),
    ensures
        in_focus(snapshot, i) && snapshot.tabs@[i].tab_id@ == tab_id@ ==> (
        action matches Action::CreateStateDir { next } && (
        next.change matches Change::Focus { workspace_id, tab_id: id } && workspace_id@
            == after.workspace_id@ && id@ == tab_id@)),
        in_focus(snapshot, i) && snapshot.tabs@[i].tab_id@ != tab_id@ ==> ends_well(action),
        none_in_focus(snapshot) ==> ends_well(action),
{
    lemma_in_focus(snapshot, i);
}

/// A tab that was closed is taken note of, with the tab in focus or none.
pub proof fn closed_tabs_are_taken_note_of(
    after: AfterTabs,
    tab_id: String,
    snapshot: TabSnapshot,
    action: Action,
    i: int,
)
    requires
        call_ensures(AfterTabs::resume, (after, Ok(snapshot)), action),
        after.request == (Request::Closed { tab_id }),
    ensures
        action matches Action::CreateStateDir { next } && (
        next.change matches Change::Close { workspace_id, closed_tab_id, focused_tab_id }
            && workspace_id@ == after.workspace_id@ && closed_tab_id@ == tab_id@ && (in_focus(
            snapshot,
            i,
        ) ==> conduct::chars(focused_tab_id) == Some(snapshot.tabs@[i].tab_id@)) && (none_in_focus(
            snapshot,
        ) ==> focused_tab_id is None)),
{
    lemma_in_focus(snapshot, i);
}

/// A run goes on with the same change once the state directory is there, and ends with
/// the system's words where it is not.
pub proof fn state_directory_comes_first(
    after: AfterStateDir,
    created: Result<(), IoFailure>,
    action: Action,
)
    requires
        call_ensures(AfterStateDir::resume, (after, created), action),
    ensures
        created is Ok ==> (action matches Action::LockState { next } && same_change(
            next.change,
            after.change,
        )),
        created matches Err(io) ==> ends_with(
            action,
            "failed to create plugin state directory "@ + io.path@ + ": "@ + io.error@,
        ),
{
    if let Action::LockState { next } = action {
        if created is Ok {
            lemma_same_change(next.change, after.change);
        }
    }
}

/// A run goes on with the same change once the state is locked, and ends with the
/// system's words where it is not.
pub proof fn lock_comes_before_the_state(
    after: AfterLock,
    locked: Result<(), LockFailure>,
    action: Action,
)
    requires
        call_ensures(AfterLock::resume, (after, locked), action),
    ensures
        locked is Ok ==> (action matches Action::ReadState { next } && same_change(
            next.change,
            after.change,
        )),
        locked matches Err(LockFailure::Open(io)) ==> ends_with(
            action,
            "failed to open plugin state lock "@ + io.path@ + ": "@ + io.error@,
        ),
        locked matches Err(LockFailure::Lock(io)) ==> ends_with(
            action,
            "failed to lock plugin state "@ + io.path@ + ": "@ + io.error@,
        ),
{
    if let Action::ReadState { next } = action {
        if locked is Ok {
            lemma_same_change(next.change, after.change);
        }
    }
}

/// Whether a run does what an update asks for: it writes the state that is to be written,
/// and unlocks otherwise, with the tab to focus in mind.
pub open spec fn does(action: Action, update: Update) -> bool {
    if update.write is Some {
        action matches Action::WriteState { state, next } && writes::same_state(
            state,
            update.write->0,
        ) && conduct::chars(next.target) == conduct::chars(update.target)
    } else {
        action matches Action::UnlockState { next } && (next.updated matches Ok(target)
            && conduct::chars(target) == conduct::chars(update.target))
    }
}

/// Whether a run does what the update of a state with a change asks for at a time.
pub open spec fn updates(
    action: Action,
    state: PersistedState,
    change: Change,
    now_ms: u64,
) -> bool {
    forall|store: StateStore, update: Update|
        call_ensures(StateStore::new, (state,), store) && #[trigger] call_ensures(
            StateStore::update,
            (&store, change, now_ms),
            update,
        ) ==> does(action, update)
}

/// After the state was read, a run does what the update of that state asks for. Where the
/// state could not be read, it unlocks with that error in mind.
pub proof fn states_are_updated(
    after: AfterRead,
    read: Result<PersistedState, PluginError>,
    now_ms: u64,
    action: Action,
)
    requires
        call_ensures(AfterRead::resume_at, (after, read, now_ms), action),
    ensures
        read matches Ok(state) ==> updates(action, state, after.change, now_ms),
        read matches Err(error) ==> (action matches Action::UnlockState { next } && (
        next.updated matches Err(kept) && kept@ == error@)),
{
}

/// The same holds at the time of some reading of the clock.
pub proof fn states_are_updated_now(
    after: AfterRead,
    read: Result<PersistedState, PluginError>,
    action: Action,
)
    requires
        call_ensures(AfterRead::resume, (after, read), action),
    ensures
        read matches Ok(state) ==> exists|time: SystemTime, now_ms: u64| #[trigger]
            words::reads(time, now_ms) && updates(action, state, after.change, now_ms),
        read matches Err(error) ==> (action matches Action::UnlockState { next } && (
        next.updated matches Err(kept) && kept@ == error@)),
{
    let time = choose|time: SystemTime|
        action@ == Doing::after_read(
            after.change@,
            storage::read_view(read),
            #[trigger] clock::unix_millis(time),
        );
    assert(words::reads(time, clock::unix_millis(time)));
}

/// After the state was written, a run unlocks with the tab to focus in mind, or with the
/// error where it was not written.
pub proof fn writes_are_followed_by_unlocking(
    after: AfterWrite,
    written: Result<(), PluginError>,
    action: Action,
)
    requires
        call_ensures(AfterWrite::resume, (after, written), action),
    ensures
        written is Ok ==> (action matches Action::UnlockState { next } && (
        next.updated matches Ok(target) && conduct::chars(target) == conduct::chars(
            after.target,
        ))),
        written matches Err(error) ==> (action matches Action::UnlockState { next } && (
        next.updated matches Err(kept) && kept@ == error@)),
{
}

/// After the state was unlocked, a run focuses the tab that it has in mind, ends well
/// where there is none, and ends with the error that it has in mind.
pub proof fn unlocked_runs_focus_their_tab(after: AfterUnlock, action: Action)
    requires
        call_ensures(AfterUnlock::resume, (after,), action),
    ensures
        after.updated matches Ok(Some(target)) ==> (action matches Action::FocusTab { tab_id, .. }
            && tab_id@ == target@),
        after.updated matches Ok(None) ==> ends_well(action),
        after.updated matches Err(error) ==> ends_with(action, error@),
{
}

/// A run that focused its tab ends as that went.
pub proof fn runs_end_as_the_focus_went(
    after: AfterFocus,
    focused: Result<(), PluginError>,
    action: Action,
)
    requires
        call_ensures(AfterFocus::resume, (after, focused), action),
    ensures
        focused is Ok ==> ends_well(action),
        focused matches Err(error) ==> ends_with(action, error@),
{
}

} // verus!
