//! One run of the plugin, as a conversation with the outside: each answer leads to
//! the next thing to ask for, up to the outcome.
//!
//! An [`Action`] says what has to be done and carries what has to be told how it
//! went. The state is read, changed and written between locking and unlocking it,
//! and a tab is focused only after that.

use crate::clock;
use crate::clock::current_unix_ms;
use crate::command::Subcommand;
use crate::error;
use crate::error::{IoFailure, PluginError};
use crate::herdr;
use crate::herdr::{TabSnapshot, WorkspaceSnapshot};
use crate::json;
use crate::json::{parse_context_workspace_id, parse_event_tab_info};
use crate::state;
use crate::state::{Change, PersistedState, StateStore};
use crate::storage;
use crate::storage::LockFailure;
use crate::text;
use crate::text::same_text;
use vstd::prelude::*;

verus! {

/// What the environment says about why the plugin was called.
#[derive(Debug, Clone, PartialEq, Eq)]
pub struct RuntimeEnv {
    pub event_json: Option<String>,
    pub context_json: Option<String>,
}

/// What a run is for.
#[derive(Debug, Clone, PartialEq, Eq)]
pub enum Request {
    /// Go back to the last tab.
    Toggle,
    /// Take note that a tab got the focus.
    Focused { tab_id: String },
    /// Take note that a tab was closed.
    Closed { tab_id: String },
}

/// What a run is for, with ids as characters.
pub enum Requested {
    Toggle,
    Focused { tab_id: Seq<char> },
    Closed { tab_id: Seq<char> },
}

impl View for Request {
    type V = Requested;

    open spec fn view(&self) -> Requested {
        match self {
            Request::Toggle => Requested::Toggle,
            Request::Focused { tab_id } => Requested::Focused { tab_id: tab_id@ },
            Request::Closed { tab_id } => Requested::Closed { tab_id: tab_id@ },
        }
    }
}

/// Waits for the list of workspaces.
#[derive(Debug)]
pub struct AfterWorkspaces {
    pub request: Request,
}

/// Waits for the list of tabs.
#[derive(Debug)]
pub struct AfterTabs {
    pub request: Request,
    pub workspace_id: String,
}

/// Waits for the state directory.
#[derive(Debug)]
pub struct AfterStateDir {
    pub change: Change,
}

/// Waits for the lock.
#[derive(Debug)]
pub struct AfterLock {
    pub change: Change,
}

/// Waits for the state.
#[derive(Debug)]
pub struct AfterRead {
    pub change: Change,
}

/// Waits for the state to be written.
#[derive(Debug)]
pub struct AfterWrite {
    pub target: Option<String>,
}

/// Waits for the lock to be gone.
#[derive(Debug)]
pub struct AfterUnlock {
    pub updated: Result<Option<String>, PluginError>,
}

/// Waits for the tab to be focused.
#[derive(Debug)]
pub struct AfterFocus {}

/// The next thing to do.
#[derive(Debug)]
pub enum Action {
    /// Ask Herdr for the workspaces.
    ListWorkspaces { next: AfterWorkspaces },
    /// Ask Herdr for the tabs of the workspace that `next` is about.
    ListTabs { next: AfterTabs },
    /// Create the state directory.
    CreateStateDir { next: AfterStateDir },
    /// Lock the state.
    LockState { next: AfterLock },
    /// Read the state.
    ReadState { next: AfterRead },
    /// Write the state.
    WriteState { state: PersistedState, next: AfterWrite },
    /// Unlock the state.
    UnlockState { next: AfterUnlock },
    /// Ask Herdr to focus a tab.
    FocusTab { tab_id: String, next: AfterFocus },
    /// Nothing more: this is what came of the run.
    Finish { outcome: Result<(), PluginError> },
}

/// The next thing to do, with ids and messages as characters.
pub enum Doing {
    ListWorkspaces { request: Requested },
    ListTabs { workspace_id: Seq<char>, request: Requested },
    CreateStateDir { change: state::Changing },
    LockState { change: state::Changing },
    ReadState { change: state::Changing },
    WriteState { state: state::Saved, target: Option<Seq<char>> },
    UnlockState { updated: Result<Option<Seq<char>>, Seq<char>> },
    FocusTab { tab_id: Seq<char> },
    Finish { outcome: Result<(), Seq<char>> },
}

/// The tab to focus after an update, or the message of the error that came instead.
pub open spec fn updated_view(updated: Result<Option<String>, PluginError>) -> Result<
    Option<Seq<char>>,
    Seq<char>,
> {
    match updated {
        Ok(target) => Ok(text::opt_text(target)),
        Err(error) => Err(error@),
    }
}

impl View for Action {
    type V = Doing;

    open spec fn view(&self) -> Doing {
        match self {
            Action::ListWorkspaces { next } => Doing::ListWorkspaces { request: next.request@ },
            Action::ListTabs { next } => Doing::ListTabs {
                workspace_id: next.workspace_id@,
                request: next.request@,
            },
            Action::CreateStateDir { next } => Doing::CreateStateDir { change: next.change@ },
            Action::LockState { next } => Doing::LockState { change: next.change@ },
            Action::ReadState { next } => Doing::ReadState { change: next.change@ },
            Action::WriteState { state, next } => Doing::WriteState {
                state: state@,
                target: text::opt_text(next.target),
            },
            Action::UnlockState { next } => Doing::UnlockState {
                updated: updated_view(next.updated),
            },
            Action::FocusTab { tab_id, next } => Doing::FocusTab { tab_id: tab_id@ },
            Action::Finish { outcome } => Doing::Finish { outcome: error::unit_view(*outcome) },
        }
    }
}

impl Doing {
    /// The end of a run that had nothing to do, or all of whose work is done.
    pub open spec fn finished() -> Doing {
        Doing::Finish { outcome: Ok(()) }
    }

    /// The end of a run that failed.
    pub open spec fn failed(message: Seq<char>) -> Doing {
        Doing::Finish { outcome: Err(message) }
    }

    /// The start of a run for a workspace, or for the workspace that has the focus
    /// where none is named.
    pub open spec fn begin(request: Requested, workspace_id: Option<Seq<char>>) -> Doing {
        match workspace_id {
            Some(workspace_id) => Doing::ListTabs { workspace_id, request },
            None => Doing::ListWorkspaces { request },
        }
    }

    /// The start of a toggle.
    pub open spec fn begin_toggle(workspace_id: Option<Seq<char>>) -> Doing {
        Doing::begin(Requested::Toggle, workspace_id)
    }

    /// The start of a run for an event that says that a tab got the focus.
    pub open spec fn begin_focused(info: Option<(Seq<char>, Option<Seq<char>>)>) -> Doing {
        match info {
            Some((tab_id, workspace_id)) => Doing::begin(
                Requested::Focused { tab_id },
                workspace_id,
            ),
            None => Doing::finished(),
        }
    }

    /// The start of a run for an event that says that a tab was closed.
    pub open spec fn begin_closed(info: Option<(Seq<char>, Option<Seq<char>>)>) -> Doing {
        match info {
            Some((tab_id, workspace_id)) => Doing::begin(
                Requested::Closed { tab_id },
                workspace_id,
            ),
            None => Doing::finished(),
        }
    }

    /// After the workspaces were listed: on with the one that has the focus.
    pub open spec fn after_workspaces(
        request: Requested,
        listed: Result<Seq<herdr::Listed>, Seq<char>>,
    ) -> Doing {
        match listed {
            Err(message) => Doing::failed(message),
            Ok(workspaces) => match herdr::focused_id(workspaces) {
                Some(workspace_id) => Doing::ListTabs { workspace_id, request },
                None => Doing::finished(),
            },
        }
    }

    /// After the tabs of a workspace were listed: on with the update of the state. A
    /// toggle needs a tab that has the focus, and a tab that is said to have got the
    /// focus must still have it.
    pub open spec fn after_tabs(
        request: Requested,
        workspace_id: Seq<char>,
        listed: Result<Seq<herdr::Listed>, Seq<char>>,
    ) -> Doing {
        match listed {
            Err(message) => Doing::failed(message),
            Ok(tabs) => match request {
                Requested::Toggle => match herdr::focused_id(tabs) {
                    Some(current_tab_id) => Doing::CreateStateDir {
                        change: state::Changing::Toggle { workspace_id, current_tab_id, tabs },
                    },
                    None => Doing::finished(),
                },
                Requested::Focused { tab_id } => if herdr::focused_id(tabs) == Some(tab_id) {
                    Doing::CreateStateDir {
                        change: state::Changing::Focus { workspace_id, tab_id },
                    }
                } else {
                    Doing::finished()
                },
                Requested::Closed { tab_id } => Doing::CreateStateDir {
                    change: state::Changing::Close {
                        workspace_id,
                        closed_tab_id: tab_id,
                        focused_tab_id: herdr::focused_id(tabs),
                    },
                },
            },
        }
    }

    /// After the state directory was created.
    pub open spec fn after_state_dir(
        change: state::Changing,
        created: Result<(), Seq<char>>,
    ) -> Doing {
        match created {
            Ok(()) => Doing::LockState { change },
            Err(message) => Doing::failed(message),
        }
    }

    /// After the state was locked.
    pub open spec fn after_lock(change: state::Changing, locked: Result<(), Seq<char>>) -> Doing {
        match locked {
            Ok(()) => Doing::ReadState { change },
            Err(message) => Doing::failed(message),
        }
    }

    /// After the state was read, at a given time: on with writing it if the change
    /// changes anything.
    pub open spec fn after_read(
        change: state::Changing,
        read: Result<state::Saved, Seq<char>>,
        now_ms: u64,
    ) -> Doing {
        match read {
            Err(message) => Doing::UnlockState { updated: Err(message) },
            Ok(saved) => {
                let target = change.target(saved.memory_of(change.workspace_id()));
                match saved.to_write(change, now_ms) {
                    Some(state) => Doing::WriteState { state, target },
                    None => Doing::UnlockState { updated: Ok(target) },
                }
            },
        }
    }

    /// After the state was written.
    pub open spec fn after_write(
        target: Option<Seq<char>>,
        written: Result<(), Seq<char>>,
    ) -> Doing {
        match written {
            Ok(()) => Doing::UnlockState { updated: Ok(target) },
            Err(message) => Doing::UnlockState { updated: Err(message) },
        }
    }

    /// After the state was unlocked: on with the tab to focus, if there is one.
    pub open spec fn after_unlock(updated: Result<Option<Seq<char>>, Seq<char>>) -> Doing {
        match updated {
            Ok(Some(tab_id)) => Doing::FocusTab { tab_id },
            Ok(None) => Doing::finished(),
            Err(message) => Doing::failed(message),
        }
    }
}

impl AfterWorkspaces {
    /// Goes on with the workspaces.
    pub fn resume(self, listed: Result<WorkspaceSnapshot, PluginError>) -> (action: Action)
        ensures
            action@ == Doing::after_workspaces(self.request@, herdr::workspaces_view(listed)),
    {
        match listed {
            Err(error) => Action::Finish { outcome: Err(error) },
            Ok(snapshot) => match snapshot.focused_workspace_id() {
                Some(workspace_id) => Action::ListTabs {
                    next: AfterTabs {
                        request: self.request,
                        workspace_id: workspace_id.to_owned(),
                    },
                },
                None => Action::Finish { outcome: Ok(()) },
            },
        }
    }
}

impl AfterTabs {
    /// Goes on with the tabs of the workspace.
    pub fn resume(self, listed: Result<TabSnapshot, PluginError>) -> (action: Action)
        ensures
            action@ == Doing::after_tabs(
                self.request@,
                self.workspace_id@,
                herdr::tabs_view(listed),
            ),
    {
        let tabs = match listed {
            Err(error) => {
                return Action::Finish { outcome: Err(error) };
            },
            Ok(tabs) => tabs,
        };
        let workspace_id = self.workspace_id;
        let focused_tab_id = match tabs.focused_tab_id() {
            Some(tab_id) => Some(tab_id.to_owned()),
            None => None,
        };
        match self.request {
            Request::Toggle => match focused_tab_id {
                Some(current_tab_id) => Action::CreateStateDir {
                    next: AfterStateDir {
                        change: Change::Toggle { workspace_id, current_tab_id, tabs },
                    },
                },
                None => Action::Finish { outcome: Ok(()) },
            },
            Request::Focused { tab_id } => {
                let has_focus = match focused_tab_id {
                    Some(focused) => same_text(focused.as_str(), tab_id.as_str()),
                    None => false,
                };
                if has_focus {
                    Action::CreateStateDir {
                        next: AfterStateDir { change: Change::Focus { workspace_id, tab_id } },
                    }
                } else {
                    Action::Finish { outcome: Ok(()) }
                }
            },
            Request::Closed { tab_id } => Action::CreateStateDir {
                next: AfterStateDir {
                    change: Change::Close { workspace_id, closed_tab_id: tab_id, focused_tab_id },
                },
            },
        }
    }
}

/// What came of creating the state directory, with the message as characters.
pub open spec fn created_view(created: Result<(), IoFailure>) -> Result<(), Seq<char>> {
    match created {
        Ok(()) => Ok(()),
        Err(failure) => Err(failure.text("failed to create plugin state directory "@)),
    }
}

/// What came of locking the state, with the message as characters.
pub open spec fn locked_view(locked: Result<(), LockFailure>) -> Result<(), Seq<char>> {
    match locked {
        Ok(()) => Ok(()),
        Err(failure) => Err(failure.text()),
    }
}

impl AfterStateDir {
    /// Goes on once the state directory is there.
    pub fn resume(self, created: Result<(), IoFailure>) -> (action: Action)
        ensures
            action@ == Doing::after_state_dir(self.change@, created_view(created)),
    {
        match created {
            Ok(()) => Action::LockState { next: AfterLock { change: self.change } },
            Err(failure) => Action::Finish {
                outcome: Err(failure.describe("failed to create plugin state directory ")),
            },
        }
    }
}

impl AfterLock {
    /// Goes on once the state is locked.
    pub fn resume(self, locked: Result<(), LockFailure>) -> (action: Action)
        ensures
            action@ == Doing::after_lock(self.change@, locked_view(locked)),
    {
        match locked {
            Ok(()) => Action::ReadState { next: AfterRead { change: self.change } },
            Err(failure) => Action::Finish { outcome: Err(failure.describe()) },
        }
    }
}

impl AfterRead {
    /// Goes on with the state, at a given time.
    pub fn resume_at(
        self,
        read: Result<PersistedState, PluginError>,
        now_ms: u64,
    ) -> (action: Action)
        ensures
            action@ == Doing::after_read(self.change@, storage::read_view(read), now_ms),
    {
        match read {
            Err(error) => Action::UnlockState { next: AfterUnlock { updated: Err(error) } },
            Ok(state) => {
                let update = StateStore::new(state).update(self.change, now_ms);
                match update.write {
                    Some(state) => Action::WriteState {
                        state,
                        next: AfterWrite { target: update.target },
                    },
                    None => Action::UnlockState {
                        next: AfterUnlock { updated: Ok(update.target) },
                    },
                }
            },
        }
    }

    /// Goes on with the state, at the time that the system's clock shows.
    pub fn resume(self, read: Result<PersistedState, PluginError>) -> (action: Action)
        ensures
            exists|time: std::time::SystemTime|
                action@ == Doing::after_read(
                    self.change@,
                    storage::read_view(read),
                    #[trigger] clock::unix_millis(time),
                ),
    {
        let now_ms = current_unix_ms();
        self.resume_at(read, now_ms)
    }
}

impl AfterWrite {
    /// Goes on once the state is written.
    pub fn resume(self, written: Result<(), PluginError>) -> (action: Action)
        ensures
            action@ == Doing::after_write(text::opt_text(self.target), error::unit_view(written)),
    {
        match written {
            Ok(()) => Action::UnlockState { next: AfterUnlock { updated: Ok(self.target) } },
            Err(error) => Action::UnlockState { next: AfterUnlock { updated: Err(error) } },
        }
    }
}

impl AfterUnlock {
    /// Goes on once the state is unlocked.
    pub fn resume(self) -> (action: Action)
        ensures
            action@ == Doing::after_unlock(updated_view(self.updated)),
    {
        match self.updated {
            Ok(Some(tab_id)) => Action::FocusTab { tab_id, next: AfterFocus {  } },
            Ok(None) => Action::Finish { outcome: Ok(()) },
            Err(error) => Action::Finish { outcome: Err(error) },
        }
    }
}

impl AfterFocus {
    /// Ends the run once the tab is focused.
    pub fn resume(self, focused: Result<(), PluginError>) -> (action: Action)
        ensures
            action@ == (Doing::Finish { outcome: error::unit_view(focused) }),
    {
        Action::Finish { outcome: focused }
    }
}

fn begin(request: Request, workspace_id: Option<String>) -> (action: Action)
    ensures
        action@ == Doing::begin(request@, text::opt_text(workspace_id)),
{
    match workspace_id {
        Some(workspace_id) => Action::ListTabs { next: AfterTabs { request, workspace_id } },
        None => Action::ListWorkspaces { next: AfterWorkspaces { request } },
    }
}

/// Starts a toggle in a workspace, or in the one that has the focus.
pub fn toggle_in(workspace_id: Option<String>) -> (action: Action)
    ensures
        action@ == Doing::begin_toggle(text::opt_text(workspace_id)),
{
    begin(Request::Toggle, workspace_id)
}

/// Takes note that a tab got the focus.
pub fn focused_tab(info: Option<(String, Option<String>)>) -> (action: Action)
    ensures
        action@ == Doing::begin_focused(json::info_view(info)),
{
    match info {
        Some((tab_id, workspace_id)) => begin(Request::Focused { tab_id }, workspace_id),
        None => Action::Finish { outcome: Ok(()) },
    }
}

/// Takes note that a tab was closed.
pub fn closed_tab(info: Option<(String, Option<String>)>) -> (action: Action)
    ensures
        action@ == Doing::begin_closed(json::info_view(info)),
{
    match info {
        Some((tab_id, workspace_id)) => begin(Request::Closed { tab_id }, workspace_id),
        None => Action::Finish { outcome: Ok(()) },
    }
}

impl RuntimeEnv {
    /// The workspace that the context names.
    pub open spec fn context(self) -> Option<Seq<char>> {
        match self.context_json {
            Some(raw) => json::context_of_text(raw@),
            None => None,
        }
    }

    /// The tab that the event is about, and its workspace if the event names one.
    pub open spec fn event(self) -> Option<(Seq<char>, Option<Seq<char>>)> {
        match self.event_json {
            Some(raw) => json::tab_info_of_text(raw@),
            None => None,
        }
    }

    fn event_info(&self) -> (info: Option<(String, Option<String>)>)
        ensures
            json::info_view(info) == self.event(),
    {
        match &self.event_json {
            Some(raw) => parse_event_tab_info(raw.as_str()),
            None => None,
        }
    }
}

/// Goes back to the last tab of the workspace that the context names.
pub fn toggle(runtime: &RuntimeEnv) -> (action: Action)
    ensures
        action@ == Doing::begin_toggle(runtime.context()),
{
    let workspace_id = match &runtime.context_json {
        Some(raw) => parse_context_workspace_id(raw.as_str()),
        None => None,
    };
    toggle_in(workspace_id)
}

/// Takes note that the tab of the event got the focus.
pub fn focused(runtime: &RuntimeEnv) -> (action: Action)
    ensures
        action@ == Doing::begin_focused(runtime.event()),
{
    focused_tab(runtime.event_info())
}

/// Takes note that the tab of the event was closed.
pub fn closed(runtime: &RuntimeEnv) -> (action: Action)
    ensures
        action@ == Doing::begin_closed(runtime.event()),
{
    closed_tab(runtime.event_info())
}

/// The start of the run that a subcommand asks for.
pub open spec fn started(subcommand: Subcommand, runtime: RuntimeEnv) -> Doing {
    match subcommand {
        Subcommand::Toggle => Doing::begin_toggle(runtime.context()),
        Subcommand::Focused => Doing::begin_focused(runtime.event()),
        Subcommand::Closed => Doing::begin_closed(runtime.event()),
    }
}

/// Starts the run that a subcommand asks for.
pub fn run(subcommand: Subcommand, runtime: &RuntimeEnv) -> (action: Action)
    ensures
        action@ == started(subcommand, *runtime),
{
    match subcommand {
        Subcommand::Toggle => toggle(runtime),
        Subcommand::Focused => focused(runtime),
        Subcommand::Closed => closed(runtime),
    }
}

} // verus!
