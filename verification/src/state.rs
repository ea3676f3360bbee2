//! The state that is kept between commands: what is remembered of each workspace.

use crate::clock;
use crate::clock::current_unix_ms;
use crate::herdr;
use crate::herdr::TabSnapshot;
use crate::memory;
use crate::memory::{Memory, WorkspaceTabState};
use crate::text;
use crate::text::same_text;
use vstd::prelude::*;

verus! {

/// Whether entry `i` is the one for a workspace.
pub open spec fn entry_for(
    entries: Seq<(String, WorkspaceTabState)>,
    i: int,
    workspace_id: Seq<char>,
) -> bool {
    0 <= i < entries.len() && entries[i].0@ == workspace_id
}

/// Whether no two entries are for the same workspace.
pub open spec fn distinct(entries: Seq<(String, WorkspaceTabState)>) -> bool {
    forall|i: int, j: int|
        0 <= i < j < entries.len() ==> (#[trigger] entries[i]).0@ != (#[trigger] entries[j]).0@
}

/// The entries as a map from workspace ids.
pub open spec fn entries_map(entries: Seq<(String, WorkspaceTabState)>) -> Map<
    Seq<char>,
    memory::Stored,
> {
    Map::new(
        |id: Seq<char>| exists|i: int| #[trigger] entry_for(entries, i, id),
        |id: Seq<char>|
            entries[choose|i: int| #[trigger] entry_for(entries, i, id)].1@,
    )
}

/// What is stored for each workspace, at most one entry each.
#[derive(Debug)]
pub struct Workspaces {
    entries: Vec<(String, WorkspaceTabState)>,
}

impl View for Workspaces {
    type V = Map<Seq<char>, memory::Stored>;

    closed spec fn view(&self) -> Map<Seq<char>, memory::Stored> {
        entries_map(self.entries@)
    }
}

proof fn lemma_entry(entries: Seq<(String, WorkspaceTabState)>, i: int)
    requires
        distinct(entries),
        0 <= i < entries.len(),
    ensures
        entries_map(entries).contains_key(entries[i].0@),
        entries_map(entries)[entries[i].0@] == entries[i].1@,
{
    let id = entries[i].0@;
    assert(entry_for(entries, i, id));
    let j = choose|j: int| #[trigger] entry_for(entries, j, id);
    assert(entry_for(entries, j, id));
    assert(i == j);
}

impl Workspaces {
    #[verifier::type_invariant]
    spec fn wf(self) -> bool {
        distinct(self.entries@)
    }

    /// No workspace at all.
    pub fn new() -> (workspaces: Self)
        ensures
            workspaces@ == Map::<Seq<char>, memory::Stored>::empty(),
    {
        let workspaces = Self { entries: Vec::new() };
        assert(workspaces@ =~= Map::<Seq<char>, memory::Stored>::empty()) by {
            assert forall|id: Seq<char>| !workspaces@.contains_key(id) by {
                if exists|i: int| #[trigger] entry_for(workspaces.entries@, i, id) {
                    let i = choose|i: int| #[trigger] entry_for(workspaces.entries@, i, id);
                    assert(entry_for(workspaces.entries@, i, id));
                }
            }
        }
        workspaces
    }

    fn position(&self, workspace_id: &str) -> (position: Option<usize>)
        ensures
            (match position {
                Some(position) => entry_for(self.entries@, position as int, workspace_id@),
                None => forall|i: int| !#[trigger] entry_for(self.entries@, i, workspace_id@),
            }),
    {
        let mut i: usize = 0;
        while i < self.entries.len()
            invariant
                i <= self.entries.len(),
                forall|j: int| 0 <= j < i ==> !#[trigger] entry_for(self.entries@, j, workspace_id@),
            decreases self.entries.len() - i,
        {
            if same_text(self.entries[i].0.as_str(), workspace_id) {
                return Some(i);
            }
            i += 1;
        }
        None
    }

    /// What is stored for a workspace.
    pub fn get(&self, workspace_id: &str) -> (stored: Option<&WorkspaceTabState>)
        ensures
            (match stored {
                Some(stored) => self@.contains_key(workspace_id@) && self@[workspace_id@]
                    == stored@,
                None => !self@.contains_key(workspace_id@),
            }),
    {
        proof {
            use_type_invariant(self);
        }
        match self.position(workspace_id) {
            Some(i) => {
                proof {
                    lemma_entry(self.entries@, i as int);
                }
                Some(&self.entries[i].1)
            },
            None => None,
        }
    }

    /// Stores something for a workspace, in place of what was there.
    pub fn insert(&mut self, workspace_id: &str, stored: WorkspaceTabState)
        ensures
            final(self)@ == old(self)@.insert(workspace_id@, stored@),
    {
        proof {
            use_type_invariant(&*self);
        }
        let ghost before = self.entries@;
        let position = self.position(workspace_id);
        let mut entries: Vec<(String, WorkspaceTabState)> = Vec::new();
        std::mem::swap(&mut entries, &mut self.entries);
        let ghost at: int;
        match position {
            Some(i) => {
                entries.set(i, (workspace_id.to_owned(), stored));
                proof {
                    at = i as int;
                }
            },
            None => {
                entries.push((workspace_id.to_owned(), stored));
                proof {
                    at = before.len() as int;
                    assert forall|j: int| 0 <= j < before.len() implies (#[trigger] before[j]).0@
                        != workspace_id@ by {
                        assert(!entry_for(before, j, workspace_id@));
                    }
                }
            },
        }
        proof {
            lemma_replaced(before, entries@, at, workspace_id@, stored@);
        }
        self.entries = entries;
    }

    /// The entries, in no particular order.
    pub fn entries(&self) -> (entries: &Vec<(String, WorkspaceTabState)>)
        ensures
            distinct(entries@),
            entries_map(entries@) == self@,
    {
        proof {
            use_type_invariant(self);
        }
        &self.entries
    }

    /// Takes entries one after the other: where two are for the same workspace, the
    /// later one counts.
    pub fn from_entries(entries: Vec<(String, WorkspaceTabState)>) -> (workspaces: Self)
        ensures
            workspaces@ == last_entries(entries@),
    {
        let mut workspaces = Workspaces::new();
        let mut i: usize = 0;
        assert(entries@.take(0) =~= Seq::empty());
        while i < entries.len()
            invariant
                i <= entries.len(),
                workspaces@ == last_entries(entries@.take(i as int)),
            decreases entries.len() - i,
        {
            assert(entries@.take(i + 1).drop_last() =~= entries@.take(i as int));
            workspaces.insert(entries[i].0.as_str(), entries[i].1.clone());
            i += 1;
        }
        assert(entries@.take(i as int) =~= entries@);
        workspaces
    }

    fn within(&self, other: &Self) -> (within: bool)
        ensures
            within == (forall|id: Seq<char>| #[trigger]
                self@.contains_key(id) ==> other@.contains_key(id) && self@[id] == other@[id]),
    {
        proof {
            use_type_invariant(self);
        }
        let mut i: usize = 0;
        while i < self.entries.len()
            invariant
                distinct(self.entries@),
                i <= self.entries.len(),
                forall|j: int|
                    0 <= j < i ==> other@.contains_key((#[trigger] self.entries@[j]).0@)
                        && other@[self.entries@[j].0@] == self.entries@[j].1@,
            decreases self.entries.len() - i,
        {
            proof {
                lemma_entry(self.entries@, i as int);
            }
            let here = &self.entries[i];
            match other.get(here.0.as_str()) {
                Some(there) => if !here.1.same(there) {
                    assert(self@.contains_key(here.0@));
                    return false;
                },
                None => {
                    assert(self@.contains_key(here.0@));
                    return false;
                },
            }
            i += 1;
        }
        assert forall|id: Seq<char>| #[trigger] self@.contains_key(id) implies other@.contains_key(
            id,
        ) && self@[id] == other@[id] by {
            let j = choose|j: int| #[trigger] entry_for(self.entries@, j, id);
            assert(entry_for(self.entries@, j, id));
            lemma_entry(self.entries@, j);
        }
        true
    }

    /// Whether both store the same for the same workspaces.
    pub fn same(&self, other: &Self) -> (same: bool)
        ensures
            same == (self@ == other@),
    {
        let same = self.within(other) && other.within(self);
        proof {
            if same {
                assert(self@ =~= other@);
            }
        }
        same
    }
}

/// What entries store when they are taken one after the other.
pub open spec fn last_entries(entries: Seq<(String, WorkspaceTabState)>) -> Map<
    Seq<char>,
    memory::Stored,
>
    decreases entries.len(),
{
    if entries.len() == 0 {
        Map::empty()
    } else {
        last_entries(entries.drop_last()).insert(entries.last().0@, entries.last().1@)
    }
}

proof fn lemma_replaced(
    before: Seq<(String, WorkspaceTabState)>,
    after: Seq<(String, WorkspaceTabState)>,
    at: int,
    id: Seq<char>,
    stored: memory::Stored,
)
    requires
        distinct(before),
        0 <= at <= before.len(),
        after.len() == if at < before.len() {
            before.len()
        } else {
            before.len() + 1
        },
        forall|j: int| 0 <= j < before.len() && j != at ==> after[j] == #[trigger] before[j],
        forall|j: int| 0 <= j < before.len() && j != at ==> (#[trigger] before[j]).0@ != id,
        at < before.len() ==> before[at].0@ == id,
        after[at].0@ == id,
        after[at].1@ == stored,
    ensures
        distinct(after),
        entries_map(after) == entries_map(before).insert(id, stored),
{
    assert forall|i: int, j: int| 0 <= i < j < after.len() implies (#[trigger] after[i]).0@ != (
    #[trigger] after[j]).0@ by {
        if i != at {
            assert(after[i] == before[i]);
        }
        if j != at {
            assert(after[j] == before[j]);
        }
    }
    let left = entries_map(after);
    let right = entries_map(before).insert(id, stored);
    assert forall|k: Seq<char>|
        #![trigger left.dom().contains(k)]
        #![trigger right.dom().contains(k)]
        left.contains_key(k) == right.contains_key(k) && (left.contains_key(k) ==> left[k]
            == right[k]) by {
        if left.contains_key(k) {
            let i = choose|i: int| #[trigger] entry_for(after, i, k);
            assert(entry_for(after, i, k));
            lemma_entry(after, i);
            if i != at {
                assert(after[i] == before[i]);
                lemma_entry(before, i);
            }
        }
        if right.contains_key(k) {
            if k == id {
                lemma_entry(after, at);
            } else {
                let i = choose|i: int| #[trigger] entry_for(before, i, k);
                assert(entry_for(before, i, k));
                lemma_entry(before, i);
                assert(after[i] == before[i]);
                lemma_entry(after, i);
            }
        }
    }
    assert(left =~= right);
}

impl Clone for Workspaces {
    fn clone(&self) -> (copy: Self)
        ensures
            copy@ == self@,
    {
        proof {
            use_type_invariant(self);
        }
        let mut entries: Vec<(String, WorkspaceTabState)> = Vec::new();
        let mut i: usize = 0;
        while i < self.entries.len()
            invariant
                i <= self.entries.len(),
                entries.len() == i,
                forall|j: int|
                    0 <= j < i ==> (#[trigger] entries@[j]).0@ == self.entries@[j].0@
                        && entries@[j].1@ == self.entries@[j].1@,
            decreases self.entries.len() - i,
        {
            let entry = &self.entries[i];
            entries.push((entry.0.clone(), entry.1.clone()));
            i += 1;
        }
        proof {
            lemma_alike(self.entries@, entries@);
        }
        Workspaces { entries }
    }
}

proof fn lemma_alike(
    left: Seq<(String, WorkspaceTabState)>,
    right: Seq<(String, WorkspaceTabState)>,
)
    requires
        distinct(left),
        left.len() == right.len(),
        forall|j: int|
            0 <= j < left.len() ==> (#[trigger] right[j]).0@ == left[j].0@ && right[j].1@
                == left[j].1@,
    ensures
        distinct(right),
        entries_map(left) == entries_map(right),
{
    assert forall|i: int, j: int| 0 <= i < j < right.len() implies (#[trigger] right[i]).0@ != (
    #[trigger] right[j]).0@ by {
        assert(left[i].0@ != left[j].0@);
    }
    let (from, to) = (entries_map(left), entries_map(right));
    assert forall|k: Seq<char>|
        #![trigger from.dom().contains(k)]
        #![trigger to.dom().contains(k)]
        from.contains_key(k) == to.contains_key(k) && (from.contains_key(k) ==> from[k]
            == to[k]) by {
        if from.contains_key(k) {
            let i = choose|i: int| #[trigger] entry_for(left, i, k);
            assert(entry_for(left, i, k));
            assert(right[i].0@ == k);
            lemma_entry(left, i);
            lemma_entry(right, i);
        }
        if to.contains_key(k) {
            let i = choose|i: int| #[trigger] entry_for(right, i, k);
            assert(entry_for(right, i, k));
            assert(entry_for(left, i, k));
        }
    }
    assert(from =~= to);
}

/// What is kept between commands.
#[derive(Debug)]
pub struct PersistedState {
    pub workspaces: Workspaces,
    pub updated_unix_ms: u64,
}

/// What is kept between commands, with ids as characters.
pub struct Saved {
    pub workspaces: Map<Seq<char>, memory::Stored>,
    pub updated_unix_ms: u64,
}

impl View for PersistedState {
    type V = Saved;

    open spec fn view(&self) -> Saved {
        Saved { workspaces: self.workspaces@, updated_unix_ms: self.updated_unix_ms }
    }
}

impl Saved {
    /// What is kept before the first command.
    pub open spec fn initial() -> Saved {
        Saved { workspaces: Map::empty(), updated_unix_ms: 0 }
    }

    /// What is remembered of a workspace.
    pub open spec fn memory_of(self, workspace_id: Seq<char>) -> memory::Remembered {
        if self.workspaces.contains_key(workspace_id) {
            self.workspaces[workspace_id].memory()
        } else {
            memory::Remembered::Empty
        }
    }

    /// With something else remembered of one workspace, at a given time.
    pub open spec fn with(
        self,
        workspace_id: Seq<char>,
        memory: memory::Remembered,
        now_ms: u64,
    ) -> Saved {
        Saved {
            workspaces: self.workspaces.insert(workspace_id, memory::Stored::of(memory)),
            updated_unix_ms: now_ms,
        }
    }
}

impl Clone for PersistedState {
    fn clone(&self) -> (copy: Self)
        ensures
            copy@ == self@,
    {
        Self { workspaces: self.workspaces.clone(), updated_unix_ms: self.updated_unix_ms }
    }
}

impl Default for PersistedState {
    fn default() -> (state: Self)
        ensures
            state@ == Saved::initial(),
    {
        Self { workspaces: Workspaces::new(), updated_unix_ms: 0 }
    }
}

impl PersistedState {
    /// What is remembered of a workspace.
    pub fn get_workspace(&self, workspace_id: &str) -> (memory: Memory)
        ensures
            memory@ == self@.memory_of(workspace_id@),
            memory@.valid(),
    {
        match self.workspaces.get(workspace_id) {
            Some(stored) => stored.clone().into_memory(),
            None => WorkspaceTabState::default().into_memory(),
        }
    }

    /// Remembers something else of one workspace, at a given time.
    pub fn set_workspace_at(&mut self, workspace_id: &str, memory: Memory, now_ms: u64)
        ensures
            final(self)@ == old(self)@.with(workspace_id@, memory@, now_ms),
    {
        self.workspaces.insert(workspace_id, WorkspaceTabState::from_memory(&memory));
        self.updated_unix_ms = now_ms;
    }

    /// Remembers something else of one workspace, at the time that the system's clock
    /// shows.
    pub fn set_workspace(&mut self, workspace_id: &str, memory: Memory)
        ensures
            exists|time: std::time::SystemTime|
                final(self)@ == old(self)@.with(
                    workspace_id@,
                    memory@,
                    #[trigger] clock::unix_millis(time),
                ),
    {
        let now_ms = current_unix_ms();
        self.set_workspace_at(workspace_id, memory, now_ms);
    }
}

/// A change to what is remembered of one workspace.
#[derive(Debug)]
pub enum Change {
    /// The user asked to go back to the last tab.
    Toggle { workspace_id: String, current_tab_id: String, tabs: TabSnapshot },
    /// A tab got the focus.
    Focus { workspace_id: String, tab_id: String },
    /// A tab was closed.
    Close { workspace_id: String, closed_tab_id: String, focused_tab_id: Option<String> },
}

/// A change, with ids as characters.
pub enum Changing {
    Toggle { workspace_id: Seq<char>, current_tab_id: Seq<char>, tabs: Seq<herdr::Listed> },
    Focus { workspace_id: Seq<char>, tab_id: Seq<char> },
    Close {
        workspace_id: Seq<char>,
        closed_tab_id: Seq<char>,
        focused_tab_id: Option<Seq<char>>,
    },
}

impl View for Change {
    type V = Changing;

    open spec fn view(&self) -> Changing {
        match self {
            Change::Toggle { workspace_id, current_tab_id, tabs } => Changing::Toggle {
                workspace_id: workspace_id@,
                current_tab_id: current_tab_id@,
                tabs: tabs@,
            },
            Change::Focus { workspace_id, tab_id } => Changing::Focus {
                workspace_id: workspace_id@,
                tab_id: tab_id@,
            },
            Change::Close { workspace_id, closed_tab_id, focused_tab_id } => Changing::Close {
                workspace_id: workspace_id@,
                closed_tab_id: closed_tab_id@,
                focused_tab_id: text::opt_text(*focused_tab_id),
            },
        }
    }
}

impl Changing {
    /// The workspace that is changed.
    pub open spec fn workspace_id(self) -> Seq<char> {
        match self {
            Changing::Toggle { workspace_id, .. } => workspace_id,
            Changing::Focus { workspace_id, .. } => workspace_id,
            Changing::Close { workspace_id, .. } => workspace_id,
        }
    }

    /// What is remembered of the workspace instead, if the change touches that.
    pub open spec fn memory_after(self, memory: memory::Remembered) -> Option<
        memory::Remembered,
    > {
        match self {
            Changing::Toggle { current_tab_id, tabs, .. } => memory.toggle_update(
                current_tab_id,
                tabs,
            ),
            Changing::Focus { tab_id, .. } => Some(memory.after_focus(tab_id)),
            Changing::Close { closed_tab_id, focused_tab_id, .. } => Some(
                memory.after_close(closed_tab_id, focused_tab_id),
            ),
        }
    }

    /// The tab to focus next.
    pub open spec fn target(self, memory: memory::Remembered) -> Option<Seq<char>> {
        match self {
            Changing::Toggle { current_tab_id, tabs, .. } => memory.toggle_target(
                current_tab_id,
                tabs,
            ),
            _ => None,
        }
    }
}

impl Saved {
    /// After a change that is made at a given time.
    pub open spec fn changed(self, change: Changing, now_ms: u64) -> Saved {
        match change.memory_after(self.memory_of(change.workspace_id())) {
            Some(memory) => self.with(change.workspace_id(), memory, now_ms),
            None => self,
        }
    }
}

impl Change {
    /// Makes the change at a given time. Gives back the tab to focus next.
    pub fn apply(self, state: &mut PersistedState, now_ms: u64) -> (target: Option<String>)
        ensures
            final(state)@ == old(state)@.changed(self@, now_ms),
            text::opt_text(target) == self@.target(old(state)@.memory_of(self@.workspace_id())),
    {
        match self {
            Change::Toggle { workspace_id, current_tab_id, tabs } => {
                let memory = state.get_workspace(workspace_id.as_str());
                let (update, target) = memory.toggle(current_tab_id.as_str(), &tabs);
                match update {
                    Some(update) => {
                        state.set_workspace_at(workspace_id.as_str(), update, now_ms);
                    },
                    None => {},
                }
                target
            },
            Change::Focus { workspace_id, tab_id } => {
                let memory = state.get_workspace(workspace_id.as_str());
                let next = memory.after_focus(tab_id.as_str());
                state.set_workspace_at(workspace_id.as_str(), next, now_ms);
                None
            },
            Change::Close { workspace_id, closed_tab_id, focused_tab_id } => {
                let memory = state.get_workspace(workspace_id.as_str());
                let next = memory.after_close(closed_tab_id.as_str(), &focused_tab_id);
                state.set_workspace_at(workspace_id.as_str(), next, now_ms);
                None
            },
        }
    }
}

/// The state as it was found, while it is being updated.
#[derive(Debug)]
pub struct StateStore {
    previous: PersistedState,
}

impl View for StateStore {
    type V = Saved;

    closed spec fn view(&self) -> Saved {
        self.previous@
    }
}

/// What an update asks for: a tab to focus, and a state to write.
#[derive(Debug)]
pub struct Update {
    pub target: Option<String>,
    pub write: Option<PersistedState>,
}

/// A state, if there is one.
pub open spec fn opt_saved(state: Option<PersistedState>) -> Option<Saved> {
    match state {
        Some(state) => Some(state@),
        None => None,
    }
}

impl Saved {
    /// The state that has to be written after a change: none where the change leaves
    /// everything as it was stored.
    pub open spec fn to_write(self, change: Changing, now_ms: u64) -> Option<Saved> {
        if self.changed(change, now_ms).workspaces == self.workspaces {
            None
        } else {
            Some(self.changed(change, now_ms))
        }
    }
}

impl StateStore {
    /// Starts from a state that was read.
    pub fn new(previous: PersistedState) -> (store: Self)
        ensures
            store@ == previous@,
    {
        Self { previous }
    }

    /// Makes a change at a given time.
    pub fn update(&self, change: Change, now_ms: u64) -> (update: Update)
        ensures
            opt_saved(update.write) == self@.to_write(change@, now_ms),
            text::opt_text(update.target) == change@.target(
                self@.memory_of(change@.workspace_id()),
            ),
    {
        let mut next = self.previous.clone();
        let target = change.apply(&mut next, now_ms);
        if next.workspaces.same(&self.previous.workspaces) {
            Update { target, write: None }
        } else {
            Update { target, write: Some(next) }
        }
    }
}

} // verus!
