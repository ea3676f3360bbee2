//! What is remembered of one workspace.

use crate::conduct;
use crate::herdr::TabSnapshot;
use crate::memory::{Memory, Remembered, Stored, WorkspaceTabState};
use vstd::prelude::*;

verus! {

/// Whether this is remembered: a current tab, and a last one or none.
pub open spec fn remembers(memory: Memory, current: Seq<char>, last: Option<Seq<char>>) -> bool {
    memory matches Memory::Current { current: id, last: other } && id@ == current
        && conduct::chars(other) == last
}

/// A last tab, unless it is one of two others.
pub open spec fn unless_one_of(
    last: Option<Seq<char>>,
    closed: Seq<char>,
    current: Seq<char>,
) -> Option<Seq<char>> {
    if last is Some && last->0 != closed && last->0 != current {
        last
    } else {
        None
    }
}

/// Whenever the current tab is closed and some tab has the focus, that tab is the current
/// one afterwards, whatever the last tab was. The last tab is kept exactly if it is
/// neither of the two. With no tab in focus nothing is remembered.
pub proof fn focused_tab_takes_the_place_of_a_closed_one(
    closed: Seq<char>,
    last: Option<Seq<char>>,
    focused: Seq<char>,
)
    ensures
        (Remembered::Current { current: closed, last }).after_close(closed, Some(focused)) == (
        Remembered::Current { current: focused, last: unless_one_of(last, closed, focused) }),
        (Remembered::Current { current: closed, last }).after_close(closed, None)
            == Remembered::Empty,
{
}

/// Whenever another tab than the current one is closed, the current one stays, and the
/// last one too unless it was closed.
pub proof fn current_tab_stays_when_another_is_closed(
    current: Seq<char>,
    closed: Seq<char>,
    last: Option<Seq<char>>,
    focused: Option<Seq<char>>,
)
    requires
        current != closed,
    ensures
        (Remembered::Current { current, last }).after_close(closed, focused) == (
        Remembered::Current { current, last: unless_one_of(last, closed, current) }),
        Remembered::Empty.after_close(closed, focused) == Remembered::Empty,
{
}

/// `Memory::after_focus` makes the tab the current one, whatever was remembered. The one
/// that was current before is the last one, if it was another; if it was the same, the
/// last one stays.
pub proof fn focused_tab_becomes_current(memory: Memory, tab_id: &str, next: Memory)
    requires
        call_ensures(Memory::after_focus, (memory, tab_id), next),
    ensures
        next matches Memory::Current { current, .. } && current@ == tab_id@,
        memory is Empty ==> remembers(next, tab_id@, None),
        memory matches Memory::Current { current, .. } ==> current@ != tab_id@ ==> remembers(
            next,
            tab_id@,
            Some(current@),
        ),
        memory matches Memory::Current { current, last } ==> current@ == tab_id@ ==> remembers(
            next,
            tab_id@,
            conduct::chars(last),
        ),
{
}

/// `Memory::after_close` lets the tab in focus take the place of a current one that was
/// closed, whatever the last tab was, and keeps a last tab that is neither the closed one
/// nor the current one. Only with no tab in focus is nothing remembered.
pub proof fn closed_tab_is_replaced(
    memory: Memory,
    closed: &str,
    focused: &Option<String>,
    next: Memory,
)
    requires
        call_ensures(Memory::after_close, (memory, closed, focused), next),
    ensures
        memory is Empty ==> next is Empty,
        memory matches Memory::Current { current, last } ==> current@ != closed@ ==> remembers(
            next,
            current@,
            unless_one_of(conduct::chars(last), closed@, current@),
        ),
        memory matches Memory::Current { current, last } ==> current@ == closed@ && focused is Some
            ==> remembers(
            next,
            focused->0@,
            unless_one_of(conduct::chars(last), closed@, focused->0@),
        ),
        memory matches Memory::Current { current, .. } ==> current@ == closed@ && focused is None
            ==> next is Empty,
{
}

/// Whether a tab is among the tabs of a workspace.
pub open spec fn is_open(tabs: TabSnapshot, id: Seq<char>) -> bool {
    exists|i: int| 0 <= i < tabs.tabs@.len() && (#[trigger] tabs.tabs@[i]).tab_id@ == id
}

/// `Memory::toggle` goes to the last tab exactly if there is one that is open, wherever it
/// stands among the tabs, and that is not the tab in focus; it then changes nothing. A
/// last tab to which there is no going back is forgotten, and nothing else is. Where
/// nothing was remembered, the tab in focus is from then on.
pub proof fn toggles_go_to_the_last_tab(
    memory: Memory,
    current_tab_id: &str,
    tabs: &TabSnapshot,
    toggled: (Option<Memory>, Option<String>),
)
    requires
        call_ensures(Memory::toggle, (memory, current_tab_id, tabs), toggled),
    ensures
        memory is Empty ==> toggled.1 is None && (toggled.0 matches Some(next) && remembers(
            next,
            current_tab_id@,
            None,
        )),
        memory matches Memory::Current { last, .. } ==> last is None ==> toggled.0 is None
            && toggled.1 is None,
        memory matches Memory::Current { last, .. } ==> last matches Some(last) ==> is_open(
            *tabs,
            last@,
        ) && last@ != current_tab_id@ ==> toggled.0 is None && conduct::chars(toggled.1) == Some(
            last@,
        ),
        memory matches Memory::Current { current, last } ==> last matches Some(last) ==> !(is_open(
            *tabs,
            last@,
        ) && last@ != current_tab_id@) ==> toggled.1 is None && (toggled.0 matches Some(next)
            && remembers(next, current@, None)),
{
    assert forall|i: int| 0 <= i < tabs.tabs@.len() implies tabs@[i].id == (
    #[trigger] tabs.tabs@[i]).tab_id@ by {}
    assert forall|i: int| 0 <= i < tabs@.len() implies (#[trigger] tabs@[i]).id
        == tabs.tabs@[i].tab_id@ by {}
}

/// `WorkspaceTabState::from_memory` stores the current tab and the last one as they are,
/// and neither where nothing is remembered.
pub proof fn memories_are_stored(memory: &Memory, stored: WorkspaceTabState)
    requires
        call_ensures(WorkspaceTabState::from_memory, (memory,), stored),
    ensures
        memory is Empty ==> stored.current_tab_id is None && stored.last_tab_id is None,
        memory matches Memory::Current { current, last } ==> conduct::chars(stored.current_tab_id)
            == Some(current@) && conduct::chars(stored.last_tab_id) == conduct::chars(*last),
{
}

/// Whether a memory is what these two ids store: an empty id is none, a last tab needs a
/// current one, and it must be another.
pub open spec fn stored_as(
    current_tab_id: Option<Seq<char>>,
    last_tab_id: Option<Seq<char>>,
    memory: Memory,
) -> bool {
    if current_tab_id is Some && current_tab_id->0.len() > 0 {
        remembers(
            memory,
            current_tab_id->0,
            unless_one_of(last_tab_id, Seq::empty(), current_tab_id->0),
        )
    } else {
        memory is Empty
    }
}

/// `WorkspaceTabState::into_memory` reads ids as they are stored.
pub proof fn memories_are_read(stored: WorkspaceTabState, memory: Memory)
    requires
        call_ensures(WorkspaceTabState::into_memory, (stored,), memory),
    ensures
        stored_as(
            conduct::chars(stored.current_tab_id),
            conduct::chars(stored.last_tab_id),
            memory,
        ),
{
    lemma_stored_as(stored@, memory);
}

pub(crate) proof fn lemma_stored_as(stored: Stored, memory: Memory)
    requires
        memory@ == stored.memory(),
    ensures
        stored_as(stored.current_tab_id, stored.last_tab_id, memory),
{
    if let Some(last) = stored.last_tab_id {
        if last.len() == 0 {
            assert(last =~= Seq::<char>::empty());
        }
    }
}

/// What is stored for a workspace is seen as its two ids.
pub proof fn stored_ids_are_seen(stored: WorkspaceTabState)
    ensures
        stored@.current_tab_id == conduct::chars(stored.current_tab_id),
        stored@.last_tab_id == conduct::chars(stored.last_tab_id),
{
}

/// A memory is seen as its two ids.
pub proof fn memories_are_seen(memory: Memory)
    ensures
        memory is Empty <==> memory@ is Empty,
        memory@ matches Remembered::Current { current, last } ==> remembers(memory, current, last),
{
}

/// `WorkspaceTabState::default` stores no tab, a copy stores the same ids, and
/// `WorkspaceTabState::same` compares both ids.
pub proof fn stored_ids_are_compared(
    blank: WorkspaceTabState,
    left: &WorkspaceTabState,
    right: &WorkspaceTabState,
    copy: WorkspaceTabState,
    same: bool,
)
    requires
        call_ensures(WorkspaceTabState::default, (), blank),
        call_ensures(WorkspaceTabState::clone, (left,), copy),
        call_ensures(WorkspaceTabState::same, (left, right), same),
    ensures
        blank.current_tab_id is None && blank.last_tab_id is None,
        conduct::chars(copy.current_tab_id) == conduct::chars(left.current_tab_id),
        conduct::chars(copy.last_tab_id) == conduct::chars(left.last_tab_id),
        same <==> conduct::chars(left.current_tab_id) == conduct::chars(right.current_tab_id)
            && conduct::chars(left.last_tab_id) == conduct::chars(right.last_tab_id),
{
}

} // verus!
