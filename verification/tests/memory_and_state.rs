use herdr_last_tab::clock::{clamp_millis, current_unix_ms, unix_ms};
use herdr_last_tab::herdr::{TabInfo, TabSnapshot};
use herdr_last_tab::memory::{Memory, WorkspaceTabState};
use herdr_last_tab::state::{Change, PersistedState, StateStore, Workspaces};
use std::time::{Duration, UNIX_EPOCH};

fn current(current: &str, last: Option<&str>) -> Memory {
    Memory::Current {
        current: current.to_string(),
        last: last.map(str::to_string),
    }
}

fn stored(current: Option<&str>, last: Option<&str>) -> WorkspaceTabState {
    WorkspaceTabState {
        current_tab_id: current.map(str::to_string),
        last_tab_id: last.map(str::to_string),
    }
}

fn tabs(list: &[(&str, bool)]) -> TabSnapshot {
    TabSnapshot {
        tabs: list
            .iter()
            .map(|(tab_id, focused)| TabInfo {
                tab_id: tab_id.to_string(),
                focused: *focused,
            })
            .collect(),
    }
}

#[test]
fn memories_in_order_are_stored_and_read_back() {
    for memory in [
        Memory::Empty,
        current("a", None),
        current("a", Some("b")),
        current("\u{e9}", Some("\u{1f600}")),
    ] {
        assert_eq!(WorkspaceTabState::from_memory(&memory).into_memory(), memory);
    }
    assert_eq!(
        WorkspaceTabState::from_memory(&current("a", Some("b"))),
        stored(Some("a"), Some("b"))
    );
    assert_eq!(WorkspaceTabState::from_memory(&Memory::Empty), stored(None, None));
    assert_eq!(WorkspaceTabState::default(), stored(None, None));
}

#[test]
fn stored_memories_are_put_in_order() {
    assert_eq!(stored(Some(""), Some("b")).into_memory(), Memory::Empty);
    assert_eq!(stored(None, Some("b")).into_memory(), Memory::Empty);
    assert_eq!(stored(Some("a"), Some("")).into_memory(), current("a", None));
    assert_eq!(stored(Some("a"), Some("a")).into_memory(), current("a", None));
}

#[test]
fn focus_moves_current_to_last() {
    assert_eq!(Memory::Empty.after_focus("a"), current("a", None));
    assert_eq!(current("a", Some("z")).after_focus("b"), current("b", Some("a")));
    assert_eq!(current("a", Some("z")).after_focus("a"), current("a", Some("z")));
    assert_eq!(
        Memory::Empty.after_focus("a").after_focus("b").after_focus("b"),
        current("b", Some("a"))
    );
}

#[test]
fn close_forgets() {
    let none = None;
    let b = Some("b".to_string());
    assert_eq!(Memory::Empty.after_close("a", &b), Memory::Empty);
    assert_eq!(current("a", Some("b")).after_close("b", &none), current("a", None));
    assert_eq!(current("a", Some("b")).after_close("a", &b), current("b", None));
    assert_eq!(current("a", Some("c")).after_close("a", &b), current("b", Some("c")));
    assert_eq!(current("a", Some("c")).after_close("a", &none), Memory::Empty);
    assert_eq!(current("a", Some("c")).after_close("x", &b), current("a", Some("c")));
    assert_eq!(
        current("a", Some("c")).after_close("a", &b).after_close("a", &b),
        current("b", Some("c"))
    );
}

#[test]
fn toggle_picks_an_open_tab() {
    let open = tabs(&[("a", true), ("b", false)]);
    assert_eq!(
        current("a", Some("b")).toggle("a", &open),
        (None, Some("b".to_string()))
    );
    assert_eq!(
        current("a", Some("c")).toggle("a", &open),
        (Some(current("a", None)), None)
    );
    assert_eq!(
        current("b", Some("a")).toggle("a", &open),
        (Some(current("b", None)), None)
    );
    assert_eq!(current("a", None).toggle("a", &open), (None, None));
    assert_eq!(
        Memory::Empty.toggle("a", &open),
        (Some(current("a", None)), None)
    );
}

#[test]
fn setting_a_workspace_is_read_back() {
    let mut state = PersistedState::default();
    assert_eq!(state.updated_unix_ms, 0);
    state.set_workspace_at("w1", current("a", Some("b")), 17);
    state.set_workspace_at("w2", current("c", None), 18);
    state.set_workspace_at("w1", current("d", Some("a")), 19);
    assert_eq!(state.get_workspace("w1"), current("d", Some("a")));
    assert_eq!(state.get_workspace("w2"), current("c", None));
    assert_eq!(state.get_workspace("w3"), Memory::Empty);
    assert_eq!(state.updated_unix_ms, 19);
    assert_eq!(state.workspaces.entries().len(), 2);
}

#[test]
fn set_workspace_reads_the_clock() {
    let before = current_unix_ms();
    let mut state = PersistedState::default();
    state.set_workspace("w1", current("a", None));
    assert!(before <= state.updated_unix_ms);
    assert!(state.updated_unix_ms <= current_unix_ms());
    assert_eq!(state.get_workspace("w1"), current("a", None));
}

#[test]
fn milliseconds_are_counted_from_1970() {
    assert_eq!(unix_ms(&(UNIX_EPOCH + Duration::from_micros(5_999))), 5);
    assert_eq!(unix_ms(&UNIX_EPOCH), 0);
    assert_eq!(unix_ms(&(UNIX_EPOCH - Duration::from_secs(1))), 0);
    assert_eq!(clamp_millis(None), 0);
    assert_eq!(clamp_millis(Some(42)), 42);
    assert_eq!(clamp_millis(Some(u128::from(u64::MAX))), u64::MAX);
    assert_eq!(clamp_millis(Some(u128::from(u64::MAX) + 1)), u64::MAX);
    assert!(current_unix_ms() > 1_600_000_000_000);
}

#[test]
fn updates_that_change_nothing_are_not_written() {
    let mut state = PersistedState::default();
    state.set_workspace_at("w1", current("a", Some("b")), 1);
    let focus = |tab_id: &str| Change::Focus {
        workspace_id: "w1".to_string(),
        tab_id: tab_id.to_string(),
    };
    let update = StateStore::new(state.clone()).update(focus("a"), 2);
    assert!(update.write.is_none());
    assert_eq!(update.target, None);

    let written = StateStore::new(state.clone()).update(focus("c"), 2).write.unwrap();
    assert_eq!(written.get_workspace("w1"), current("c", Some("a")));
    assert_eq!(written.updated_unix_ms, 2);
    assert!(StateStore::new(written).update(focus("c"), 3).write.is_none());

    let update = StateStore::new(state).update(
        Change::Toggle {
            workspace_id: "w1".to_string(),
            current_tab_id: "a".to_string(),
            tabs: tabs(&[("a", true), ("b", false)]),
        },
        2,
    );
    assert!(update.write.is_none());
    assert_eq!(update.target, Some("b".to_string()));
}

#[test]
fn closing_in_an_unknown_workspace_is_written_once() {
    let close = || Change::Close {
        workspace_id: "w1".to_string(),
        closed_tab_id: "a".to_string(),
        focused_tab_id: None,
    };
    let written = StateStore::new(PersistedState::default())
        .update(close(), 7)
        .write
        .unwrap();
    assert_eq!(written.get_workspace("w1"), Memory::Empty);
    assert_eq!(written.workspaces.get("w1"), Some(&stored(None, None)));
    assert!(StateStore::new(written).update(close(), 8).write.is_none());
}

#[test]
fn changes_are_isolated() {
    let mut state = PersistedState::default();
    state.set_workspace_at("w2", current("x", Some("y")), 1);
    let target = Change::Focus {
        workspace_id: "w1".to_string(),
        tab_id: "a".to_string(),
    }
    .apply(&mut state, 2);
    assert_eq!(target, None);
    assert_eq!(state.get_workspace("w1"), current("a", None));
    assert_eq!(state.get_workspace("w2"), current("x", Some("y")));
}

#[test]
fn entries_give_the_same_workspaces_back() {
    let mut workspaces = Workspaces::new();
    workspaces.insert("w1", stored(Some("a"), None));
    workspaces.insert("w2", stored(Some("b"), Some("c")));
    let copy = Workspaces::from_entries(workspaces.entries().clone());
    assert!(copy.same(&workspaces));
    assert!(workspaces.clone().same(&copy));

    let mut reversed = workspaces.entries().clone();
    reversed.reverse();
    assert!(Workspaces::from_entries(reversed).same(&workspaces));
}

#[test]
fn later_entries_count() {
    let workspaces = Workspaces::from_entries(vec![
        ("w1".to_string(), stored(Some("a"), None)),
        ("w2".to_string(), stored(Some("b"), None)),
        ("w1".to_string(), stored(Some("c"), None)),
    ]);
    assert_eq!(workspaces.entries().len(), 2);
    assert_eq!(workspaces.get("w1"), Some(&stored(Some("c"), None)));
}

#[test]
fn different_workspaces_are_told_apart() {
    let mut left = Workspaces::new();
    let mut right = Workspaces::new();
    assert!(left.same(&right));
    left.insert("w1", stored(Some("a"), None));
    assert!(!left.same(&right));
    assert!(!right.same(&left));
    right.insert("w1", stored(Some("a"), Some("b")));
    assert!(!left.same(&right));
    right.insert("w1", stored(Some("a"), None));
    assert!(left.same(&right));
    assert_eq!(left.get("w9"), None);
}
