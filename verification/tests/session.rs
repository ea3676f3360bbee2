use herdr_last_tab::command::Subcommand;
use herdr_last_tab::error::{IoFailure, PluginError};
use herdr_last_tab::herdr::{TabInfo, TabSnapshot, WorkspaceInfo, WorkspaceSnapshot};
use herdr_last_tab::memory::Memory;
use herdr_last_tab::session::{run, Action, RuntimeEnv};
use herdr_last_tab::state::PersistedState;
use herdr_last_tab::storage::LockFailure;

struct FakeHerdr {
    workspace_snapshot: Result<WorkspaceSnapshot, PluginError>,
    tab_snapshot: Result<TabSnapshot, PluginError>,
    focus_result: Result<(), PluginError>,
    listed_workspaces: Vec<String>,
    focused_tabs: Vec<String>,
}

impl FakeHerdr {
    fn new(workspace_id: &str, tabs: Vec<(&str, bool)>) -> Self {
        Self {
            workspace_snapshot: Ok(WorkspaceSnapshot {
                workspaces: vec![WorkspaceInfo {
                    workspace_id: workspace_id.to_string(),
                    focused: true,
                }],
            }),
            tab_snapshot: Ok(TabSnapshot {
                tabs: tabs
                    .into_iter()
                    .map(|(tab_id, focused)| TabInfo {
                        tab_id: tab_id.to_string(),
                        focused,
                    })
                    .collect(),
            }),
            focus_result: Ok(()),
            listed_workspaces: Vec::new(),
            focused_tabs: Vec::new(),
        }
    }
}

/// The state directory of a test: what is kept, what is to fail, and what was done.
struct Disk {
    state: PersistedState,
    state_dir: Result<(), IoFailure>,
    lock: Result<(), LockFailure>,
    read: Result<(), PluginError>,
    write: Result<(), PluginError>,
    log: Vec<&'static str>,
}

impl Disk {
    fn new() -> Self {
        Self {
            state: PersistedState::default(),
            state_dir: Ok(()),
            lock: Ok(()),
            read: Ok(()),
            write: Ok(()),
            log: Vec::new(),
        }
    }

    fn seeded(workspace_id: &str, current: &str, last: Option<&str>) -> Self {
        let mut disk = Disk::new();
        disk.state.set_workspace(
            workspace_id,
            Memory::Current {
                current: current.to_string(),
                last: last.map(str::to_string),
            },
        );
        disk
    }
}

/// Does what a run asks for, and gives what it asks for next. A finished run is given
/// back as it is.
fn step(action: Action, herdr: &mut FakeHerdr, disk: &mut Disk) -> Action {
    match action {
        Action::ListWorkspaces { next } => next.resume(herdr.workspace_snapshot.clone()),
        Action::ListTabs { next } => {
            herdr.listed_workspaces.push(next.workspace_id.clone());
            next.resume(herdr.tab_snapshot.clone())
        }
        Action::CreateStateDir { next } => {
            disk.log.push("dir");
            next.resume(disk.state_dir.clone())
        }
        Action::LockState { next } => {
            disk.log.push("lock");
            next.resume(disk.lock.clone())
        }
        Action::ReadState { next } => {
            disk.log.push("read");
            next.resume(disk.read.clone().map(|()| disk.state.clone()))
        }
        Action::WriteState { state, next } => {
            disk.log.push("write");
            if disk.write.is_ok() {
                disk.state = state;
            }
            next.resume(disk.write.clone())
        }
        Action::UnlockState { next } => {
            disk.log.push("unlock");
            next.resume()
        }
        Action::FocusTab { tab_id, next } => {
            disk.log.push("focus");
            herdr.focused_tabs.push(tab_id);
            next.resume(herdr.focus_result.clone())
        }
        Action::Finish { outcome } => Action::Finish { outcome },
    }
}

fn drive(
    subcommand: Subcommand,
    runtime: &RuntimeEnv,
    herdr: &mut FakeHerdr,
    disk: &mut Disk,
) -> Result<(), PluginError> {
    let mut action = run(subcommand, runtime);
    loop {
        action = match action {
            Action::Finish { outcome } => return outcome,
            _ => step(action, herdr, disk),
        };
    }
}

fn has_lock(action: &Action) -> bool {
    matches!(
        action,
        Action::ReadState { .. } | Action::WriteState { .. } | Action::UnlockState { .. }
    )
}

fn waits(actions: &[Action], i: usize) -> bool {
    matches!(actions[i], Action::LockState { .. }) && actions.iter().any(has_lock)
}

/// Runs focus events at once. The digits of `turns` say whose turn it is, `digits` times;
/// after those the runs go on by turns.
fn focus_together(
    events: &[(&str, &str)],
    mut turns: usize,
    digits: usize,
    disk: &mut Disk,
) -> Vec<Result<(), PluginError>> {
    let count = events.len();
    let mut herdrs = Vec::new();
    let mut actions = Vec::new();
    for (tab_id, workspace_id) in events {
        let mut rt = runtime();
        rt.event_json = Some(tab_event_json(tab_id, workspace_id));
        herdrs.push(FakeHerdr::new(workspace_id, vec![(tab_id, true)]));
        actions.push(run(Subcommand::Focused, &rt));
    }
    for turn in 0..digits + 20 * count {
        let i = if turn < digits { turns % count } else { turn % count };
        turns /= count;
        if !waits(&actions, i) {
            let action = actions.remove(i);
            actions.insert(i, step(action, &mut herdrs[i], disk));
        }
        assert!(actions.iter().filter(|action| has_lock(action)).count() <= 1);
    }
    actions
        .into_iter()
        .map(|action| match action {
            Action::Finish { outcome } => outcome,
            _ => panic!("a run did not end"),
        })
        .collect()
}

fn runtime() -> RuntimeEnv {
    RuntimeEnv {
        event_json: None,
        context_json: Some(r#"{"workspace_id":"w1"}"#.to_string()),
    }
}

fn tab_event_json(tab_id: &str, workspace_id: &str) -> String {
    format!(
        r#"{{"event":"tab_focused","data":{{"type":"tab_focused","tab_id":"{tab_id}","workspace_id":"{workspace_id}"}}}}"#
    )
}

fn current(current: &str, last: Option<&str>) -> Memory {
    Memory::Current {
        current: current.to_string(),
        last: last.map(str::to_string),
    }
}

#[test]
fn focused_event_updates_current_and_last() {
    let mut disk = Disk::new();
    let mut rt = runtime();

    rt.event_json = Some(tab_event_json("w1:t1", "w1"));
    drive(
        Subcommand::Focused,
        &rt,
        &mut FakeHerdr::new("w1", vec![("w1:t1", true), ("w1:t2", false)]),
        &mut disk,
    )
    .unwrap();

    rt.event_json = Some(tab_event_json("w1:t2", "w1"));
    drive(
        Subcommand::Focused,
        &rt,
        &mut FakeHerdr::new("w1", vec![("w1:t1", false), ("w1:t2", true)]),
        &mut disk,
    )
    .unwrap();

    let mem = disk.state.get_workspace("w1");
    assert_eq!(
        mem,
        Memory::Current {
            current: "w1:t2".to_string(),
            last: Some("w1:t1".to_string()),
        }
    );
}

#[test]
fn toggle_focuses_last_tab() {
    let mut disk = Disk::seeded("w1", "w1:t2", Some("w1:t1"));
    let mut herdr = FakeHerdr::new("w1", vec![("w1:t2", true), ("w1:t1", false)]);

    drive(Subcommand::Toggle, &runtime(), &mut herdr, &mut disk).unwrap();

    assert_eq!(herdr.focused_tabs, vec!["w1:t1".to_string()]);
}

#[test]
fn toggle_seeds_empty_state_without_focusing() {
    let mut disk = Disk::new();
    let mut herdr = FakeHerdr::new("w1", vec![("w1:t1", true)]);

    drive(Subcommand::Toggle, &runtime(), &mut herdr, &mut disk).unwrap();

    assert!(herdr.focused_tabs.is_empty());
    assert_eq!(
        disk.state.get_workspace("w1"),
        Memory::Current {
            current: "w1:t1".to_string(),
            last: None,
        }
    );
}

#[test]
fn toggle_clears_stale_last_tab() {
    let mut disk = Disk::seeded("w1", "w1:t2", Some("w1:t1"));
    let mut herdr = FakeHerdr::new("w1", vec![("w1:t2", true)]);

    drive(Subcommand::Toggle, &runtime(), &mut herdr, &mut disk).unwrap();

    assert!(herdr.focused_tabs.is_empty());
    assert_eq!(disk.state.get_workspace("w1"), current("w1:t2", None));
}

#[test]
fn closed_event_clears_last() {
    let mut disk = Disk::seeded("w1", "w1:t2", Some("w1:t1"));
    let mut rt = runtime();
    rt.event_json = Some(tab_event_json("w1:t1", "w1"));

    drive(
        Subcommand::Closed,
        &rt,
        &mut FakeHerdr::new("w1", vec![("w1:t2", true)]),
        &mut disk,
    )
    .unwrap();

    assert_eq!(
        disk.state.get_workspace("w1"),
        Memory::Current {
            current: "w1:t2".to_string(),
            last: None,
        }
    );
}

#[test]
fn per_workspace_isolation() {
    let disk = Disk::seeded("w1", "w1:t2", Some("w1:t1"));

    assert_eq!(disk.state.get_workspace("w2"), Memory::Empty);
    assert_eq!(
        disk.state.get_workspace("w1"),
        Memory::Current {
            current: "w1:t2".to_string(),
            last: Some("w1:t1".to_string()),
        }
    );
}

#[test]
fn switch_toggle_focus_toggle_goes_back_and_forth() {
    let mut disk = Disk::new();
    let mut rt = runtime();
    let on_first = || FakeHerdr::new("w1", vec![("t1", true), ("t2", false)]);
    let on_second = || FakeHerdr::new("w1", vec![("t1", false), ("t2", true)]);

    rt.event_json = Some(tab_event_json("t1", "w1"));
    drive(Subcommand::Focused, &rt, &mut on_first(), &mut disk).unwrap();
    rt.event_json = Some(tab_event_json("t2", "w1"));
    drive(Subcommand::Focused, &rt, &mut on_second(), &mut disk).unwrap();

    let mut herdr = on_second();
    drive(Subcommand::Toggle, &rt, &mut herdr, &mut disk).unwrap();
    assert_eq!(herdr.focused_tabs, vec!["t1".to_string()]);

    rt.event_json = Some(tab_event_json("t1", "w1"));
    drive(Subcommand::Focused, &rt, &mut on_first(), &mut disk).unwrap();
    let mut herdr = on_first();
    drive(Subcommand::Toggle, &rt, &mut herdr, &mut disk).unwrap();
    assert_eq!(herdr.focused_tabs, vec!["t2".to_string()]);
}

#[test]
fn changed_state_is_written_between_lock_and_unlock() {
    let mut disk = Disk::new();
    let mut rt = runtime();
    rt.event_json = Some(tab_event_json("t1", "w1"));
    let mut herdr = FakeHerdr::new("w1", vec![("t1", true)]);
    drive(Subcommand::Focused, &rt, &mut herdr, &mut disk).unwrap();
    assert_eq!(disk.log, vec!["dir", "lock", "read", "write", "unlock"]);

    disk.log.clear();
    drive(Subcommand::Focused, &rt, &mut herdr, &mut disk).unwrap();
    assert_eq!(disk.log, vec!["dir", "lock", "read", "unlock"]);
}

#[test]
fn toggle_focuses_after_unlocking_and_writes_nothing() {
    let mut disk = Disk::seeded("w1", "t2", Some("t1"));
    let mut herdr = FakeHerdr::new("w1", vec![("t2", true), ("t1", false)]);
    drive(Subcommand::Toggle, &runtime(), &mut herdr, &mut disk).unwrap();
    assert_eq!(disk.log, vec!["dir", "lock", "read", "unlock", "focus"]);
    assert_eq!(disk.state.get_workspace("w1"), current("t2", Some("t1")));
}

#[test]
fn fruitless_toggle_writes_once() {
    let mut disk = Disk::seeded("w1", "t2", Some("t1"));
    let mut herdr = FakeHerdr::new("w1", vec![("t2", true)]);
    drive(Subcommand::Toggle, &runtime(), &mut herdr, &mut disk).unwrap();
    assert_eq!(disk.log, vec!["dir", "lock", "read", "write", "unlock"]);
    disk.log.clear();
    drive(Subcommand::Toggle, &runtime(), &mut herdr, &mut disk).unwrap();
    assert_eq!(disk.log, vec!["dir", "lock", "read", "unlock"]);
    assert!(herdr.focused_tabs.is_empty());
}

#[test]
fn toggle_to_the_tab_in_focus_clears_last() {
    let mut disk = Disk::seeded("w1", "t2", Some("t1"));
    let mut herdr = FakeHerdr::new("w1", vec![("t2", false), ("t1", true)]);
    drive(Subcommand::Toggle, &runtime(), &mut herdr, &mut disk).unwrap();
    assert!(herdr.focused_tabs.is_empty());
    assert_eq!(disk.state.get_workspace("w1"), current("t2", None));
}

#[test]
fn toggle_without_context_uses_the_focused_workspace() {
    let mut disk = Disk::seeded("w7", "t2", Some("t1"));
    let mut herdr = FakeHerdr::new("w7", vec![("t2", true), ("t1", false)]);
    let rt = RuntimeEnv {
        event_json: None,
        context_json: None,
    };
    drive(Subcommand::Toggle, &rt, &mut herdr, &mut disk).unwrap();
    assert_eq!(herdr.listed_workspaces, vec!["w7".to_string()]);
    assert_eq!(herdr.focused_tabs, vec!["t1".to_string()]);
}

#[test]
fn event_without_workspace_uses_the_focused_workspace() {
    let mut disk = Disk::new();
    let mut herdr = FakeHerdr::new("w7", vec![("t1", true)]);
    let rt = RuntimeEnv {
        event_json: Some(r#"{"tab_id":"t1"}"#.to_string()),
        context_json: None,
    };
    drive(Subcommand::Focused, &rt, &mut herdr, &mut disk).unwrap();
    assert_eq!(disk.state.get_workspace("w7"), current("t1", None));
}

#[test]
fn no_focused_workspace_is_nothing_to_do() {
    let mut disk = Disk::new();
    let mut herdr = FakeHerdr::new("w1", vec![("t1", true)]);
    herdr.workspace_snapshot = Ok(WorkspaceSnapshot {
        workspaces: vec![WorkspaceInfo {
            workspace_id: "w1".to_string(),
            focused: false,
        }],
    });
    let rt = RuntimeEnv {
        event_json: Some(r#"{"tab_id":"t1"}"#.to_string()),
        context_json: None,
    };
    for subcommand in [Subcommand::Toggle, Subcommand::Focused, Subcommand::Closed] {
        assert_eq!(drive(subcommand, &rt, &mut herdr, &mut disk), Ok(()));
    }
    assert!(herdr.listed_workspaces.is_empty());
    assert!(disk.log.is_empty());
}

#[test]
fn missing_or_broken_event_is_nothing_to_do() {
    let mut disk = Disk::new();
    let mut herdr = FakeHerdr::new("w1", vec![("t1", true)]);
    for event in [None, Some("not json"), Some("{}"), Some(r#"{"tab_id":""}"#)] {
        let rt = RuntimeEnv {
            event_json: event.map(str::to_string),
            context_json: None,
        };
        assert_eq!(drive(Subcommand::Focused, &rt, &mut herdr, &mut disk), Ok(()));
        assert_eq!(drive(Subcommand::Closed, &rt, &mut herdr, &mut disk), Ok(()));
    }
    assert!(herdr.listed_workspaces.is_empty());
    assert!(disk.log.is_empty());
}

#[test]
fn focus_that_has_moved_on_changes_nothing() {
    let mut disk = Disk::seeded("w1", "t1", None);
    let mut herdr = FakeHerdr::new("w1", vec![("t1", true), ("t2", false)]);
    let mut rt = runtime();
    rt.event_json = Some(tab_event_json("t2", "w1"));
    drive(Subcommand::Focused, &rt, &mut herdr, &mut disk).unwrap();
    assert!(disk.log.is_empty());
    assert_eq!(disk.state.get_workspace("w1"), current("t1", None));
}

#[test]
fn toggle_without_focused_tab_is_nothing_to_do() {
    let mut disk = Disk::seeded("w1", "t1", Some("t2"));
    let mut herdr = FakeHerdr::new("w1", vec![("t1", false), ("t2", false)]);
    drive(Subcommand::Toggle, &runtime(), &mut herdr, &mut disk).unwrap();
    assert!(disk.log.is_empty());
    assert!(herdr.focused_tabs.is_empty());
}

#[test]
fn closing_the_current_tab_takes_the_focused_one() {
    let mut disk = Disk::seeded("w1", "t2", Some("t1"));
    let mut rt = runtime();
    rt.event_json = Some(tab_event_json("t2", "w1"));
    let mut herdr = FakeHerdr::new("w1", vec![("t1", true)]);
    drive(Subcommand::Closed, &rt, &mut herdr, &mut disk).unwrap();
    assert_eq!(disk.state.get_workspace("w1"), current("t1", None));

    rt.event_json = Some(tab_event_json("t1", "w1"));
    let mut herdr = FakeHerdr::new("w1", vec![]);
    drive(Subcommand::Closed, &rt, &mut herdr, &mut disk).unwrap();
    assert_eq!(disk.state.get_workspace("w1"), Memory::Empty);
}

#[test]
fn closed_tab_still_in_focus_stays_current() {
    let mut disk = Disk::seeded("w1", "t2", Some("t1"));
    let mut rt = runtime();
    rt.event_json = Some(tab_event_json("t2", "w1"));
    let mut herdr = FakeHerdr::new("w1", vec![("t2", true), ("t1", false)]);
    drive(Subcommand::Closed, &rt, &mut herdr, &mut disk).unwrap();
    assert_eq!(disk.state.get_workspace("w1"), current("t2", Some("t1")));
}

#[test]
fn runs_leave_other_workspaces_alone() {
    let mut disk = Disk::seeded("w2", "a", Some("b"));
    let mut rt = runtime();
    rt.event_json = Some(tab_event_json("t1", "w1"));
    let mut herdr = FakeHerdr::new("w1", vec![("t1", true)]);
    for subcommand in [Subcommand::Focused, Subcommand::Toggle, Subcommand::Closed] {
        drive(subcommand, &rt, &mut herdr, &mut disk).unwrap();
        assert_eq!(disk.state.get_workspace("w2"), current("a", Some("b")));
        let stored = disk.state.workspaces.get("w2").unwrap();
        assert_eq!(stored.current_tab_id, Some("a".to_string()));
        assert_eq!(stored.last_tab_id, Some("b".to_string()));
    }
    assert_ne!(disk.state.get_workspace("w1"), Memory::Empty);
}

#[test]
fn refused_requests_are_reported() {
    let error = PluginError::new("no".to_string());
    let mut disk = Disk::seeded("w1", "t2", Some("t1"));

    let mut herdr = FakeHerdr::new("w1", vec![("t2", true), ("t1", false)]);
    herdr.tab_snapshot = Err(error.clone());
    assert_eq!(
        drive(Subcommand::Toggle, &runtime(), &mut herdr, &mut disk),
        Err(error.clone())
    );

    let mut herdr = FakeHerdr::new("w1", vec![("t2", true), ("t1", false)]);
    herdr.workspace_snapshot = Err(error.clone());
    let rt = RuntimeEnv {
        event_json: None,
        context_json: None,
    };
    assert_eq!(
        drive(Subcommand::Toggle, &rt, &mut herdr, &mut disk),
        Err(error.clone())
    );
    assert!(disk.log.is_empty());

    let mut herdr = FakeHerdr::new("w1", vec![("t2", true), ("t1", false)]);
    herdr.focus_result = Err(error.clone());
    assert_eq!(
        drive(Subcommand::Toggle, &runtime(), &mut herdr, &mut disk),
        Err(error)
    );
}

#[test]
fn storage_failures_are_reported_and_unlocked() {
    let failure = IoFailure {
        path: "/p".to_string(),
        error: "disk on fire".to_string(),
    };
    let mut rt = runtime();
    rt.event_json = Some(tab_event_json("t1", "w1"));
    let mut herdr = FakeHerdr::new("w1", vec![("t1", true)]);

    let mut disk = Disk::new();
    disk.state_dir = Err(failure.clone());
    let outcome = drive(Subcommand::Focused, &rt, &mut herdr, &mut disk);
    assert_eq!(
        outcome.unwrap_err().message(),
        "failed to create plugin state directory /p: disk on fire"
    );
    assert_eq!(disk.log, vec!["dir"]);

    let mut disk = Disk::new();
    disk.lock = Err(LockFailure::Open(failure.clone()));
    let outcome = drive(Subcommand::Focused, &rt, &mut herdr, &mut disk);
    assert_eq!(
        outcome.unwrap_err().message(),
        "failed to open plugin state lock /p: disk on fire"
    );
    disk.lock = Err(LockFailure::Lock(failure));
    let outcome = drive(Subcommand::Focused, &rt, &mut herdr, &mut disk);
    assert_eq!(
        outcome.unwrap_err().message(),
        "failed to lock plugin state /p: disk on fire"
    );
    assert_eq!(disk.log, vec!["dir", "lock", "dir", "lock"]);

    let error = PluginError::new("broken".to_string());
    let mut disk = Disk::new();
    disk.read = Err(error.clone());
    let outcome = drive(Subcommand::Focused, &rt, &mut herdr, &mut disk);
    assert_eq!(outcome, Err(error.clone()));
    assert_eq!(disk.log, vec!["dir", "lock", "read", "unlock"]);

    let mut disk = Disk::new();
    disk.write = Err(error.clone());
    let outcome = drive(Subcommand::Focused, &rt, &mut herdr, &mut disk);
    assert_eq!(outcome, Err(error));
    assert_eq!(disk.log, vec!["dir", "lock", "read", "write", "unlock"]);
    assert_eq!(disk.state.get_workspace("w1"), Memory::Empty);
}

#[test]
fn toggle_survives_a_visit_to_another_workspace() {
    let mut disk = Disk::seeded("w1", "t2", Some("t1"));
    let mut rt = runtime();
    rt.event_json = Some(tab_event_json("x", "w2"));
    let mut elsewhere = FakeHerdr::new("w2", vec![("x", true), ("t1", false)]);
    drive(Subcommand::Focused, &rt, &mut elsewhere, &mut disk).unwrap();

    let mut herdr = FakeHerdr::new("w1", vec![("t2", true), ("t1", false)]);
    drive(Subcommand::Toggle, &runtime(), &mut herdr, &mut disk).unwrap();
    assert_eq!(herdr.focused_tabs, vec!["t1".to_string()]);
}

#[test]
fn run_without_a_named_workspace_leaves_others_alone() {
    let mut disk = Disk::seeded("w2", "a", Some("b"));
    let rt = RuntimeEnv {
        event_json: None,
        context_json: None,
    };
    let mut herdr = FakeHerdr::new("w1", vec![("t1", true)]);
    drive(Subcommand::Toggle, &rt, &mut herdr, &mut disk).unwrap();
    assert_eq!(disk.state.get_workspace("w1"), current("t1", None));
    assert_eq!(disk.state.get_workspace("w2"), current("a", Some("b")));
}

#[test]
fn fruitless_toggle_survives_a_visit_to_another_workspace() {
    let mut disk = Disk::seeded("w1", "t2", Some("gone"));
    let mut rt = runtime();
    rt.event_json = Some(tab_event_json("x", "w2"));
    let mut elsewhere = FakeHerdr::new("w2", vec![("x", true)]);
    drive(Subcommand::Focused, &rt, &mut elsewhere, &mut disk).unwrap();

    let mut herdr = FakeHerdr::new("w1", vec![("t2", true)]);
    let outcome = drive(Subcommand::Toggle, &runtime(), &mut herdr, &mut disk);
    assert_eq!(outcome, Ok(()));
    assert!(herdr.focused_tabs.is_empty());
    assert_eq!(disk.state.get_workspace("w1"), current("t2", None));
}

#[test]
fn repeated_focus_event_leaves_the_state_as_it_is() {
    let mut disk = Disk::seeded("w1", "t1", None);
    let mut rt = runtime();
    rt.event_json = Some(tab_event_json("t2", "w1"));
    let mut herdr = FakeHerdr::new("w1", vec![("t1", false), ("t2", true)]);
    drive(Subcommand::Focused, &rt, &mut herdr, &mut disk).unwrap();
    disk.state.updated_unix_ms = 7;
    disk.log.clear();

    let outcome = drive(Subcommand::Focused, &rt, &mut herdr, &mut disk);
    assert_eq!(outcome, Ok(()));
    assert_eq!(disk.log, vec!["dir", "lock", "read", "unlock"]);
    assert_eq!(disk.state.get_workspace("w1"), current("t2", Some("t1")));
    assert_eq!(disk.state.updated_unix_ms, 7);
}

#[test]
fn repeated_close_event_leaves_the_memory_as_it_is() {
    let mut disk = Disk::seeded("w1", "t2", Some("t1"));
    let mut rt = runtime();
    rt.event_json = Some(tab_event_json("t2", "w1"));
    let mut herdr = FakeHerdr::new("w1", vec![("t1", true), ("t3", false)]);
    drive(Subcommand::Closed, &rt, &mut herdr, &mut disk).unwrap();
    assert_eq!(disk.state.get_workspace("w1"), current("t1", None));

    let mut herdr = FakeHerdr::new("w1", vec![("t1", false), ("t3", true)]);
    let outcome = drive(Subcommand::Closed, &rt, &mut herdr, &mut disk);
    assert_eq!(outcome, Ok(()));
    assert!(herdr.focused_tabs.is_empty());
    assert_eq!(disk.state.get_workspace("w1"), current("t1", None));
}

#[test]
fn two_runs_at_once_in_two_workspaces_are_both_remembered() {
    for turns in 0..1 << 12 {
        let mut disk = Disk::seeded("w1", "t0", None);
        let outcomes = focus_together(&[("t1", "w1"), ("x", "w2")], turns, 12, &mut disk);
        assert_eq!(outcomes, vec![Ok(()), Ok(())]);
        assert_eq!(disk.state.get_workspace("w1"), current("t1", Some("t0")));
        assert_eq!(disk.state.get_workspace("w2"), current("x", None));
    }
}

#[test]
fn two_runs_at_once_in_one_workspace_count_one_after_the_other() {
    let mut first_won = false;
    let mut second_won = false;
    for turns in 0..1 << 12 {
        let mut disk = Disk::seeded("w1", "t0", None);
        let outcomes = focus_together(&[("t1", "w1"), ("t2", "w1")], turns, 12, &mut disk);
        assert_eq!(outcomes, vec![Ok(()), Ok(())]);
        let remembered = disk.state.get_workspace("w1");
        first_won = first_won || remembered == current("t1", Some("t2"));
        second_won = second_won || remembered == current("t2", Some("t1"));
        assert!(
            remembered == current("t1", Some("t2")) || remembered == current("t2", Some("t1"))
        );
    }
    assert!(first_won && second_won);
}

#[test]
fn three_runs_at_once_count_one_after_the_other() {
    let tabs = ["t1", "t2", "t3"];
    let mut seen = Vec::new();
    for turns in 0..3_usize.pow(8) {
        let mut disk = Disk::seeded("w1", "t0", None);
        let events = [("t1", "w1"), ("t2", "w1"), ("t3", "w1")];
        let outcomes = focus_together(&events, turns, 8, &mut disk);
        assert_eq!(outcomes, vec![Ok(()), Ok(()), Ok(())]);
        match disk.state.get_workspace("w1") {
            Memory::Current {
                current,
                last: Some(last),
            } => {
                assert!(tabs.contains(&current.as_str()) && tabs.contains(&last.as_str()));
                assert_ne!(current, last);
                if !seen.contains(&(current.clone(), last.clone())) {
                    seen.push((current, last));
                }
            }
            _ => panic!("an update was lost"),
        }
    }
    assert_eq!(seen.len(), 6);
}
