use herdr_last_tab::command::{
    env_path, exit_with, parse_subcommand, start, usage, Exit, ParseCommandError, Startup,
    Subcommand, BIN_PATH_VARIABLE, STATE_DIR_VARIABLE,
};
use herdr_last_tab::error::{IoFailure, PluginError};
use herdr_last_tab::memory::{Memory, WorkspaceTabState};
use herdr_last_tab::state::PersistedState;
use herdr_last_tab::storage::{
    begin_write, read_state, state_or_initial, temp_file_name, write_state, FileRead, WritePaths,
    WriteStep, LOCK_FILE_NAME, STATE_FILE_NAME,
};
use herdr_last_tab::text::{decimal_text, printed_text, same_text};

fn args(list: &[&str]) -> Vec<String> {
    list.iter().map(|arg| arg.to_string()).collect()
}

fn usage_error(message: &str) -> Result<Subcommand, ParseCommandError> {
    Err(ParseCommandError::Usage(message.to_string()))
}

const USAGE: &str = "usage: herdr-last-tab <toggle|focused|closed>";

#[test]
fn subcommands_are_parsed() {
    assert_eq!(parse_subcommand(args(&["toggle"])), Ok(Subcommand::Toggle));
    assert_eq!(parse_subcommand(args(&["focused"])), Ok(Subcommand::Focused));
    assert_eq!(parse_subcommand(args(&["closed"])), Ok(Subcommand::Closed));
}

#[test]
fn other_command_lines_show_the_usage() {
    assert_eq!(usage(), USAGE);
    assert_eq!(parse_subcommand(args(&[])), usage_error(USAGE));
    assert_eq!(parse_subcommand(args(&["toggle", "now"])), usage_error(USAGE));
    for help in ["help", "--help", "-h"] {
        assert_eq!(parse_subcommand(args(&[help])), usage_error(USAGE));
    }
    assert_eq!(
        parse_subcommand(args(&["Toggle"])),
        usage_error(&format!("unknown subcommand: Toggle\n{USAGE}"))
    );
}

#[test]
fn variables_must_hold_a_path() {
    assert_eq!(env_path("X", Some(vec![0xff, 1])), Ok(vec![0xff, 1]));
    let missing =
        "X is not set; Herdr should provide this environment variable to plugin commands";
    assert_eq!(env_path("X", None).unwrap_err().message(), missing);
    assert_eq!(env_path("X", Some(vec![])).unwrap_err().message(), missing);
}

#[test]
fn starting_checks_arguments_then_environment() {
    assert_eq!(STATE_DIR_VARIABLE, "HERDR_PLUGIN_STATE_DIR");
    assert_eq!(BIN_PATH_VARIABLE, "HERDR_BIN_PATH");
    assert_eq!(
        start(args(&["closed"]), Some(vec![1]), Some(vec![2])),
        Ok(Startup {
            subcommand: Subcommand::Closed,
            state_dir: vec![1],
            bin_path: vec![2],
        })
    );
    assert_eq!(
        start(args(&[]), None, None),
        Err(Exit {
            code: 2,
            message: Some(USAGE.to_string()),
        })
    );
    let missing = |name: &str| {
        Err(Exit {
            code: 1,
            message: Some(format!(
                "{name} is not set; Herdr should provide this environment variable to plugin commands"
            )),
        })
    };
    assert_eq!(start(args(&["toggle"]), None, None), missing(STATE_DIR_VARIABLE));
    assert_eq!(
        start(args(&["toggle"]), Some(vec![1]), Some(vec![])),
        missing(BIN_PATH_VARIABLE)
    );
}

#[test]
fn outcomes_have_exit_codes() {
    assert_eq!(
        exit_with(Ok(())),
        Exit {
            code: 0,
            message: None,
        }
    );
    assert_eq!(
        exit_with(Err(PluginError::new("no".to_string()))),
        Exit {
            code: 1,
            message: Some("no".to_string()),
        }
    );
}

#[test]
fn numbers_are_written_in_decimal() {
    for n in [0, 7, 10, 99, 100, 1_234_567_890, u64::MAX] {
        assert_eq!(decimal_text(n), n.to_string());
    }
}

#[test]
fn texts_are_compared() {
    assert!(same_text("a\u{e9}", "a\u{e9}"));
    assert!(!same_text("a", "A"));
    assert!(!same_text("a", "ab"));
}

#[test]
fn temporary_files_have_their_own_names() {
    assert_eq!(STATE_FILE_NAME, "state.json");
    assert_eq!(LOCK_FILE_NAME, "state.lock");
    assert_eq!(temp_file_name(12, 345), ".state.json.tmp.12.345");
    assert_ne!(temp_file_name(12, 345), temp_file_name(1, 2345));
    assert_ne!(temp_file_name(12, 345), temp_file_name(12, 346));
    assert_ne!(temp_file_name(12, 345), STATE_FILE_NAME);
}

fn one_workspace() -> PersistedState {
    let mut state = PersistedState::default();
    state.set_workspace_at(
        "w1",
        Memory::Current {
            current: "t1".to_string(),
            last: None,
        },
        5,
    );
    state
}

#[test]
fn states_are_read() {
    let read = read_state(FileRead::Contents("text".to_string()), |contents: String| {
        if contents == "text" {
            Some(one_workspace())
        } else {
            None
        }
    })
    .unwrap();
    assert!(read.workspaces.same(&one_workspace().workspaces));
    assert_eq!(read.updated_unix_ms, 5);
}

#[test]
fn missing_and_broken_states_are_initial() {
    for read in [FileRead::NotFound, FileRead::Contents("broken".to_string())] {
        let state = read_state(read, |_contents: String| None).unwrap();
        assert!(state.workspaces.entries().is_empty());
        assert_eq!(state.updated_unix_ms, 0);
    }
    assert!(state_or_initial(None).workspaces.entries().is_empty());
    assert_eq!(state_or_initial(Some(one_workspace())).updated_unix_ms, 5);
}

#[test]
fn unreadable_states_are_reported() {
    let failure = IoFailure {
        path: "/d/state.json".to_string(),
        error: "denied".to_string(),
    };
    let read = read_state(FileRead::Failed(failure), |_contents: String| Some(one_workspace()));
    assert_eq!(
        read.unwrap_err().message(),
        "failed to read plugin state /d/state.json: denied"
    );
}

/// Writes a state with one operation that fails. Gives back what was tried and what
/// came of it.
fn try_write(failing: &str) -> (Vec<&'static str>, Result<(), PluginError>) {
    let paths = WritePaths {
        parent: "/d".to_string(),
        temp: "/d/tmp".to_string(),
        target: "/d/state.json".to_string(),
    };
    let mut tried = Vec::new();
    let mut step = begin_write("/d/state.json", true);
    loop {
        let name = match &step {
            WriteStep::CreateParent => "parent",
            WriteStep::CreateTemp => "temp",
            WriteStep::Serialize => "serialize",
            WriteStep::EndLine => "line",
            WriteStep::Sync => "sync",
            WriteStep::Replace => "replace",
            WriteStep::RemoveTemp(_) => "remove",
            WriteStep::Done(outcome) => return (tried, outcome.clone()),
        };
        tried.push(name);
        let answer = if name == failing {
            Err("no".to_string())
        } else {
            Ok(())
        };
        step = write_state(step, answer, &paths);
    }
}

#[test]
fn states_are_written_step_by_step() {
    let (tried, outcome) = try_write("");
    assert_eq!(tried, vec!["parent", "temp", "serialize", "line", "sync", "replace"]);
    assert_eq!(outcome, Ok(()));
}

#[test]
fn each_write_failure_is_reported() {
    for (failing, tried_count, message) in [
        ("parent", 1, "failed to create plugin state directory /d: no"),
        ("temp", 2, "failed to create temporary plugin state /d/tmp: no"),
        ("serialize", 3, "failed to serialize plugin state /d/tmp: no"),
        ("line", 4, "failed to write plugin state /d/tmp: no"),
        ("sync", 5, "failed to sync plugin state /d/tmp: no"),
    ] {
        let (tried, outcome) = try_write(failing);
        assert_eq!(tried.len(), tried_count);
        assert_eq!(tried.last(), Some(&failing));
        assert_eq!(outcome.unwrap_err().message(), message);
    }
    let (tried, outcome) = try_write("replace");
    assert_eq!(tried[5..], ["replace", "remove"]);
    assert_eq!(
        outcome.unwrap_err().message(),
        "failed to replace plugin state /d/state.json: no"
    );
}

#[test]
fn a_failed_removal_keeps_the_first_error() {
    let paths = WritePaths {
        parent: "/d".to_string(),
        temp: "/d/tmp".to_string(),
        target: "/d/state.json".to_string(),
    };
    let step = write_state(WriteStep::Replace, Err("first".to_string()), &paths);
    match write_state(step, Err("second".to_string()), &paths) {
        WriteStep::Done(Err(error)) => assert_eq!(
            error.message(),
            "failed to replace plugin state /d/state.json: first"
        ),
        _ => panic!("the write goes on"),
    }
}

#[test]
fn a_path_without_directory_is_reported() {
    match begin_write("/", false) {
        WriteStep::Done(Err(error)) => assert_eq!(
            error.message(),
            "plugin state path has no parent directory: /"
        ),
        _ => panic!("the write goes on"),
    }
}

#[test]
fn printed_text_has_no_white_space_around_it() {
    let blanks = [
        '\u{9}', '\u{a}', '\u{b}', '\u{c}', '\u{d}', '\u{20}', '\u{85}', '\u{a0}', '\u{1680}',
        '\u{2000}', '\u{200a}', '\u{2028}', '\u{2029}', '\u{202f}', '\u{205f}', '\u{3000}',
    ];
    for blank in blanks {
        let printed = format!("{blank}a{blank}b{blank}{blank}");
        assert_eq!(printed_text(printed.as_bytes()), format!("a{blank}b"));
    }
    for other in ['\u{8}', '\u{e}', '\u{1f}', '\u{180e}', '\u{200b}', '\u{2060}', '\u{feff}'] {
        let printed = format!("{other}a{other}");
        assert_eq!(printed_text(printed.as_bytes()), printed);
    }
    assert_eq!(printed_text(b" \n\t "), "");
}

/// A small text format for states: the time, and a line for each workspace.
fn encode(state: &PersistedState) -> String {
    let mut text = format!("{}", state.updated_unix_ms);
    for (workspace_id, stored) in state.workspaces.entries() {
        let current = stored.current_tab_id.clone().unwrap_or_default();
        let last = stored.last_tab_id.clone().unwrap_or_default();
        text.push_str(&format!("\n{workspace_id} {current} {last}"));
    }
    text
}

fn decode(contents: String) -> Option<PersistedState> {
    let mut lines = contents.lines();
    let updated_unix_ms = lines.next()?.parse::<u64>().ok()?;
    let id = |text: &str| {
        if text.is_empty() {
            None
        } else {
            Some(text.to_string())
        }
    };
    let mut state = PersistedState::default();
    for line in lines {
        let mut words = line.split(' ');
        state.workspaces.insert(
            words.next()?,
            WorkspaceTabState {
                current_tab_id: id(words.next()?),
                last_tab_id: id(words.next()?),
            },
        );
    }
    state.updated_unix_ms = updated_unix_ms;
    Some(state)
}

/// Writes a state to a file in memory, with operations that fail. Gives back the outcome
/// and what is then in the temporary file and in the state file.
fn write_in_memory(
    state: &PersistedState,
    old: Option<&str>,
    failing: &[&str],
) -> (Result<(), PluginError>, Option<String>, Option<String>) {
    let paths = WritePaths {
        parent: "/d".to_string(),
        temp: "/d/tmp".to_string(),
        target: "/d/state.json".to_string(),
    };
    let mut temp: Option<String> = None;
    let mut target = old.map(str::to_string);
    let mut step = begin_write("/d/state.json", true);
    loop {
        let name = match &step {
            WriteStep::CreateParent => "parent",
            WriteStep::CreateTemp => "temp",
            WriteStep::Serialize => "serialize",
            WriteStep::EndLine => "line",
            WriteStep::Sync => "sync",
            WriteStep::Replace => "replace",
            WriteStep::RemoveTemp(_) => "remove",
            WriteStep::Done(outcome) => return (outcome.clone(), temp, target),
        };
        let answer = if failing.contains(&name) {
            Err("no".to_string())
        } else {
            match name {
                "temp" => temp = Some(String::new()),
                "serialize" => temp = temp.map(|text| text + &encode(state)),
                "line" => temp = temp.map(|text| text + "\n"),
                "replace" => target = temp.take(),
                "remove" => temp = None,
                _ => {}
            }
            Ok(())
        };
        step = write_state(step, answer, &paths);
    }
}

#[test]
fn written_states_are_read_back() {
    let mut state = one_workspace();
    state.set_workspace_at(
        "w2",
        Memory::Current {
            current: "t3".to_string(),
            last: Some("t2".to_string()),
        },
        77,
    );
    for old in [None, Some("9\nw1 a b\n"), Some("broken")] {
        let (outcome, temp, target) = write_in_memory(&state, old, &[]);
        assert_eq!(outcome, Ok(()));
        assert_eq!(temp, None);
        assert_eq!(target, Some("77\nw1 t1 \nw2 t3 t2\n".to_string()));
        let read = read_state(FileRead::Contents(target.unwrap()), decode).unwrap();
        assert!(read.workspaces.same(&state.workspaces));
        assert_eq!(read.updated_unix_ms, 77);
    }
}

#[test]
fn failed_writes_keep_the_old_state() {
    for failing in ["parent", "temp", "serialize", "line", "sync", "replace"] {
        let (outcome, temp, target) = write_in_memory(&one_workspace(), Some("old"), &[failing]);
        assert!(outcome.is_err());
        assert_eq!(target, Some("old".to_string()));
        assert_eq!(temp.is_some(), ["serialize", "line", "sync"].contains(&failing));
    }
    let (_, temp, target) = write_in_memory(&one_workspace(), Some("old"), &["replace", "remove"]);
    assert_eq!(temp, Some("5\nw1 t1 \n".to_string()));
    assert_eq!(target, Some("old".to_string()));
}
