use herdr_last_tab::error::PluginError;
use herdr_last_tab::herdr::{
    command_failure, failure_detail, focus_tab_args, parse_tab_list_response,
    parse_workspace_list_response, tab_list_args, tab_list_result, workspace_list_args,
    workspace_list_result, CliHerdr, CommandOutput, TabInfo, TabSnapshot, WorkspaceInfo,
    WorkspaceSnapshot,
};
use herdr_last_tab::json::{
    event_tab_info, herdr_error_message, parse_context_workspace_id, parse_event_tab_info,
    string_at,
};
use serde_json::Value;

fn json(text: &str) -> Value {
    serde_json::from_str(text).unwrap()
}

fn tab(tab_id: &str, focused: bool) -> TabInfo {
    TabInfo {
        tab_id: tab_id.to_string(),
        focused,
    }
}

fn workspace(workspace_id: &str, focused: bool) -> WorkspaceInfo {
    WorkspaceInfo {
        workspace_id: workspace_id.to_string(),
        focused,
    }
}

fn decode_tabs(value: Value) -> Result<Vec<TabInfo>, String> {
    let list = value["result"]["tabs"].as_array().ok_or("no tabs")?;
    Ok(list
        .iter()
        .map(|entry| tab(entry["tab_id"].as_str().unwrap(), entry["focused"].as_bool().unwrap()))
        .collect())
}

fn decode_workspaces(value: Value) -> Result<Vec<WorkspaceInfo>, String> {
    let list = value["result"]["workspaces"].as_array().ok_or("no workspaces")?;
    Ok(list
        .iter()
        .map(|entry| {
            workspace(entry["workspace_id"].as_str().unwrap(), entry["focused"].as_bool().unwrap())
        })
        .collect())
}

fn message<T: std::fmt::Debug>(result: Result<T, PluginError>) -> String {
    result.unwrap_err().message().to_string()
}

fn output(success: bool, stdout: &[u8], stderr: &[u8]) -> CommandOutput {
    CommandOutput {
        success,
        status: "exit status: 3".to_string(),
        stdout: stdout.to_vec(),
        stderr: stderr.to_vec(),
    }
}

const TABS: &[u8] =
    br#"{"result":{"type":"tab_list","tabs":[{"tab_id":"t1","focused":false},{"tab_id":"t2","focused":true}]}}"#;

#[test]
fn strings_are_found_by_path() {
    let value = json(r#"{"a":{"b":"c","d":"","e":[1]},"f":2}"#);
    assert_eq!(string_at(&value, &["a", "b"]), Some("c".to_string()));
    assert_eq!(string_at(&value, &["a", "d"]), None);
    assert_eq!(string_at(&value, &["a", "e"]), None);
    assert_eq!(string_at(&value, &["a"]), None);
    assert_eq!(string_at(&value, &["f", "b"]), None);
    assert_eq!(string_at(&value, &["x"]), None);
    assert_eq!(string_at(&value, &[]), None);
    assert_eq!(string_at(&json(r#""top""#), &[]), Some("top".to_string()));
}

#[test]
fn events_name_a_tab_and_maybe_a_workspace() {
    let pair = |tab_id: &str, workspace_id: Option<&str>| {
        Some((tab_id.to_string(), workspace_id.map(str::to_string)))
    };
    assert_eq!(
        parse_event_tab_info(r#"{"data":{"tab_id":"t1","workspace_id":"w1"}}"#),
        pair("t1", Some("w1"))
    );
    assert_eq!(
        parse_event_tab_info(r#"{"tab_id":"t1","workspace_id":"w1"}"#),
        pair("t1", Some("w1"))
    );
    assert_eq!(
        parse_event_tab_info(r#"{"data":{"tab_id":"in"},"tab_id":"out","workspace_id":"w1"}"#),
        pair("in", Some("w1"))
    );
    assert_eq!(
        parse_event_tab_info(r#"{"data":{"tab_id":""},"tab_id":"out"}"#),
        pair("out", None)
    );
    assert_eq!(parse_event_tab_info(r#"{"workspace_id":"w1"}"#), None);
    assert_eq!(parse_event_tab_info("nonsense"), None);
    assert_eq!(
        event_tab_info(&json(r#"{"tab_id":"t1","workspace_id":""}"#)),
        pair("t1", None)
    );
}

#[test]
fn contexts_name_a_workspace() {
    assert_eq!(
        parse_context_workspace_id(r#"{"workspace_id":"w1"}"#),
        Some("w1".to_string())
    );
    assert_eq!(parse_context_workspace_id(r#"{"workspace_id":""}"#), None);
    assert_eq!(parse_context_workspace_id(r#"{"workspace_id":4}"#), None);
    assert_eq!(parse_context_workspace_id(""), None);
}

#[test]
fn errors_are_put_into_words() {
    let words = |text: &str| herdr_error_message(&json(text));
    assert_eq!(
        words(r#"{"error":{"code":"E1","message":"no such tab"}}"#),
        Some("E1: no such tab".to_string())
    );
    assert_eq!(words(r#"{"error":{"code":"E1"}}"#), Some("E1".to_string()));
    assert_eq!(
        words(r#"{"error":{"code":5,"message":"no"}}"#),
        Some("no".to_string())
    );
    assert_eq!(words(r#"{"error":{"code":""}}"#), Some("".to_string()));
    assert_eq!(
        words(r#"{"error":{"z":1.5,"a":[true,null]}}"#),
        Some(r#"{"a":[true,null],"z":1.5}"#.to_string())
    );
    assert_eq!(words(r#"{"error":"plain"}"#), Some(r#""plain""#.to_string()));
    assert_eq!(words(r#"{"error":null}"#), Some("null".to_string()));
    assert_eq!(words(r#"{"result":1}"#), None);
    assert_eq!(words("[1]"), None);
}

#[test]
fn the_first_focused_entry_counts() {
    let snapshot = TabSnapshot {
        tabs: vec![tab("a", false), tab("b", true), tab("c", true)],
    };
    assert_eq!(snapshot.focused_tab_id(), Some("b"));
    assert!(snapshot.contains_tab("c"));
    assert!(!snapshot.contains_tab("d"));
    assert_eq!(TabSnapshot { tabs: vec![tab("a", false)] }.focused_tab_id(), None);
    assert!(!TabSnapshot { tabs: vec![] }.contains_tab("a"));

    let snapshot = WorkspaceSnapshot {
        workspaces: vec![workspace("a", false), workspace("b", true), workspace("c", true)],
    };
    assert_eq!(snapshot.focused_workspace_id(), Some("b"));
    assert_eq!(WorkspaceSnapshot { workspaces: vec![] }.focused_workspace_id(), None);
}

#[test]
fn commands_have_their_arguments() {
    assert_eq!(workspace_list_args(), vec!["workspace", "list"]);
    assert_eq!(tab_list_args("w1"), vec!["tab", "list", "--workspace", "w1"]);
    assert_eq!(focus_tab_args("t1"), vec!["tab", "focus", "t1"]);
}

#[test]
fn tab_lists_are_read() {
    let snapshot = parse_tab_list_response(TABS, decode_tabs).unwrap();
    assert_eq!(snapshot.tabs, vec![tab("t1", false), tab("t2", true)]);
}

#[test]
fn workspace_lists_are_read() {
    let stdout = br#"{"result":{"workspaces":[{"workspace_id":"w1","focused":true}]}}"#;
    let snapshot = parse_workspace_list_response(stdout, decode_workspaces).unwrap();
    assert_eq!(snapshot.workspaces, vec![workspace("w1", true)]);
}

#[test]
fn broken_tab_lists_are_reported() {
    assert_eq!(
        message(parse_tab_list_response(b"", decode_tabs)),
        "failed to parse tab list JSON: EOF while parsing a value at line 1 column 0"
    );
    assert_eq!(
        message(parse_tab_list_response(
            br#"{"error":{"code":"E1","message":"gone"}}"#,
            decode_tabs
        )),
        "tab list returned an error: E1: gone"
    );
    assert_eq!(
        message(parse_tab_list_response(b"{}", decode_tabs)),
        "tab list returned an unexpected response: no tabs"
    );
    assert_eq!(
        message(tab_list_result(Err("odd".to_string()))),
        "tab list returned an unexpected response: odd"
    );
}

#[test]
fn broken_workspace_lists_are_reported() {
    assert_eq!(
        message(parse_workspace_list_response(b"{", decode_workspaces)),
        "failed to parse workspace list JSON: EOF while parsing an object at line 1 column 1"
    );
    assert_eq!(
        message(parse_workspace_list_response(br#"{"error":{"message":"gone"}}"#, decode_workspaces)),
        "workspace list returned an error: gone"
    );
    assert_eq!(
        message(parse_workspace_list_response(b"[]", decode_workspaces)),
        "workspace list returned an unexpected response: no workspaces"
    );
    assert_eq!(
        message(workspace_list_result(Err("odd".to_string()))),
        "workspace list returned an unexpected response: odd"
    );
}

#[test]
fn failed_commands_are_described() {
    assert_eq!(
        command_failure("tab list", &output(false, b"out", b" boom\n")).message(),
        "tab list failed: boom"
    );
    assert_eq!(
        command_failure("tab list", &output(false, b"out\n", b" \n")).message(),
        "tab list failed: out"
    );
    assert_eq!(
        command_failure("tab list", &output(false, b"out", b" \n oops\t\n")).message(),
        "tab list failed: oops"
    );
    assert_eq!(
        command_failure("tab list", &output(false, b" out ", b" \n")).message(),
        "tab list failed: out"
    );
    assert_eq!(
        command_failure("tab list", &output(false, b"", b"")).message(),
        "tab list failed: exit status: 3"
    );
    assert_eq!(
        command_failure("tab list", &output(false, b"", b"a\xffb\xe2\x80\x83")).message(),
        "tab list failed: a\u{fffd}b"
    );
    assert_eq!(
        failure_detail(String::new(), "b".to_string(), "c".to_string()),
        "b"
    );
}

#[test]
fn runs_of_herdr_are_judged() {
    let herdr = CliHerdr {
        bin_path: "/bin/herdr".to_string(),
    };
    let lost = || Err("lost".to_string());
    assert_eq!(
        message(herdr.workspace_list(lost(), decode_workspaces)),
        "failed to run workspace list (/bin/herdr): lost"
    );
    assert_eq!(
        message(herdr.tab_list(lost(), decode_tabs)),
        "failed to run tab list (/bin/herdr): lost"
    );
    assert_eq!(
        message(herdr.focus_tab("t1", lost())),
        "failed to run tab focus t1 (/bin/herdr): lost"
    );
    assert_eq!(
        message(herdr.workspace_list(Ok(output(false, b"", b"bad")), decode_workspaces)),
        "workspace list failed: bad"
    );
    assert_eq!(
        message(herdr.tab_list(Ok(output(false, TABS, b"bad")), decode_tabs)),
        "tab list failed: bad"
    );
    assert_eq!(
        message(herdr.focus_tab("t1", Ok(output(false, b"", b"bad")))),
        "tab focus failed: bad"
    );
    assert_eq!(herdr.focus_tab("t1", Ok(output(true, b"", b"bad"))), Ok(()));
    assert_eq!(
        herdr.tab_list(Ok(output(true, TABS, b"")), decode_tabs).unwrap().focused_tab_id(),
        Some("t2")
    );
    let none = br#"{"result":{"workspaces":[]}}"#;
    assert_eq!(
        herdr.workspace_list(Ok(output(true, none, b"")), decode_workspaces).unwrap().workspaces,
        vec![]
    );
}
