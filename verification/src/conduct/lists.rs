//! The lists of workspaces and tabs, and the commands that get them.

use crate::conduct::words;
use crate::error::PluginError;
use crate::herdr;
use crate::herdr::{
    command_failure, failure_detail, focus_tab_args, parse_tab_list_response,
    parse_workspace_list_response, tab_list_args, tab_list_result, workspace_list_args,
    workspace_list_result, CliHerdr, CommandOutput, Listed, TabInfo, TabSnapshot, WorkspaceInfo,
    WorkspaceSnapshot,
};
use crate::json;
use crate::json::{herdr_error_message, JsonTree};
use serde_json::Value;
use vstd::prelude::*;

verus! {

/// Whether an entry is the first of a list that has the focus.
pub open spec fn first_focused(list: Seq<Listed>, i: int) -> bool {
    &&& 0 <= i < list.len()
    &&& list[i].focused
    &&& forall|j: int| 0 <= j < i ==> !(#[trigger] list[j]).focused
}

/// Every id in a list is found in it, wherever it stands, and no other id is.
pub proof fn listed_ids_are_found(list: Seq<Listed>, id: Seq<char>)
    ensures
        herdr::lists(list, id) == list.map_values(|entry: Listed| entry.id).contains(id),
        forall|i: int| 0 <= i < list.len() ==> herdr::lists(list, (#[trigger] list[i]).id),
{
    let ids = list.map_values(|entry: Listed| entry.id);
    if ids.contains(id) {
        let i = choose|i: int| 0 <= i < ids.len() && ids[i] == id;
        assert(list[i].id == id);
    }
    if herdr::lists(list, id) {
        let i = choose|i: int| 0 <= i < list.len() && (#[trigger] list[i]).id == id;
        assert(ids[i] == id);
    }
}

/// The focused id of a list is that of the first entry that has the focus, wherever it
/// stands and whatever follows it.
pub proof fn first_focused_entry_counts(list: Seq<Listed>, i: int)
    requires
        first_focused(list, i),
    ensures
        herdr::focused_id(list) == Some(list[i].id),
    decreases i,
{
    if i > 0 {
        assert(!list[0].focused);
        assert(first_focused(list.drop_first(), i - 1));
        first_focused_entry_counts(list.drop_first(), i - 1);
    }
}

/// A list has no focused id exactly if no entry has the focus.
pub proof fn no_focused_entry_no_focused_id(list: Seq<Listed>)
    ensures
        herdr::focused_id(list) is None <==> forall|i: int|
            0 <= i < list.len() ==> !(#[trigger] list[i]).focused,
    decreases list.len(),
{
    if list.len() > 0 {
        let rest = list.drop_first();
        no_focused_entry_no_focused_id(rest);
        if list.first().focused {
            assert(list[0].focused);
        } else {
            assert forall|i: int| 0 <= i < list.len() && herdr::focused_id(list) is None implies !(
            #[trigger] list[i]).focused by {
                if i > 0 {
                    assert(rest[i - 1] == list[i]);
                }
            }
            assert forall|i: int|
                0 <= i < rest.len() && (forall|k: int|
                    0 <= k < list.len() ==> !(#[trigger] list[k]).focused) implies !(
            #[trigger] rest[i]).focused by {
                assert(list[i + 1] == rest[i]);
            }
        }
    }
}

/// `TabSnapshot::contains_tab` finds a tab exactly if it is one of the tabs, wherever it
/// stands among them.
pub proof fn tabs_are_found(snapshot: &TabSnapshot, tab_id: &str, found: bool)
    requires
        call_ensures(TabSnapshot::contains_tab, (snapshot, tab_id), found),
    ensures
        found <==> exists|i: int|
            0 <= i < snapshot.tabs@.len() && (#[trigger] snapshot.tabs@[i]).tab_id@ == tab_id@,
{
    if found {
        let i = choose|i: int| 0 <= i < snapshot@.len() && (#[trigger] snapshot@[i]).id == tab_id@;
        assert(snapshot.tabs@[i].tab_id@ == tab_id@);
    }
    assert forall|i: int| 0 <= i < snapshot.tabs@.len() && (
    #[trigger] snapshot.tabs@[i]).tab_id@ == tab_id@ implies found by {
        assert(snapshot@[i].id == tab_id@);
    }
}

/// `TabSnapshot::focused_tab_id` gives the id of the first tab that has the focus.
pub proof fn first_focused_tab_is_given(snapshot: &TabSnapshot, id: Option<&str>, i: int)
    requires
        call_ensures(TabSnapshot::focused_tab_id, (snapshot,), id),
        0 <= i < snapshot.tabs@.len(),
        snapshot.tabs@[i].focused,
        forall|j: int| 0 <= j < i ==> !(#[trigger] snapshot.tabs@[j]).focused,
    ensures
        id matches Some(id) && id@ == snapshot.tabs@[i].tab_id@,
{
    assert forall|j: int| 0 <= j < i implies !(#[trigger] snapshot@[j]).focused by {
        assert(!snapshot.tabs@[j].focused);
    }
    first_focused_entry_counts(snapshot@, i);
}

/// `TabSnapshot::focused_tab_id` gives nothing exactly if no tab has the focus.
pub proof fn no_focused_tab_none_is_given(snapshot: &TabSnapshot, id: Option<&str>)
    requires
        call_ensures(TabSnapshot::focused_tab_id, (snapshot,), id),
    ensures
        id is None <==> forall|i: int|
            0 <= i < snapshot.tabs@.len() ==> !(#[trigger] snapshot.tabs@[i]).focused,
{
    no_focused_entry_no_focused_id(snapshot@);
    assert forall|i: int| 0 <= i < snapshot.tabs@.len() && id is None implies !(
    #[trigger] snapshot.tabs@[i]).focused by {
        assert(!snapshot@[i].focused);
    }
    assert forall|i: int|
        0 <= i < snapshot@.len() && (forall|k: int|
            0 <= k < snapshot.tabs@.len() ==> !(#[trigger] snapshot.tabs@[k]).focused) implies !(
    #[trigger] snapshot@[i]).focused by {
        assert(!snapshot.tabs@[i].focused);
    }
}

/// `WorkspaceSnapshot::focused_workspace_id` gives the id of the first workspace that
/// has the focus.
pub proof fn first_focused_workspace_is_given(
    snapshot: &WorkspaceSnapshot,
    id: Option<&str>,
    i: int,
)
    requires
        call_ensures(WorkspaceSnapshot::focused_workspace_id, (snapshot,), id),
        0 <= i < snapshot.workspaces@.len(),
        snapshot.workspaces@[i].focused,
        forall|j: int| 0 <= j < i ==> !(#[trigger] snapshot.workspaces@[j]).focused,
    ensures
        id matches Some(id) && id@ == snapshot.workspaces@[i].workspace_id@,
{
    assert forall|j: int| 0 <= j < i implies !(#[trigger] snapshot@[j]).focused by {
        assert(!snapshot.workspaces@[j].focused);
    }
    first_focused_entry_counts(snapshot@, i);
}

/// `WorkspaceSnapshot::focused_workspace_id` gives nothing exactly if no workspace has
/// the focus.
pub proof fn no_focused_workspace_none_is_given(snapshot: &WorkspaceSnapshot, id: Option<&str>)
    requires
        call_ensures(WorkspaceSnapshot::focused_workspace_id, (snapshot,), id),
    ensures
        id is None <==> forall|i: int|
            0 <= i < snapshot.workspaces@.len() ==> !(#[trigger] snapshot.workspaces@[i]).focused,
{
    no_focused_entry_no_focused_id(snapshot@);
    assert forall|i: int| 0 <= i < snapshot.workspaces@.len() && id is None implies !(
    #[trigger] snapshot.workspaces@[i]).focused by {
        assert(!snapshot@[i].focused);
    }
    assert forall|i: int|
        0 <= i < snapshot@.len() && (forall|k: int|
            0 <= k < snapshot.workspaces@.len() ==> !(
            #[trigger] snapshot.workspaces@[k]).focused) implies !(
    #[trigger] snapshot@[i]).focused by {
        assert(!snapshot.workspaces@[i].focused);
    }
}

/// Whether two lists hold the same tabs in the same order.
pub open spec fn same_tabs(left: Seq<TabInfo>, right: Seq<TabInfo>) -> bool {
    &&& left.len() == right.len()
    &&& forall|i: int|
        0 <= i < left.len() ==> (#[trigger] left[i]).tab_id@ == right[i].tab_id@
            && left[i].focused == right[i].focused
}

/// Whether two lists hold the same workspaces in the same order.
pub open spec fn same_workspaces(left: Seq<WorkspaceInfo>, right: Seq<WorkspaceInfo>) -> bool {
    &&& left.len() == right.len()
    &&& forall|i: int|
        0 <= i < left.len() ==> (#[trigger] left[i]).workspace_id@ == right[i].workspace_id@
            && left[i].focused == right[i].focused
}

pub(crate) proof fn lemma_same_tabs(left: TabSnapshot, right: TabSnapshot)
    requires
        left@ == right@,
    ensures
        same_tabs(left.tabs@, right.tabs@),
{
    assert(left@.len() == left.tabs@.len() && right@.len() == right.tabs@.len());
    assert forall|i: int| 0 <= i < left.tabs@.len() implies (#[trigger] left.tabs@[i]).tab_id@
        == right.tabs@[i].tab_id@ && left.tabs@[i].focused == right.tabs@[i].focused by {
        assert(left@[i] == left.tabs@[i]@ && right@[i] == right.tabs@[i]@);
    }
}

proof fn lemma_same_workspaces(left: WorkspaceSnapshot, right: WorkspaceSnapshot)
    requires
        left@ == right@,
    ensures
        same_workspaces(left.workspaces@, right.workspaces@),
{
    assert(left@.len() == left.workspaces@.len() && right@.len() == right.workspaces@.len());
    assert forall|i: int| 0 <= i < left.workspaces@.len() implies (
    #[trigger] left.workspaces@[i]).workspace_id@ == right.workspaces@[i].workspace_id@
        && left.workspaces@[i].focused == right.workspaces@[i].focused by {
        assert(left@[i] == left.workspaces@[i]@ && right@[i] == right.workspaces@[i]@);
    }
}

/// A list of workspaces that was decoded means all of its entries, in their order.
pub proof fn decoded_workspaces_are_taken_whole(workspaces: Vec<WorkspaceInfo>)
    ensures
        herdr::decoded_workspaces(Ok(workspaces)) matches Ok(listed) && listed.len()
            == workspaces@.len() && forall|i: int|
            0 <= i < listed.len() ==> (#[trigger] listed[i]).id == workspaces@[i].workspace_id@
                && listed[i].focused == workspaces@[i].focused,
{
}

/// A list of tabs that was decoded means all of its entries, in their order.
pub proof fn decoded_tabs_are_taken_whole(tabs: Vec<TabInfo>)
    ensures
        herdr::decoded_tabs(Ok(tabs)) matches Ok(listed) && listed.len() == tabs@.len()
            && forall|i: int|
            0 <= i < listed.len() ==> (#[trigger] listed[i]).id == tabs@[i].tab_id@
                && listed[i].focused == tabs@[i].focused,
{
}

/// Whether `listed` is what a decoded list of workspaces means: the whole list, or that
/// the response was not expected.
pub open spec fn takes_workspaces(
    decoded: Result<Vec<WorkspaceInfo>, String>,
    listed: Result<WorkspaceSnapshot, PluginError>,
) -> bool {
    match decoded {
        Ok(workspaces) => listed matches Ok(snapshot) && same_workspaces(
            snapshot.workspaces@,
            workspaces@,
        ),
        Err(words) => listed matches Err(error) && error@
            == "workspace list returned an unexpected response: "@ + words@,
    }
}

/// Whether `listed` is what a decoded list of tabs means: the whole list, or that the
/// response was not expected.
pub open spec fn takes_tabs(
    decoded: Result<Vec<TabInfo>, String>,
    listed: Result<TabSnapshot, PluginError>,
) -> bool {
    match decoded {
        Ok(tabs) => listed matches Ok(snapshot) && same_tabs(snapshot.tabs@, tabs@),
        Err(words) => listed matches Err(error) && error@
            == "tab list returned an unexpected response: "@ + words@,
    }
}

proof fn lemma_takes_workspaces(
    decoded: Result<Vec<WorkspaceInfo>, String>,
    listed: Result<WorkspaceSnapshot, PluginError>,
)
    requires
        herdr::workspaces_view(listed) == herdr::decoded_workspaces(decoded),
    ensures
        takes_workspaces(decoded, listed),
{
    if let Ok(workspaces) = decoded {
        lemma_same_workspaces(listed->Ok_0, WorkspaceSnapshot { workspaces });
    }
}

proof fn lemma_takes_tabs(
    decoded: Result<Vec<TabInfo>, String>,
    listed: Result<TabSnapshot, PluginError>,
)
    requires
        herdr::tabs_view(listed) == herdr::decoded_tabs(decoded),
    ensures
        takes_tabs(decoded, listed),
{
    if let Ok(tabs) = decoded {
        lemma_same_tabs(listed->Ok_0, TabSnapshot { tabs });
    }
}

/// `workspace_list_result` takes a decoded list whole: every workspace is in the
/// snapshot, in its place, with its id and its focus.
pub proof fn workspace_lists_are_taken_whole(
    decoded: Result<Vec<WorkspaceInfo>, String>,
    listed: Result<WorkspaceSnapshot, PluginError>,
)
    requires
        call_ensures(workspace_list_result, (decoded,), listed),
    ensures
        takes_workspaces(decoded, listed),
{
    lemma_takes_workspaces(decoded, listed);
}

/// `tab_list_result` takes a decoded list whole: every tab is in the snapshot, in its
/// place, with its id and its focus.
pub proof fn tab_lists_are_taken_whole(
    decoded: Result<Vec<TabInfo>, String>,
    listed: Result<TabSnapshot, PluginError>,
)
    requires
        call_ensures(tab_list_result, (decoded,), listed),
    ensures
        takes_tabs(decoded, listed),
{
    lemma_takes_tabs(decoded, listed);
}

/// Whether a document has no field `error`.
pub open spec fn no_error_field(tree: JsonTree) -> bool {
    !(tree matches JsonTree::Object(fields) && fields.contains_key("error"@))
}

/// Whether `listed` is what output means as the answer to a request for the workspaces: a
/// list that is decoded from JSON without an error in it is taken whole, and any other
/// output is an error.
pub open spec fn reads_workspaces<F: FnOnce(Value) -> Result<Vec<WorkspaceInfo>, String>>(
    stdout: Seq<u8>,
    decode: F,
    listed: Result<WorkspaceSnapshot, PluginError>,
) -> bool {
    match json::json_of_bytes(stdout) {
        Err(words) => listed matches Err(error) && error@ == "failed to parse workspace list JSON: "@
            + words,
        Ok(tree) => if no_error_field(tree) {
            exists|value: Value, decoded: Result<Vec<WorkspaceInfo>, String>|
                json::json_tree(value) == tree && #[trigger] decode.ensures((value,), decoded)
                    && takes_workspaces(decoded, listed)
        } else {
            listed matches Err(error) && forall|value: Value, message: Option<String>|
                json::json_tree(value) == tree && #[trigger] call_ensures(
                    herdr_error_message,
                    (&value,),
                    message,
                ) ==> message is Some && error@ == "workspace list returned an error: "@
                    + message->0@
        },
    }
}

proof fn lemma_reads_workspaces<F: FnOnce(Value) -> Result<Vec<WorkspaceInfo>, String>>(
    stdout: Seq<u8>,
    decode: F,
    listed: Result<WorkspaceSnapshot, PluginError>,
)
    requires
        herdr::workspace_list_reply(stdout, decode, herdr::workspaces_view(listed)),
    ensures
        reads_workspaces(stdout, decode, listed),
{
    if let Ok(tree) = json::json_of_bytes(stdout) {
        if no_error_field(tree) {
            let (value, decoded) = choose|value: Value, decoded: Result<Vec<WorkspaceInfo>, String>|
                json::json_tree(value) == tree && #[trigger] decode.ensures((value,), decoded)
                    && herdr::workspaces_view(listed) == herdr::decoded_workspaces(decoded);
            lemma_takes_workspaces(decoded, listed);
        }
    }
}

/// `parse_workspace_list_response` takes a list that was decoded whole, from any output
/// that is JSON without an error in it. Any other output is an error.
pub proof fn workspace_responses_are_read<F: FnOnce(Value) -> Result<Vec<WorkspaceInfo>, String>>(
    stdout: &[u8],
    decode: F,
    listed: Result<WorkspaceSnapshot, PluginError>,
)
    requires
        call_ensures(parse_workspace_list_response::<F>, (stdout, decode), listed),
    ensures
        reads_workspaces(stdout@, decode, listed),
{
    lemma_reads_workspaces(stdout@, decode, listed);
}

/// Whether `listed` is what output means as the answer to a request for the tabs: a
/// list that is decoded from JSON without an error in it is taken whole, and any other
/// output is an error.
pub open spec fn reads_tabs<F: FnOnce(Value) -> Result<Vec<TabInfo>, String>>(
    stdout: Seq<u8>,
    decode: F,
    listed: Result<TabSnapshot, PluginError>,
) -> bool {
    match json::json_of_bytes(stdout) {
        Err(words) => listed matches Err(error) && error@ == "failed to parse tab list JSON: "@
            + words,
        Ok(tree) => if no_error_field(tree) {
            exists|value: Value, decoded: Result<Vec<TabInfo>, String>|
                json::json_tree(value) == tree && #[trigger] decode.ensures((value,), decoded)
                    && takes_tabs(decoded, listed)
        } else {
            listed matches Err(error) && forall|value: Value, message: Option<String>|
                json::json_tree(value) == tree && #[trigger] call_ensures(
                    herdr_error_message,
                    (&value,),
                    message,
                ) ==> message is Some && error@ == "tab list returned an error: "@
                    + message->0@
        },
    }
}

proof fn lemma_reads_tabs<F: FnOnce(Value) -> Result<Vec<TabInfo>, String>>(
    stdout: Seq<u8>,
    decode: F,
    listed: Result<TabSnapshot, PluginError>,
)
    requires
        herdr::tab_list_reply(stdout, decode, herdr::tabs_view(listed)),
    ensures
        reads_tabs(stdout, decode, listed),
{
    if let Ok(tree) = json::json_of_bytes(stdout) {
        if no_error_field(tree) {
            let (value, decoded) = choose|value: Value, decoded: Result<Vec<TabInfo>, String>|
                json::json_tree(value) == tree && #[trigger] decode.ensures((value,), decoded)
                    && herdr::tabs_view(listed) == herdr::decoded_tabs(decoded);
            lemma_takes_tabs(decoded, listed);
        }
    }
}

/// `parse_tab_list_response` takes a list that was decoded whole, from any output
/// that is JSON without an error in it. Any other output is an error.
pub proof fn tab_responses_are_read<F: FnOnce(Value) -> Result<Vec<TabInfo>, String>>(
    stdout: &[u8],
    decode: F,
    listed: Result<TabSnapshot, PluginError>,
)
    requires
        call_ensures(parse_tab_list_response::<F>, (stdout, decode), listed),
    ensures
        reads_tabs(stdout@, decode, listed),
{
    lemma_reads_tabs(stdout@, decode, listed);
}

/// Whether an error describes a command that failed: by what it printed as an error, or
/// where that is blank by what it printed at all, or where that is blank too by its exit
/// status.
pub open spec fn describes(
    command: Seq<char>,
    output: CommandOutput,
    error: PluginError,
) -> bool {
    let stderr = words::said(output.stderr@);
    let stdout = words::said(output.stdout@);
    &&& stderr.len() > 0 ==> error@ == command + " failed: "@ + stderr
    &&& stderr.len() == 0 && stdout.len() > 0 ==> error@ == command + " failed: "@ + stdout
    &&& stderr.len() == 0 && stdout.len() == 0 ==> error@ == command + " failed: "@
        + output.status@
}

proof fn lemma_describes(command: Seq<char>, output: CommandOutput, error: PluginError)
    requires
        error@ == herdr::command_failure_text(command, output),
    ensures
        describes(command, output, error),
{
    words::lemma_printed(output.stderr@);
    words::lemma_printed(output.stdout@);
}

/// Whether these are the words of a program that could not be run.
pub open spec fn not_run(
    error: PluginError,
    command: Seq<char>,
    cli: &CliHerdr,
    words: String,
) -> bool {
    error@ == "failed to run "@ + command + " ("@ + cli.bin_path@ + "): "@ + words@
}

/// `CliHerdr::focus_tab` succeeds exactly if the program ran and ended with success,
/// whatever it printed and whatever the tab is.
pub proof fn focus_works_if_the_command_does(
    cli: &CliHerdr,
    tab_id: &str,
    ran: Result<CommandOutput, String>,
    focused: Result<(), PluginError>,
)
    requires
        call_ensures(CliHerdr::focus_tab, (cli, tab_id, ran), focused),
    ensures
        focused is Ok <==> (ran matches Ok(output) && output.success),
        ran matches Err(words) ==> (focused matches Err(error) && not_run(
            error,
            "tab focus "@ + tab_id@,
            cli,
            words,
        )),
        ran matches Ok(output) ==> !output.success ==> describes(
            "tab focus"@,
            output,
            focused->Err_0,
        ),
{
    if let Ok(output) = ran {
        if !output.success {
            lemma_describes("tab focus"@, output, focused->Err_0);
        }
    }
}

/// What comes of a request to focus a tab is success exactly if the program ran and ended
/// with success, whatever it printed.
pub proof fn focus_outcome_is_the_exit_status(
    bin_path: Seq<char>,
    tab_id: Seq<char>,
    ran: Result<CommandOutput, String>,
)
    ensures
        herdr::focus_tab_outcome(bin_path, tab_id, ran) is Ok <==> (ran matches Ok(output)
            && output.success),
{
}

/// `CliHerdr::workspace_list` reads what the program printed exactly if it ended with
/// success, and otherwise reports that it did not.
pub proof fn workspaces_are_listed_if_the_command_works<
    F: FnOnce(Value) -> Result<Vec<WorkspaceInfo>, String>,
>(
    cli: &CliHerdr,
    ran: Result<CommandOutput, String>,
    decode: F,
    listed: Result<WorkspaceSnapshot, PluginError>,
)
    requires
        call_ensures(CliHerdr::workspace_list::<F>, (cli, ran, decode), listed),
    ensures
        ran matches Err(words) ==> (listed matches Err(error) && not_run(
            error,
            "workspace list"@,
            cli,
            words,
        )),
        ran matches Ok(output) ==> output.success ==> reads_workspaces(
            output.stdout@,
            decode,
            listed,
        ),
        ran matches Ok(output) ==> !output.success ==> (listed matches Err(error) && describes(
            "workspace list"@,
            output,
            error,
        )),
{
    if let Ok(output) = ran {
        if output.success {
            lemma_reads_workspaces(output.stdout@, decode, listed);
        } else {
            lemma_describes("workspace list"@, output, listed->Err_0);
        }
    }
}

/// `CliHerdr::tab_list` reads what the program printed exactly if it ended with
/// success, and otherwise reports that it did not.
pub proof fn tabs_are_listed_if_the_command_works<
    F: FnOnce(Value) -> Result<Vec<TabInfo>, String>,
>(
    cli: &CliHerdr,
    ran: Result<CommandOutput, String>,
    decode: F,
    listed: Result<TabSnapshot, PluginError>,
)
    requires
        call_ensures(CliHerdr::tab_list::<F>, (cli, ran, decode), listed),
    ensures
        ran matches Err(words) ==> (listed matches Err(error) && not_run(
            error,
            "tab list"@,
            cli,
            words,
        )),
        ran matches Ok(output) ==> output.success ==> reads_tabs(
            output.stdout@,
            decode,
            listed,
        ),
        ran matches Ok(output) ==> !output.success ==> (listed matches Err(error) && describes(
            "tab list"@,
            output,
            error,
        )),
{
    if let Ok(output) = ran {
        if output.success {
            lemma_reads_tabs(output.stdout@, decode, listed);
        } else {
            lemma_describes("tab list"@, output, listed->Err_0);
        }
    }
}

/// `command_failure` describes a command by what it printed as an error, or where that is
/// blank by what it printed at all, or where that is blank too by its exit status.
pub proof fn failures_are_described(command: &str, output: &CommandOutput, error: PluginError)
    requires
        call_ensures(command_failure, (command, output), error),
    ensures
        describes(command@, *output, error),
{
    lemma_describes(command@, *output, error);
}

/// `failure_detail` gives the first of its words that is not blank, and the exit status
/// where both are.
pub proof fn details_are_the_first_words(
    stderr: String,
    stdout: String,
    status: String,
    detail: String,
)
    requires
        call_ensures(failure_detail, (stderr, stdout, status), detail),
    ensures
        stderr@.len() > 0 ==> detail@ == stderr@,
        stderr@.len() == 0 && stdout@.len() > 0 ==> detail@ == stdout@,
        stderr@.len() == 0 && stdout@.len() == 0 ==> detail@ == status@,
{
}

/// The commands that Herdr understands: to list the workspaces, to list the tabs of a
/// workspace, and to focus a tab.
pub proof fn commands_are_spelled(
    id: &str,
    workspaces: Vec<String>,
    tabs: Vec<String>,
    focus: Vec<String>,
)
    requires
        call_ensures(workspace_list_args, (), workspaces),
        call_ensures(tab_list_args, (id,), tabs),
        call_ensures(focus_tab_args, (id,), focus),
    ensures
        workspaces@.len() == 2,
        workspaces@[0]@ == "workspace"@ && workspaces@[1]@ == "list"@,
        tabs@.len() == 4,
        tabs@[0]@ == "tab"@ && tabs@[1]@ == "list"@,
        tabs@[2]@ == "--workspace"@ && tabs@[3]@ == id@,
        focus@.len() == 3,
        focus@[0]@ == "tab"@ && focus@[1]@ == "focus"@ && focus@[2]@ == id@,
{
    let listed = (herdr::texts(workspaces@), herdr::texts(tabs@), herdr::texts(focus@));
    assert(listed.0.len() == 2 && listed.1.len() == 4 && listed.2.len() == 3);
    assert(listed.0[0] == "workspace"@ && listed.0[1] == "list"@);
    assert(listed.1[0] == "tab"@ && listed.1[1] == "list"@);
    assert(listed.1[2] == "--workspace"@ && listed.1[3] == id@);
    assert(listed.2[0] == "tab"@ && listed.2[1] == "focus"@ && listed.2[2] == id@);
}

} // verus!
