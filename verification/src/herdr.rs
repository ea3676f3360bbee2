//! What Herdr is asked and what its answers mean.

use crate::error;
use crate::error::{detailed, PluginError};
use crate::json;
use crate::json::{herdr_error_message, json_from_slice};
use crate::text;
use crate::text::{join2, join3, join4, printed_text, same_text};
use serde_json::Value;
use vstd::prelude::*;

verus! {

/// A workspace as Herdr lists it.
#[derive(Debug, Clone, PartialEq, Eq)]
pub struct WorkspaceInfo {
    pub workspace_id: String,
    pub focused: bool,
}

/// A tab as Herdr lists it.
#[derive(Debug, Clone, PartialEq, Eq)]
pub struct TabInfo {
    pub tab_id: String,
    pub focused: bool,
}

/// An entry of a list that Herdr gave: an id, and whether it has the focus.
pub struct Listed {
    pub id: Seq<char>,
    pub focused: bool,
}

impl View for WorkspaceInfo {
    type V = Listed;

    open spec fn view(&self) -> Listed {
        Listed { id: self.workspace_id@, focused: self.focused }
    }
}

impl View for TabInfo {
    type V = Listed;

    open spec fn view(&self) -> Listed {
        Listed { id: self.tab_id@, focused: self.focused }
    }
}

/// The id of the first entry that has the focus.
pub open spec fn focused_id(list: Seq<Listed>) -> Option<Seq<char>>
    decreases list.len(),
{
    if list.len() == 0 {
        None
    } else if list.first().focused {
        Some(list.first().id)
    } else {
        focused_id(list.drop_first())
    }
}

/// Whether some entry has this id.
pub open spec fn lists(list: Seq<Listed>, id: Seq<char>) -> bool {
    exists|i: int| 0 <= i < list.len() && (#[trigger] list[i]).id == id
}

proof fn lemma_focused_id(list: Seq<Listed>, at: int)
    requires
        0 <= at <= list.len(),
        forall|i: int| 0 <= i < at ==> !(#[trigger] list[i]).focused,
    ensures
        focused_id(list) == focused_id(list.skip(at)),
    decreases at,
{
    if at > 0 {
        lemma_focused_id(list.drop_first(), at - 1);
        assert(list.drop_first().skip(at - 1) == list.skip(at));
    } else {
        assert(list.skip(0) == list);
    }
}

/// The workspaces that are open.
#[derive(Debug, Clone, PartialEq, Eq)]
pub struct WorkspaceSnapshot {
    pub workspaces: Vec<WorkspaceInfo>,
}

impl View for WorkspaceSnapshot {
    type V = Seq<Listed>;

    open spec fn view(&self) -> Seq<Listed> {
        self.workspaces@.map_values(|workspace: WorkspaceInfo| workspace@)
    }
}

impl WorkspaceSnapshot {
    /// The workspace that has the focus.
    pub fn focused_workspace_id(&self) -> (id: Option<&str>)
        ensures
            (match id {
                Some(id) => focused_id(self@) == Some(id@),
                None => focused_id(self@) is None,
            }),
    {
        let mut i: usize = 0;
        while i < self.workspaces.len()
            invariant
                i <= self.workspaces.len(),
                forall|j: int| 0 <= j < i ==> !(#[trigger] self@[j]).focused,
            decreases self.workspaces.len() - i,
        {
            if self.workspaces[i].focused {
                proof {
                    lemma_focused_id(self@, i as int);
                }
                return Some(self.workspaces[i].workspace_id.as_str());
            }
            i += 1;
        }
        proof {
            lemma_focused_id(self@, i as int);
        }
        None
    }
}

/// The tabs of one workspace.
#[derive(Debug, Clone, PartialEq, Eq)]
pub struct TabSnapshot {
    pub tabs: Vec<TabInfo>,
}

impl View for TabSnapshot {
    type V = Seq<Listed>;

    open spec fn view(&self) -> Seq<Listed> {
        self.tabs@.map_values(|tab: TabInfo| tab@)
    }
}

impl TabSnapshot {
    /// The tab that has the focus.
    pub fn focused_tab_id(&self) -> (id: Option<&str>)
        ensures
            (match id {
                Some(id) => focused_id(self@) == Some(id@),
                None => focused_id(self@) is None,
            }),
    {
        let mut i: usize = 0;
        while i < self.tabs.len()
            invariant
                i <= self.tabs.len(),
                forall|j: int| 0 <= j < i ==> !(#[trigger] self@[j]).focused,
            decreases self.tabs.len() - i,
        {
            if self.tabs[i].focused {
                proof {
                    lemma_focused_id(self@, i as int);
                }
                return Some(self.tabs[i].tab_id.as_str());
            }
            i += 1;
        }
        proof {
            lemma_focused_id(self@, i as int);
        }
        None
    }

    /// Whether the workspace has this tab.
    pub fn contains_tab(&self, tab_id: &str) -> (found: bool)
        ensures
            found == lists(self@, tab_id@),
    {
        let mut i: usize = 0;
        while i < self.tabs.len()
            invariant
                i <= self.tabs.len(),
                forall|j: int| 0 <= j < i ==> (#[trigger] self@[j]).id != tab_id@,
            decreases self.tabs.len() - i,
        {
            if same_text(self.tabs[i].tab_id.as_str(), tab_id) {
                assert(self@[i as int].id == tab_id@);
                return true;
            }
            i += 1;
        }
        false
    }
}

/// A list of workspaces, or the message of the error that came instead.
pub open spec fn workspaces_view(listed: Result<WorkspaceSnapshot, PluginError>) -> Result<
    Seq<Listed>,
    Seq<char>,
> {
    match listed {
        Ok(snapshot) => Ok(snapshot@),
        Err(error) => Err(error@),
    }
}

/// A list of tabs, or the message of the error that came instead.
pub open spec fn tabs_view(listed: Result<TabSnapshot, PluginError>) -> Result<
    Seq<Listed>,
    Seq<char>,
> {
    match listed {
        Ok(snapshot) => Ok(snapshot@),
        Err(error) => Err(error@),
    }
}

/// The characters of each text in a list.
pub open spec fn texts(list: Seq<String>) -> Seq<Seq<char>> {
    list.map_values(|text: String| text@)
}

/// The arguments that make Herdr list the workspaces.
pub fn workspace_list_args() -> (args: Vec<String>)
    ensures
        texts(args@) == seq!["workspace"@, "list"@],
{
    let mut args: Vec<String> = Vec::new();
    args.push("workspace".to_owned());
    args.push("list".to_owned());
    assert(texts(args@) =~= seq!["workspace"@, "list"@]);
    args
}

/// The arguments that make Herdr list the tabs of a workspace.
pub fn tab_list_args(workspace_id: &str) -> (args: Vec<String>)
    ensures
        texts(args@) == seq!["tab"@, "list"@, "--workspace"@, workspace_id@],
{
    let mut args: Vec<String> = Vec::new();
    args.push("tab".to_owned());
    args.push("list".to_owned());
    args.push("--workspace".to_owned());
    args.push(workspace_id.to_owned());
    assert(texts(args@) =~= seq!["tab"@, "list"@, "--workspace"@, workspace_id@]);
    args
}

/// The arguments that make Herdr focus a tab.
pub fn focus_tab_args(tab_id: &str) -> (args: Vec<String>)
    ensures
        texts(args@) == seq!["tab"@, "focus"@, tab_id@],
{
    let mut args: Vec<String> = Vec::new();
    args.push("tab".to_owned());
    args.push("focus".to_owned());
    args.push(tab_id.to_owned());
    assert(texts(args@) =~= seq!["tab"@, "focus"@, tab_id@]);
    args
}

/// How a command ended: whether with success, the exit status in words, and what it
/// printed.
#[derive(Debug, Clone, PartialEq, Eq)]
pub struct CommandOutput {
    pub success: bool,
    pub status: String,
    pub stdout: Vec<u8>,
    pub stderr: Vec<u8>,
}

/// What to say of a command that failed: what it printed as an error, or else what
/// it printed at all, or else its exit status.
pub open spec fn failure_detail_text(
    stderr: Seq<char>,
    stdout: Seq<char>,
    status: Seq<char>,
) -> Seq<char> {
    if stderr.len() > 0 {
        stderr
    } else if stdout.len() > 0 {
        stdout
    } else {
        status
    }
}

/// What to say of a command that failed.
pub fn failure_detail(stderr: String, stdout: String, status: String) -> (detail: String)
    ensures
        detail@ == failure_detail_text(stderr@, stdout@, status@),
{
    if !stderr.as_str().is_empty() {
        stderr
    } else if !stdout.as_str().is_empty() {
        stdout
    } else {
        status
    }
}

/// The message for a command that ran and failed.
pub open spec fn command_failure_text(command: Seq<char>, output: CommandOutput) -> Seq<char> {
    command + " failed: "@ + failure_detail_text(
        text::printed(output.stderr@),
        text::printed(output.stdout@),
        output.status@,
    )
}

/// The error for a command that ran and failed.
pub fn command_failure(command: &str, output: &CommandOutput) -> (error: PluginError)
    ensures
        error@ == command_failure_text(command@, *output),
{
    let stderr = printed_text(output.stderr.as_slice());
    let stdout = printed_text(output.stdout.as_slice());
    let detail = failure_detail(stderr, stdout, output.status.clone());
    PluginError::new(join3(command, " failed: ", detail.as_str()))
}

/// What a decoded list of workspaces, or the words in which it was rejected, means.
pub open spec fn decoded_workspaces(decoded: Result<Vec<WorkspaceInfo>, String>) -> Result<
    Seq<Listed>,
    Seq<char>,
> {
    match decoded {
        Ok(workspaces) => Ok(WorkspaceSnapshot { workspaces }@),
        Err(error) => Err("workspace list returned an unexpected response: "@ + error@),
    }
}

/// The workspaces in a decoded response.
pub fn workspace_list_result(decoded: Result<Vec<WorkspaceInfo>, String>) -> (listed: Result<
    WorkspaceSnapshot,
    PluginError,
>)
    ensures
        workspaces_view(listed) == decoded_workspaces(decoded),
{
    match decoded {
        Ok(workspaces) => Ok(WorkspaceSnapshot { workspaces }),
        Err(error) => Err(
            detailed("workspace list returned an unexpected response: ", error.as_str()),
        ),
    }
}

/// What `stdout` means as the answer to a request for the workspaces. Output that is
/// not JSON and an error that Herdr reports are errors. Any other document is
/// handed to `decode`, which finds the list in it.
pub open spec fn workspace_list_reply<F: FnOnce(Value) -> Result<Vec<WorkspaceInfo>, String>>(
    stdout: Seq<u8>,
    decode: F,
    listed: Result<Seq<Listed>, Seq<char>>,
) -> bool {
    match json::json_of_bytes(stdout) {
        Err(error) => listed == Err::<Seq<Listed>, Seq<char>>(
            "failed to parse workspace list JSON: "@ + error,
        ),
        Ok(tree) => match json::error_text(tree) {
            Some(message) => listed == Err::<Seq<Listed>, Seq<char>>(
                "workspace list returned an error: "@ + message,
            ),
            None => exists|value: Value, decoded: Result<Vec<WorkspaceInfo>, String>|
                json::json_tree(value) == tree && #[trigger] decode.ensures((value,), decoded)
                    && listed == decoded_workspaces(decoded),
        },
    }
}

/// Reads Herdr's answer to a request for the workspaces.
pub fn parse_workspace_list_response<
    F: FnOnce(Value) -> Result<Vec<WorkspaceInfo>, String>,
>(stdout: &[u8], decode: F) -> (listed: Result<WorkspaceSnapshot, PluginError>)
    requires
        forall|value: Value| decode.requires((value,)),
    ensures
        workspace_list_reply(stdout@, decode, workspaces_view(listed)),
{
    let value = match json_from_slice(stdout) {
        Ok(value) => value,
        Err(error) => {
            return Err(detailed("failed to parse workspace list JSON: ", error.as_str()));
        },
    };
    match herdr_error_message(&value) {
        Some(message) => {
            return Err(detailed("workspace list returned an error: ", message.as_str()));
        },
        None => {},
    }
    workspace_list_result(decode(value))
}

/// What a decoded list of tabs, or the words in which it was rejected, means.
pub open spec fn decoded_tabs(decoded: Result<Vec<TabInfo>, String>) -> Result<
    Seq<Listed>,
    Seq<char>,
> {
    match decoded {
        Ok(tabs) => Ok(TabSnapshot { tabs }@),
        Err(error) => Err("tab list returned an unexpected response: "@ + error@),
    }
}

/// The tabs in a decoded response.
pub fn tab_list_result(decoded: Result<Vec<TabInfo>, String>) -> (listed: Result<
    TabSnapshot,
    PluginError,
>)
    ensures
        tabs_view(listed) == decoded_tabs(decoded),
{
    match decoded {
        Ok(tabs) => Ok(TabSnapshot { tabs }),
        Err(error) => Err(
            detailed("tab list returned an unexpected response: ", error.as_str()),
        ),
    }
}

/// What `stdout` means as the answer to a request for the tabs. Output that is
/// not JSON and an error that Herdr reports are errors. Any other document is
/// handed to `decode`, which finds the list in it.
pub open spec fn tab_list_reply<F: FnOnce(Value) -> Result<Vec<TabInfo>, String>>(
    stdout: Seq<u8>,
    decode: F,
    listed: Result<Seq<Listed>, Seq<char>>,
) -> bool {
    match json::json_of_bytes(stdout) {
        Err(error) => listed == Err::<Seq<Listed>, Seq<char>>(
            "failed to parse tab list JSON: "@ + error,
        ),
        Ok(tree) => match json::error_text(tree) {
            Some(message) => listed == Err::<Seq<Listed>, Seq<char>>(
                "tab list returned an error: "@ + message,
            ),
            None => exists|value: Value, decoded: Result<Vec<TabInfo>, String>|
                json::json_tree(value) == tree && #[trigger] decode.ensures((value,), decoded)
                    && listed == decoded_tabs(decoded),
        },
    }
}

/// Reads Herdr's answer to a request for the tabs.
pub fn parse_tab_list_response<
    F: FnOnce(Value) -> Result<Vec<TabInfo>, String>,
>(stdout: &[u8], decode: F) -> (listed: Result<TabSnapshot, PluginError>)
    requires
        forall|value: Value| decode.requires((value,)),
    ensures
        tab_list_reply(stdout@, decode, tabs_view(listed)),
{
    let value = match json_from_slice(stdout) {
        Ok(value) => value,
        Err(error) => {
            return Err(detailed("failed to parse tab list JSON: ", error.as_str()));
        },
    };
    match herdr_error_message(&value) {
        Some(message) => {
            return Err(detailed("tab list returned an error: ", message.as_str()));
        },
        None => {},
    }
    tab_list_result(decode(value))
}

/// The Herdr command line. `bin_path` is the path of its program as it is shown in
/// messages.
#[derive(Debug, Clone, PartialEq, Eq)]
pub struct CliHerdr {
    pub bin_path: String,
}

/// The message for a command that could not be run.
pub open spec fn not_run_text(command: Seq<char>, bin_path: Seq<char>, error: Seq<char>) -> Seq<
    char,
> {
    "failed to run "@ + command + " ("@ + bin_path + "): "@ + error
}

/// What comes of a request for the workspaces: an error if the program could not be
/// run or failed, and otherwise what it printed.
pub open spec fn workspace_list_outcome<F: FnOnce(Value) -> Result<Vec<WorkspaceInfo>, String>>(
    bin_path: Seq<char>,
    ran: Result<CommandOutput, String>,
    decode: F,
    listed: Result<Seq<Listed>, Seq<char>>,
) -> bool {
    match ran {
        Err(error) => listed == Err::<Seq<Listed>, Seq<char>>(
            not_run_text("workspace list"@, bin_path, error@),
        ),
        Ok(output) => if output.success {
            workspace_list_reply(output.stdout@, decode, listed)
        } else {
            listed == Err::<Seq<Listed>, Seq<char>>(
                command_failure_text("workspace list"@, output),
            )
        },
    }
}

/// What comes of a request for the tabs of a workspace.
pub open spec fn tab_list_outcome<F: FnOnce(Value) -> Result<Vec<TabInfo>, String>>(
    bin_path: Seq<char>,
    ran: Result<CommandOutput, String>,
    decode: F,
    listed: Result<Seq<Listed>, Seq<char>>,
) -> bool {
    match ran {
        Err(error) => listed == Err::<Seq<Listed>, Seq<char>>(
            not_run_text("tab list"@, bin_path, error@),
        ),
        Ok(output) => if output.success {
            tab_list_reply(output.stdout@, decode, listed)
        } else {
            listed == Err::<Seq<Listed>, Seq<char>>(command_failure_text("tab list"@, output))
        },
    }
}

/// What comes of a request to focus a tab.
pub open spec fn focus_tab_outcome(
    bin_path: Seq<char>,
    tab_id: Seq<char>,
    ran: Result<CommandOutput, String>,
) -> Result<(), Seq<char>> {
    match ran {
        Err(error) => Err(not_run_text("tab focus "@ + tab_id, bin_path, error@)),
        Ok(output) => if output.success {
            Ok(())
        } else {
            Err(command_failure_text("tab focus"@, output))
        },
    }
}

impl CliHerdr {
    fn not_run(&self, command: &str, error: &str) -> (failure: PluginError)
        ensures
            failure@ == not_run_text(command@, self.bin_path@, error@),
    {
        let problem = join3("failed to run ", command, " (");
        PluginError::new(join4(problem.as_str(), self.bin_path.as_str(), "): ", error))
    }

    /// The workspaces, from how the command that lists them ran. `ran` holds the
    /// system's words where the program could not be run.
    pub fn workspace_list<F: FnOnce(Value) -> Result<Vec<WorkspaceInfo>, String>>(
        &self,
        ran: Result<CommandOutput, String>,
        decode: F,
    ) -> (listed: Result<WorkspaceSnapshot, PluginError>)
        requires
            forall|value: Value| decode.requires((value,)),
        ensures
            workspace_list_outcome(self.bin_path@, ran, decode, workspaces_view(listed)),
    {
        match ran {
            Err(error) => Err(self.not_run("workspace list", error.as_str())),
            Ok(output) => if !output.success {
                Err(command_failure("workspace list", &output))
            } else {
                parse_workspace_list_response(output.stdout.as_slice(), decode)
            },
        }
    }

    /// The tabs of a workspace, from how the command that lists them ran.
    pub fn tab_list<F: FnOnce(Value) -> Result<Vec<TabInfo>, String>>(
        &self,
        ran: Result<CommandOutput, String>,
        decode: F,
    ) -> (listed: Result<TabSnapshot, PluginError>)
        requires
            forall|value: Value| decode.requires((value,)),
        ensures
            tab_list_outcome(self.bin_path@, ran, decode, tabs_view(listed)),
    {
        match ran {
            Err(error) => Err(self.not_run("tab list", error.as_str())),
            Ok(output) => if !output.success {
                Err(command_failure("tab list", &output))
            } else {
                parse_tab_list_response(output.stdout.as_slice(), decode)
            },
        }
    }

    /// Whether the tab was focused, from how the command that focuses it ran.
    pub fn focus_tab(&self, tab_id: &str, ran: Result<CommandOutput, String>) -> (focused: Result<
        (),
        PluginError,
    >)
        ensures
            error::unit_view(focused) == focus_tab_outcome(self.bin_path@, tab_id@, ran),
    {
        match ran {
            Err(error) => {
                let command = join2("tab focus ", tab_id);
                Err(self.not_run(command.as_str(), error.as_str()))
            },
            Ok(output) => if output.success {
                Ok(())
            } else {
                Err(command_failure("tab focus", &output))
            },
        }
    }
}

} // verus!
