//! The command line, the environment and the exit.

use crate::command;
use crate::command::{
    env_path, exit_with, parse_subcommand, start, usage, Exit, ParseCommandError, Startup,
    Subcommand,
};
use crate::conduct;
use crate::error::PluginError;
use crate::herdr;
use vstd::prelude::*;

verus! {

/// Whether the command line is this one word.
pub open spec fn is_word(args: Seq<String>, word: Seq<char>) -> bool {
    args.len() == 1 && args[0]@ == word
}

/// Whether the command line asks for a subcommand.
pub open spec fn asks_for(args: Seq<String>, subcommand: Subcommand) -> bool {
    match subcommand {
        Subcommand::Toggle => is_word(args, "toggle"@),
        Subcommand::Focused => is_word(args, "focused"@),
        Subcommand::Closed => is_word(args, "closed"@),
    }
}

/// Whether the command line asks for one of the subcommands.
pub open spec fn asks_for_one(args: Seq<String>) -> bool {
    ||| asks_for(args, Subcommand::Toggle)
    ||| asks_for(args, Subcommand::Focused)
    ||| asks_for(args, Subcommand::Closed)
}

/// Whether the command line asks for help, or is not one word.
pub open spec fn asks_for_help(args: Seq<String>) -> bool {
    args.len() != 1 || is_word(args, "help"@) || is_word(args, "--help"@) || is_word(args, "-h"@)
}

/// Whether a user who gave these arguments is told this.
pub open spec fn is_told(args: Seq<String>, message: Seq<char>) -> bool {
    if asks_for_help(args) {
        message == "usage: herdr-last-tab <toggle|focused|closed>"@
    } else {
        message == "unknown subcommand: "@ + args[0]@ + "\n"@
            + "usage: herdr-last-tab <toggle|focused|closed>"@
    }
}

proof fn lemma_words_differ()
    ensures
        "toggle"@ != "focused"@ && "toggle"@ != "closed"@ && "focused"@ != "closed"@,
        "help"@ != "toggle"@ && "help"@ != "focused"@ && "help"@ != "closed"@,
        "--help"@ != "toggle"@ && "--help"@ != "focused"@ && "--help"@ != "closed"@,
        "-h"@ != "toggle"@ && "-h"@ != "focused"@ && "-h"@ != "closed"@,
{
    reveal_strlit("toggle");
    reveal_strlit("focused");
    reveal_strlit("closed");
    reveal_strlit("help");
    reveal_strlit("--help");
    reveal_strlit("-h");
    assert("toggle"@[0] == 't' && "focused"@[0] == 'f' && "closed"@[0] == 'c');
    assert("help"@[0] == 'h' && "--help"@[0] == '-' && "-h"@[0] == '-');
}

/// `parse_subcommand` gives a subcommand exactly if its name is the only argument, and
/// tells the user how to use it otherwise.
pub proof fn command_lines_are_understood(
    args: Vec<String>,
    subcommand: Result<Subcommand, ParseCommandError>,
)
    requires
        call_ensures(parse_subcommand, (args,), subcommand),
    ensures
        forall|wanted: Subcommand| #[trigger]
            asks_for(args@, wanted) <==> subcommand == Ok::<Subcommand, ParseCommandError>(wanted),
        subcommand matches Err(ParseCommandError::Usage(message)) ==> is_told(args@, message@),
{
    lemma_words_differ();
    assert(herdr::texts(args@).len() == args@.len());
    if args@.len() == 1 {
        assert(herdr::texts(args@)[0] == args@[0]@);
    }
}

/// `usage` names the three subcommands.
pub proof fn usage_is_told(text: String)
    requires
        call_ensures(usage, (), text),
    ensures
        text@ == "usage: herdr-last-tab <toggle|focused|closed>"@,
{
}

/// The variables that Herdr sets have their names.
pub proof fn variables_are_named()
    ensures
        command::STATE_DIR_VARIABLE@ == "HERDR_PLUGIN_STATE_DIR"@,
        command::BIN_PATH_VARIABLE@ == "HERDR_BIN_PATH"@,
        command::EVENT_VARIABLE@ == "HERDR_PLUGIN_EVENT_JSON"@,
        command::CONTEXT_VARIABLE@ == "HERDR_PLUGIN_CONTEXT_JSON"@,
{
}

/// Whether a variable holds a path.
pub open spec fn holds_path(value: Option<Vec<u8>>) -> bool {
    value is Some && value->0@.len() > 0
}

/// `env_path` gives the bytes of a variable exactly if it is set, and not to nothing.
pub proof fn variables_hold_paths(
    name: &str,
    value: Option<Vec<u8>>,
    path: Result<Vec<u8>, PluginError>,
)
    requires
        call_ensures(env_path, (name, value), path),
    ensures
        path is Ok <==> holds_path(value),
        path matches Ok(path) ==> path@ == value->0@,
        path matches Err(error) ==> error@ == name@
            + " is not set; Herdr should provide this environment variable to plugin commands"@,
{
}

/// `start` goes on exactly if the command line and both variables are in order, with what
/// they say. Otherwise the process ends: with code 2 for the command line, and with code
/// 1 for the first variable that is missing.
pub proof fn starts_are_checked(
    args: Vec<String>,
    state_dir: Option<Vec<u8>>,
    bin_path: Option<Vec<u8>>,
    startup: Result<Startup, Exit>,
)
    requires
        call_ensures(start, (args, state_dir, bin_path), startup),
    ensures
        startup is Ok <==> asks_for_one(args@) && holds_path(state_dir) && holds_path(bin_path),
        startup matches Ok(startup) ==> asks_for(args@, startup.subcommand)
            && startup.state_dir@ == state_dir->0@ && startup.bin_path@ == bin_path->0@,
        startup matches Err(exit) ==> exit.message is Some && if !asks_for_one(args@) {
            exit.code == 2 && is_told(args@, exit.message->0@)
        } else if !holds_path(state_dir) {
            exit.code == 1 && exit.message->0@ == "HERDR_PLUGIN_STATE_DIR"@
                + " is not set; Herdr should provide this environment variable to plugin commands"@
        } else {
            exit.code == 1 && exit.message->0@ == "HERDR_BIN_PATH"@
                + " is not set; Herdr should provide this environment variable to plugin commands"@
        },
{
    lemma_words_differ();
    assert(herdr::texts(args@).len() == args@.len());
    if args@.len() == 1 {
        assert(herdr::texts(args@)[0] == args@[0]@);
    }
}

/// `exit_with` ends with code 0 and no message exactly if all went well, and otherwise
/// with code 1 and the message of the error.
pub proof fn outcomes_have_exit_codes(outcome: Result<(), PluginError>, exit: Exit)
    requires
        call_ensures(exit_with, (outcome,), exit),
    ensures
        outcome is Ok ==> exit.code == 0 && exit.message is None,
        outcome matches Err(error) ==> exit.code == 1 && conduct::chars(exit.message) == Some(
            error@,
        ),
{
}

} // verus!
