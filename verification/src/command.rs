//! The command line: what the plugin is asked to do, and how it exits.

use crate::error::{detailed, PluginError};
use crate::herdr;
use crate::text;
use crate::text::{join4, same_text};
use vstd::prelude::*;

verus! {

/// What the plugin can be asked to do.
#[derive(Debug, Clone, Copy, PartialEq, Eq)]
pub enum Subcommand {
    Toggle,
    Focused,
    Closed,
}

/// The command line makes no sense, or asks for help.
#[derive(Debug, Clone, PartialEq, Eq)]
pub enum ParseCommandError {
    Usage(String),
}

/// How the command line is used.
pub open spec fn usage_text() -> Seq<char> {
    "usage: herdr-last-tab <toggle|focused|closed>"@
}

/// How the command line is used.
pub fn usage() -> (text: String)
    ensures
        text@ == usage_text(),
{
    "usage: herdr-last-tab <toggle|focused|closed>".to_owned()
}

/// The subcommand with a name.
pub open spec fn subcommand_named(name: Seq<char>) -> Option<Subcommand> {
    if name == "toggle"@ {
        Some(Subcommand::Toggle)
    } else if name == "focused"@ {
        Some(Subcommand::Focused)
    } else if name == "closed"@ {
        Some(Subcommand::Closed)
    } else {
        None
    }
}

/// Whether an argument asks for help.
pub open spec fn asks_for_help(name: Seq<char>) -> bool {
    name == "help"@ || name == "--help"@ || name == "-h"@
}

/// The subcommand that the arguments ask for, or what to tell the user. There must be
/// exactly one argument, and it must name a subcommand.
pub open spec fn parsed(args: Seq<Seq<char>>) -> Result<Subcommand, Seq<char>> {
    if args.len() != 1 {
        Err(usage_text())
    } else {
        match subcommand_named(args[0]) {
            Some(subcommand) => Ok(subcommand),
            None => if asks_for_help(args[0]) {
                Err(usage_text())
            } else {
                Err("unknown subcommand: "@ + args[0] + "\n"@ + usage_text())
            },
        }
    }
}

/// A parsed command line, with the message as characters.
pub open spec fn parsed_view(parsed: Result<Subcommand, ParseCommandError>) -> Result<
    Subcommand,
    Seq<char>,
> {
    match parsed {
        Ok(subcommand) => Ok(subcommand),
        Err(ParseCommandError::Usage(message)) => Err(message@),
    }
}

/// The subcommand that the arguments ask for.
pub fn parse_subcommand(args: Vec<String>) -> (subcommand: Result<Subcommand, ParseCommandError>)
    ensures
        parsed_view(subcommand) == parsed(herdr::texts(args@)),
{
    if args.len() != 1 {
        return Err(ParseCommandError::Usage(usage()));
    }
    let raw = args[0].as_str();
    if same_text(raw, "toggle") {
        Ok(Subcommand::Toggle)
    } else if same_text(raw, "focused") {
        Ok(Subcommand::Focused)
    } else if same_text(raw, "closed") {
        Ok(Subcommand::Closed)
    } else if same_text(raw, "help") || same_text(raw, "--help") || same_text(raw, "-h") {
        Err(ParseCommandError::Usage(usage()))
    } else {
        let usage = usage();
        Err(ParseCommandError::Usage(join4("unknown subcommand: ", raw, "\n", usage.as_str())))
    }
}

/// The message for an environment variable that is not there.
pub open spec fn missing_variable_text(name: Seq<char>) -> Seq<char> {
    name
        + " is not set; Herdr should provide this environment variable to plugin commands"@
}

/// The value of an environment variable that has to hold a path: it must be set, and
/// not to nothing. Paths need not be text, so they come as the system's bytes.
pub fn env_path(name: &str, value: Option<Vec<u8>>) -> (path: Result<Vec<u8>, PluginError>)
    ensures
        (match path {
            Ok(path) => value == Some(path) && path@.len() > 0,
            Err(error) => error@ == missing_variable_text(name@) && (value matches Some(value)
                ==> value@.len() == 0),
        }),
{
    match value {
        Some(path) => if path.len() > 0 {
            Ok(path)
        } else {
            Err(missing_variable(name))
        },
        None => Err(missing_variable(name)),
    }
}

fn missing_variable(name: &str) -> (error: PluginError)
    ensures
        error@ == missing_variable_text(name@),
{
    detailed(
        name,
        " is not set; Herdr should provide this environment variable to plugin commands",
    )
}

/// The environment variable that holds the plugin's state directory.
pub const STATE_DIR_VARIABLE: &'static str = "HERDR_PLUGIN_STATE_DIR";

/// The environment variable that holds the path of Herdr's program.
pub const BIN_PATH_VARIABLE: &'static str = "HERDR_BIN_PATH";

/// The environment variable that holds the event a command was called for.
pub const EVENT_VARIABLE: &'static str = "HERDR_PLUGIN_EVENT_JSON";

/// The environment variable that holds the context a command was called in.
pub const CONTEXT_VARIABLE: &'static str = "HERDR_PLUGIN_CONTEXT_JSON";

/// How the process ends: its exit code, and what it tells the user on the way.
#[derive(Debug, Clone, PartialEq, Eq)]
pub struct Exit {
    pub code: i32,
    pub message: Option<String>,
}

impl Exit {
    /// Whether this is the end with a given code and message.
    pub open spec fn tells(self, code: i32, message: Option<Seq<char>>) -> bool {
        self.code == code && text::opt_text(self.message) == message
    }
}

/// A command that can be run: what to do, the state directory, and the path of
/// Herdr's program.
#[derive(Debug, Clone, PartialEq, Eq)]
pub struct Startup {
    pub subcommand: Subcommand,
    pub state_dir: Vec<u8>,
    pub bin_path: Vec<u8>,
}

/// Whether a path was given.
pub open spec fn path_given(value: Option<Vec<u8>>) -> bool {
    value matches Some(path) && path@.len() > 0
}

/// Checks the command line and the environment, in this order: the arguments, the
/// state directory, the path of Herdr's program. The first that is not in order ends
/// the process, with code 2 for the arguments and 1 for the environment.
pub fn start(
    args: Vec<String>,
    state_dir: Option<Vec<u8>>,
    bin_path: Option<Vec<u8>>,
) -> (startup: Result<Startup, Exit>)
    ensures
        (match parsed(herdr::texts(args@)) {
            Err(message) => startup matches Err(exit) && exit.tells(2, Some(message)),
            Ok(subcommand) => if !path_given(state_dir) {
                startup matches Err(exit) && exit.tells(
                    1,
                    Some(missing_variable_text(STATE_DIR_VARIABLE@)),
                )
            } else if !path_given(bin_path) {
                startup matches Err(exit) && exit.tells(
                    1,
                    Some(missing_variable_text(BIN_PATH_VARIABLE@)),
                )
            } else {
                startup == Ok::<Startup, Exit>(
                    Startup { subcommand, state_dir: state_dir->0, bin_path: bin_path->0 },
                )
            },
        }),
{
    let subcommand = match parse_subcommand(args) {
        Ok(subcommand) => subcommand,
        Err(ParseCommandError::Usage(message)) => {
            return Err(Exit { code: 2, message: Some(message) });
        },
    };
    let state_dir = match env_path(STATE_DIR_VARIABLE, state_dir) {
        Ok(path) => path,
        Err(error) => {
            return Err(exit_with(Err(error)));
        },
    };
    let bin_path = match env_path(BIN_PATH_VARIABLE, bin_path) {
        Ok(path) => path,
        Err(error) => {
            return Err(exit_with(Err(error)));
        },
    };
    Ok(Startup { subcommand, state_dir, bin_path })
}

/// How the process ends after a command: with code 0 where all went well, and
/// otherwise with code 1 and the error's message.
pub fn exit_with(outcome: Result<(), PluginError>) -> (exit: Exit)
    ensures
        (match outcome {
            Ok(()) => exit.tells(0, None),
            Err(error) => exit.tells(1, Some(error@)),
        }),
{
    match outcome {
        Ok(()) => Exit { code: 0, message: None },
        Err(error) => Exit { code: 1, message: Some(error.message().to_owned()) },
    }
}

} // verus!
