//! The command line: server addresses and the command that a parsed
//! invocation asks for.

use vstd::prelude::*;
use crate::config::{Channel, Content, OutputChoice, ServerRun};
use crate::text::str_eq;

verus! {

/// Address of the http server.
pub const HTTP_ADDRESS: &'static str = "127.0.0.1:8464";
/// Address of the rpc server.
pub const RPC_ADDRESS: &'static str = "127.0.0.1:8465";
/// Address of the api server.
pub const ACTIX_ADDRESS: &'static str = "127.0.0.1:8466";

/// The addresses the servers listen on.
#[derive(Debug)]
pub struct ServerConfig {
    pub http_address: String,
    pub rpc_address: String,
    pub actix_address: String,
}

/// The configuration holds the default addresses.
pub open spec fn is_default_config(c: ServerConfig) -> bool {
    &&& c.http_address@ == "127.0.0.1:8464"@
    &&& c.rpc_address@ == "127.0.0.1:8465"@
    &&& c.actix_address@ == "127.0.0.1:8466"@
}

impl Default for ServerConfig {
    fn default() -> (r: Self)
        ensures
            is_default_config(r),
    {
        ServerConfig {
            http_address: String::from_str(HTTP_ADDRESS),
            rpc_address: String::from_str(RPC_ADDRESS),
            actix_address: String::from_str(ACTIX_ADDRESS),
        }
    }
}

impl ServerConfig {
    /// The configuration in use: the default addresses.
    pub fn current() -> (r: ServerConfig)
        ensures
            is_default_config(r),
    {
        ServerConfig::default()
    }
}

/// Data subcommands.
#[derive(Clone, Copy, Debug, PartialEq, Eq, Structural)]
pub enum DataSubCommand {
    Sqlite,
}

/// Server subcommands.
#[derive(Clone, Copy, Debug, PartialEq, Eq, Structural)]
pub enum ServerSubCommand {
    Start(ServerRun),
    Check,
}

/// Commands returned by the parser for execution in the main loop.
#[derive(Debug)]
pub enum Command {
    ActionHistory(OutputChoice),
    FlowRecommend,
    FlowCreate(String, bool),
    FlowRun(String),
    EpicActivate(String),
    EpicList,
    Noop,
    Server(ServerSubCommand),
    ShellPrompt(bool),
    Data(DataSubCommand),
}

/// The subcommand of `server` that was given.
#[derive(Clone, Copy, Debug, PartialEq, Eq, Structural)]
pub enum ServerArgs {
    Check,
    /// `start`, with whether `--fg` was given.
    Start { foreground: bool },
}

/// The subcommand that was given, with its arguments.
#[derive(Debug)]
pub enum SubcommandArgs {
    /// `actions`: the names of the output content and channel flags given.
    Actions { content: Option<String>, channel: Option<String> },
    /// `run NAME`.
    Run { name: String },
    /// `create NAME [-g]`.
    Create { name: String, global: bool },
    /// `epic [NAME]`.
    Epic { epic_name: Option<String> },
    /// `prompt [--check]`.
    Prompt { check: bool },
    /// `server`, with its subcommand if one was given.
    Server { sub: Option<ServerArgs> },
    /// `data`, with whether `sqlite` was given.
    Data { sqlite: bool },
}

/// What the argument parser found on the command line.
#[derive(Debug)]
pub struct Arguments {
    /// `-V` was given.
    pub version: bool,
    /// The subcommand, if any.
    pub subcommand: Option<SubcommandArgs>,
}

/// The output content named by the `output-content` flag (the command
/// when no flag is given).
pub open spec fn content_spec(v: Option<Seq<char>>) -> Content {
    match v {
        Some(s) => if s == "path"@ {
            Content::Path
        } else if s == "path-with-command"@ {
            Content::PathWithCommand
        } else {
            Content::Command
        },
        None => Content::Command,
    }
}

/// The output channel named by the `output-channel` flag (print when no
/// flag is given).
pub open spec fn channel_spec(v: Option<Seq<char>>) -> Channel {
    match v {
        Some(s) => if s == "run"@ {
            Channel::Run
        } else if s == "copy"@ {
            Channel::Copy
        } else {
            Channel::Print
        },
        None => Channel::Print,
    }
}

/// The value is one the `output-content` group can take.
pub open spec fn valid_content_arg(v: Option<Seq<char>>) -> bool {
    match v {
        Some(s) => s == "path"@ || s == "path-with-command"@ || s == "command"@,
        None => true,
    }
}

/// The value is one the `output-channel` group can take.
pub open spec fn valid_channel_arg(v: Option<Seq<char>>) -> bool {
    match v {
        Some(s) => s == "run"@ || s == "copy"@ || s == "print"@,
        None => true,
    }
}

/// The character view of an optional string.
pub open spec fn opt_view(v: Option<String>) -> Option<Seq<char>> {
    match v {
        Some(s) => Some(s@),
        None => None,
    }
}

/// The content selected by the `output-content` flag.
pub fn content_from_arg(v: Option<&str>) -> (r: Content)
    requires
        valid_content_arg(match v { Some(s) => Some(s@), None => None }),
    ensures
        r == content_spec(match v { Some(s) => Some(s@), None => None }),
{
    match v {
        Some(s) => if str_eq(s, "path") {
            Content::Path
        } else if str_eq(s, "path-with-command") {
            Content::PathWithCommand
        } else {
            Content::Command
        },
        None => Content::Command,
    }
}

/// The channel selected by the `output-channel` flag.
pub fn channel_from_arg(v: Option<&str>) -> (r: Channel)
    requires
        valid_channel_arg(match v { Some(s) => Some(s@), None => None }),
    ensures
        r == channel_spec(match v { Some(s) => Some(s@), None => None }),
{
    match v {
        Some(s) => if str_eq(s, "run") {
            Channel::Run
        } else if str_eq(s, "copy") {
            Channel::Copy
        } else {
            Channel::Print
        },
        None => Channel::Print,
    }
}

/// The arguments are ones the parser can report: the output flags take
/// their known values and `server` comes with a subcommand.
pub open spec fn valid_arguments(a: Arguments) -> bool {
    !a.version ==> match a.subcommand {
        Some(SubcommandArgs::Actions { content, channel }) => valid_content_arg(opt_view(content))
            && valid_channel_arg(opt_view(channel)),
        Some(SubcommandArgs::Server { sub }) => sub is Some,
        _ => true,
    }
}

/// The command that the arguments ask for.
pub open spec fn command_spec(a: Arguments) -> Command {
    if a.version {
        Command::Noop
    } else {
        match a.subcommand {
            Some(SubcommandArgs::Actions { content, channel }) => Command::ActionHistory(
                OutputChoice { content: content_spec(opt_view(content)), channel: channel_spec(opt_view(channel)) },
            ),
            Some(SubcommandArgs::Create { name, global }) => Command::FlowCreate(name, global),
            Some(SubcommandArgs::Epic { epic_name }) => match epic_name {
                Some(n) => Command::EpicActivate(n),
                None => Command::EpicList,
            },
            Some(SubcommandArgs::Prompt { check }) => Command::ShellPrompt(check),
            Some(SubcommandArgs::Run { name }) => Command::FlowRun(name),
            Some(SubcommandArgs::Server { sub }) => match sub {
                Some(ServerArgs::Check) => Command::Server(ServerSubCommand::Check),
                Some(ServerArgs::Start { foreground }) => Command::Server(ServerSubCommand::Start(
                    if foreground { ServerRun::Foreground } else { ServerRun::Daemonize },
                )),
                None => Command::Noop,
            },
            Some(SubcommandArgs::Data { sqlite }) => if sqlite {
                Command::Data(DataSubCommand::Sqlite)
            } else {
                Command::FlowRecommend
            },
            None => Command::FlowRecommend,
        }
    }
}

/// The command to execute for the parsed arguments: `-V` prints the version
/// and does nothing else; each subcommand maps to its command; no
/// subcommand recommends a flow.
pub fn command_from_arguments(a: Arguments) -> (r: Command)
    requires
        valid_arguments(a),
    ensures
        r == command_spec(a),
{
    if a.version {
        return Command::Noop;
    }
    match a.subcommand {
        Some(SubcommandArgs::Actions { content, channel }) => {
            let c = content_from_arg(match &content { Some(s) => Some(s.as_str()), None => None });
            let ch = channel_from_arg(match &channel { Some(s) => Some(s.as_str()), None => None });
            Command::ActionHistory(OutputChoice { content: c, channel: ch })
        },
        Some(SubcommandArgs::Create { name, global }) => Command::FlowCreate(name, global),
        Some(SubcommandArgs::Epic { epic_name }) => match epic_name {
            Some(n) => Command::EpicActivate(n),
            None => Command::EpicList,
        },
        Some(SubcommandArgs::Prompt { check }) => Command::ShellPrompt(check),
        Some(SubcommandArgs::Run { name }) => Command::FlowRun(name),
        Some(SubcommandArgs::Server { sub }) => match sub {
            Some(ServerArgs::Check) => Command::Server(ServerSubCommand::Check),
            Some(ServerArgs::Start { foreground }) => {
                let mode = if foreground { ServerRun::Foreground } else { ServerRun::Daemonize };
                Command::Server(ServerSubCommand::Start(mode))
            },
            None => Command::Noop,
        },
        Some(SubcommandArgs::Data { sqlite }) => if sqlite {
            Command::Data(DataSubCommand::Sqlite)
        } else {
            Command::FlowRecommend
        },
        None => Command::FlowRecommend,
    }
}


/// `-V` does nothing else, whatever subcommand comes with it; without a
/// subcommand a flow is recommended.
pub proof fn law_version_flag_wins(a: Arguments)
    ensures
        a.version ==> command_spec(a) == Command::Noop,
        !a.version && a.subcommand is None ==> command_spec(a) == Command::FlowRecommend,
{
}

/// Each subcommand becomes its command with its arguments kept: `prompt`
/// keeps its check flag, `create` its name and global flag, `run` its
/// name, `epic` its name (listing without one), `server check` checks and
/// `server start` starts in the foreground exactly with `--fg`, `data
/// sqlite` opens the sqlite shell; `actions` keeps its output choice.
pub proof fn law_subcommands_keep_their_arguments(a: Arguments)
    requires
        !a.version,
    ensures
        a.subcommand matches Some(SubcommandArgs::Prompt { check }) ==> command_spec(a) == Command::ShellPrompt(check),
        a.subcommand matches Some(SubcommandArgs::Create { name, global }) ==> command_spec(a) == Command::FlowCreate(name, global),
        a.subcommand matches Some(SubcommandArgs::Run { name }) ==> command_spec(a) == Command::FlowRun(name),
        a.subcommand matches Some(SubcommandArgs::Epic { epic_name: Some(n) }) ==> command_spec(a) == Command::EpicActivate(n),
        a.subcommand matches Some(SubcommandArgs::Epic { epic_name: None }) ==> command_spec(a) == Command::EpicList,
        a.subcommand == Some(SubcommandArgs::Server { sub: Some(ServerArgs::Check) }) ==> command_spec(a) == Command::Server(ServerSubCommand::Check),
        a.subcommand == Some(SubcommandArgs::Server { sub: Some(ServerArgs::Start { foreground: true }) }) ==> command_spec(a) == Command::Server(ServerSubCommand::Start(ServerRun::Foreground)),
        a.subcommand == Some(SubcommandArgs::Server { sub: Some(ServerArgs::Start { foreground: false }) }) ==> command_spec(a) == Command::Server(ServerSubCommand::Start(ServerRun::Daemonize)),
        a.subcommand == Some(SubcommandArgs::Data { sqlite: true }) ==> command_spec(a) == Command::Data(DataSubCommand::Sqlite),
        a.subcommand matches Some(SubcommandArgs::Actions { content: None, channel: None }) ==> command_spec(a) == Command::ActionHistory(
            OutputChoice { content: Content::Command, channel: Channel::Print },
        ),
        a.subcommand matches Some(SubcommandArgs::Actions { content: Some(c), channel: Some(h) }) && c@ == "path"@ && h@ == "run"@
            ==> command_spec(a) == Command::ActionHistory(OutputChoice { content: Content::Path, channel: Channel::Run }),
        a.subcommand matches Some(SubcommandArgs::Actions { content: Some(c), channel: Some(h) }) && c@ == "path-with-command"@ && h@ == "copy"@
            ==> command_spec(a) == Command::ActionHistory(OutputChoice { content: Content::PathWithCommand, channel: Channel::Copy }),
{
    reveal_strlit("path");
    reveal_strlit("path-with-command");
    reveal_strlit("run");
    reveal_strlit("copy");
    assert("path"@.len() == 4 && "path-with-command"@.len() == 17);
    assert("run"@.len() == 3 && "copy"@.len() == 4);
}

} // verus!
