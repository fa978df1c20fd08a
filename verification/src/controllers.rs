//! Decisions of the command line controllers: the shell prompt check, what
//! happens to the action selected from the history, and the sqlite shell.

use vstd::prelude::*;
use crate::config::{Channel, Content};
use crate::display::processor::UserSelection;
use crate::entities::FormattedAction;
use crate::text::{contains_seq, str_contains, str_eq};

verus! {

/// What to do with the result of the history screen.
#[derive(Debug)]
pub enum HistoryStep {
    /// No action was selected: say so.
    NoSelection,
    /// No output kind was given: say so.
    NoKind,
    /// Run the selected shell action.
    RunShell { action: FormattedAction, content: Content },
    /// Run the command that opens the selected url.
    RunOpen { command: String },
    /// Copy the selected action to the clipboard.
    Copy { action: FormattedAction, content: Content },
    /// Print the selected shell action.
    PrintShell { action: FormattedAction, content: Content },
    /// Print the command that opens the selected url.
    PrintOpen { command: String },
}

/// The command that opens `name`.
pub open spec fn open_command(name: Seq<char>) -> Seq<char> {
    "open "@ + name
}

fn open_command_of(name: &str) -> (r: String)
    ensures
        r@ == open_command(name@),
{
    let mut s = String::from_str("open ");
    s.append(name);
    s
}

/// What to do with the selection: shell actions are run or printed as
/// shell commands, other actions are opened; the clipboard takes either.
pub fn history_step(selection: UserSelection) -> (r: HistoryStep)
    ensures
        match (selection.action, selection.kind) {
            (None, _) => r == HistoryStep::NoSelection,
            (Some(_), None) => r == HistoryStep::NoKind,
            (Some(a), Some(k)) => {
                let shell = a.kind@ == "shell"@;
                match k.channel {
                    Channel::Run => if shell {
                        r == (HistoryStep::RunShell { action: a, content: k.content })
                    } else {
                        r matches HistoryStep::RunOpen { command } && command@ == open_command(a.name@)
                    },
                    Channel::Copy => r == (HistoryStep::Copy { action: a, content: k.content }),
                    Channel::Print => if shell {
                        r == (HistoryStep::PrintShell { action: a, content: k.content })
                    } else {
                        r matches HistoryStep::PrintOpen { command } && command@ == open_command(a.name@)
                    },
                }
            },
        },
{
    match selection.action {
        None => HistoryStep::NoSelection,
        Some(action) => match selection.kind {
            None => HistoryStep::NoKind,
            Some(kind) => {
                let shell = str_eq(action.kind.as_str(), "shell");
                match kind.channel {
                    Channel::Run => if shell {
                        HistoryStep::RunShell { action, content: kind.content }
                    } else {
                        HistoryStep::RunOpen { command: open_command_of(action.name.as_str()) }
                    },
                    Channel::Copy => HistoryStep::Copy { action, content: kind.content },
                    Channel::Print => if shell {
                        HistoryStep::PrintShell { action, content: kind.content }
                    } else {
                        HistoryStep::PrintOpen { command: open_command_of(action.name.as_str()) }
                    },
                }
            },
        },
    }
}

/// The advice printed by `prompt --check` for the prompt variable `ps1`.
pub fn prompt_check_lines(ps1: &str) -> (r: Vec<String>)
    ensures
        !contains_seq(ps1@, "weaver"@) ==> r@.len() == 2
            && r@[0]@ == "Your PS1 variable should contain an invocation to weaver, for example"@
            && r@[1]@ == "export PS1='{$( fc -ln -1 | weaver prompt)} \\W $ '"@,
        contains_seq(ps1@, "weaver"@) ==> r@.len() == 1 && r@[0]@ == "Looking good"@,
{
    let mut out: Vec<String> = Vec::new();
    if !str_contains(ps1, "weaver") {
        out.push(String::from_str("Your PS1 variable should contain an invocation to weaver, for example"));
        out.push(String::from_str("export PS1='{$( fc -ln -1 | weaver prompt)} \\W $ '"));
    } else {
        out.push(String::from_str("Looking good"));
    }
    out
}

/// What the prompt shows for the current epic: its name, or `<not-set>`.
pub fn prompt_epic(epic: Option<&str>) -> (r: String)
    ensures
        match epic {
            Some(e) => r@ == e@,
            None => r@ == "<not-set>"@,
        },
{
    match epic {
        Some(e) => e.to_owned(),
        None => String::from_str("<not-set>"),
    }
}

/// The sqlite3 command that opens the database at `db_path`.
pub fn sqlite_open_command(db_path: &str) -> (r: String)
    ensures
        r@ == ".open "@ + db_path@,
{
    let mut s = String::from_str(".open ");
    s.append(db_path);
    s
}

/// Whether the prompt starts the server: the configuration asks for it and
/// no server is running yet.
pub fn should_start_server(start_server: Option<bool>, running: bool) -> (r: bool)
    ensures
        r == (start_server == Some(true) && !running),
{
    let wanted = match start_server {
        Some(b) => b,
        None => false,
    };
    wanted && !running
}

} // verus!
