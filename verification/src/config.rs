//! Configuration values: how the server runs and what is done with the
//! action the user selects.

use vstd::prelude::*;

verus! {

/// How the server runs.
#[derive(Clone, Copy, Debug, PartialEq, Eq, Structural)]
pub enum ServerRun {
    Foreground,
    Daemonize,
}

/// What to do with the selected action.
#[derive(Clone, Copy, Debug, PartialEq, Eq, Structural)]
pub enum OutputKind {
    Copy,
    Print,
    Run,
}

/// Where the selected action goes.
#[derive(Clone, Copy, Debug, PartialEq, Eq, Structural)]
pub enum Channel {
    Run,
    Copy,
    Print,
}

/// Which part of the selected action is output.
#[derive(Clone, Copy, Debug, PartialEq, Eq, Structural)]
pub enum Content {
    Path,
    PathWithCommand,
    Command,
}

/// The output chosen for the selected action: its content and channel.
#[derive(Clone, Copy, Debug, PartialEq, Eq, Structural)]
pub struct OutputChoice {
    pub content: Content,
    pub channel: Channel,
}

/// The channels offered by the output selector, in display order.
pub fn all_channel() -> (r: Vec<Channel>)
    ensures
        r@ == seq![Channel::Print, Channel::Run, Channel::Copy],
{
    let mut v = Vec::new();
    v.push(Channel::Print);
    v.push(Channel::Run);
    v.push(Channel::Copy);
    v
}

/// The contents offered by the output selector, in display order.
pub fn all_content() -> (r: Vec<Content>)
    ensures
        r@ == seq![Content::Command, Content::PathWithCommand, Content::Path],
{
    let mut v = Vec::new();
    v.push(Content::Command);
    v.push(Content::PathWithCommand);
    v.push(Content::Path);
    v
}

} // verus!
