//! The selection processor of the first history screen: it shows the
//! selected command in the command line.

use vstd::prelude::*;

verus! {

/// Messages sent to the selection processor.
#[derive(Debug)]
pub enum SelectionMsg {
    /// Stop processing.
    End,
    /// The selected command changed, if there is one.
    Selection(Option<String>),
}

/// What the screen does after a selection message.
#[derive(Debug)]
pub enum SelectionEffect {
    /// Set the text of the command line.
    SetCommand(String),
    /// The processor is done.
    Stop,
}

/// Handles one message: the selected command goes to the command line (an
/// empty line when nothing is selected), the end message stops.
pub fn selection_step(msg: SelectionMsg) -> (r: SelectionEffect)
    ensures
        match msg {
            SelectionMsg::End => r is Stop,
            SelectionMsg::Selection(Some(c)) => r == SelectionEffect::SetCommand(c),
            SelectionMsg::Selection(None) => r matches SelectionEffect::SetCommand(c) && c@.len() == 0,
        },
{
    match msg {
        SelectionMsg::End => SelectionEffect::Stop,
        SelectionMsg::Selection(f) => match f {
            Some(c) => SelectionEffect::SetCommand(c),
            None => SelectionEffect::SetCommand(String::new()),
        },
    }
}

} // verus!
