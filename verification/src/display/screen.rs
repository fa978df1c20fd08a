//! The sizes of the history screen's parts, from the terminal size.

use vstd::prelude::*;

verus! {

/// How the history screen divides the terminal.
#[derive(Clone, Copy, Debug, PartialEq, Eq, Structural)]
pub struct ScreenLayout {
    /// Rows of the action table: all but the nine below it.
    pub table_height: usize,
    /// Columns of the action table: all but seven.
    pub table_width: usize,
    /// Columns of the command line: all but fifty.
    pub command_width: usize,
}

/// The layout for a terminal of `width` x `height`; the screen needs at
/// least nine rows and fifty columns.
pub fn screen_layout(width: usize, height: usize) -> (r: ScreenLayout)
    requires
        height >= 9,
        width >= 50,
    ensures
        r == (ScreenLayout { table_height: (height - 9) as usize, table_width: (width - 7) as usize, command_width: (width - 50) as usize }),
{
    ScreenLayout { table_height: height - 9, table_width: width - 7, command_width: width - 50 }
}

} // verus!
