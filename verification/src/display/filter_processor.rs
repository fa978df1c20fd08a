//! The filter processor of the first history screen: it owns the table and
//! answers each new filter text with the rows to show.

use vstd::prelude::*;
use crate::display::table::{kept, padded_to, FormattedAction, Table};

verus! {

/// Messages sent to the filter processor.
#[derive(Debug)]
pub enum FilterMsg {
    /// Stop processing.
    End,
    /// The filter text changed.
    Filter(String),
}

/// What the screen does after a filter message.
#[derive(Debug)]
pub enum FilterEffect {
    /// Show `entries` in the table and select row `select`: the last one,
    /// none when there are no rows.
    Redisplay { entries: Vec<FormattedAction>, select: Option<usize> },
    /// The processor is done.
    Stop,
}

/// The row the table selects after showing `len` rows: the last one.
pub open spec fn last_row(len: nat) -> Option<usize> {
    if len == 0 { None } else { Some((len - 1) as usize) }
}

/// Handles one message: a filter text refilters the table (and is
/// remembered), the end message stops the processor.
pub fn filter_step(table: &mut Table, msg: FilterMsg) -> (r: FilterEffect)
    ensures
        final(table).spec_content() == old(table).spec_content(),
        final(table).spec_rows() == old(table).spec_rows(),
        match msg {
            FilterMsg::End => r is Stop && *final(table) == *old(table),
            FilterMsg::Filter(f) => {
                &&& final(table).spec_filter() == Some(f)
                &&& r matches FilterEffect::Redisplay { entries, select } && {
                    &&& padded_to(entries@, kept(old(table).spec_content(), Some(f@)), old(table).spec_rows() as nat)
                    &&& select == last_row(entries@.len())
                }
            },
        },
{
    match msg {
        FilterMsg::End => FilterEffect::Stop,
        FilterMsg::Filter(f) => {
            let entries = table.filter(Some(f));
            let n = entries.len();
            let select = if n > 0 { Some(n - 1) } else { None };
            FilterEffect::Redisplay { entries, select }
        },
    }
}

} // verus!
