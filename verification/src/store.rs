//! Building the records written to and read from the action store.

use vstd::prelude::*;
use crate::entities::FormattedAction;
use crate::text::{decimal, usize_to_string};

verus! {

/// An action to insert in the store.
#[derive(Debug)]
pub struct NewAction {
    pub executed: String,
    pub kind: String,
    pub command: String,
    pub location: Option<String>,
    pub epic: Option<String>,
    pub host: String,
}

/// A shell action: `command` ran in `location` at `executed` on `host`.
pub fn shell_action(
    executed: String,
    command: String,
    location: Option<String>,
    epic: Option<String>,
    host: String,
) -> (r: NewAction)
    ensures
        r.executed == executed,
        r.kind@ == "shell"@,
        r.command == command,
        r.location == location,
        r.epic == epic,
        r.host == host,
{
    NewAction { executed, kind: String::from_str("shell"), command, location, epic, host }
}

/// A url action: `url` visited from `location` at `executed` on `host`.
pub fn url_action(
    executed: String,
    url: String,
    location: String,
    epic: Option<String>,
    host: String,
) -> (r: NewAction)
    ensures
        r.executed == executed,
        r.kind@ == "url"@,
        r.command == url,
        r.location == Some(location),
        r.epic == epic,
        r.host == host,
{
    NewAction { executed, kind: String::from_str("url"), command: url, location: Some(location), epic, host }
}

/// An insert must touch exactly one row.
pub fn check_insert_count(count: usize) -> (r: Result<(), String>)
    ensures
        count == 1 ==> r is Ok,
        count != 1 ==> (r matches Err(e) && e@ == "Got bad numbers of rows in insert"@),
{
    if count == 1 {
        Ok(())
    } else {
        Err(String::from_str("Got bad numbers of rows in insert"))
    }
}

/// The error for an insert in the actions table that touched `count` rows.
pub fn insert_count_error(count: usize) -> (r: String)
    ensures
        r@ == "bad insert count "@ + decimal(count as nat) + " during migration"@,
{
    let mut s = String::from_str("bad insert count ");
    let n = usize_to_string(count);
    s.append(n.as_str());
    s.append(" during migration");
    s
}

/// The action shown for a stored row: its id (0 when missing), annotation,
/// command kind and text, location and epic names.
pub fn format_row(
    id: Option<i32>,
    annotation: Option<String>,
    kind: String,
    command: String,
    location: Option<String>,
    epic: Option<String>,
) -> (r: FormattedAction)
    ensures
        r.id == (match id { Some(i) => i, None => 0i32 }) as usize,
        r.annotation == annotation,
        r.kind == kind,
        r.name == command,
        r.location == location,
        r.epic == epic,
{
    let raw: i32 = match id {
        Some(i) => i,
        None => 0,
    };
    FormattedAction { annotation, id: raw as usize, epic, kind, name: command, location }
}

/// The last url and where it was visited from (empty when unknown).
pub fn last_url_entry(command: String, location: Option<String>) -> (r: (String, String))
    ensures
        r.0 == command,
        match location {
            Some(l) => r.1 == l,
            None => r.1@.len() == 0,
        },
{
    let loc = match location {
        Some(l) => l,
        None => String::new(),
    };
    (command, loc)
}

/// The active epic as displayed: its name, or the empty string when none
/// is active.
pub fn epic_display(active: Option<&str>) -> (r: String)
    ensures
        match active {
            Some(e) => r@ == e@,
            None => r@.len() == 0,
        },
{
    match active {
        Some(e) => e.to_owned(),
        None => String::new(),
    }
}

} // verus!
