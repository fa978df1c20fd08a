//! The records that the tool stores and shows.

use vstd::prelude::*;
use crate::text::clone_opt_string;

verus! {

/// An action as shown in the history table.
#[derive(Debug)]
pub struct FormattedAction {
    pub annotation: Option<String>,
    pub id: usize,
    pub epic: Option<String>,
    pub kind: String,
    pub name: String,
    pub location: Option<String>,
}

impl FormattedAction {
    /// The action is the blank one: no annotation, epic or location, id 0
    /// and empty kind and name.
    pub open spec fn is_blank(&self) -> bool {
        &&& self.annotation is None
        &&& self.id == 0
        &&& self.epic is None
        &&& self.kind@.len() == 0
        &&& self.name@.len() == 0
        &&& self.location is None
    }
}

impl Clone for FormattedAction {
    fn clone(&self) -> (r: Self)
        ensures
            r == *self,
    {
        FormattedAction {
            annotation: clone_opt_string(&self.annotation),
            id: self.id,
            epic: clone_opt_string(&self.epic),
            kind: self.kind.clone(),
            name: self.name.clone(),
            location: clone_opt_string(&self.location),
        }
    }
}

impl Default for FormattedAction {
    fn default() -> (r: Self)
        ensures
            r.is_blank(),
    {
        FormattedAction {
            annotation: None,
            id: 0,
            epic: None,
            kind: String::new(),
            name: String::new(),
            location: None,
        }
    }
}

/// A stored action, as read from the actions table.
#[derive(Debug)]
pub struct Action {
    pub id: Option<i32>,
    pub executed: String,
    pub kind: String,
    pub command: String,
    pub location: Option<String>,
    pub epic: Option<String>,
    pub sent: Option<bool>,
}

} // verus!
