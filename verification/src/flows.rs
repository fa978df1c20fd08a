//! Flows: named lists of shell actions kept as `<name>.flow.json` files in
//! the `flows` folder.

use vstd::prelude::*;
use crate::text::{str_ends_with, ends_with_seq, str_eq};

verus! {

/// A flow: its name, the conditions under which it applies, and its actions.
#[derive(Debug)]
pub struct Flow {
    pub name: String,
    pub preconditions: Vec<String>,
    pub actions: Vec<String>,
}

/// The suffix of flow files.
pub const FLOW_SUFFIX: &'static str = ".flow.json";

/// Whether the file called `name` holds a flow.
pub fn is_flow_file(name: &str) -> (r: bool)
    ensures
        r == ends_with_seq(name@, ".flow.json"@),
{
    str_ends_with(name, FLOW_SUFFIX)
}

/// The path of the file of the flow called `name`: `flows/<name>.flow.json`.
pub fn flow_file_path(name: &str) -> (r: String)
    ensures
        r@ == "flows/"@ + name@ + ".flow.json"@,
{
    let mut p = String::from_str("flows/");
    p.append(name);
    p.append(FLOW_SUFFIX);
    p
}

/// A new flow called `name`, without preconditions or actions.
pub fn new_flow(name: String) -> (r: Flow)
    ensures
        r.name == name,
        r.preconditions@.len() == 0,
        r.actions@.len() == 0,
{
    Flow { name, preconditions: Vec::new(), actions: Vec::new() }
}

/// The first flow called `name`, or the error "flow not found".
pub fn find_flow<'a>(flows: &'a Vec<Flow>, name: &str) -> (r: Result<&'a Flow, String>)
    ensures
        match r {
            Ok(f) => exists|i: int| 0 <= i < flows@.len() && *f == flows@[i] && f.name@ == name@
                && forall|j: int| 0 <= j < i ==> #[trigger] flows@[j].name@ != name@,
            Err(e) => e@ == "flow not found"@ && forall|j: int| 0 <= j < flows@.len() ==> #[trigger] flows@[j].name@ != name@,
        },
{
    let mut i: usize = 0;
    while i < flows.len()
        invariant
            i <= flows@.len(),
            forall|j: int| 0 <= j < i ==> #[trigger] flows@[j].name@ != name@,
        decreases flows@.len() - i,
    {
        if str_eq(flows[i].name.as_str(), name) {
            return Ok(&flows[i]);
        }
        i = i + 1;
    }
    Err(String::from_str("flow not found"))
}

} // verus!
