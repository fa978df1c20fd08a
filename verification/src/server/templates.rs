//! Which files are page templates, and the report of a template reload.

use vstd::prelude::*;
use crate::text::{str_ends_with, ends_with_seq, join_strings, join_seq, string_views};

verus! {

/// A file is a template when its name ends in `.html` or `.raw`.
pub open spec fn is_template_name(name: Seq<char>) -> bool {
    ends_with_seq(name, ".html"@) || ends_with_seq(name, ".raw"@)
}

/// Whether the file called `name` is a template.
pub fn is_template_file(name: &str) -> (r: bool)
    ensures
        r == is_template_name(name@),
{
    str_ends_with(name, ".html") || str_ends_with(name, ".raw")
}

/// The report of a reload: the names of the processed templates separated
/// by spaces.
pub fn reload_report(processed: &Vec<String>) -> (r: String)
    ensures
        r@ == join_seq(string_views(processed@), " "@),
{
    join_strings(processed, " ")
}

} // verus!
