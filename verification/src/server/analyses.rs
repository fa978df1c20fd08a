//! Pre-computed analyses: each html file of the analyses folder is one,
//! named after its file in Title Case.

use vstd::prelude::*;
use crate::text::{str_ends_with, ends_with_seq, prefix_string};

verus! {

/// An analysis found on disk.
#[derive(Debug)]
pub struct Analysis {
    pub name: String,
    pub file: String,
    pub path: String,
}

/// What `inflections::case::to_title_case` returns for a string: `-` and
/// `_` become spaces, camel humps are split by a space, and each word is
/// lower cased but for its first letter, which is a capital.
pub uninterp spec fn title_case(s: Seq<char>) -> Seq<char>;

/// Calls `inflections::case::to_title_case`; its result is a function of
/// the argument alone, which `title_case` names without saying more.
#[verifier::external_body]
fn to_title_case(s: &str) -> (r: String)
    ensures
        r@ == title_case(s@),
{
    inflections::case::to_title_case(s)
}

/// The display name of the analysis in `file`: the file name without its
/// `.html` extension, in Title Case; none for other files.
pub fn analysis_name(file: &str) -> (r: Option<String>)
    ensures
        ends_with_seq(file@, ".html"@) ==> (r matches Some(n) && n@ == title_case(
            file@.subrange(0, file@.len() - 5),
        )),
        !ends_with_seq(file@, ".html"@) ==> r is None,
{
    proof {
        reveal_strlit(".html");
    }
    if str_ends_with(file, ".html") {
        let n = crate::text::chars_of(file).len();
        let stem = prefix_string(file, n - 5);
        Some(to_title_case(stem.as_str()))
    } else {
        None
    }
}

/// The analysis for the file `file` found at `path`, if it is an html file.
pub fn analysis_for(file: &str, path: &str) -> (r: Option<Analysis>)
    ensures
        ends_with_seq(file@, ".html"@) ==> (r matches Some(a) && {
            &&& a.name@ == title_case(file@.subrange(0, file@.len() - 5))
            &&& a.file@ == file@
            &&& a.path@ == path@
        }),
        !ends_with_seq(file@, ".html"@) ==> r is None,
{
    match analysis_name(file) {
        Some(name) => Some(Analysis { name, file: file.to_owned(), path: path.to_owned() }),
        None => None,
    }
}

/// An entry met while walking the analyses folder: its file name (none
/// when it is not valid unicode), whether it is a regular file, and its
/// path.
#[derive(Debug)]
pub struct WalkEntry {
    pub name: Option<String>,
    pub is_file: bool,
    pub path: String,
}

/// The entry holds an analysis: a regular file whose name ends in `.html`.
pub open spec fn is_analysis_entry(e: WalkEntry) -> bool {
    e.is_file && (e.name matches Some(n) && ends_with_seq(n@, ".html"@))
}

/// The entries that hold analyses, in walk order.
pub open spec fn analysis_entries(entries: Seq<WalkEntry>) -> Seq<WalkEntry> {
    entries.filter(|e: WalkEntry| is_analysis_entry(e))
}

/// `a` is the analysis of the entry `e`.
pub open spec fn analysis_of(a: Analysis, e: WalkEntry) -> bool {
    e.name matches Some(n) && {
        &&& a.name@ == title_case(n@.subrange(0, n@.len() - 5))
        &&& a.file@ == n@
        &&& a.path@ == e.path@
    }
}

/// The analyses found while walking the folder: one for each regular
/// `.html` file, in walk order.
pub fn analyses_from(entries: &Vec<WalkEntry>) -> (r: Vec<Analysis>)
    ensures
        r@.len() == analysis_entries(entries@).len(),
        forall|k: int| 0 <= k < r@.len() ==> analysis_of(#[trigger] r@[k], analysis_entries(entries@)[k]),
{
    let mut out: Vec<Analysis> = Vec::new();
    let mut i: usize = 0;
    while i < entries.len()
        invariant
            i <= entries@.len(),
            out@.len() == analysis_entries(entries@.take(i as int)).len(),
            forall|k: int| 0 <= k < out@.len() ==> analysis_of(#[trigger] out@[k], analysis_entries(entries@.take(i as int))[k]),
        decreases entries@.len() - i,
    {
        let e = &entries[i];
        let ghost before = analysis_entries(entries@.take(i as int));
        proof {
            reveal_with_fuel(Seq::filter, 1);
            assert(entries@.take(i + 1).drop_last() =~= entries@.take(i as int));
            assert(entries@.take(i + 1).last() == *e);
        }
        if e.is_file {
            match &e.name {
                Some(n) => {
                    match analysis_for(n.as_str(), e.path.as_str()) {
                        Some(a) => {
                            out.push(a);
                            assert(analysis_entries(entries@.take(i + 1)) == before.push(*e));
                        },
                        None => {
                            assert(analysis_entries(entries@.take(i + 1)) == before);
                        },
                    }
                },
                None => {
                    assert(analysis_entries(entries@.take(i + 1)) == before);
                },
            }
        } else {
            assert(analysis_entries(entries@.take(i + 1)) == before);
        }
        i = i + 1;
    }
    assert(entries@.take(entries@.len() as int) =~= entries@);
    out
}

} // verus!
