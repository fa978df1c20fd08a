//! The pure parts of the api handlers: run counting for logging, merging
//! recommendations with history, and the text the handlers return.

use vstd::prelude::*;
use crate::entities::FormattedAction;
use crate::text::usize_to_string;

verus! {

/// Maximum number of recommendations returned.
pub const MAX_RECS: usize = 500;

/// A run count of one (the second run) is the one that logs.
pub fn first_run_from_count(run: usize) -> (r: bool)
    ensures
        r == (run == 1),
{
    run == 1
}

/// Counts the runs of the configuration code in `counter` and tells
/// whether this run should log the registered routes.
pub fn is_first_run(counter: &std::sync::atomic::AtomicUsize) -> bool {
    let run = counter.fetch_add(1, std::sync::atomic::Ordering::SeqCst);
    first_run_from_count(run)
}

/// How many historical actions fill the recommendations: as many as are
/// needed to reach `max_recs` entries in all, at most all of the history,
/// and none once the recommendations alone reach `max_recs`.
pub open spec fn fill_count(historical: nat, recommended: nat, max_recs: i64) -> nat {
    if max_recs <= recommended {
        0
    } else if historical <= max_recs - recommended {
        historical
    } else {
        (max_recs - recommended) as nat
    }
}

/// The recommendations followed by the most recent historical actions, up
/// to `length` entries in all (500 when no length is given).
pub fn merge_recommendations(
    historical: &Vec<FormattedAction>,
    recommended: Vec<FormattedAction>,
    length: Option<i64>,
) -> (r: Vec<FormattedAction>)
    ensures
        ({
            let max_recs: i64 = match length { Some(l) => l, None => 500 };
            let fill = fill_count(historical@.len(), recommended@.len(), max_recs);
            r@ == recommended@ + historical@.reverse().take(fill as int)
        }),
{
    let max_recs: i64 = match length {
        Some(l) => l,
        None => 500,
    };
    let n = historical.len();
    let rec_len = recommended.len();
    let fill: usize = if max_recs <= 0 {
        0
    } else {
        let m: u128 = max_recs as u128;
        let rl: u128 = rec_len as u128;
        if m <= rl {
            0
        } else {
            let wanted: u128 = m - rl;
            if (n as u128) <= wanted { n } else { wanted as usize }
        }
    };
    assert(fill == fill_count(n as nat, rec_len as nat, max_recs));
    let mut out = recommended;
    let ghost start = out@;
    let mut k: usize = 0;
    while k < fill
        invariant
            fill <= n,
            n == historical@.len(),
            k <= fill,
            out@ == start + historical@.reverse().take(k as int),
        decreases fill - k,
    {
        out.push(historical[n - 1 - k].clone());
        assert(historical@.reverse().take(k + 1) =~= historical@.reverse().take(k as int).push(
            historical@[n - 1 - k],
        ));
        k = k + 1;
    }
    out
}

/// One line of the search listing: url, a space, title, newline.
pub open spec fn listing_line(url: Seq<char>, title: Seq<char>) -> Seq<char> {
    url + " "@ + title + "\n"@
}

/// The search listing of `matches` (url, title pairs).
pub open spec fn listing(matches: Seq<(String, String)>) -> Seq<char>
    decreases matches.len(),
{
    if matches.len() == 0 {
        Seq::empty()
    } else {
        listing(matches.drop_last()) + listing_line(matches.last().0@, matches.last().1@)
    }
}

/// The text the search api returns: one line per match.
pub fn search_listing(matches: &Vec<(String, String)>) -> (r: String)
    ensures
        r@ == listing(matches@),
{
    let mut out = String::new();
    let mut i: usize = 0;
    while i < matches.len()
        invariant
            i <= matches@.len(),
            out@ == listing(matches@.take(i as int)),
        decreases matches@.len() - i,
    {
        let (url, title) = &matches[i];
        let ghost before = out@;
        out.append(url.as_str());
        out.append(" ");
        out.append(title.as_str());
        out.append("\n");
        assert(matches@.take(i + 1).drop_last() =~= matches@.take(i as int));
        assert(out@ =~= before + listing_line(url@, title@));
        i = i + 1;
    }
    assert(matches@.take(matches@.len() as int) =~= matches@);
    out
}

/// The urls of the matchers that have one, in order.
pub open spec fn present_urls(all: Seq<Option<String>>) -> Seq<Seq<char>>
    decreases all.len(),
{
    if all.len() == 0 {
        Seq::empty()
    } else {
        let rest = present_urls(all.drop_last());
        match all.last() {
            Some(u) => rest.push(u@),
            None => rest,
        }
    }
}

/// The urls of the url matchers that have one.
pub fn build_urls(all: &Vec<Option<String>>) -> (r: Vec<String>)
    ensures
        r@.map_values(|s: String| s@) == present_urls(all@),
{
    let mut out: Vec<String> = Vec::new();
    let mut i: usize = 0;
    while i < all.len()
        invariant
            i <= all@.len(),
            out@.map_values(|s: String| s@) == present_urls(all@.take(i as int)),
        decreases all@.len() - i,
    {
        assert(all@.take(i + 1).drop_last() =~= all@.take(i as int));
        match &all[i] {
            Some(u) => {
                let ghost before = out@;
                out.push(u.clone());
                assert(out@.map_values(|s: String| s@) =~= before.map_values(|s: String| s@).push(u@));
            },
            None => {},
        }
        i = i + 1;
    }
    assert(all@.take(all@.len() as int) =~= all@);
    out
}

/// The reply of a create or update call: the number it returned.
pub fn code_reply(code: usize) -> (r: String)
    ensures
        r@ == crate::text::decimal(code as nat),
{
    usize_to_string(code)
}


/// The history fills the recommendations up to the requested length, or
/// as far as it goes; once the recommendations alone reach that length no
/// history is added.
pub proof fn law_recommendations_fill_to_length(historical: nat, recommended: nat, max_recs: i64)
    ensures
        recommended <= max_recs ==> recommended + fill_count(historical, recommended, max_recs) == (if historical
            + recommended <= max_recs {
            (historical + recommended) as int
        } else {
            max_recs as int
        }),
        max_recs <= recommended ==> fill_count(historical, recommended, max_recs) == 0,
{
}


/// A url visited in the browser and how it was reached.
#[derive(Debug)]
pub struct BrowserAction {
    pub url: String,
    pub transition_type: String,
}

impl Default for BrowserAction {
    fn default() -> (r: Self)
        ensures
            r.url@.len() == 0,
            r.transition_type@.len() == 0,
    {
        BrowserAction { url: String::new(), transition_type: String::new() }
    }
}

/// The reply to a request for the last url: the last url and its location,
/// or an empty action when there is none.
pub fn browser_action_from_last(last: Option<(String, String)>) -> (r: BrowserAction)
    ensures
        match last {
            Some((url, location)) => r.url == url && r.transition_type == location,
            None => r.url@.len() == 0 && r.transition_type@.len() == 0,
        },
{
    match last {
        Some((url, transition_type)) => BrowserAction { url, transition_type },
        None => BrowserAction::default(),
    }
}

/// The url policies sent to the browser: the urls not to log and the urls
/// to index.  Pages not to index are kept private.
#[derive(Debug)]
pub struct Restrictions {
    pub do_not_log: Vec<String>,
    pub do_index: Vec<String>,
}

/// The policies from the url matchers of each kind.
pub fn restrictions_from(do_not_log: &Vec<Option<String>>, do_index: &Vec<Option<String>>) -> (r: Restrictions)
    ensures
        r.do_not_log@.map_values(|s: String| s@) == present_urls(do_not_log@),
        r.do_index@.map_values(|s: String| s@) == present_urls(do_index@),
{
    Restrictions { do_not_log: build_urls(do_not_log), do_index: build_urls(do_index) }
}

/// A new url policy sent by the browser.
#[derive(Debug)]
pub struct UrlRestriction {
    pub url: String,
    pub kind: String,
}

/// Whether an uploaded page was indexed, with the index summary.
#[derive(Debug)]
pub struct PageStatus {
    pub is_indexed: bool,
    pub summary: Option<String>,
}

} // verus!
