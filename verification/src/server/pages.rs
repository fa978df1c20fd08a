//! The pure parts of the html pages: run counting, paging of the history,
//! and the topic summary of the search results.

use vstd::prelude::*;
use crate::text::{join_strings, join_seq, string_views};

verus! {

/// A run count of one (the second run) is the one that logs.
pub fn first_run_from_count(run: usize) -> (r: bool)
    ensures
        r == (run == 1),
{
    run == 1
}

/// Counts the runs of the page configuration in `counter` and tells
/// whether this run should log the registered pages.
pub fn is_first_run(counter: &std::sync::atomic::AtomicUsize) -> bool {
    let run = counter.fetch_add(1, std::sync::atomic::Ordering::SeqCst);
    first_run_from_count(run)
}


/// A topic found among the search results: its id, how many results
/// relate to it, and its words.
#[derive(Debug)]
pub struct TopicInfo {
    pub id: usize,
    pub count: usize,
    pub display: String,
}

/// A search result as shown: its title (hidden ones masked), its url and
/// the ids of its topics.
#[derive(Debug)]
pub struct SearchMatch {
    pub title: String,
    pub url: String,
    pub topic_ids: Vec<usize>,
}

/// The summary of a search: the total count, the results and the topics of
/// the results.
#[derive(Debug)]
pub struct Datum {
    pub total: u64,
    pub matches: Vec<SearchMatch>,
    pub topics: Vec<TopicInfo>,
}

/// A topic that a result relates to: its id and its words.
#[derive(Debug)]
pub struct TopicRef {
    pub id: usize,
    pub words: Vec<String>,
}

/// A page that the index found: its title and url, whether the url
/// policies let its title be shown, and its topics.
#[derive(Debug)]
pub struct FoundPage {
    pub title: String,
    pub url: String,
    pub display: bool,
    pub topics: Vec<TopicRef>,
}

/// The words of a topic separated by single spaces.
pub fn display_topic(words: &Vec<String>) -> (r: String)
    ensures
        r@ == join_seq(string_views(words@), " "@),
{
    join_strings(words, " ")
}

/// The position of the first topic with id `id`, if any.
pub open spec fn topic_position(topics: Seq<TopicInfo>, id: usize) -> Option<int> {
    if exists|k: int| 0 <= k < topics.len() && topics[k].id == id {
        Some(choose|k: int| 0 <= k < topics.len() && topics[k].id == id && forall|j: int|
            0 <= j < k ==> topics[j].id != id)
    } else {
        None
    }
}

proof fn lemma_first_position(topics: Seq<TopicInfo>, id: usize, k: int)
    requires
        0 <= k < topics.len(),
        topics[k].id == id,
        forall|j: int| 0 <= j < k ==> topics[j].id != id,
    ensures
        topic_position(topics, id) == Some(k),
{
    let c = choose|c: int| 0 <= c < topics.len() && topics[c].id == id && forall|j: int|
        0 <= j < c ==> topics[j].id != id;
    assert(0 <= c < topics.len() && topics[c].id == id && forall|j: int| 0 <= j < c ==> topics[j].id != id);
    if c < k {
        assert(topics[c].id != id);
    }
    if k < c {
        assert(topics[k].id != id);
    }
}

impl Datum {
    /// Counts one more result for topic `topic_id`: its count goes up by
    /// one, or it is added with count one and its words.
    pub fn add_topic(&mut self, topic_id: usize, words: &Vec<String>)
        requires
            topic_position(old(self).topics@, topic_id) matches Some(k) ==> old(self).topics@[k].count < usize::MAX,
        ensures
            final(self).total == old(self).total,
            final(self).matches == old(self).matches,
            match topic_position(old(self).topics@, topic_id) {
                Some(k) => final(self).topics@ == old(self).topics@.update(
                    k,
                    TopicInfo { count: (old(self).topics@[k].count + 1) as usize, ..old(self).topics@[k] },
                ),
                None => final(self).topics@.len() == old(self).topics@.len() + 1
                    && final(self).topics@.drop_last() == old(self).topics@
                    && final(self).topics@.last().id == topic_id
                    && final(self).topics@.last().count == 1
                    && final(self).topics@.last().display@ == join_seq(string_views(words@), " "@),
            },
    {
        let mut i: usize = 0;
        while i < self.topics.len()
            invariant
                i <= self.topics@.len(),
                self.topics@ == old(self).topics@,
                self.matches == old(self).matches,
                self.total == old(self).total,
                topic_position(old(self).topics@, topic_id) matches Some(k) ==> old(self).topics@[k].count < usize::MAX,
                forall|j: int| 0 <= j < i ==> self.topics@[j].id != topic_id,
            decreases self.topics@.len() - i,
        {
            if self.topics[i].id == topic_id {
                proof {
                    lemma_first_position(self.topics@, topic_id, i as int);
                }
                let old_entry = self.topics.remove(i);
                let updated = TopicInfo { count: old_entry.count + 1, ..old_entry };
                self.topics.insert(i, updated);
                assert(self.topics@ =~= old(self).topics@.update(i as int, updated));
                return;
            }
            i = i + 1;
        }
        proof {
            assert(!(exists|k: int| 0 <= k < self.topics@.len() && self.topics@[k].id == topic_id));
        }
        let display = display_topic(words);
        self.topics.push(TopicInfo { id: topic_id, count: 1, display });
        assert(self.topics@.drop_last() =~= old(self).topics@);
    }
}

/// The topics are ordered by decreasing count.
pub open spec fn by_count_desc(topics: Seq<TopicInfo>) -> bool {
    forall|i: int, j: int| 0 <= i < j < topics.len() ==> #[trigger] topics[i].count >= #[trigger] topics[j].count
}

/// Orders the topics by decreasing count, the most frequent first.
pub fn sort_topics(topics: &mut Vec<TopicInfo>)
    ensures
        final(topics)@.to_multiset() == old(topics)@.to_multiset(),
        by_count_desc(final(topics)@),
{
    broadcast use vstd::seq_lib::group_to_multiset_ensures, vstd::multiset::group_multiset_axioms;
    let mut input: Vec<TopicInfo> = Vec::new();
    std::mem::swap(&mut input, topics);
    let ghost orig = input@;
    let mut out: Vec<TopicInfo> = Vec::new();
    assert(out@ =~= Seq::<TopicInfo>::empty());
    assert(out@.to_multiset() =~= vstd::multiset::Multiset::empty());
    assert(out@.to_multiset().add(input@.to_multiset()) =~= orig.to_multiset());
    while input.len() > 0
        invariant
            out@.to_multiset().add(input@.to_multiset()) == orig.to_multiset(),
            by_count_desc(out@),
        decreases input@.len(),
    {
        let ghost before_in = input@;
        let ghost before_out = out@;
        let x = input.remove(0);
        let mut pos: usize = 0;
        while pos < out.len() && out[pos].count >= x.count
            invariant
                pos <= out@.len(),
                out@ == before_out,
                forall|k: int| 0 <= k < pos ==> out@[k].count >= x.count,
            decreases out@.len() - pos,
        {
            pos = pos + 1;
        }
        proof {
            vstd::seq_lib::to_multiset_remove(before_in, 0);
            vstd::seq_lib::to_multiset_insert(before_out, pos as int, x);
            vstd::seq_lib::to_multiset_contains(before_in, before_in[0]);
            assert(before_in.contains(before_in[0]));
        }
        out.insert(pos, x);
        assert(out@.to_multiset().add(input@.to_multiset()) =~= orig.to_multiset());
        assert forall|i: int, j: int| 0 <= i < j < out@.len() implies #[trigger] out@[i].count >= #[trigger] out@[j].count by {
            if j < pos {
                assert(out@[i] == before_out[i] && out@[j] == before_out[j]);
            } else if j == pos {
                assert(out@[i] == before_out[i]);
            } else if i == pos {
                assert(out@[j] == before_out[j - 1]);
                if j - 1 > pos {
                    assert(before_out[pos as int].count >= before_out[j - 1].count);
                }
            } else if i < pos {
                assert(out@[i] == before_out[i] && out@[j] == before_out[j - 1]);
            } else {
                assert(out@[i] == before_out[i - 1] && out@[j] == before_out[j - 1]);
            }
        }
    }
    assert(input@ =~= Seq::<TopicInfo>::empty());
    assert(input@.to_multiset() =~= vstd::multiset::Multiset::empty());
    assert(out@.to_multiset() =~= orig.to_multiset());
    *topics = out;
}

/// The topic references of all the pages, page after page.
pub open spec fn page_refs(pages: Seq<FoundPage>) -> Seq<TopicRef>
    decreases pages.len(),
{
    if pages.len() == 0 {
        Seq::empty()
    } else {
        page_refs(pages.drop_last()) + pages.last().topics@
    }
}

/// How many of the references name topic `id`.
pub open spec fn count_refs(refs: Seq<TopicRef>, id: usize) -> nat
    decreases refs.len(),
{
    if refs.len() == 0 {
        0
    } else {
        count_refs(refs.drop_last(), id) + if refs.last().id == id { 1nat } else { 0nat }
    }
}

/// The words, joined by spaces, of the first reference to topic `id`.
pub open spec fn first_display(refs: Seq<TopicRef>, id: usize) -> Seq<char>
    decreases refs.len(),
{
    if refs.len() == 0 {
        Seq::empty()
    } else if count_refs(refs.drop_last(), id) > 0 {
        first_display(refs.drop_last(), id)
    } else if refs.last().id == id {
        join_seq(string_views(refs.last().words@), " "@)
    } else {
        Seq::empty()
    }
}

/// `topics` counts the references: one entry per topic referred to, with
/// the number of references to it and the words of the first one.
pub open spec fn topics_summarize(topics: Seq<TopicInfo>, refs: Seq<TopicRef>) -> bool {
    &&& forall|i: int, j: int| 0 <= i < j < topics.len() ==> #[trigger] topics[i].id != #[trigger] topics[j].id
    &&& forall|i: int| 0 <= i < topics.len() ==> {
        let t = #[trigger] topics[i];
        &&& count_refs(refs, t.id) > 0
        &&& t.count == count_refs(refs, t.id)
        &&& t.display@ == first_display(refs, t.id)
    }
    &&& forall|id: usize| #[trigger] count_refs(refs, id) > 0 ==> exists|i: int| 0 <= i < topics.len() && topics[i].id == id
}

/// The ids of the topics that a result refers to.
pub open spec fn ref_ids(refs: Seq<TopicRef>) -> Seq<usize> {
    refs.map_values(|r: TopicRef| r.id)
}

proof fn lemma_count_bounded(refs: Seq<TopicRef>, id: usize)
    ensures
        count_refs(refs, id) <= refs.len(),
    decreases refs.len(),
{
    if refs.len() > 0 {
        lemma_count_bounded(refs.drop_last(), id);
    }
}

proof fn lemma_page_refs_prefix(pages: Seq<FoundPage>, i: int)
    requires
        0 <= i <= pages.len(),
    ensures
        page_refs(pages.take(i)).len() <= page_refs(pages).len(),
    decreases pages.len() - i,
{
    if i < pages.len() {
        lemma_page_refs_prefix(pages, i + 1);
        assert(pages.take(i + 1).drop_last() =~= pages.take(i));
    } else {
        assert(pages.take(i) =~= pages);
    }
}

proof fn lemma_refs_push(refs: Seq<TopicRef>, x: TopicRef)
    ensures
        forall|id: usize| #[trigger] count_refs(refs.push(x), id) == count_refs(refs, id) + if x.id == id { 1nat } else { 0nat },
        forall|id: usize| #[trigger] first_display(refs.push(x), id) == if count_refs(refs, id) > 0 {
            first_display(refs, id)
        } else if x.id == id {
            join_seq(string_views(x.words@), " "@)
        } else {
            Seq::empty()
        },
{
    assert(refs.push(x).drop_last() =~= refs);
}

/// Counting one more reference keeps the summary.
proof fn lemma_summarize_step(t: Seq<TopicInfo>, refs: Seq<TopicRef>, x: TopicRef, t2: Seq<TopicInfo>)
    requires
        topics_summarize(t, refs),
        refs.len() < usize::MAX,
        match topic_position(t, x.id) {
            Some(k) => t2 == t.update(k, TopicInfo { count: (t[k].count + 1) as usize, ..t[k] }),
            None => t2.len() == t.len() + 1 && t2.drop_last() == t && t2.last().id == x.id
                && t2.last().count == 1 && t2.last().display@ == join_seq(string_views(x.words@), " "@),
        },
    ensures
        topics_summarize(t2, refs.push(x)),
{
    lemma_refs_push(refs, x);
    let r2 = refs.push(x);
    match topic_position(t, x.id) {
        Some(k) => {
            assert(0 <= k < t.len() && t[k].id == x.id);
            lemma_count_bounded(refs, x.id);
            assert forall|i: int| 0 <= i < t2.len() implies {
                let e = #[trigger] t2[i];
                &&& count_refs(r2, e.id) > 0
                &&& e.count == count_refs(r2, e.id)
                &&& e.display@ == first_display(r2, e.id)
            } by {
                assert(count_refs(refs, t[i].id) > 0);
                if i != k {
                    assert(t[i].id != x.id);
                }
            }
            assert forall|id: usize| #[trigger] count_refs(r2, id) > 0 implies exists|i: int| 0 <= i < t2.len() && t2[i].id == id by {
                if id == x.id {
                    assert(t2[k].id == id);
                } else {
                    assert(count_refs(refs, id) > 0);
                    let i = choose|i: int| 0 <= i < t.len() && t[i].id == id;
                    assert(t2[i].id == id);
                }
            }
        },
        None => {
            assert forall|i: int| 0 <= i < t.len() implies t[i].id != x.id by {
                if t[i].id == x.id {
                    assert(exists|k: int| 0 <= k < t.len() && t[k].id == x.id);
                }
            }
            assert(count_refs(refs, x.id) == 0) by {
                if count_refs(refs, x.id) > 0 {
                    let i = choose|i: int| 0 <= i < t.len() && t[i].id == x.id;
                    assert(t[i].id != x.id);
                }
            }
            assert forall|i: int| 0 <= i < t2.len() implies {
                let e = #[trigger] t2[i];
                &&& count_refs(r2, e.id) > 0
                &&& e.count == count_refs(r2, e.id)
                &&& e.display@ == first_display(r2, e.id)
            } by {
                if i < t.len() {
                    assert(t2[i] == t2.drop_last()[i]);
                    assert(count_refs(refs, t[i].id) > 0);
                }
            }
            assert forall|i: int, j: int| 0 <= i < j < t2.len() implies #[trigger] t2[i].id != #[trigger] t2[j].id by {
                assert(t2[i] == t2.drop_last()[i]);
                if j < t.len() {
                    assert(t2[j] == t2.drop_last()[j]);
                }
            }
            assert forall|id: usize| #[trigger] count_refs(r2, id) > 0 implies exists|i: int| 0 <= i < t2.len() && t2[i].id == id by {
                if id == x.id {
                    assert(t2[t.len() as int].id == id);
                } else {
                    assert(count_refs(refs, id) > 0);
                    let i = choose|i: int| 0 <= i < t.len() && t[i].id == id;
                    assert(t2[i] == t2.drop_last()[i]);
                }
            }
        },
    }
}

/// A reordering of a summary is a summary.
proof fn lemma_summarize_perm(t: Seq<TopicInfo>, t2: Seq<TopicInfo>, refs: Seq<TopicRef>)
    requires
        topics_summarize(t, refs),
        t2.to_multiset() == t.to_multiset(),
    ensures
        topics_summarize(t2, refs),
{
    broadcast use vstd::seq_lib::group_to_multiset_ensures;
    assert forall|a: TopicInfo| t2.contains(a) <==> t.contains(a) by {
        assert(t2.contains(a) <==> t2.to_multiset().count(a) > 0);
        assert(t.contains(a) <==> t.to_multiset().count(a) > 0);
    }
    assert(t.no_duplicates()) by {
        assert forall|i: int, j: int| 0 <= i < t.len() && 0 <= j < t.len() && i != j implies t[i] != t[j] by {
            if i < j {
                assert(t[i].id != t[j].id);
            } else {
                assert(t[j].id != t[i].id);
            }
        }
    }
    t.lemma_multiset_has_no_duplicates();
    t2.lemma_multiset_has_no_duplicates_conv();
    assert forall|i: int| 0 <= i < t2.len() implies {
        let e = #[trigger] t2[i];
        &&& count_refs(refs, e.id) > 0
        &&& e.count == count_refs(refs, e.id)
        &&& e.display@ == first_display(refs, e.id)
    } by {
        assert(t2.contains(t2[i]));
        let k = choose|k: int| 0 <= k < t.len() && t[k] == t2[i];
        assert(t[k] == t2[i]);
    }
    assert forall|i: int, j: int| 0 <= i < j < t2.len() implies #[trigger] t2[i].id != #[trigger] t2[j].id by {
        assert(t2.contains(t2[i]));
        assert(t2.contains(t2[j]));
        let a = choose|k: int| 0 <= k < t.len() && t[k] == t2[i];
        let b = choose|k: int| 0 <= k < t.len() && t[k] == t2[j];
        assert(t[a] == t2[i] && t[b] == t2[j]);
        if t2[i].id == t2[j].id {
            if a < b {
                assert(t[a].id != t[b].id);
            } else if b < a {
                assert(t[b].id != t[a].id);
            }
            assert(t2[i] == t2[j]);
        }
    }
    assert forall|id: usize| #[trigger] count_refs(refs, id) > 0 implies exists|i: int| 0 <= i < t2.len() && t2[i].id == id by {
        let k = choose|k: int| 0 <= k < t.len() && t[k].id == id;
        assert(t.contains(t[k]));
        assert(t2.contains(t[k]));
        let i = choose|i: int| 0 <= i < t2.len() && t2[i] == t[k];
        assert(t2[i].id == id);
    }
}

/// The results page of a search that found `found` among `total`
/// documents: each result with its title masked when the url policies hide
/// it, and the topics of all results counted, the most frequent first.
pub fn search_summary(total: u64, found: Vec<FoundPage>) -> (r: Datum)
    requires
        page_refs(found@).len() < usize::MAX,
    ensures
        r.total == total,
        r.matches@.len() == found@.len(),
        forall|i: int| 0 <= i < found@.len() ==> {
            let m = #[trigger] r.matches@[i];
            let p = found@[i];
            &&& m.title@ == (if p.display { p.title@ } else { "********"@ })
            &&& m.url == p.url
            &&& m.topic_ids@ == ref_ids(p.topics@)
        },
        topics_summarize(r.topics@, page_refs(found@)),
        by_count_desc(r.topics@),
{
    let mut datum = Datum { total, matches: Vec::new(), topics: Vec::new() };
    let ghost pages = found@;
    proof {
        assert(page_refs(pages.take(0)) =~= Seq::<TopicRef>::empty());
    }
    let mut i: usize = 0;
    while i < found.len()
        invariant
            pages == found@,
            i <= pages.len(),
            page_refs(pages).len() < usize::MAX,
            datum.total == total,
            datum.matches@.len() == i,
            forall|k: int| 0 <= k < i ==> {
                let m = #[trigger] datum.matches@[k];
                let p = pages[k];
                &&& m.title@ == (if p.display { p.title@ } else { "********"@ })
                &&& m.url == p.url
                &&& m.topic_ids@ == ref_ids(p.topics@)
            },
            topics_summarize(datum.topics@, page_refs(pages.take(i as int))),
        decreases pages.len() - i,
    {
        let page = &found[i];
        let ghost before = page_refs(pages.take(i as int));
        proof {
            lemma_page_refs_prefix(pages, i + 1);
            assert(pages.take(i + 1).drop_last() =~= pages.take(i as int));
            assert(page_refs(pages.take(i + 1)) == before + page.topics@);
        }
        let mut ids: Vec<usize> = Vec::new();
        let mut j: usize = 0;
        while j < page.topics.len()
            invariant
                pages == found@,
                i < pages.len(),
                *page == pages[i as int],
                before == page_refs(pages.take(i as int)),
                before.len() + page.topics@.len() < usize::MAX,
                j <= page.topics@.len(),
                datum.total == total,
                datum.matches@.len() == i,
                forall|k: int| 0 <= k < i ==> {
                    let m = #[trigger] datum.matches@[k];
                    let p = pages[k];
                    &&& m.title@ == (if p.display { p.title@ } else { "********"@ })
                    &&& m.url == p.url
                    &&& m.topic_ids@ == ref_ids(p.topics@)
                },
                ids@ == ref_ids(page.topics@.take(j as int)),
                topics_summarize(datum.topics@, before + page.topics@.take(j as int)),
            decreases page.topics@.len() - j,
        {
            let tr = &page.topics[j];
            let ghost refs = before + page.topics@.take(j as int);
            let ghost t = datum.topics@;
            proof {
                lemma_count_bounded(refs, tr.id);
                if let Some(k) = topic_position(t, tr.id) {
                    assert(t[k].id == tr.id);
                }
            }
            datum.add_topic(tr.id, &tr.words);
            proof {
                lemma_summarize_step(t, refs, *tr, datum.topics@);
                assert(refs.push(*tr) =~= before + page.topics@.take(j + 1));
            }
            ids.push(tr.id);
            assert(ids@ =~= ref_ids(page.topics@.take(j + 1)));
            j = j + 1;
        }
        proof {
            assert(page.topics@.take(page.topics@.len() as int) =~= page.topics@);
        }
        let title = shown_title(page.display, page.title.as_str());
        datum.matches.push(SearchMatch { title, url: page.url.clone(), topic_ids: ids });
        i = i + 1;
    }
    proof {
        assert(pages.take(pages.len() as int) =~= pages);
    }
    let ghost unsorted = datum.topics@;
    sort_topics(&mut datum.topics);
    proof {
        lemma_summarize_perm(unsorted, datum.topics@, page_refs(pages));
    }
    datum
}

/// Paging of the history: the last 200 actions.
#[derive(Clone, Copy, Debug, PartialEq, Eq, Structural)]
pub struct Pagination {
    pub start: Option<i64>,
    pub length: Option<i64>,
}

/// The history page shows the last 200 of `count` actions.
pub fn history_pagination(count: i64) -> (r: Pagination)
    requires
        count - 200 >= i64::MIN,
    ensures
        r == (Pagination { start: Some((count - 200) as i64), length: Some(200) }),
{
    Pagination { start: Some(count - 200), length: Some(200) }
}

/// The search term of the heads-up display (an empty term counts as none)
/// and its paging: everything when searching, else the last 200 actions.
pub fn hud_pagination(count: i64, term: Option<&str>) -> (r: (bool, Pagination))
    requires
        count - 200 >= i64::MIN,
    ensures
        ({
            let searching = term matches Some(t) && t@.len() > 0;
            &&& r.0 == searching
            &&& searching ==> r.1 == Pagination { start: None, length: None }
            &&& !searching ==> r.1 == Pagination { start: Some((count - 200) as i64), length: Some(200) }
        }),
{
    let searching = match term {
        Some(t) => !t.is_empty(),
        None => false,
    };
    if searching {
        (true, Pagination { start: None, length: None })
    } else {
        (false, history_pagination(count))
    }
}

/// An action fetched for the heads-up display, with its date already
/// written as the page expects it.
#[derive(Debug)]
pub struct HudAction {
    pub id: usize,
    pub when: String,
    pub kind: String,
    pub location: Option<String>,
    pub name: String,
}

/// A row of the heads-up display.
#[derive(Debug)]
pub struct HudEntry {
    pub id: usize,
    pub when: String,
    pub kind: String,
    pub location: String,
    pub name: String,
}

/// The row shown for an action: where it ran, or its name when the place
/// is unknown.
pub open spec fn hud_entry_spec(a: HudAction) -> HudEntry {
    HudEntry {
        id: a.id,
        when: a.when,
        kind: a.kind,
        location: match a.location {
            Some(l) => l,
            None => a.name,
        },
        name: a.name,
    }
}

/// The rows for the last `j` fetched actions, most recent first, of those
/// that `keep` marks.
pub open spec fn hud_rows_upto(fetched: Seq<HudAction>, keep: Seq<bool>, j: nat) -> Seq<HudEntry>
    decreases j,
{
    if j == 0 {
        Seq::empty()
    } else {
        let prev = hud_rows_upto(fetched, keep, (j - 1) as nat);
        let i = fetched.len() - j;
        if keep[i] {
            prev.push(hud_entry_spec(fetched[i]))
        } else {
            prev
        }
    }
}

/// The rows of the heads-up display: the fetched actions that `keep`
/// marks, most recent (last fetched) first.
pub open spec fn hud_rows(fetched: Seq<HudAction>, keep: Seq<bool>) -> Seq<HudEntry> {
    hud_rows_upto(fetched, keep, fetched.len())
}

fn hud_entry(a: HudAction) -> (r: HudEntry)
    ensures
        r == hud_entry_spec(a),
{
    let location = match a.location {
        Some(l) => l,
        None => a.name.clone(),
    };
    HudEntry { id: a.id, when: a.when, kind: a.kind, location, name: a.name }
}

/// The rows of the heads-up display for the fetched actions, most recent
/// first; `keep[i]` tells whether `fetched[i]` comes after the requested
/// starting action (always, when none was requested).
pub fn hud_entries(fetched: Vec<HudAction>, keep: &Vec<bool>) -> (r: Vec<HudEntry>)
    requires
        keep@.len() == fetched@.len(),
    ensures
        r@ == hud_rows(fetched@, keep@),
{
    let ghost all = fetched@;
    let n = fetched.len();
    let mut rest = fetched;
    let mut out: Vec<HudEntry> = Vec::new();
    let mut j: usize = 0;
    while j < n
        invariant
            n == all.len(),
            keep@.len() == n,
            j <= n,
            rest@ == all.take(n - j),
            out@ == hud_rows_upto(all, keep@, j as nat),
        decreases n - j,
    {
        let a = rest.pop().unwrap();
        assert(a == all[n - 1 - j]);
        assert(rest@ =~= all.take(n - j - 1));
        if keep[n - 1 - j] {
            out.push(hud_entry(a));
        }
        j = j + 1;
    }
    out
}

/// The title shown for a search result: hidden ones show asterisks.
pub fn shown_title(display: bool, title: &str) -> (r: String)
    ensures
        display ==> r@ == title@,
        !display ==> r@ == "********"@,
{
    if display {
        title.to_owned()
    } else {
        String::from_str("********")
    }
}

} // verus!
