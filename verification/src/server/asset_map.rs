//! The static assets served by name, kept in memory.

use vstd::prelude::*;
use crate::text::str_eq;

verus! {

/// Name of the style sheet asset.
pub const CSS_NAME: &'static str = "weaver.css";

/// Assets by name.
pub struct AssetMap {
    entries: Vec<(String, Vec<u8>)>,
}

/// The association list maps each name at most once.
pub open spec fn unique_names(entries: Seq<(String, Vec<u8>)>) -> bool {
    forall|i: int, j: int| 0 <= i < j < entries.len() ==> #[trigger] entries[i].0@ != #[trigger] entries[j].0@
}

/// The map from names to contents held by an association list.
pub open spec fn as_map(entries: Seq<(String, Vec<u8>)>) -> Map<Seq<char>, Seq<u8>>
    decreases entries.len(),
{
    if entries.len() == 0 {
        Map::empty()
    } else {
        as_map(entries.drop_last()).insert(entries.last().0@, entries.last().1@)
    }
}

proof fn lemma_as_map_index(entries: Seq<(String, Vec<u8>)>, i: int)
    requires
        unique_names(entries),
        0 <= i < entries.len(),
    ensures
        as_map(entries).contains_key(entries[i].0@),
        as_map(entries)[entries[i].0@] == entries[i].1@,
    decreases entries.len(),
{
    if i < entries.len() - 1 {
        lemma_as_map_index(entries.drop_last(), i);
    }
}

proof fn lemma_as_map_absent(entries: Seq<(String, Vec<u8>)>, name: Seq<char>)
    requires
        forall|i: int| 0 <= i < entries.len() ==> #[trigger] entries[i].0@ != name,
    ensures
        !as_map(entries).contains_key(name),
    decreases entries.len(),
{
    if entries.len() > 0 {
        lemma_as_map_absent(entries.drop_last(), name);
    }
}

proof fn lemma_as_map_update(entries: Seq<(String, Vec<u8>)>, i: int, name: String, data: Vec<u8>)
    requires
        unique_names(entries),
        0 <= i < entries.len(),
        entries[i].0@ == name@,
    ensures
        as_map(entries.update(i, (name, data))) == as_map(entries).insert(name@, data@),
    decreases entries.len(),
{
    let updated = entries.update(i, (name, data));
    if i == entries.len() - 1 {
        assert(updated.drop_last() =~= entries.drop_last());
        assert(as_map(entries.drop_last()).insert(name@, data@) =~= as_map(entries).insert(name@, data@));
    } else {
        lemma_as_map_update(entries.drop_last(), i, name, data);
        assert(updated.drop_last() =~= entries.drop_last().update(i, (name, data)));
        assert(as_map(updated) =~= as_map(entries).insert(name@, data@));
    }
}

impl AssetMap {
    /// The assets by name.
    pub closed spec fn spec_map(&self) -> Map<Seq<char>, Seq<u8>> {
        as_map(self.entries@)
    }

    /// Each name maps to one asset.
    pub closed spec fn wf(&self) -> bool {
        unique_names(self.entries@)
    }

    /// An empty asset map.
    pub fn new() -> (r: AssetMap)
        ensures
            r.wf(),
            r.spec_map() == Map::<Seq<char>, Seq<u8>>::empty(),
    {
        AssetMap { entries: Vec::new() }
    }

    /// The asset map holding the style sheet `css`.
    pub fn build(css: Vec<u8>) -> (r: AssetMap)
        ensures
            r.wf(),
            r.spec_map() == Map::<Seq<char>, Seq<u8>>::empty().insert("weaver.css"@, css@),
    {
        let mut m = AssetMap::new();
        m.insert(String::from_str(CSS_NAME), css);
        m
    }

    /// Stores `data` under `name`, replacing what was there.
    pub fn insert(&mut self, name: String, data: Vec<u8>)
        requires
            old(self).wf(),
        ensures
            final(self).wf(),
            final(self).spec_map() == old(self).spec_map().insert(name@, data@),
    {
        let mut i: usize = 0;
        while i < self.entries.len()
            invariant
                i <= self.entries@.len(),
                self.entries@ == old(self).entries@,
                unique_names(self.entries@),
                forall|k: int| 0 <= k < i ==> #[trigger] self.entries@[k].0@ != name@,
            decreases self.entries@.len() - i,
        {
            if str_eq(self.entries[i].0.as_str(), name.as_str()) {
                let ghost before = self.entries@;
                proof {
                    lemma_as_map_update(before, i as int, name, data);
                }
                self.entries.set(i, (name, data));
                assert(self.entries@ =~= before.update(i as int, (name, data)));
                assert forall|a: int, b: int| 0 <= a < b < self.entries@.len() implies
                    #[trigger] self.entries@[a].0@ != #[trigger] self.entries@[b].0@ by {
                    assert(self.entries@[a].0@ == before[a].0@);
                    assert(self.entries@[b].0@ == before[b].0@);
                }
                return;
            }
            i = i + 1;
        }
        let ghost before = self.entries@;
        self.entries.push((name, data));
        assert(self.entries@.drop_last() =~= before);
        assert forall|a: int, b: int| 0 <= a < b < self.entries@.len() implies
            #[trigger] self.entries@[a].0@ != #[trigger] self.entries@[b].0@ by {
            if b == self.entries@.len() - 1 {
                assert(self.entries@[a] == before[a]);
            } else {
                assert(self.entries@[a] == before[a]);
                assert(self.entries@[b] == before[b]);
            }
        }
    }

    /// Replaces the style sheet with `css` and returns its name.
    pub fn reload(&mut self, css: Vec<u8>) -> (r: String)
        requires
            old(self).wf(),
        ensures
            final(self).wf(),
            final(self).spec_map() == old(self).spec_map().insert("weaver.css"@, css@),
            r@ == "weaver.css"@,
    {
        self.insert(String::from_str(CSS_NAME), css);
        String::from_str(CSS_NAME)
    }

    /// The asset called `name`, or the error "missing asset".
    pub fn asset(&self, name: &str) -> (r: Result<Vec<u8>, String>)
        requires
            self.wf(),
        ensures
            self.spec_map().contains_key(name@) ==> (r matches Ok(v) && v@ == self.spec_map()[name@]),
            !self.spec_map().contains_key(name@) ==> (r matches Err(e) && e@ == "missing asset"@),
    {
        let mut i: usize = 0;
        while i < self.entries.len()
            invariant
                i <= self.entries@.len(),
                unique_names(self.entries@),
                forall|k: int| 0 <= k < i ==> #[trigger] self.entries@[k].0@ != name@,
            decreases self.entries@.len() - i,
        {
            if str_eq(self.entries[i].0.as_str(), name) {
                proof {
                    lemma_as_map_index(self.entries@, i as int);
                }
                return Ok(self.entries[i].1.clone());
            }
            i = i + 1;
        }
        proof {
            lemma_as_map_absent(self.entries@, name@);
        }
        Err(String::from_str("missing asset"))
    }
}


/// Reading an asset after storing it gives back what was stored, and
/// storing an asset leaves the other assets as they were.
pub proof fn law_asset_read_after_write(
    before: Map<Seq<char>, Seq<u8>>,
    name: Seq<char>,
    data: Seq<u8>,
    other: Seq<char>,
)
    ensures
        before.insert(name, data).contains_key(name),
        before.insert(name, data)[name] == data,
        other != name ==> before.insert(name, data).contains_key(other) == before.contains_key(other),
        other != name && before.contains_key(other) ==> before.insert(name, data)[other] == before[other],
{
}

} // verus!
