//! The table of actions: filtering for display and searching for the
//! previous or next match around a position.

use vstd::prelude::*;
use crate::entities::FormattedAction;
use crate::text::{contains_seq, str_contains, usize_to_string, decimal,
    compare_opt_text, compare_text, compare_usize, lex_less, opt_less, opt_same};

verus! {

/// The columns of the table.
#[derive(Clone, Copy, Debug, PartialEq, Eq, Hash, Structural)]
pub enum BasicColumn {
    Annotation,
    Index,
    Epic,
    Kind,
    Name,
}

/// The text of an optional string: empty for `None`.
pub open spec fn opt_text(s: Option<String>) -> Seq<char> {
    match s {
        Some(x) => x@,
        None => Seq::empty(),
    }
}

/// The text shown in `column` for `a`: the index is left empty for id 0.
pub open spec fn column_text(a: FormattedAction, column: BasicColumn) -> Seq<char> {
    match column {
        BasicColumn::Annotation => opt_text(a.annotation),
        BasicColumn::Index => if a.id != 0 { decimal(a.id as nat) } else { Seq::empty() },
        BasicColumn::Epic => opt_text(a.epic),
        BasicColumn::Kind => a.kind@,
        BasicColumn::Name => a.name@,
    }
}

/// `a` sorts before `b` in `column`.
pub open spec fn column_less(a: FormattedAction, b: FormattedAction, column: BasicColumn) -> bool {
    match column {
        BasicColumn::Annotation => opt_less(a.annotation, b.annotation),
        BasicColumn::Index => a.id < b.id,
        BasicColumn::Epic => opt_less(a.epic, b.epic),
        BasicColumn::Kind => lex_less(a.kind@, b.kind@),
        BasicColumn::Name => lex_less(a.name@, b.name@),
    }
}

/// `a` and `b` sort equal in `column`.
pub open spec fn column_same(a: FormattedAction, b: FormattedAction, column: BasicColumn) -> bool {
    match column {
        BasicColumn::Annotation => opt_same(a.annotation, b.annotation),
        BasicColumn::Index => a.id == b.id,
        BasicColumn::Epic => opt_same(a.epic, b.epic),
        BasicColumn::Kind => a.kind@ == b.kind@,
        BasicColumn::Name => a.name@ == b.name@,
    }
}

fn opt_to_string(s: &Option<String>) -> (r: String)
    ensures
        r@ == opt_text(*s),
{
    match s {
        Some(x) => x.clone(),
        None => String::new(),
    }
}

impl FormattedAction {
    /// The text shown in `column` for this action.
    pub fn to_column(&self, column: BasicColumn) -> (r: String)
        ensures
            r@ == column_text(*self, column),
    {
        match column {
            BasicColumn::Annotation => opt_to_string(&self.annotation),
            BasicColumn::Index => if self.id != 0 { usize_to_string(self.id) } else { String::new() },
            BasicColumn::Epic => opt_to_string(&self.epic),
            BasicColumn::Kind => self.kind.clone(),
            BasicColumn::Name => self.name.clone(),
        }
    }

    /// Orders two actions by the value shown in `column`.
    pub fn cmp(&self, other: &Self, column: BasicColumn) -> (r: std::cmp::Ordering)
        ensures
            (r == std::cmp::Ordering::Less) == column_less(*self, *other, column),
            (r == std::cmp::Ordering::Equal) == column_same(*self, *other, column),
            (r == std::cmp::Ordering::Greater) == column_less(*other, *self, column),
    {
        match column {
            BasicColumn::Annotation => compare_opt_text(&self.annotation, &other.annotation),
            BasicColumn::Index => compare_usize(self.id, other.id),
            BasicColumn::Epic => compare_opt_text(&self.epic, &other.epic),
            BasicColumn::Kind => compare_text(self.kind.as_str(), other.kind.as_str()),
            BasicColumn::Name => compare_text(self.name.as_str(), other.name.as_str()),
        }
    }
}

/// The data shown in the table.
pub struct Table {
    content: Vec<FormattedAction>,
    rows: usize,
}

/// The position `i` steps before `current`, wrapping around at the start
/// of a table of `size` entries.
pub open spec fn prev_pos(current: usize, size: nat, i: int) -> int {
    if current >= i { current - i } else { current + size - i }
}

/// The position `i` steps after `current`, wrapping around at the end of a
/// table of `size` entries.
pub open spec fn next_pos(current: usize, size: nat, i: int) -> int {
    if current + i < size { current + i } else { current + i - size }
}

/// The entry at `pos` exists and its name contains `search`.
pub open spec fn matches_at(content: Seq<FormattedAction>, search: Seq<char>, pos: int) -> bool {
    0 <= pos < content.len() && contains_seq(content[pos].name@, search)
}

/// The entry is kept by the filter `f`: its name or its epic contains `f`.
pub open spec fn keeps(a: FormattedAction, f: Seq<char>) -> bool {
    ||| contains_seq(a.name@, f)
    ||| (a.epic matches Some(e) && contains_seq(e@, f))
    ||| f.len() == 0
}

/// The entries kept by the filter, in order; all of them for `None`.
pub open spec fn kept(content: Seq<FormattedAction>, filter: Option<Seq<char>>) -> Seq<FormattedAction> {
    match filter {
        Some(f) => content.filter(|a: FormattedAction| keeps(a, f)),
        None => content,
    }
}

/// `r` is `entries` preceded by blank entries up to `rows` entries.
pub open spec fn padded_to(r: Seq<FormattedAction>, entries: Seq<FormattedAction>, rows: nat) -> bool {
    &&& r.len() == pad_len(entries.len(), rows) + entries.len()
    &&& forall|k: int| 0 <= k < pad_len(entries.len(), rows) ==> (#[trigger] r[k]).is_blank()
    &&& forall|k: int| 0 <= k < entries.len() ==> #[trigger] r[pad_len(entries.len(), rows) + k] == entries[k]
}

/// The number of blank entries that bring `n` entries up to `rows`.
pub open spec fn pad_len(n: nat, rows: nat) -> int {
    if n < rows { rows - n } else { 0 }
}

impl Table {
    /// The entries of the table.
    pub closed spec fn spec_content(&self) -> Seq<FormattedAction> {
        self.content@
    }

    /// The number of rows the display shows.
    pub closed spec fn spec_rows(&self) -> usize {
        self.rows
    }

    /// A table over `content` shown on `rows` rows.
    pub fn new(content: Vec<FormattedAction>, rows: usize) -> (r: Table)
        ensures
            r.spec_content() == content@,
            r.spec_rows() == rows,
    {
        Table { content, rows }
    }

    /// The entry at `i`, if any.
    pub fn get(&self, i: usize) -> (r: Option<FormattedAction>)
        ensures
            r == (if i < self.spec_content().len() { Some(self.spec_content()[i as int]) } else { None }),
    {
        if i < self.content.len() {
            Some(self.content[i].clone())
        } else {
            None
        }
    }

    fn name_contains_at(&self, pos: usize, search: &str) -> (r: bool)
        ensures
            r == matches_at(self.spec_content(), search@, pos as int),
    {
        if pos < self.content.len() {
            str_contains(self.content[pos].name.as_str(), search)
        } else {
            false
        }
    }

    /// The nearest position before `current` whose name contains `search`,
    /// looking through the whole table and wrapping around at the start.
    pub fn find_previous(&self, search: &str, current: usize) -> (r: Option<usize>)
        ensures
            match r {
                Some(p) => exists|i: int| #![trigger prev_pos(current, self.spec_content().len(), i)] {
                    &&& 1 <= i < self.spec_content().len()
                    &&& p == prev_pos(current, self.spec_content().len(), i)
                    &&& matches_at(self.spec_content(), search@, p as int)
                    &&& forall|j: int| 1 <= j < i ==> !matches_at(
                        self.spec_content(),
                        search@,
                        #[trigger] prev_pos(current, self.spec_content().len(), j),
                    )
                },
                None => forall|i: int| 1 <= i < self.spec_content().len() ==> !matches_at(
                    self.spec_content(),
                    search@,
                    #[trigger] prev_pos(current, self.spec_content().len(), i),
                ),
            },
    {
        let size = self.content.len();
        let mut i: usize = 1;
        while i < size
            invariant
                size == self.spec_content().len(),
                1 <= i,
                forall|j: int| 1 <= j < i ==> !matches_at(
                    self.spec_content(),
                    search@,
                    #[trigger] prev_pos(current, self.spec_content().len(), j),
                ),
            decreases size - i,
        {
            if current >= i {
                let pos = current - i;
                if self.name_contains_at(pos, search) {
                    assert(pos == prev_pos(current, self.spec_content().len(), i as int));
                    return Some(pos);
                }
            } else {
                let pos = size - (i - current);
                if self.name_contains_at(pos, search) {
                    assert(pos == prev_pos(current, self.spec_content().len(), i as int));
                    return Some(pos);
                }
            }
            i = i + 1;
        }
        None
    }

    /// The nearest position after `current` whose name contains `search`,
    /// looking through the whole table and wrapping around at the end.
    pub fn find_next(&self, search: &str, current: usize) -> (r: Option<usize>)
        requires
            self.spec_content().len() <= 1 || current + self.spec_content().len() - 1 <= usize::MAX,
        ensures
            match r {
                Some(p) => exists|i: int| #![trigger next_pos(current, self.spec_content().len(), i)] {
                    &&& 1 <= i < self.spec_content().len()
                    &&& p == next_pos(current, self.spec_content().len(), i)
                    &&& matches_at(self.spec_content(), search@, p as int)
                    &&& forall|j: int| 1 <= j < i ==> !matches_at(
                        self.spec_content(),
                        search@,
                        #[trigger] next_pos(current, self.spec_content().len(), j),
                    )
                },
                None => forall|i: int| 1 <= i < self.spec_content().len() ==> !matches_at(
                    self.spec_content(),
                    search@,
                    #[trigger] next_pos(current, self.spec_content().len(), i),
                ),
            },
    {
        let size = self.content.len();
        let mut i: usize = 1;
        while i < size
            invariant
                size == self.spec_content().len(),
                size <= 1 || current + size - 1 <= usize::MAX,
                1 <= i,
                forall|j: int| 1 <= j < i ==> !matches_at(
                    self.spec_content(),
                    search@,
                    #[trigger] next_pos(current, self.spec_content().len(), j),
                ),
            decreases size - i,
        {
            let pos = if current + i < size { current + i } else { current + i - size };
            if self.name_contains_at(pos, search) {
                assert(pos == next_pos(current, self.spec_content().len(), i as int));
                return Some(pos);
            }
            i = i + 1;
        }
        None
    }

    /// The entries that match `filter` (all of them for `None`), in order,
    /// preceded by blank entries so that they fill at least the table rows.
    pub fn filter(&mut self, filter: Option<&str>) -> (r: Vec<FormattedAction>)
        ensures
            *final(self) == *old(self),
            padded_to(
                r@,
                kept(old(self).spec_content(), match filter { Some(f) => Some(f@), None => None }),
                old(self).spec_rows() as nat,
            ),
    {
        let mut content: Vec<FormattedAction> = Vec::new();
        let ghost fv: Option<Seq<char>> = match filter { Some(f) => Some(f@), None => None };
        let mut i: usize = 0;
        while i < self.content.len()
            invariant
                i <= self.content@.len(),
                fv == (match filter { Some(f) => Some(f@), None => None::<Seq<char>> }),
                content@ == kept(self.content@.take(i as int), fv),
            decreases self.content@.len() - i,
        {
            let entry = &self.content[i];
            proof {
                reveal_with_fuel(Seq::filter, 1);
                assert(self.content@.take(i + 1).drop_last() =~= self.content@.take(i as int));
            }
            let keep = match filter {
                Some(f) => {
                    str_contains(entry.name.as_str(), f)
                        || (match &entry.epic {
                            Some(e) => str_contains(e.as_str(), f),
                            None => false,
                        })
                        || f.is_empty()
                },
                None => true,
            };
            if keep {
                content.push(entry.clone());
            }
            assert(content@ =~= kept(self.content@.take(i + 1), fv));
            i = i + 1;
        }
        assert(self.content@.take(self.content@.len() as int) =~= self.content@);
        let ghost entries = content@;
        let n = content.len();
        let pad: usize = if n < self.rows { self.rows - n } else { 0 };
        let mut out: Vec<FormattedAction> = Vec::new();
        let mut k: usize = 0;
        while k < pad
            invariant
                k <= pad,
                out@.len() == k,
                forall|j: int| 0 <= j < k ==> (#[trigger] out@[j]).is_blank(),
            decreases pad - k,
        {
            out.push(FormattedAction::default());
            k = k + 1;
        }
        let mut m: usize = 0;
        while m < n
            invariant
                n == entries.len(),
                content@ == entries,
                m <= n,
                out@.len() == pad + m,
                forall|j: int| 0 <= j < pad ==> (#[trigger] out@[j]).is_blank(),
                forall|j: int| 0 <= j < m ==> #[trigger] out@[pad + j] == entries[j],
            decreases n - m,
        {
            out.push(content[m].clone());
            m = m + 1;
        }
        out
    }
}


/// Searching around a position in the table never lands on that position
/// and always lands inside the table.
pub proof fn law_search_skips_current(current: usize, size: nat, i: int)
    requires
        current < size,
        1 <= i < size,
    ensures
        0 <= prev_pos(current, size, i) < size,
        prev_pos(current, size, i) != current,
        0 <= next_pos(current, size, i) < size,
        next_pos(current, size, i) != current,
{
}

/// The empty filter keeps every entry.
pub proof fn law_empty_filter_keeps_all(content: Seq<FormattedAction>)
    ensures
        kept(content, Some(Seq::empty())) == content,
    decreases content.len(),
{
    reveal_with_fuel(Seq::filter, 1);
    if content.len() > 0 {
        law_empty_filter_keeps_all(content.drop_last());
        assert(content.drop_last().push(content.last()) =~= content);
    } else {
        assert(content.filter(|a: FormattedAction| keeps(a, Seq::empty())) =~= content);
    }
}

/// Every entry the filter keeps has the filter text in its name or epic
/// (or the filter is empty).
pub proof fn law_filter_results_match(content: Seq<FormattedAction>, f: Seq<char>, k: int)
    requires
        0 <= k < kept(content, Some(f)).len(),
    ensures
        keeps(kept(content, Some(f))[k], f),
{
    broadcast use vstd::seq_lib::group_filter_ensures;
    content.lemma_filter_pred(|a: FormattedAction| keeps(a, f), k);
}

/// The filtered table fills at least the screen rows and holds every kept
/// entry.
pub proof fn law_filter_fills_rows(r: Seq<FormattedAction>, entries: Seq<FormattedAction>, rows: nat)
    requires
        padded_to(r, entries, rows),
    ensures
        r.len() >= rows,
        r.len() >= entries.len(),
        r.len() - entries.len() >= 0 && r.subrange(r.len() - entries.len(), r.len() as int) == entries,
{
    let pad: int = pad_len(entries.len(), rows);
    assert(r.subrange(r.len() - entries.len(), r.len() as int) =~= entries) by {
        assert forall|k: int| 0 <= k < entries.len() implies r.subrange(r.len() - entries.len(), r.len() as int)[k] == entries[k] by {
            assert(r[pad + k] == entries[k]);
        }
    }
}

/// The filter keeps an entry of the table exactly when its name or its epic contains the filter, or the filter is empty; with no
/// filter it keeps every entry.
pub proof fn law_filter_keeps_exactly_the_matches(content: Seq<FormattedAction>, f: Seq<char>, a: FormattedAction)
    ensures
        kept(content, Some(f)).contains(a) <==> (content.contains(a) && (contains_seq(a.name@, f) || (a.epic matches Some(e) && contains_seq(e@, f)) || f.len() == 0)),
        kept(content, None).contains(a) <==> content.contains(a),
{
    broadcast use vstd::seq_lib::group_filter_ensures;
    if kept(content, Some(f)).contains(a) {
        let k = choose|k: int| 0 <= k < kept(content, Some(f)).len() && kept(content, Some(f))[k] == a;
        content.lemma_filter_contains_rev(|a: FormattedAction| keeps(a, f), a);
        content.lemma_filter_pred(|a: FormattedAction| keeps(a, f), k);
    }
    if content.contains(a) && (contains_seq(a.name@, f) || (a.epic matches Some(e) && contains_seq(e@, f)) || f.len() == 0) {
        let i = choose|i: int| 0 <= i < content.len() && content[i] == a;
        content.lemma_filter_contains(|a: FormattedAction| keeps(a, f), i);
    }
}

/// Sorting by a column orders the actions by that column's field: the
/// index numerically, the name and the kind by their text, the epic and
/// the annotation by their text with a missing one first.
pub proof fn law_cmp_orders_by_the_column(a: FormattedAction, b: FormattedAction)
    ensures
        column_less(a, b, BasicColumn::Index) == (a.id < b.id),
        column_same(a, b, BasicColumn::Index) == (a.id == b.id),
        column_less(a, b, BasicColumn::Name) == lex_less(a.name@, b.name@),
        column_same(a, b, BasicColumn::Name) == (a.name@ == b.name@),
        column_less(a, b, BasicColumn::Kind) == lex_less(a.kind@, b.kind@),
        column_same(a, b, BasicColumn::Kind) == (a.kind@ == b.kind@),
        column_less(a, b, BasicColumn::Epic) == (match (a.epic, b.epic) {
            (None, Some(_)) => true,
            (Some(x), Some(y)) => lex_less(x@, y@),
            _ => false,
        }),
        column_same(a, b, BasicColumn::Epic) == (match (a.epic, b.epic) {
            (None, None) => true,
            (Some(x), Some(y)) => x@ == y@,
            _ => false,
        }),
        column_less(a, b, BasicColumn::Annotation) == (match (a.annotation, b.annotation) {
            (None, Some(_)) => true,
            (Some(x), Some(y)) => lex_less(x@, y@),
            _ => false,
        }),
        column_same(a, b, BasicColumn::Annotation) == (match (a.annotation, b.annotation) {
            (None, None) => true,
            (Some(x), Some(y)) => x@ == y@,
            _ => false,
        }),
{
}

} // verus!
