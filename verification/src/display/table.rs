//! The first form of the action table: five columns, a remembered filter
//! on the command name, and padding to the height of the screen.

use vstd::prelude::*;
use crate::text::{contains_seq, str_contains, usize_to_string, decimal, clone_opt_string,
    compare_opt_text, compare_text, compare_usize, lex_less, opt_less, opt_same};

verus! {

/// The columns of the table.
#[derive(Clone, Copy, Debug, PartialEq, Eq, Hash, Structural)]
pub enum BasicColumn {
    Annotation,
    Index,
    Epic,
    Kind,
    Name,
}

/// An action as shown in this table.
#[derive(Debug)]
pub struct FormattedAction {
    pub annotation: Option<String>,
    pub id: usize,
    pub epic: Option<String>,
    pub kind: String,
    pub name: String,
}

impl Clone for FormattedAction {
    fn clone(&self) -> (r: Self)
        ensures
            r == *self,
    {
        FormattedAction {
            annotation: clone_opt_string(&self.annotation),
            id: self.id,
            epic: clone_opt_string(&self.epic),
            kind: self.kind.clone(),
            name: self.name.clone(),
        }
    }
}

/// The text of an optional string: empty for `None`.
pub open spec fn opt_text(s: Option<String>) -> Seq<char> {
    match s {
        Some(x) => x@,
        None => Seq::empty(),
    }
}

/// The text shown in `column` for `a`.
pub open spec fn column_text(a: FormattedAction, column: BasicColumn) -> Seq<char> {
    match column {
        BasicColumn::Annotation => opt_text(a.annotation),
        BasicColumn::Index => decimal(a.id as nat),
        BasicColumn::Epic => opt_text(a.epic),
        BasicColumn::Kind => a.kind@,
        BasicColumn::Name => a.name@,
    }
}

/// `a` sorts before `b` in `column`.
pub open spec fn column_less(a: FormattedAction, b: FormattedAction, column: BasicColumn) -> bool {
    match column {
        BasicColumn::Annotation => opt_less(a.annotation, b.annotation),
        BasicColumn::Index => a.id < b.id,
        BasicColumn::Epic => opt_less(a.epic, b.epic),
        BasicColumn::Kind => lex_less(a.kind@, b.kind@),
        BasicColumn::Name => lex_less(a.name@, b.name@),
    }
}

/// `a` and `b` sort equal in `column`.
pub open spec fn column_same(a: FormattedAction, b: FormattedAction, column: BasicColumn) -> bool {
    match column {
        BasicColumn::Annotation => opt_same(a.annotation, b.annotation),
        BasicColumn::Index => a.id == b.id,
        BasicColumn::Epic => opt_same(a.epic, b.epic),
        BasicColumn::Kind => a.kind@ == b.kind@,
        BasicColumn::Name => a.name@ == b.name@,
    }
}

fn opt_to_string(s: &Option<String>) -> (r: String)
    ensures
        r@ == opt_text(*s),
{
    match s {
        Some(x) => x.clone(),
        None => String::new(),
    }
}

impl FormattedAction {
    /// The blank action used to pad the table.
    pub open spec fn is_blank(&self) -> bool {
        &&& self.annotation is None
        &&& self.id == 0
        &&& self.epic is None
        &&& self.kind@.len() == 0
        &&& self.name@.len() == 0
    }

    /// The text shown in `column` for this action.
    pub fn to_column(&self, column: BasicColumn) -> (r: String)
        ensures
            r@ == column_text(*self, column),
    {
        match column {
            BasicColumn::Annotation => opt_to_string(&self.annotation),
            BasicColumn::Index => usize_to_string(self.id),
            BasicColumn::Epic => opt_to_string(&self.epic),
            BasicColumn::Kind => self.kind.clone(),
            BasicColumn::Name => self.name.clone(),
        }
    }

    /// Orders two actions by the value shown in `column`.
    pub fn cmp(&self, other: &Self, column: BasicColumn) -> (r: std::cmp::Ordering)
        ensures
            (r == std::cmp::Ordering::Less) == column_less(*self, *other, column),
            (r == std::cmp::Ordering::Equal) == column_same(*self, *other, column),
            (r == std::cmp::Ordering::Greater) == column_less(*other, *self, column),
    {
        match column {
            BasicColumn::Annotation => compare_opt_text(&self.annotation, &other.annotation),
            BasicColumn::Index => compare_usize(self.id, other.id),
            BasicColumn::Epic => compare_opt_text(&self.epic, &other.epic),
            BasicColumn::Kind => compare_text(self.kind.as_str(), other.kind.as_str()),
            BasicColumn::Name => compare_text(self.name.as_str(), other.name.as_str()),
        }
    }
}

/// The entries whose name contains the filter (all of them for `None`).
pub open spec fn kept(content: Seq<FormattedAction>, filter: Option<Seq<char>>) -> Seq<FormattedAction> {
    match filter {
        Some(f) => content.filter(|a: FormattedAction| contains_seq(a.name@, f) || f.len() == 0),
        None => content,
    }
}

/// `r` is `entries` preceded by blank entries up to `rows` entries.
pub open spec fn padded_to(r: Seq<FormattedAction>, entries: Seq<FormattedAction>, rows: nat) -> bool {
    &&& r.len() == pad_len(entries.len(), rows) + entries.len()
    &&& forall|k: int| 0 <= k < pad_len(entries.len(), rows) ==> (#[trigger] r[k]).is_blank()
    &&& forall|k: int| 0 <= k < entries.len() ==> #[trigger] r[pad_len(entries.len(), rows) + k] == entries[k]
}

/// The number of blank entries that bring `n` entries up to `rows`.
pub open spec fn pad_len(n: nat, rows: nat) -> int {
    if n < rows { rows - n } else { 0 }
}

/// The data of the table and the filter last applied.
pub struct Table {
    content: Vec<FormattedAction>,
    filter: Option<String>,
    rows: usize,
}

impl Table {
    /// The entries of the table.
    pub closed spec fn spec_content(&self) -> Seq<FormattedAction> {
        self.content@
    }

    /// The filter last applied.
    pub closed spec fn spec_filter(&self) -> Option<String> {
        self.filter
    }

    /// The number of rows the display shows.
    pub closed spec fn spec_rows(&self) -> usize {
        self.rows
    }

    /// A table over `content` shown on `rows` rows, without a filter.
    pub fn new(content: Vec<FormattedAction>, rows: usize) -> (r: Table)
        ensures
            r.spec_content() == content@,
            r.spec_filter() == None::<String>,
            r.spec_rows() == rows,
    {
        Table { content, filter: None, rows }
    }

    /// Remembers `filter` and returns the entries whose name contains it
    /// (all of them for `None`), in order, preceded by blank entries so that
    /// they fill at least the table rows.
    pub fn filter(&mut self, filter: Option<String>) -> (r: Vec<FormattedAction>)
        ensures
            final(self).spec_content() == old(self).spec_content(),
            final(self).spec_rows() == old(self).spec_rows(),
            final(self).spec_filter() == filter,
            padded_to(
                r@,
                kept(old(self).spec_content(), match filter { Some(f) => Some(f@), None => None }),
                old(self).spec_rows() as nat,
            ),
    {
        let ghost fv: Option<Seq<char>> = match &filter { Some(f) => Some(f@), None => None };
        self.filter = filter;
        let mut content: Vec<FormattedAction> = Vec::new();
        let mut i: usize = 0;
        while i < self.content.len()
            invariant
                i <= self.content@.len(),
                fv == (match self.filter { Some(f) => Some(f@), None => None::<Seq<char>> }),
                content@ == kept(self.content@.take(i as int), fv),
            decreases self.content@.len() - i,
        {
            let entry = &self.content[i];
            proof {
                reveal_with_fuel(Seq::filter, 1);
                assert(self.content@.take(i + 1).drop_last() =~= self.content@.take(i as int));
            }
            let keep = match &self.filter {
                Some(f) => str_contains(entry.name.as_str(), f.as_str()) || f.as_str().is_empty(),
                None => true,
            };
            if keep {
                content.push(entry.clone());
            }
            assert(content@ =~= kept(self.content@.take(i + 1), fv));
            i = i + 1;
        }
        assert(self.content@.take(self.content@.len() as int) =~= self.content@);
        let ghost entries = content@;
        let n = content.len();
        let pad: usize = if n < self.rows { self.rows - n } else { 0 };
        let mut out: Vec<FormattedAction> = Vec::new();
        let mut k: usize = 0;
        while k < pad
            invariant
                k <= pad,
                out@.len() == k,
                forall|j: int| 0 <= j < k ==> (#[trigger] out@[j]).is_blank(),
            decreases pad - k,
        {
            out.push(FormattedAction {
                annotation: None,
                id: 0,
                epic: None,
                kind: String::new(),
                name: String::new(),
            });
            k = k + 1;
        }
        let mut m: usize = 0;
        while m < n
            invariant
                n == entries.len(),
                content@ == entries,
                m <= n,
                out@.len() == pad + m,
                forall|j: int| 0 <= j < pad ==> (#[trigger] out@[j]).is_blank(),
                forall|j: int| 0 <= j < m ==> #[trigger] out@[pad + j] == entries[j],
            decreases n - m,
        {
            out.push(content[m].clone());
            m = m + 1;
        }
        out
    }
}

/// The filter keeps an entry of the table exactly when its name contains the filter, or the filter is empty; with no
/// filter it keeps every entry.
pub proof fn law_filter_keeps_exactly_the_matches(content: Seq<FormattedAction>, f: Seq<char>, a: FormattedAction)
    ensures
        kept(content, Some(f)).contains(a) <==> (content.contains(a) && (contains_seq(a.name@, f) || f.len() == 0)),
        kept(content, None).contains(a) <==> content.contains(a),
{
    broadcast use vstd::seq_lib::group_filter_ensures;
    if kept(content, Some(f)).contains(a) {
        let k = choose|k: int| 0 <= k < kept(content, Some(f)).len() && kept(content, Some(f))[k] == a;
        content.lemma_filter_contains_rev(|a: FormattedAction| contains_seq(a.name@, f) || f.len() == 0, a);
        content.lemma_filter_pred(|a: FormattedAction| contains_seq(a.name@, f) || f.len() == 0, k);
    }
    if content.contains(a) && (contains_seq(a.name@, f) || f.len() == 0) {
        let i = choose|i: int| 0 <= i < content.len() && content[i] == a;
        content.lemma_filter_contains(|a: FormattedAction| contains_seq(a.name@, f) || f.len() == 0, i);
    }
}

/// Sorting by a column orders the actions by that column's field: the
/// index numerically, the name and the kind by their text, the epic and
/// the annotation by their text with a missing one first.
pub proof fn law_cmp_orders_by_the_column(a: FormattedAction, b: FormattedAction)
    ensures
        column_less(a, b, BasicColumn::Index) == (a.id < b.id),
        column_same(a, b, BasicColumn::Index) == (a.id == b.id),
        column_less(a, b, BasicColumn::Name) == lex_less(a.name@, b.name@),
        column_same(a, b, BasicColumn::Name) == (a.name@ == b.name@),
        column_less(a, b, BasicColumn::Kind) == lex_less(a.kind@, b.kind@),
        column_same(a, b, BasicColumn::Kind) == (a.kind@ == b.kind@),
        column_less(a, b, BasicColumn::Epic) == (match (a.epic, b.epic) {
            (None, Some(_)) => true,
            (Some(x), Some(y)) => lex_less(x@, y@),
            _ => false,
        }),
        column_same(a, b, BasicColumn::Epic) == (match (a.epic, b.epic) {
            (None, None) => true,
            (Some(x), Some(y)) => x@ == y@,
            _ => false,
        }),
        column_less(a, b, BasicColumn::Annotation) == (match (a.annotation, b.annotation) {
            (None, Some(_)) => true,
            (Some(x), Some(y)) => lex_less(x@, y@),
            _ => false,
        }),
        column_same(a, b, BasicColumn::Annotation) == (match (a.annotation, b.annotation) {
            (None, None) => true,
            (Some(x), Some(y)) => x@ == y@,
            _ => false,
        }),
{
}

} // verus!
