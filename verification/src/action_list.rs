//! The state of an action list: a table of items shown one per row, with a
//! focussed row, a mapping from rows to items, and sized columns.
//!
//! Drawing, scrolling and the user callbacks belong to the terminal front
//! end; this module decides what each operation does to the state and which
//! callback, if any, a key press triggers.

use vstd::prelude::*;
use crate::text::{push_char, contains_seq, occurs_at};

verus! {

/// Height subtracted from the view height when sizing the scroll area.
pub const HEIGHT_SUB: usize = 0;

/// Horizontal alignment of the text in a column.
#[derive(Clone, Copy, Debug, PartialEq, Eq, Structural)]
pub enum Alignment {
    Left,
    Center,
    Right,
}

/// Default sort order of a column.
#[derive(Clone, Copy, Debug, PartialEq, Eq, Structural)]
pub enum SortOrder {
    Less,
    Equal,
    Greater,
}

/// The width a column asks for.
#[derive(Clone, Copy, Debug, PartialEq, Eq, Structural)]
pub enum ColumnWidth {
    /// A percentage of the width of the whole table.
    Percent(usize),
    /// A number of characters.
    Absolute(usize),
}

/// A column of the list: which field it shows, how it is aligned and sized.
#[derive(Copy)]
pub struct TableColumn<H> {
    column: H,
    alignment: Alignment,
    width: usize,
    default_order: SortOrder,
    requested_width: Option<ColumnWidth>,
}

impl<H: Copy> Clone for TableColumn<H> {
    fn clone(&self) -> (r: Self)
        ensures
            r == *self,
    {
        *self
    }
}

impl<H: Copy> TableColumn<H> {
    /// The field that this column shows.
    pub closed spec fn spec_column(&self) -> H {
        self.column
    }

    /// The alignment of the column's text.
    pub closed spec fn spec_alignment(&self) -> Alignment {
        self.alignment
    }

    /// The width computed by the last layout.
    pub closed spec fn spec_width(&self) -> usize {
        self.width
    }

    /// The default sort order.
    pub closed spec fn spec_default_order(&self) -> SortOrder {
        self.default_order
    }

    /// The width requested for the column, if any.
    pub closed spec fn spec_requested_width(&self) -> Option<ColumnWidth> {
        self.requested_width
    }

    /// The column that `new` makes for `column`.
    pub closed spec fn fresh_column(column: H) -> TableColumn<H> {
        TableColumn {
            column,
            alignment: Alignment::Left,
            width: 0,
            default_order: SortOrder::Less,
            requested_width: None,
        }
    }

    /// A fresh column shows its field, is left aligned, has no width yet,
    /// sorts `Less` first by default and requests no width.
    pub proof fn lemma_fresh_column(column: H)
        ensures
            Self::fresh_column(column).spec_column() == column,
            Self::fresh_column(column).spec_alignment() == Alignment::Left,
            Self::fresh_column(column).spec_width() == 0,
            Self::fresh_column(column).spec_default_order() == SortOrder::Less,
            Self::fresh_column(column).spec_requested_width() == None::<ColumnWidth>,
    {
    }

    /// A column for `column`: left aligned, no width yet, no requested width.
    pub fn new(column: H) -> (r: Self)
        ensures
            r == Self::fresh_column(column),
            r.spec_column() == column,
            r.spec_alignment() == Alignment::Left,
            r.spec_width() == 0,
            r.spec_default_order() == SortOrder::Less,
            r.spec_requested_width() == None::<ColumnWidth>,
    {
        TableColumn {
            column,
            alignment: Alignment::Left,
            width: 0,
            default_order: SortOrder::Less,
            requested_width: None,
        }
    }

    /// Sets the default ordering of the column.
    pub fn ordering(self, order: std::cmp::Ordering) -> (r: Self)
        ensures
            r.spec_default_order() == (match order {
                std::cmp::Ordering::Less => SortOrder::Less,
                std::cmp::Ordering::Equal => SortOrder::Equal,
                std::cmp::Ordering::Greater => SortOrder::Greater,
            }),
            r.spec_column() == self.spec_column(),
            r.spec_alignment() == self.spec_alignment(),
            r.spec_width() == self.spec_width(),
            r.spec_requested_width() == self.spec_requested_width(),
    {
        let default_order = match order {
            std::cmp::Ordering::Less => SortOrder::Less,
            std::cmp::Ordering::Equal => SortOrder::Equal,
            std::cmp::Ordering::Greater => SortOrder::Greater,
        };
        TableColumn { default_order, ..self }
    }

    /// Sets the horizontal text alignment of the column.
    pub fn align(self, alignment: Alignment) -> (r: Self)
        ensures
            r.spec_alignment() == alignment,
            r.spec_column() == self.spec_column(),
            r.spec_width() == self.spec_width(),
            r.spec_default_order() == self.spec_default_order(),
            r.spec_requested_width() == self.spec_requested_width(),
    {
        TableColumn { alignment, ..self }
    }

    /// Sets how many characters of width this column will try to occupy.
    pub fn width(self, width: usize) -> (r: Self)
        ensures
            r.spec_requested_width() == Some(ColumnWidth::Absolute(width)),
            r.spec_column() == self.spec_column(),
            r.spec_alignment() == self.spec_alignment(),
            r.spec_width() == self.spec_width(),
            r.spec_default_order() == self.spec_default_order(),
    {
        TableColumn { requested_width: Some(ColumnWidth::Absolute(width)), ..self }
    }

    /// Sets what percentage of the width of the entire table this column
    /// will try to occupy.
    pub fn width_percent(self, width: usize) -> (r: Self)
        ensures
            r.spec_requested_width() == Some(ColumnWidth::Percent(width)),
            r.spec_column() == self.spec_column(),
            r.spec_alignment() == self.spec_alignment(),
            r.spec_width() == self.spec_width(),
            r.spec_default_order() == self.spec_default_order(),
    {
        TableColumn { requested_width: Some(ColumnWidth::Percent(width)), ..self }
    }

    /// The field that this column shows.
    pub fn column(&self) -> (r: H)
        ensures
            r == self.spec_column(),
    {
        self.column
    }

    /// The alignment of the column's text.
    pub fn alignment(&self) -> (r: Alignment)
        ensures
            r == self.spec_alignment(),
    {
        self.alignment
    }

    /// The width computed by the last layout.
    pub fn current_width(&self) -> (r: usize)
        ensures
            r == self.spec_width(),
    {
        self.width
    }

    /// The width requested for the column, if any.
    pub fn requested_width(&self) -> (r: Option<ColumnWidth>)
        ensures
            r == self.spec_requested_width(),
    {
        self.requested_width
    }

    /// The text drawn for `value` in this column: the value padded with
    /// spaces to the column width according to the alignment, then one
    /// space (as `format!("{:<w$} ", ..)`, `{:>w$}` and `{:^w$}` do).
    pub fn cell_text(&self, value: &str) -> (r: String)
        ensures
            r@ == cell_text_spec(self.spec_alignment(), self.spec_width() as nat, value@),
    {
        let chars = crate::text::chars_of(value);
        let pad: usize = if chars.len() < self.width { self.width - chars.len() } else { 0 };
        let (left, right): (usize, usize) = match self.alignment {
            Alignment::Left => (0, pad),
            Alignment::Right => (pad, 0),
            Alignment::Center => (pad / 2, pad - pad / 2),
        };
        let mut out = String::new();
        push_spaces(&mut out, left);
        out.append(value);
        push_spaces(&mut out, right);
        push_char(&mut out, ' ');
        out
    }
}

/// `n` spaces.
pub open spec fn spaces(n: nat) -> Seq<char> {
    Seq::new(n, |i: int| ' ')
}

/// The padded text of a cell, see `TableColumn::cell_text`.
pub open spec fn cell_text_spec(alignment: Alignment, width: nat, value: Seq<char>) -> Seq<char> {
    let pad: nat = if value.len() < width { (width - value.len()) as nat } else { 0 };
    let left: nat = match alignment {
        Alignment::Left => 0,
        Alignment::Right => pad,
        Alignment::Center => pad / 2,
    };
    let right: nat = (pad - left) as nat;
    spaces(left) + value + spaces(right) + seq![' ']
}

fn push_spaces(s: &mut String, n: usize)
    ensures
        final(s)@ == old(s)@ + spaces(n as nat),
{
    let mut i: usize = 0;
    while i < n
        invariant
            i <= n,
            s@ == old(s)@ + spaces(i as nat),
        decreases n - i,
    {
        push_char(s, ' ');
        assert(old(s)@ + spaces((i + 1) as nat) =~= (old(s)@ + spaces(i as nat)).push(' '));
        i = i + 1;
    }
}


/// The abstract state of an action list.
pub struct ListState<T, H> {
    /// The items, in storage order.
    pub items: Seq<T>,
    /// For each displayed row, the index of its item in `items`.
    pub rows: Seq<usize>,
    /// The focussed row.
    pub focus: usize,
    /// Whether the list accepts focus and key presses.
    pub enabled: bool,
    /// The columns, left to right.
    pub columns: Seq<TableColumn<H>>,
    /// The size (width, height) of the last layout.
    pub last_size: (usize, usize),
}

/// A list of items shown one per row, with a focussed row.
pub struct ActionListView<T, H> {
    enabled: bool,
    last_size: (usize, usize),
    columns: Vec<TableColumn<H>>,
    focus: usize,
    items: Vec<T>,
    rows_to_items: Vec<usize>,
}

impl<T, H> View for ActionListView<T, H> {
    type V = ListState<T, H>;

    closed spec fn view(&self) -> ListState<T, H> {
        ListState {
            items: self.items@,
            rows: self.rows_to_items@,
            focus: self.focus,
            enabled: self.enabled,
            columns: self.columns@,
            last_size: self.last_size,
        }
    }
}

/// The selected row: the focussed one, none in an empty list.
pub open spec fn selected_row_of<T, H>(s: ListState<T, H>) -> Option<usize> {
    if s.items.len() == 0 { None } else { Some(s.focus) }
}

/// The selected item: the one the focussed row shows, none in an empty list.
pub open spec fn selected_item_of<T, H>(s: ListState<T, H>) -> Option<usize> {
    if s.items.len() == 0 { None } else { Some(s.rows[s.focus as int]) }
}

/// Each item is shown on its own row, in storage order: the rows are the
/// item indices `0, 1, .., n - 1`.
pub open spec fn rows_match_items<T, H>(s: ListState<T, H>) -> bool {
    s.rows == identity_rows(s.items.len())
}

/// The row indices `0, 1, .., n - 1`.
pub open spec fn identity_rows(n: nat) -> Seq<usize> {
    Seq::new(n, |i: int| i as usize)
}

/// The rows left after removing item `removed`: every row that showed it is
/// dropped and every reference to a later item moves down by one.
pub open spec fn rows_after_remove(rows: Seq<usize>, removed: usize) -> Seq<usize> {
    rows.filter(keeps_row(removed)).map_values(shifted_row(removed))
}

/// A row is kept when it does not show the removed item.
pub open spec fn keeps_row(removed: usize) -> spec_fn(usize) -> bool {
    |r: usize| r != removed
}

/// A kept row moves down by one when it shows a later item.
pub open spec fn shifted_row(removed: usize) -> spec_fn(usize) -> usize {
    |r: usize| if r > removed { (r - 1) as usize } else { r }
}

/// The focus after moving up by `n` rows (stopping at the first row).
pub open spec fn focus_up_spec(focus: usize, n: usize) -> usize {
    if focus < n { 0 } else { (focus - n) as usize }
}

/// The focus after moving down by `n` rows (stopping at the last item).
pub open spec fn focus_down_spec(focus: usize, n: usize, len: nat) -> usize {
    if focus + n < len - 1 { (focus + n) as usize } else { (len - 1) as usize }
}

/// The width a sized column takes when `remaining` characters are left:
/// a percentage column takes its computed target, at most `remaining`; an
/// absolute column takes its requested width.
pub open spec fn sized_width(requested: ColumnWidth, target: usize, remaining: usize) -> usize {
    match requested {
        ColumnWidth::Percent(_) => if target < remaining { target } else { remaining },
        ColumnWidth::Absolute(w) => w,
    }
}

/// The width left after the sized columns among the first `n` columns have
/// taken theirs, starting from `start`.
pub open spec fn remaining_after<H: Copy>(
    cols: Seq<TableColumn<H>>,
    targets: Seq<usize>,
    start: usize,
    n: nat,
) -> usize
    decreases n,
{
    if n == 0 {
        start
    } else {
        let r = remaining_after(cols, targets, start, (n - 1) as nat);
        match cols[n - 1].spec_requested_width() {
            Some(req) => {
                let w = sized_width(req, targets[n - 1], r);
                if w < r { (r - w) as usize } else { 0usize }
            },
            None => r,
        }
    }
}

/// The number of columns without a requested width among the first `n`.
pub open spec fn unsized_count<H: Copy>(cols: Seq<TableColumn<H>>, n: nat) -> nat
    decreases n,
{
    if n == 0 {
        0
    } else {
        unsized_count(cols, (n - 1) as nat) + if cols[n - 1].spec_requested_width() is None { 1nat } else { 0nat }
    }
}

/// The width that layout gives column `i`: sized columns in order take
/// theirs from the available width, the n_unsized ones share what is left
/// equally (rounding down).
pub open spec fn laid_out_width<H: Copy>(
    cols: Seq<TableColumn<H>>,
    targets: Seq<usize>,
    available: usize,
    i: int,
) -> usize {
    match cols[i].spec_requested_width() {
        Some(req) => sized_width(req, targets[i], remaining_after(cols, targets, available, i as nat)),
        None => (remaining_after(cols, targets, available, cols.len()) as nat / unsized_count(cols, cols.len())) as usize,
    }
}

/// The width available to the columns of a table of `width` x `height`
/// showing `item_count` items with `column_count` columns: three characters
/// go to each separator, two to the scroll bar when not every item fits.
pub open spec fn available_width(width: usize, height: usize, item_count: nat, column_count: nat) -> usize {
    let seps: int = if column_count > 0 { (column_count - 1) * 3 } else { 0 };
    let base: usize = if seps < width { (width - seps) as usize } else { 0usize };
    let rows: int = if height > 0 { height - 1 } else { 0 };
    if rows < item_count {
        if base > 2 { (base - 2) as usize } else { 0usize }
    } else {
        base
    }
}

/// A key press that the list reacts to.
#[derive(Clone, Copy, Debug, PartialEq, Eq, Structural)]
pub enum ListKey {
    Right,
    Left,
    Up,
    Down,
    PageUp,
    PageDown,
    Home,
    End,
    Enter,
    /// Any other event.
    Other,
}

/// What a key press did.
#[derive(Clone, Copy, Debug, PartialEq, Eq, Structural)]
pub enum KeyOutcome {
    /// The event was not for the list; nothing changed.
    Ignored,
    /// The list scrolled to the focussed row; no callback runs.
    Scrolled,
    /// The submit callback runs with the focussed row and its item.
    Submit { row: usize, index: usize },
    /// The focus moved: scroll to it and run the select callback.
    Selected { row: usize, index: usize },
}

/// The focus after `key`, or `None` when the list ignores the key without
/// scrolling.
pub open spec fn key_focus<T, H>(s: ListState<T, H>, key: ListKey) -> Option<usize> {
    let len = s.items.len();
    if !s.enabled {
        None
    } else {
        match key {
            ListKey::Right | ListKey::Left | ListKey::Enter => Some(s.focus),
            ListKey::Up => if s.focus > 0 { Some(focus_up_spec(s.focus, 1)) } else { None },
            ListKey::Down => if s.focus + 1 < len { Some(focus_down_spec(s.focus, 1, len)) } else { None },
            ListKey::PageUp => Some(focus_up_spec(s.focus, 10)),
            ListKey::PageDown => Some(focus_down_spec(s.focus, 10, len)),
            ListKey::Home => Some(0usize),
            ListKey::End => Some((len - 1) as usize),
            ListKey::Other => None,
        }
    }
}

/// Enter submits the focussed row: the list is enabled, not empty and a
/// submit callback is set.
pub open spec fn key_submits<T, H>(s: ListState<T, H>, key: ListKey, has_submit: bool) -> bool {
    s.enabled && key == ListKey::Enter && s.items.len() > 0 && has_submit
}

/// The outcome of `key`, see `ActionListView::on_key`.
pub open spec fn key_outcome<T, H>(s: ListState<T, H>, key: ListKey, has_submit: bool) -> KeyOutcome {
    if key_submits(s, key, has_submit) {
        KeyOutcome::Submit { row: s.focus, index: s.rows[s.focus as int] }
    } else {
        match key_focus(s, key) {
            None => KeyOutcome::Ignored,
            Some(f) => if s.items.len() > 0 && f != s.focus {
                KeyOutcome::Selected { row: f, index: s.rows[f as int] }
            } else {
                KeyOutcome::Scrolled
            },
        }
    }
}

/// The key can be handled without an index out of range: paging down and
/// jumping to the end need an item, and the rows that the focus lands on
/// exist.
pub open spec fn key_handled_safely<T, H>(s: ListState<T, H>, key: ListKey, has_submit: bool) -> bool {
    s.enabled ==> {
        &&& (key == ListKey::PageDown ==> s.items.len() > 0)
        &&& (key == ListKey::End ==> s.items.len() > 0)
        &&& (key_submits(s, key, has_submit) ==> s.focus < s.rows.len())
        &&& (!key_submits(s, key, has_submit) && s.items.len() > 0 ==> match key_focus(s, key) {
            Some(f) => f != s.focus ==> f < s.rows.len(),
            None => true,
        })
    }
}

proof fn lemma_unsized_positive<H: Copy>(cols: Seq<TableColumn<H>>, j: nat, n: nat)
    requires
        j < n <= cols.len(),
        cols[j as int].spec_requested_width() is None,
    ensures
        unsized_count(cols, n) > 0,
    decreases n,
{
    if n > j + 1 {
        lemma_unsized_positive(cols, j, (n - 1) as nat);
    }
}

/// The first row showing item `item`, if any.
fn first_row_of(rows: &Vec<usize>, item: usize) -> (r: Option<usize>)
    ensures
        match r {
            Some(row) => row < rows@.len() && rows@[row as int] == item && forall|k: int|
                0 <= k < row ==> rows@[k] != item,
            None => !rows@.contains(item),
        },
{
    let mut row: usize = 0;
    while row < rows.len()
        invariant
            row <= rows@.len(),
            forall|k: int| 0 <= k < row ==> rows@[k] != item,
        decreases rows@.len() - row,
    {
        if rows[row] == item {
            return Some(row);
        }
        row = row + 1;
    }
    None
}

impl<T, H: Copy> ActionListView<T, H> {
    /// Creates a new empty, enabled list without columns.
    pub fn new() -> (r: Self)
        ensures
            r@.items == Seq::<T>::empty(),
            r@.rows == Seq::<usize>::empty(),
            r@.focus == 0,
            r@.enabled,
            r@.columns == Seq::<TableColumn<H>>::empty(),
            r@.last_size == (0usize, 0usize),
            rows_match_items(r@),
    {
        let r = ActionListView {
            enabled: true,
            last_size: (0, 0),
            columns: Vec::new(),
            focus: 0,
            items: Vec::new(),
            rows_to_items: Vec::new(),
        };
        assert(r@.rows =~= identity_rows(0));
        r
    }

    /// Adds a column for `column`, configured by `callback`.
    pub fn column<C: FnOnce(TableColumn<H>) -> TableColumn<H>>(self, column: H, callback: C) -> (r: Self)
        requires
            forall|c: TableColumn<H>| #[trigger] callback.requires((c,)),
        ensures
            r@.columns.len() == self@.columns.len() + 1,
            r@.columns.drop_last() == self@.columns,
            callback.ensures((TableColumn::<H>::fresh_column(column),), r@.columns.last()),
            r@.items == self@.items,
            r@.rows == self@.rows,
            r@.focus == self@.focus,
            r@.enabled == self@.enabled,
            r@.last_size == self@.last_size,
    {
        let mut s = self;
        let fresh = TableColumn::new(column);
        let configured = callback(fresh);
        assert(callback.ensures((fresh,), configured));
        s.columns.push(configured);
        assert(s.columns@.drop_last() =~= self.columns@);
        assert(s@.columns.last() == configured);
        s
    }

    /// Disables this view: a disabled view cannot be selected.
    pub fn disable(&mut self)
        ensures
            final(self)@ == (ListState { enabled: false, ..old(self)@ }),
    {
        self.enabled = false;
    }

    /// Re-enables this view.
    pub fn enable(&mut self)
        ensures
            final(self)@ == (ListState { enabled: true, ..old(self)@ }),
    {
        self.enabled = true;
    }

    /// Enables or disables this view.
    pub fn set_enabled(&mut self, enabled: bool)
        ensures
            final(self)@ == (ListState { enabled: enabled, ..old(self)@ }),
    {
        self.enabled = enabled;
    }

    /// Returns `true` if this view is enabled.
    pub fn is_enabled(&self) -> (r: bool)
        ensures
            r == self@.enabled,
    {
        self.enabled
    }

    /// Removes all items from this view.
    pub fn clear(&mut self)
        ensures
            final(self)@ == (ListState {
                items: Seq::empty(),
                rows: Seq::empty(),
                focus: 0,
                ..old(self)@
            }),
            rows_match_items(final(self)@),
    {
        self.items.clear();
        self.rows_to_items.clear();
        self.focus = 0;
        assert(self.rows_to_items@ =~= identity_rows(0));
    }

    /// Returns the number of items in this table.
    pub fn len(&self) -> (r: usize)
        ensures
            r == self@.items.len(),
    {
        self.items.len()
    }

    /// Returns `true` if this table has no items.
    pub fn is_empty(&self) -> (r: bool)
        ensures
            r == (self@.items.len() == 0),
    {
        self.items.len() == 0
    }

    /// Returns the index of the currently selected row.
    pub fn row(&self) -> (r: Option<usize>)
        ensures
            r == selected_row_of(self@),
    {
        if self.items.len() == 0 {
            None
        } else {
            Some(self.focus)
        }
    }

    /// Selects the row at the specified index.
    pub fn set_selected_row(&mut self, row_index: usize)
        ensures
            final(self)@ == (ListState { focus: row_index, ..old(self)@ }),
    {
        self.focus = row_index;
    }

    /// Selects the row at the specified index. Chainable variant.
    pub fn selected_row(self, row_index: usize) -> (r: Self)
        ensures
            r@ == (ListState { focus: row_index, ..self@ }),
    {
        let mut s = self;
        s.set_selected_row(row_index);
        s
    }

    /// Sets the items of the table, one row per item in order, and selects
    /// the first row.
    pub fn set_items(&mut self, items: Vec<T>)
        ensures
            final(self)@ == (ListState {
                items: items@,
                rows: identity_rows(items@.len()),
                focus: 0,
                ..old(self)@
            }),
            rows_match_items(final(self)@),
    {
        self.items = items;
        let n = self.items.len();
        let mut rows: Vec<usize> = Vec::with_capacity(n);
        let mut i: usize = 0;
        while i < n
            invariant
                i <= n,
                rows@ =~= identity_rows(i as nat),
            decreases n - i,
        {
            rows.push(i);
            i = i + 1;
        }
        self.rows_to_items = rows;
        self.set_selected_row(0);
    }

    /// Sets the items of the table. Chainable variant.
    pub fn items(self, items: Vec<T>) -> (r: Self)
        ensures
            r@ == (ListState {
                items: items@,
                rows: identity_rows(items@.len()),
                focus: 0,
                ..self@
            }),
            rows_match_items(r@),
    {
        let mut s = self;
        s.set_items(items);
        s
    }

    /// The item at `index` in the underlying storage, if there is one.
    pub fn borrow_item(&self, index: usize) -> (r: Option<&T>)
        ensures
            r == (if index < self@.items.len() { Some(&self@.items[index as int]) } else { None }),
    {
        if index < self.items.len() {
            Some(&self.items[index])
        } else {
            None
        }
    }

    /// A mutable reference to the item at `index`, if there is one.
    pub fn borrow_item_mut(&mut self, index: usize) -> (r: Option<&mut T>)
        ensures
            index < old(self)@.items.len() ==> r is Some && *r->0 == old(self)@.items[index as int]
                && final(self)@ == (ListState {
                    items: old(self)@.items.update(index as int, *final(r->0)),
                    ..old(self)@
                }),
            index >= old(self)@.items.len() ==> r is None && final(self)@ == old(self)@,
    {
        if index < self.items.len() {
            Some(&mut self.items[index])
        } else {
            None
        }
    }

    /// A mutable reference to the items, to modify them in place.
    pub fn borrow_items_mut(&mut self) -> (r: &mut Vec<T>)
        ensures
            r@ == old(self)@.items,
            final(self)@ == (ListState { items: final(r)@, ..old(self)@ }),
    {
        &mut self.items
    }

    /// The items in storage order.
    pub fn borrow_items(&self) -> (r: &Vec<T>)
        ensures
            r@ == self@.items,
    {
        &self.items
    }

    /// Returns the index of the currently selected item within the
    /// underlying storage.
    pub fn item(&self) -> (r: Option<usize>)
        requires
            self@.items.len() > 0 ==> self@.focus < self@.rows.len(),
        ensures
            r == selected_item_of(self@),
    {
        if self.items.len() == 0 {
            None
        } else {
            Some(self.rows_to_items[self.focus])
        }
    }

    /// Selects the first row showing item `item_index`, if the index is in
    /// range and some row shows it; returns the selected row.
    pub fn set_selected_item(&mut self, item_index: usize) -> (r: Option<usize>)
        ensures
            match r {
                Some(row) => {
                    &&& item_index < old(self)@.items.len()
                    &&& row < old(self)@.rows.len()
                    &&& old(self)@.rows[row as int] == item_index
                    &&& forall|k: int| 0 <= k < row ==> old(self)@.rows[k] != item_index
                    &&& final(self)@ == (ListState { focus: row, ..old(self)@ })
                },
                None => {
                    &&& (item_index < old(self)@.items.len() ==> !old(self)@.rows.contains(item_index))
                    &&& final(self)@ == old(self)@
                },
            },
    {
        if item_index < self.items.len() {
            match first_row_of(&self.rows_to_items, item_index) {
                Some(row) => {
                    self.focus = row;
                    Some(row)
                },
                None => None,
            }
        } else {
            None
        }
    }

    /// Selects the item at `item_index`. Chainable variant.
    pub fn selected_item(self, item_index: usize) -> (r: Self)
        ensures
            r@.items == self@.items,
            r@.rows == self@.rows,
            (item_index < self@.items.len() && self@.rows.contains(item_index)) ==> {
                &&& r@.focus < self@.rows.len()
                &&& self@.rows[r@.focus as int] == item_index
                &&& forall|k: int| 0 <= k < r@.focus ==> self@.rows[k] != item_index
            },
            !(item_index < self@.items.len() && self@.rows.contains(item_index)) ==> r@ == self@,
            r@ == (ListState { focus: r@.focus, ..self@ }),
    {
        let mut s = self;
        let _ = s.set_selected_item(item_index);
        s
    }

    /// Appends an item, shown on a new last row.
    pub fn insert_item(&mut self, item: T)
        requires
            old(self)@.items.len() < usize::MAX,
        ensures
            final(self)@ == (ListState {
                items: old(self)@.items.push(item),
                rows: old(self)@.rows.push(old(self)@.items.len() as usize),
                ..old(self)@
            }),
            rows_match_items(old(self)@) ==> rows_match_items(final(self)@),
    {
        let n = self.items.len();
        self.items.push(item);
        self.rows_to_items.push(n);
        assert(rows_match_items(old(self)@) ==> self.rows_to_items@ =~= identity_rows((n + 1) as nat));
    }

    /// Moves the focus up by `n` rows, stopping at the first row.
    fn focus_up(&mut self, n: usize)
        ensures
            final(self)@ == (ListState { focus: focus_up_spec(old(self)@.focus, n), ..old(self)@ }),
    {
        let step: usize = if self.focus < n { self.focus } else { n };
        self.focus = self.focus - step;
    }

    /// Moves the focus down by `n` rows, stopping at the last item.
    fn focus_down(&mut self, n: usize)
        requires
            old(self)@.items.len() > 0,
        ensures
            final(self)@ == (ListState {
                focus: focus_down_spec(old(self)@.focus, n, old(self)@.items.len()),
                ..old(self)@
            }),
    {
        let last = self.items.len() - 1;
        self.focus = if self.focus < last && n < last - self.focus { self.focus + n } else { last };
    }

    /// Removes the item at `item_index` and returns it.  If it is the
    /// selected item the focus moves up one row first; the rows that showed
    /// it are dropped and the later references shift down.
    pub fn remove_item(&mut self, item_index: usize) -> (r: Option<T>)
        requires
            item_index < old(self)@.items.len() ==> old(self)@.focus < old(self)@.rows.len(),
        ensures
            item_index < old(self)@.items.len() ==> {
                &&& r == Some(old(self)@.items[item_index as int])
                &&& final(self)@ == (ListState {
                    items: old(self)@.items.remove(item_index as int),
                    rows: rows_after_remove(old(self)@.rows, item_index),
                    focus: if old(self)@.rows[old(self)@.focus as int] == item_index {
                        focus_up_spec(old(self)@.focus, 1)
                    } else {
                        old(self)@.focus
                    },
                    ..old(self)@
                })
            },
            item_index >= old(self)@.items.len() ==> r is None && final(self)@ == old(self)@,
            rows_match_items(old(self)@) ==> rows_match_items(final(self)@),
    {
        if item_index < self.items.len() {
            if let Some(selected_index) = self.item() {
                if selected_index == item_index {
                    self.focus_up(1);
                }
            }
            let old_rows = self.rows_to_items.clone();
            let mut kept: Vec<usize> = Vec::new();
            let mut i: usize = 0;
            while i < old_rows.len()
                invariant
                    i <= old_rows@.len(),
                    kept@ == rows_after_remove(old_rows@.take(i as int), item_index),
                decreases old_rows@.len() - i,
            {
                let v = old_rows[i];
                proof {
                    reveal_with_fuel(Seq::filter, 1);
                    assert(old_rows@.take(i + 1).drop_last() =~= old_rows@.take(i as int));
                }
                if v != item_index {
                    let nv: usize = if v > item_index { v - 1 } else { v };
                    kept.push(nv);
                }
                assert(kept@ =~= rows_after_remove(old_rows@.take(i + 1), item_index));
                i = i + 1;
            }
            assert(old_rows@.take(old_rows@.len() as int) =~= old_rows@);
            self.rows_to_items = kept;
            let removed = self.items.remove(item_index);
            proof {
                if rows_match_items(old(self)@) {
                    law_remove_keeps_identity_rows(old(self)@.items.len(), item_index);
                }
            }
            Some(removed)
        } else {
            None
        }
    }

    /// Removes all items and returns them; selects the first row.
    pub fn take_items(&mut self) -> (r: Vec<T>)
        ensures
            r@ == old(self)@.items,
            final(self)@ == (ListState {
                items: Seq::empty(),
                rows: Seq::empty(),
                focus: 0,
                ..old(self)@
            }),
            rows_match_items(final(self)@),
    {
        self.set_selected_row(0);
        self.rows_to_items.clear();
        let mut out: Vec<T> = Vec::new();
        std::mem::swap(&mut out, &mut self.items);
        assert(self.rows_to_items@ =~= identity_rows(0));
        out
    }

    /// Reacts to a key press: moves the focus and tells which callback, if
    /// any, runs.  `has_submit` tells whether a submit callback is set.
    pub fn on_key(&mut self, key: ListKey, has_submit: bool) -> (r: KeyOutcome)
        requires
            key_handled_safely(old(self)@, key, has_submit),
        ensures
            r == key_outcome(old(self)@, key, has_submit),
            final(self)@ == (match r {
                KeyOutcome::Selected { row, index } => ListState { focus: row, ..old(self)@ },
                KeyOutcome::Scrolled => ListState {
                    focus: key_focus(old(self)@, key).unwrap(),
                    ..old(self)@
                },
                _ => old(self)@,
            }),
    {
        if !self.enabled {
            return KeyOutcome::Ignored;
        }
        let last_focus = self.focus;
        match key {
            ListKey::Right | ListKey::Left => {},
            ListKey::Up => {
                if self.focus > 0 {
                    self.focus_up(1);
                } else {
                    return KeyOutcome::Ignored;
                }
            },
            ListKey::Down => {
                if self.focus < self.items.len() && self.items.len() - self.focus > 1 {
                    self.focus_down(1);
                } else {
                    return KeyOutcome::Ignored;
                }
            },
            ListKey::PageUp => {
                self.focus_up(10);
            },
            ListKey::PageDown => {
                self.focus_down(10);
            },
            ListKey::Home => {
                self.focus = 0;
            },
            ListKey::End => {
                self.focus = self.items.len() - 1;
            },
            ListKey::Enter => {
                if self.items.len() > 0 && has_submit {
                    let row = self.focus;
                    let index = self.rows_to_items[self.focus];
                    return KeyOutcome::Submit { row, index };
                }
            },
            ListKey::Other => {
                return KeyOutcome::Ignored;
            },
        }
        let focus = self.focus;
        if self.items.len() > 0 && last_focus != focus {
            let index = self.rows_to_items[focus];
            KeyOutcome::Selected { row: focus, index }
        } else {
            KeyOutcome::Scrolled
        }
    }

    /// The focus that `key` would move to, as `key_focus` says.
    fn focus_after(&self, key: ListKey) -> (r: Option<usize>)
        requires
            self@.enabled,
            key == ListKey::PageDown || key == ListKey::End ==> self@.items.len() > 0,
        ensures
            r == key_focus(self@, key),
    {
        let len = self.items.len();
        let f = self.focus;
        match key {
            ListKey::Right | ListKey::Left | ListKey::Enter => Some(f),
            ListKey::Up => if f > 0 { Some(f - 1) } else { None },
            ListKey::Down => if f < len && len - f > 1 { Some(f + 1) } else { None },
            ListKey::PageUp => Some(if f < 10 { 0 } else { f - 10 }),
            ListKey::PageDown => {
                let last = len - 1;
                Some(if f < last && 10 < last - f { f + 10 } else { last })
            },
            ListKey::Home => Some(0),
            ListKey::End => Some(len - 1),
            ListKey::Other => None,
        }
    }

    /// Whether `on_key` can take `key`: its requirement
    /// `key_handled_safely` holds.
    pub fn handles_key(&self, key: ListKey, has_submit: bool) -> (r: bool)
        ensures
            r == key_handled_safely(self@, key, has_submit),
    {
        if !self.enabled {
            return true;
        }
        let len = self.items.len();
        if len == 0 && (key == ListKey::PageDown || key == ListKey::End) {
            return false;
        }
        let submits = key == ListKey::Enter && len > 0 && has_submit;
        if submits {
            return self.focus < self.rows_to_items.len();
        }
        if len > 0 {
            match self.focus_after(key) {
                Some(f) => f == self.focus || f < self.rows_to_items.len(),
                None => true,
            }
        } else {
            true
        }
    }

    /// Computes the column widths for a view of `width` x `height`, unless
    /// that is the size of the last layout.  `percent_targets[i]` is the
    /// width that column `i` would take if it asked for a percentage of the
    /// whole width.  Returns whether a layout took place.
    pub fn layout(&mut self, width: usize, height: usize, percent_targets: &Vec<usize>) -> (changed: bool)
        requires
            percent_targets@.len() == old(self)@.columns.len(),
            old(self)@.columns.len() * 3 <= usize::MAX,
        ensures
            changed == (old(self)@.last_size != (width, height)),
            !changed ==> final(self)@ == old(self)@,
            changed ==> {
                &&& final(self)@ == (ListState {
                    columns: final(self)@.columns,
                    last_size: (width, height),
                    ..old(self)@
                })
                &&& final(self)@.columns.len() == old(self)@.columns.len()
                &&& forall|i: int| 0 <= i < old(self)@.columns.len() ==> {
                    let c = #[trigger] final(self)@.columns[i];
                    let o = old(self)@.columns[i];
                    &&& c.spec_width() == laid_out_width(
                        old(self)@.columns,
                        percent_targets@,
                        available_width(width, height, old(self)@.items.len(), old(self)@.columns.len()),
                        i,
                    )
                    &&& c.spec_column() == o.spec_column()
                    &&& c.spec_alignment() == o.spec_alignment()
                    &&& c.spec_default_order() == o.spec_default_order()
                    &&& c.spec_requested_width() == o.spec_requested_width()
                }
            },
    {
        if self.last_size.0 == width && self.last_size.1 == height {
            return false;
        }
        let item_count = self.items.len();
        let column_count = self.columns.len();
        let seps: usize = if column_count > 0 { (column_count - 1) * 3 } else { 0 };
        let mut available: usize = if seps < width { width - seps } else { 0 };
        let rows: usize = if height > 0 { height - 1 } else { 0 };
        if rows < item_count {
            available = if available > 2 { available - 2 } else { 0 };
        }
        let ghost cols = self.columns@;
        let ghost targets = percent_targets@;
        assert(available == available_width(width, height, item_count as nat, column_count as nat));

        // Sized columns first, in order.
        let mut remaining = available;
        let mut n_unsized: usize = 0;
        let mut sized_pass: Vec<TableColumn<H>> = Vec::new();
        let mut i: usize = 0;
        while i < column_count
            invariant
                column_count == cols.len(),
                targets.len() == cols.len(),
                cols == self.columns@,
                targets == percent_targets@,
                i <= column_count,
                remaining == remaining_after(cols, targets, available, i as nat),
                n_unsized == unsized_count(cols, i as nat),
                n_unsized <= i,
                sized_pass@.len() == i,
                forall|k: int| 0 <= k < i ==> {
                    let c = #[trigger] sized_pass@[k];
                    &&& (cols[k].spec_requested_width() is Some ==> c.spec_width() == laid_out_width(cols, targets, available, k))
                    &&& c.spec_column() == cols[k].spec_column()
                    &&& c.spec_alignment() == cols[k].spec_alignment()
                    &&& c.spec_default_order() == cols[k].spec_default_order()
                    &&& c.spec_requested_width() == cols[k].spec_requested_width()
                },
            decreases column_count - i,
        {
            let col = self.columns[i];
            match col.requested_width {
                Some(ColumnWidth::Percent(_)) => {
                    let t = percent_targets[i];
                    let w = if t < remaining { t } else { remaining };
                    sized_pass.push(TableColumn { width: w, ..col });
                    remaining = if w < remaining { remaining - w } else { 0 };
                },
                Some(ColumnWidth::Absolute(a)) => {
                    sized_pass.push(TableColumn { width: a, ..col });
                    remaining = if a < remaining { remaining - a } else { 0 };
                },
                None => {
                    sized_pass.push(col);
                    n_unsized = n_unsized + 1;
                },
            }
            i = i + 1;
        }

        // The n_unsized columns share the rest.
        let mut laid_out: Vec<TableColumn<H>> = Vec::new();
        let mut j: usize = 0;
        while j < column_count
            invariant
                column_count == cols.len(),
                targets.len() == cols.len(),
                sized_pass@.len() == column_count,
                j <= column_count,
                remaining == remaining_after(cols, targets, available, cols.len()),
                n_unsized == unsized_count(cols, cols.len()),
                laid_out@.len() == j,
                forall|k: int| 0 <= k < column_count ==> {
                    let c = #[trigger] sized_pass@[k];
                    &&& (cols[k].spec_requested_width() is Some ==> c.spec_width() == laid_out_width(cols, targets, available, k))
                    &&& c.spec_column() == cols[k].spec_column()
                    &&& c.spec_alignment() == cols[k].spec_alignment()
                    &&& c.spec_default_order() == cols[k].spec_default_order()
                    &&& c.spec_requested_width() == cols[k].spec_requested_width()
                },
                forall|k: int| 0 <= k < j ==> {
                    let c = #[trigger] laid_out@[k];
                    &&& c.spec_width() == laid_out_width(cols, targets, available, k)
                    &&& c.spec_column() == cols[k].spec_column()
                    &&& c.spec_alignment() == cols[k].spec_alignment()
                    &&& c.spec_default_order() == cols[k].spec_default_order()
                    &&& c.spec_requested_width() == cols[k].spec_requested_width()
                },
            decreases column_count - j,
        {
            let col = sized_pass[j];
            if col.requested_width.is_none() {
                proof {
                    lemma_unsized_positive(cols, j as nat, cols.len());
                }
                let w = remaining / n_unsized;
                laid_out.push(TableColumn { width: w, ..col });
            } else {
                laid_out.push(col);
            }
            j = j + 1;
        }
        self.columns = laid_out;
        self.last_size = (width, height);
        true
    }

    /// The number of columns.
    pub fn column_count(&self) -> (r: usize)
        ensures
            r == self@.columns.len(),
    {
        self.columns.len()
    }

    /// The column at position `i`.
    pub fn column_at(&self, i: usize) -> (r: &TableColumn<H>)
        requires
            i < self@.columns.len(),
        ensures
            *r == self@.columns[i as int],
    {
        &self.columns[i]
    }

    /// The focussed row.
    pub fn focus(&self) -> (r: usize)
        ensures
            r == self@.focus,
    {
        self.focus
    }

    /// The item shown on row `row`, if both exist.
    pub fn item_at_row(&self, row: usize) -> (r: Option<&T>)
        ensures
            r == (if row < self@.rows.len() && self@.rows[row as int] < self@.items.len() {
                Some(&self@.items[self@.rows[row as int] as int])
            } else {
                None
            }),
    {
        if row < self.rows_to_items.len() && self.rows_to_items[row] < self.items.len() {
            Some(&self.items[self.rows_to_items[row]])
        } else {
            None
        }
    }

    /// The number of rows.
    pub fn row_count(&self) -> (r: usize)
        ensures
            r == self@.rows.len(),
    {
        self.rows_to_items.len()
    }

    /// Whether the list can take the focus.
    pub fn take_focus(&self) -> (r: bool)
        ensures
            r == (self@.enabled && self@.items.len() > 0),
    {
        self.enabled && self.items.len() > 0
    }
}


/// A cell is as wide as its column or its value, whichever is wider, plus
/// the separating space, and shows the value.
pub proof fn law_cell_width(alignment: Alignment, width: nat, value: Seq<char>)
    ensures
        cell_text_spec(alignment, width, value).len() == (if value.len() < width { width } else { value.len() }) + 1,
        contains_seq(cell_text_spec(alignment, width, value), value),
{
    let pad: nat = if value.len() < width { (width - value.len()) as nat } else { 0 };
    let left: nat = match alignment {
        Alignment::Left => 0,
        Alignment::Right => pad,
        Alignment::Center => pad / 2,
    };
    let t = cell_text_spec(alignment, width, value);
    assert(t.subrange(left as int, left + value.len() as int) =~= value);
    assert(occurs_at(t, value, left as int));
}

/// Removing an item from a list whose rows were set from its items leaves
/// one row per remaining item, in order.
pub proof fn law_remove_keeps_identity_rows(n: nat, removed: usize)
    requires
        removed < n,
        n <= usize::MAX,
    ensures
        rows_after_remove(identity_rows(n), removed) == identity_rows((n - 1) as nat),
{
    let rows = identity_rows(n);
    assert(rows =~= identity_rows(removed as nat) + seq![removed] + Seq::new((n - 1 - removed) as nat, |i: int| (removed + 1 + i) as usize));
    lemma_filter_identity(removed, n);
    let kept = identity_rows(removed as nat) + Seq::new((n - 1 - removed) as nat, |i: int| (removed + 1 + i) as usize);
    assert(rows.filter(keeps_row(removed)) == kept);
    let mapped = kept.map_values(shifted_row(removed));
    assert forall|i: int| 0 <= i < n - 1 implies mapped[i] == identity_rows((n - 1) as nat)[i] by {
        if i < removed {
            assert(kept[i] == i as usize);
        } else {
            assert(kept[i] == (removed + 1 + (i - removed)) as usize);
        }
    }
    assert(mapped =~= identity_rows((n - 1) as nat));
    assert(rows_after_remove(rows, removed) =~= identity_rows((n - 1) as nat));
}

proof fn lemma_filter_identity(removed: usize, n: nat)
    requires
        removed < n,
        n <= usize::MAX,
    ensures
        identity_rows(n).filter(keeps_row(removed)) == identity_rows(removed as nat) + Seq::new(
            (n - 1 - removed) as nat,
            |i: int| (removed + 1 + i) as usize,
        ),
    decreases n,
{
    let f = keeps_row(removed);
    reveal_with_fuel(Seq::filter, 1);
    let rows = identity_rows(n);
    assert(rows.drop_last() =~= identity_rows((n - 1) as nat));
    if n - 1 == removed {
        let prev = identity_rows((n - 1) as nat);
        assert(prev.filter(f) =~= prev) by {
            lemma_filter_all_kept(prev, removed);
        }
        assert(Seq::new((n - 1 - removed) as nat, |i: int| (removed + 1 + i) as usize) =~= Seq::<usize>::empty());
        assert(rows.filter(f) =~= prev);
    } else {
        lemma_filter_identity(removed, (n - 1) as nat);
        let prev = identity_rows((n - 1) as nat);
        assert(rows =~= prev.push((n - 1) as usize));
        prev.lemma_filter_push((n - 1) as usize, f);
        assert(f((n - 1) as usize));
        assert(rows.filter(f) == prev.filter(f).push((n - 1) as usize));
        assert(rows.filter(f) =~= identity_rows(removed as nat) + Seq::new(
            (n - 1 - removed) as nat,
            |i: int| (removed + 1 + i) as usize,
        ));
    }
}

proof fn lemma_filter_all_kept(rows: Seq<usize>, removed: usize)
    requires
        forall|i: int| 0 <= i < rows.len() ==> rows[i] < removed,
    ensures
        rows.filter(keeps_row(removed)) == rows,
    decreases rows.len(),
{
    reveal_with_fuel(Seq::filter, 1);
    if rows.len() > 0 {
        lemma_filter_all_kept(rows.drop_last(), removed);
        assert(rows.drop_last().push(rows.last()) =~= rows);
    }
}

/// The keys keep the focus on an item: from a focussed item, every key
/// that moves the focus moves it to an item.
pub proof fn law_keys_keep_focus_on_items<T, H>(s: ListState<T, H>, key: ListKey)
    requires
        s.focus < s.items.len(),
    ensures
        key_focus(s, key) matches Some(f) ==> f < s.items.len(),
{
}


/// With one row per item, a key press on an enabled list whose focus is on
/// an item can always be handled, and the focus stays on an item: the row
/// it lands on shows the item of the same index.
pub proof fn law_key_keeps_selection_on_items<T, H>(s: ListState<T, H>, key: ListKey, has_submit: bool)
    requires
        s.enabled,
        0 < s.items.len() <= usize::MAX,
        s.focus < s.items.len(),
        rows_match_items(s),
    ensures
        key_handled_safely(s, key, has_submit),
        match key_outcome(s, key, has_submit) {
            KeyOutcome::Selected { row, index } => row < s.items.len() && index == row,
            KeyOutcome::Submit { row, index } => row == s.focus && index == row,
            KeyOutcome::Scrolled => key_focus(s, key) matches Some(f) && f < s.items.len(),
            KeyOutcome::Ignored => true,
        },
{
    law_keys_keep_focus_on_items(s, key);
}

/// After setting a non-empty list of items, one row shows each item in
/// order and the first row, showing the first item, is selected.
pub proof fn law_set_items_selects_first<T, H>(s: ListState<T, H>, items: Seq<T>)
    requires
        0 < items.len(),
        items.len() <= usize::MAX,
    ensures
        ({
            let after = ListState { items, rows: identity_rows(items.len()), focus: 0, ..s };
            &&& after.rows.len() == items.len()
            &&& forall|i: int| 0 <= i < items.len() ==> after.rows[i] == i
            &&& selected_row_of(after) == Some(0usize)
            &&& selected_item_of(after) == Some(0usize)
        }),
{
}

/// Selecting a row of a non-empty list makes it the selected row, and
/// selecting an item that some row shows makes it the selected item.
pub proof fn law_selection_reads_back<T, H>(s: ListState<T, H>, row: usize, item_index: usize)
    requires
        s.items.len() > 0,
    ensures
        selected_row_of(ListState { focus: row, ..s }) == Some(row),
        row < s.rows.len() && s.rows[row as int] == item_index ==> selected_item_of(
            ListState { focus: row, ..s },
        ) == Some(item_index),
{
}

/// How each key moves the focus of an enabled list: Up and Down move one
/// row while there is one, PageUp and PageDown ten rows stopping at the
/// first and last item, Home and End go to the first and last item, Left,
/// Right and Enter keep it; other events and a disabled list ignore keys.
pub proof fn law_key_moves<T, H>(s: ListState<T, H>, key: ListKey)
    ensures
        !s.enabled ==> key_focus(s, key) is None,
        s.enabled && key == ListKey::Up ==> key_focus(s, key) == (if s.focus > 0 {
            Some((s.focus - 1) as usize)
        } else {
            None
        }),
        s.enabled && key == ListKey::Down ==> key_focus(s, key) == (if s.focus + 1 < s.items.len() {
            Some((s.focus + 1) as usize)
        } else {
            None
        }),
        s.enabled && key == ListKey::PageUp ==> key_focus(s, key) == Some(
            if s.focus >= 10 { (s.focus - 10) as usize } else { 0usize },
        ),
        s.enabled && key == ListKey::PageDown && s.items.len() > 0 ==> key_focus(s, key) == Some(
            if s.focus + 10 < s.items.len() { (s.focus + 10) as usize } else { (s.items.len() - 1) as usize },
        ),
        s.enabled && key == ListKey::Home ==> key_focus(s, key) == Some(0usize),
        s.enabled && key == ListKey::End && s.items.len() > 0 ==> key_focus(s, key) == Some(
            (s.items.len() - 1) as usize,
        ),
        s.enabled && (key == ListKey::Left || key == ListKey::Right || key == ListKey::Enter) ==> key_focus(s, key)
            == Some(s.focus),
        key == ListKey::Other ==> key_focus(s, key) is None,
{
}

/// Up on an enabled, non-empty list whose focus is below the first row
/// selects the row just above, whatever the submit callback.
pub proof fn law_up_selects_the_row_above<T, H>(s: ListState<T, H>, has_submit: bool)
    requires
        s.enabled,
        s.items.len() > 0,
        s.focus > 0,
    ensures
        key_outcome(s, ListKey::Up, has_submit) == (KeyOutcome::Selected {
            row: (s.focus - 1) as usize,
            index: s.rows[s.focus - 1],
        }),
{
}

/// The text of a cell: a value as wide as the column or wider is followed
/// by one space; a narrower one is padded with spaces to the column width,
/// on the right when left aligned, on the left when right aligned, and on
/// both sides (the extra one on the right) when centered, then followed by
/// one space.
pub proof fn law_cell_alignment(alignment: Alignment, width: nat, value: Seq<char>)
    ensures
        ({
            let t = cell_text_spec(alignment, width, value);
            let n = value.len();
            &&& n >= width ==> t == value.push(' ')
            &&& n < width ==> {
                let pad = width - n;
                let left: int = match alignment {
                    Alignment::Left => 0,
                    Alignment::Right => pad,
                    Alignment::Center => pad / 2,
                };
                &&& t.len() == width + 1
                &&& t.subrange(left, left + n) == value
                &&& forall|i: int| 0 <= i < left ==> t[i] == ' '
                &&& forall|i: int| left + n <= i <= width ==> t[i] == ' '
            }
        }),
{
    let t = cell_text_spec(alignment, width, value);
    let n = value.len();
    if n >= width {
        assert(t =~= value.push(' '));
    } else {
        let pad = width - n;
        let left: int = match alignment {
            Alignment::Left => 0,
            Alignment::Right => pad,
            Alignment::Center => pad / 2,
        };
        assert(t.subrange(left, left + n) =~= value);
    }
}

} // verus!
