use weaver::action_list::{ActionListView, Alignment, KeyOutcome, ListKey, TableColumn};

fn list(items: &[&str]) -> ActionListView<String, u8> {
    let mut l: ActionListView<String, u8> = ActionListView::new();
    l.set_items(items.iter().map(|s| s.to_string()).collect());
    l
}

#[test]
fn new_list_is_empty_and_enabled() {
    let l: ActionListView<String, u8> = ActionListView::new();
    assert!(l.is_empty());
    assert_eq!(0, l.len());
    assert!(l.is_enabled());
    assert_eq!(None, l.row());
    assert_eq!(None, l.item());
    assert!(!l.take_focus());
}

#[test]
fn set_items_selects_the_first_row() {
    let l = list(&["a", "b", "c"]);
    assert_eq!(3, l.len());
    assert_eq!(Some(0), l.row());
    assert_eq!(Some(0), l.item());
    assert_eq!(Some(&"b".to_string()), l.borrow_item(1));
    assert_eq!(None, l.borrow_item(3));
    assert!(l.take_focus());
}

#[test]
fn enable_and_disable() {
    let mut l = list(&["a"]);
    l.disable();
    assert!(!l.is_enabled());
    assert!(!l.take_focus());
    assert_eq!(KeyOutcome::Ignored, l.on_key(ListKey::Down, false));
    l.enable();
    assert!(l.is_enabled());
    l.set_enabled(false);
    assert!(!l.is_enabled());
}

#[test]
fn keys_move_the_focus() {
    let mut l = list(&["a", "b", "c"]);
    assert_eq!(KeyOutcome::Selected { row: 1, index: 1 }, l.on_key(ListKey::Down, false));
    assert_eq!(KeyOutcome::Selected { row: 2, index: 2 }, l.on_key(ListKey::Down, false));
    // At the bottom, Down is ignored.
    assert_eq!(KeyOutcome::Ignored, l.on_key(ListKey::Down, false));
    assert_eq!(KeyOutcome::Selected { row: 0, index: 0 }, l.on_key(ListKey::Home, false));
    assert_eq!(KeyOutcome::Ignored, l.on_key(ListKey::Up, false));
    assert_eq!(KeyOutcome::Selected { row: 2, index: 2 }, l.on_key(ListKey::PageDown, false));
    assert_eq!(KeyOutcome::Scrolled, l.on_key(ListKey::End, false));
    assert_eq!(KeyOutcome::Selected { row: 0, index: 0 }, l.on_key(ListKey::PageUp, false));
    assert_eq!(KeyOutcome::Scrolled, l.on_key(ListKey::Left, false));
    assert_eq!(KeyOutcome::Ignored, l.on_key(ListKey::Other, false));
    assert_eq!(KeyOutcome::Scrolled, l.on_key(ListKey::Enter, false));
    assert_eq!(KeyOutcome::Submit { row: 0, index: 0 }, l.on_key(ListKey::Enter, true));
    assert_eq!(Some(0), l.row());
}

#[test]
fn set_selected_item_finds_its_row() {
    let mut l = list(&["a", "b", "c"]);
    assert_eq!(Some(2), l.set_selected_item(2));
    assert_eq!(Some(2), l.row());
    assert_eq!(None, l.set_selected_item(5));
    assert_eq!(Some(2), l.row());
    let l = l.selected_item(1);
    assert_eq!(Some(1), l.item());
}

#[test]
fn remove_item_moves_the_focus_and_rows() {
    let mut l = list(&["a", "b", "c"]);
    l.set_selected_row(1);
    assert_eq!(Some("b".to_string()), l.remove_item(1));
    assert_eq!(2, l.len());
    assert_eq!(Some(0), l.row());
    assert_eq!(Some(0), l.item());
    assert_eq!(Some(&"c".to_string()), l.item_at_row(1));
    assert_eq!(None, l.remove_item(7));
    assert_eq!(2, l.row_count());
}

#[test]
fn insert_item_appends_a_row() {
    let mut l = list(&["a"]);
    l.insert_item("b".to_string());
    assert_eq!(2, l.len());
    assert_eq!(2, l.row_count());
    assert_eq!(Some(&"b".to_string()), l.borrow_item(1));
    assert_eq!(Some(&"b".to_string()), l.item_at_row(1));
    let mut e: weaver::action_list::ActionListView<String, u8> = weaver::action_list::ActionListView::new();
    e.insert_item("a".to_string());
    assert_eq!(1, e.len());
    assert_eq!(Some(0), e.item());
}

#[test]
fn take_items_empties_the_list() {
    let mut l = list(&["a", "b"]);
    l.set_selected_row(1);
    assert_eq!(vec!["a".to_string(), "b".to_string()], l.take_items());
    assert!(l.is_empty());
    assert_eq!(0, l.row_count());
    assert_eq!(None, l.row());
}

#[test]
fn clear_and_borrow_mut() {
    let mut l = list(&["a", "b"]);
    if let Some(x) = l.borrow_item_mut(0) {
        x.push('!');
    }
    assert_eq!(Some(&"a!".to_string()), l.borrow_item(0));
    l.borrow_items_mut().push("c".to_string());
    assert_eq!(3, l.borrow_items().len());
    l.clear();
    assert!(l.is_empty());
    assert_eq!(None, l.row());
}

#[test]
fn columns_and_layout() {
    let l: ActionListView<String, u8> = ActionListView::new()
        .column(0, |c| c.width(6))
        .column(1, |c| c.align(Alignment::Right))
        .column(2, |c| c.width_percent(50))
        .column(3, |c| c);
    let mut l = l.items(vec!["x".to_string(); 3]);
    assert_eq!(4, l.column_count());
    // 40 wide, 10 high: 9 characters go to separators, no scroll bar.
    assert!(l.layout(40, 10, &vec![0, 0, 20, 0]));
    assert_eq!(6, l.column_at(0).current_width());
    assert_eq!(20, l.column_at(2).current_width());
    // 31 - 6 - 20 = 5 left for two unsized columns.
    assert_eq!(2, l.column_at(1).current_width());
    assert_eq!(2, l.column_at(3).current_width());
    assert!(!l.layout(40, 10, &vec![0, 0, 20, 0]));
    // A short view shows a scroll bar: two characters less.
    assert!(l.layout(40, 2, &vec![0, 0, 40, 0]));
    assert_eq!(23, l.column_at(2).current_width());
    assert_eq!(0, l.column_at(1).current_width());
}

#[test]
fn cells_are_padded_to_the_column() {
    let c = TableColumn::new(0u8).width(5);
    let mut l: ActionListView<String, u8> = ActionListView::new().column(0, |_| c);
    l.layout(5, 5, &vec![0]);
    let col = l.column_at(0);
    assert_eq!("ab    ", col.cell_text("ab"));
    assert_eq!("abcdefg ", col.cell_text("abcdefg"));
    let right = TableColumn::new(0u8).align(Alignment::Right);
    assert_eq!("ab ", right.cell_text("ab"));
    let mut l2: ActionListView<String, u8> = ActionListView::new().column(0, |c| c.width(6).align(Alignment::Center));
    l2.layout(6, 5, &vec![0]);
    assert_eq!("  ab   ", l2.column_at(0).cell_text("ab"));
    assert_eq!(format!("{:^6} ", "ab"), l2.column_at(0).cell_text("ab"));
    assert_eq!(format!("{:^6} ", "abc"), l2.column_at(0).cell_text("abc"));
}

#[test]
fn column_builders_keep_the_column() {
    let c = TableColumn::new(7u8).ordering(std::cmp::Ordering::Greater).width(3).align(Alignment::Center);
    assert_eq!(7, c.column());
    assert_eq!(Alignment::Center, c.alignment());
    assert_eq!(0, c.current_width());
}

#[test]
fn handles_key_tells_which_keys_are_safe() {
    let empty: ActionListView<String, u8> = ActionListView::new();
    assert!(!empty.handles_key(ListKey::End, false));
    assert!(!empty.handles_key(ListKey::PageDown, false));
    assert!(empty.handles_key(ListKey::Down, false));
    let l = list(&["a", "b"]);
    assert!(l.handles_key(ListKey::End, true));
    assert!(l.handles_key(ListKey::Enter, true));
    assert!(l.handles_key(ListKey::PageDown, false));
}

#[test]
fn a_new_column_is_fresh() {
    let mut v: ActionListView<String, u8> = ActionListView::new().column(0, |c| c.width(6)).column(1, |c| c);
    assert_eq!(Alignment::Left, v.column_at(1).alignment());
    assert_eq!(None, v.column_at(1).requested_width());
    assert!(v.layout(40, 10, &vec![0, 0]));
    assert_eq!(6, v.column_at(0).current_width());
    assert_eq!(31, v.column_at(1).current_width());
    assert!(!v.layout(40, 10, &vec![0, 0]));
}

#[test]
fn keys_keep_one_row_per_item() {
    let mut l = list(&["a", "b", "c"]);
    l.insert_item("d".to_string());
    let _ = l.remove_item(0);
    assert_eq!(3, l.len());
    assert_eq!(3, l.row_count());
    for row in 0..3 {
        assert_eq!(l.borrow_item(row), l.item_at_row(row));
    }
    assert_eq!(KeyOutcome::Selected { row: 2, index: 2 }, l.on_key(ListKey::End, false));
    assert_eq!(Some(2), l.item());
}
