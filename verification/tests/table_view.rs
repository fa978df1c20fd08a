use weaver::display::table_view::{BasicColumn, Table};
use weaver::entities::FormattedAction;
use std::cmp::Ordering;

fn build_table() -> Table {
    Table::new(
        vec![
            FormattedAction {
                name: "abc".into(),
                id: 0,
                ..Default::default()
            },
            FormattedAction {
                name: "abcde".into(),
                id: 1,
                ..Default::default()
            },
        ],
        2,
    )
}

#[test]
fn test_prev() {
    let table = build_table();

    assert_eq!(Some(0), table.find_previous("abc", 1));
    assert_eq!(None, table.find_previous("def", 1));
    assert_eq!(Some(1), table.find_previous("abc", 0));
}

#[test]
fn test_next() {
    let table = build_table();

    assert_eq!(Some(1), table.find_next("abc", 0));
    assert_eq!(None, table.find_next("def", 1));
    // wrap around
    assert_eq!(Some(0), table.find_next("abc", 1));
}

fn action(id: usize, name: &str, epic: Option<&str>) -> FormattedAction {
    FormattedAction {
        id,
        name: name.into(),
        epic: epic.map(|e| e.to_string()),
        kind: "shell".into(),
        ..Default::default()
    }
}

#[test]
fn find_previous_wraps_to_the_nearest_match() {
    let table = Table::new(
        vec![action(1, "ls", None), action(2, "git log", None), action(3, "git diff", None), action(4, "ls -l", None)],
        0,
    );
    assert_eq!(Some(2), table.find_previous("git", 3));
    assert_eq!(Some(3), table.find_previous("ls", 0));
    assert_eq!(None, table.find_previous("ls -l", 3));
    assert_eq!(Some(1), table.find_next("git", 0));
    assert_eq!(Some(0), table.find_next("ls", 3));
}

#[test]
fn search_never_returns_the_current_row() {
    let table = Table::new(vec![action(1, "same", None), action(2, "same", None), action(3, "same", None)], 0);
    for current in 0..3 {
        assert_ne!(table.find_next("same", current), Some(current));
        assert_ne!(table.find_previous("same", current), Some(current));
    }
    let single = Table::new(vec![action(1, "same", None)], 0);
    assert_eq!(None, single.find_next("same", 0));
    assert_eq!(None, single.find_previous("same", 0));
}

#[test]
fn filter_pads_to_the_screen_rows() {
    let mut table = Table::new(vec![action(1, "ls", Some("web")), action(2, "make", None), action(3, "cargo", Some("lsp"))], 5);
    let all = table.filter(None);
    assert_eq!(5, all.len());
    assert_eq!(0, all[0].id);
    assert_eq!("", all[1].name);
    assert_eq!(vec![1, 2, 3], all[2..].iter().map(|a| a.id).collect::<Vec<_>>());

    let ls = table.filter(Some("ls"));
    assert_eq!(5, ls.len());
    // "ls" matches the name of 1 and the epic of 3.
    assert_eq!(vec![1, 3], ls[3..].iter().map(|a| a.id).collect::<Vec<_>>());
    assert!(ls[..3].iter().all(|a| a.id == 0 && a.name.is_empty() && a.epic.is_none()));

    let empty = table.filter(Some(""));
    assert_eq!(vec![0, 0, 1, 2, 3], empty.iter().map(|a| a.id).collect::<Vec<_>>());

    let mut small = Table::new(vec![action(1, "a", None), action(2, "b", None)], 1);
    assert_eq!(2, small.filter(None).len());
}

#[test]
fn get_returns_a_copy_of_the_entry() {
    let table = build_table();
    assert_eq!("abcde", table.get(1).unwrap().name);
    assert!(table.get(2).is_none());
}

#[test]
fn to_column_shows_the_fields() {
    let a = FormattedAction {
        annotation: Some("note".into()),
        id: 42,
        epic: Some("epic".into()),
        kind: "shell".into(),
        name: "ls".into(),
        location: None,
    };
    assert_eq!("note", a.to_column(BasicColumn::Annotation));
    assert_eq!("42", a.to_column(BasicColumn::Index));
    assert_eq!("epic", a.to_column(BasicColumn::Epic));
    assert_eq!("shell", a.to_column(BasicColumn::Kind));
    assert_eq!("ls", a.to_column(BasicColumn::Name));
    let blank = FormattedAction::default();
    assert_eq!("", blank.to_column(BasicColumn::Index));
    assert_eq!("", blank.to_column(BasicColumn::Annotation));
}

#[test]
fn cmp_orders_by_column() {
    let a = action(1, "abc", None);
    let b = action(2, "abd", Some("x"));
    assert_eq!(Ordering::Less, a.cmp(&b, BasicColumn::Index));
    assert_eq!(Ordering::Less, a.cmp(&b, BasicColumn::Name));
    assert_eq!(Ordering::Greater, b.cmp(&a, BasicColumn::Name));
    assert_eq!(Ordering::Less, a.cmp(&b, BasicColumn::Epic));
    assert_eq!(Ordering::Equal, a.cmp(&b, BasicColumn::Kind));
    assert_eq!(Ordering::Equal, a.cmp(&b, BasicColumn::Annotation));
    let c = action(3, "ab", None);
    assert_eq!(Ordering::Greater, a.cmp(&c, BasicColumn::Name));
    assert_eq!("abc".cmp("ab"), a.cmp(&c, BasicColumn::Name));
    let d = action(4, "é", None);
    assert_eq!("abc".cmp("é"), a.cmp(&d, BasicColumn::Name));
}

#[test]
fn find_next_near_the_largest_position() {
    let t = build_table();
    // current + len - 1 is the largest position the search computes; past
    // the table there is nothing to find.
    assert_eq!(None, t.find_next("abc", usize::MAX - 1));
}
