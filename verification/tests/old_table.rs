use weaver::display::filter_processor::{filter_step, FilterEffect, FilterMsg};
use weaver::display::selection_processor::{selection_step, SelectionEffect, SelectionMsg};
use weaver::display::screen::{screen_layout, ScreenLayout};
use weaver::display::table::{BasicColumn, FormattedAction, Table};
use weaver::text::{join_strings, str_contains, str_ends_with, str_eq, usize_to_string, compare_text};
use std::cmp::Ordering;

fn action(id: usize, name: &str) -> FormattedAction {
    FormattedAction { annotation: None, id, epic: None, kind: "shell".into(), name: name.into() }
}

#[test]
fn filter_remembers_and_pads() {
    let mut t = Table::new(vec![action(1, "ls"), action(2, "git")], 3);
    let r = t.filter(Some("git".into()));
    assert_eq!(3, r.len());
    assert_eq!(vec![0, 0, 2], r.iter().map(|a| a.id).collect::<Vec<_>>());
    let all = t.filter(None);
    assert_eq!(vec![0, 1, 2], all.iter().map(|a| a.id).collect::<Vec<_>>());
    assert_eq!("0", all[0].to_column(BasicColumn::Index));
    assert_eq!("git", all[2].to_column(BasicColumn::Name));
    assert_eq!(Ordering::Less, all[1].cmp(&all[2], BasicColumn::Index));
}

#[test]
fn text_helpers() {
    assert!(str_contains("hello world", "o w"));
    assert!(str_contains("abc", ""));
    assert!(!str_contains("ab", "abc"));
    assert!(str_ends_with("a.html", ".html"));
    assert!(!str_ends_with("html", ".html"));
    assert!(str_eq("é", "é"));
    assert!(!str_eq("a", "b"));
    assert_eq!("a, b", join_strings(&vec!["a".into(), "b".into()], ", "));
    assert_eq!("18446744073709551615", usize_to_string(usize::MAX));
    assert_eq!(Ordering::Less, compare_text("a", "b"));
    assert_eq!(Ordering::Equal, compare_text("", ""));
    assert_eq!(Ordering::Greater, compare_text("b", "a"));
}

#[test]
fn filter_processor_redisplays_and_stops() {
    let mut t = Table::new(vec![action(1, "ls"), action(2, "git"), action(3, "git log")], 1);
    match filter_step(&mut t, FilterMsg::Filter("git".into())) {
        FilterEffect::Redisplay { entries, select } => {
            assert_eq!(vec![2, 3], entries.iter().map(|a| a.id).collect::<Vec<_>>());
            assert_eq!(Some(1), select);
        }
        FilterEffect::Stop => panic!("expected a redisplay"),
    }
    match filter_step(&mut t, FilterMsg::Filter("zzz".into())) {
        FilterEffect::Redisplay { entries, select } => {
            assert_eq!(1, entries.len());
            assert_eq!(0, entries[0].id);
            assert_eq!(Some(0), select);
        }
        FilterEffect::Stop => panic!("expected a redisplay"),
    }
    assert!(matches!(filter_step(&mut t, FilterMsg::End), FilterEffect::Stop));
}

#[test]
fn selection_processor_sets_the_command() {
    match selection_step(SelectionMsg::Selection(Some("ls -l".into()))) {
        SelectionEffect::SetCommand(c) => assert_eq!("ls -l", c),
        SelectionEffect::Stop => panic!("expected a command"),
    }
    match selection_step(SelectionMsg::Selection(None)) {
        SelectionEffect::SetCommand(c) => assert_eq!("", c),
        SelectionEffect::Stop => panic!("expected a command"),
    }
    assert!(matches!(selection_step(SelectionMsg::End), SelectionEffect::Stop));
}

#[test]
fn screen_layout_leaves_room_below_the_table() {
    assert_eq!(ScreenLayout { table_height: 31, table_width: 113, command_width: 70 }, screen_layout(120, 40));
    assert_eq!(ScreenLayout { table_height: 0, table_width: 43, command_width: 0 }, screen_layout(50, 9));
}
