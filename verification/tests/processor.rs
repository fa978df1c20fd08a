use weaver::config::{Channel, Content, OutputChoice};
use weaver::display::processor::{Effect, Msg, Processor};
use weaver::display::table_view::Table;
use weaver::entities::FormattedAction;

fn action(id: usize, name: &str) -> FormattedAction {
    FormattedAction { id, name: name.into(), kind: "shell".into(), ..Default::default() }
}

fn processor() -> Processor {
    let table = Table::new(vec![action(1, "ls"), action(2, "git status"), action(3, "git log")], 4);
    Processor::new(table, OutputChoice { content: Content::Command, channel: Channel::Print })
}

#[test]
fn filter_refreshes_and_selects_the_last_row() {
    let mut p = processor();
    match p.step(Msg::Filter("git".into())) {
        Effect::RefreshTable { entries, select } => {
            assert_eq!(4, entries.len());
            assert_eq!(vec![0, 0, 2, 3], entries.iter().map(|a| a.id).collect::<Vec<_>>());
            assert_eq!(Some(3), select);
        }
        other => panic!("unexpected {:?}", other),
    }
}

#[test]
fn selection_updates_the_command_line() {
    let mut p = processor();
    match p.step(Msg::Selection(Some(action(2, "git status")))) {
        Effect::ShowCommand { action, content } => {
            assert_eq!("git status", action.unwrap().name);
            assert_eq!(Content::Command, content);
        }
        other => panic!("unexpected {:?}", other),
    }
    match p.step(Msg::SelectKind(OutputChoice { content: Content::Path, channel: Channel::Run })) {
        Effect::ShowCommand { content, .. } => assert_eq!(Content::Path, content),
        other => panic!("unexpected {:?}", other),
    }
    match p.step(Msg::ShowOutputSelector) {
        Effect::ShowOutputSelector(k) => assert_eq!(Channel::Run, k.channel),
        other => panic!("unexpected {:?}", other),
    }
    // Jump back to the selection: row id - 1, over the whole table.
    match p.step(Msg::JumpToSelection) {
        Effect::RefreshTable { entries, select } => {
            assert_eq!(4, entries.len());
            assert_eq!(Some(1), select);
        }
        other => panic!("unexpected {:?}", other),
    }
    match p.step(Msg::ExtractState) {
        Effect::Finish(sel) => {
            assert_eq!("git status", sel.action.unwrap().name);
            assert_eq!(Some(OutputChoice { content: Content::Path, channel: Channel::Run }), sel.kind);
        }
        other => panic!("unexpected {:?}", other),
    }
}

#[test]
fn submitted_command_replaces_the_name() {
    let mut p = processor();
    assert!(matches!(p.step(Msg::CommandSubmit(Some("echo hi".into()))), Effect::Quit));
    match p.step(Msg::ExtractState) {
        Effect::Finish(sel) => {
            let a = sel.action.unwrap();
            assert_eq!("echo hi", a.name);
            assert_eq!("shell", a.kind);
            assert_eq!(0, a.id);
        }
        other => panic!("unexpected {:?}", other),
    }
    let mut q = processor();
    q.step(Msg::TableSubmit(Some(action(3, "git log"))));
    q.step(Msg::CommandSubmit(None));
    match q.step(Msg::ExtractState) {
        Effect::Finish(sel) => {
            let a = sel.action.unwrap();
            assert_eq!("", a.name);
            assert_eq!(3, a.id);
        }
        other => panic!("unexpected {:?}", other),
    }
    assert!(matches!(q.step(Msg::FilterSubmit), Effect::Quit));
}

#[test]
fn jumps_without_selection_do_nothing() {
    let mut p = processor();
    assert!(matches!(p.step(Msg::JumpToNextMatch), Effect::Nothing));
    assert!(matches!(p.step(Msg::JumpToPrevMatch), Effect::Nothing));
    match p.step(Msg::JumpToSelection) {
        Effect::RefreshTable { select, .. } => assert_eq!(Some(3), select),
        other => panic!("unexpected {:?}", other),
    }
}

#[test]
fn filtering_keeps_the_selection_and_kind() {
    let mut p = processor();
    p.step(Msg::Selection(Some(action(1, "ls"))));
    p.step(Msg::Filter("git".into()));
    p.step(Msg::JumpToSelection);
    match p.step(Msg::ExtractState) {
        Effect::Finish(sel) => {
            assert_eq!(1, sel.action.unwrap().id);
            assert_eq!(Some(OutputChoice { content: Content::Command, channel: Channel::Print }), sel.kind);
        }
        other => panic!("unexpected {:?}", other),
    }
}
