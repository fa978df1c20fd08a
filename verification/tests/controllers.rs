use weaver::config::{Channel, Content, OutputChoice};
use weaver::controllers::{history_step, prompt_check_lines, prompt_epic, should_start_server, sqlite_open_command, HistoryStep};
use weaver::display::processor::UserSelection;
use weaver::entities::FormattedAction;
use weaver::flows::{find_flow, flow_file_path, is_flow_file, new_flow};
use weaver::store::{check_insert_count, epic_display, format_row, insert_count_error, last_url_entry, shell_action, url_action};

fn selection(kind: &str, channel: Channel) -> UserSelection {
    UserSelection {
        action: Some(FormattedAction { name: "x".into(), kind: kind.into(), ..Default::default() }),
        kind: Some(OutputChoice { content: Content::Command, channel }),
    }
}

#[test]
fn history_steps() {
    assert!(matches!(history_step(UserSelection { action: None, kind: None }), HistoryStep::NoSelection));
    let no_kind = UserSelection { action: Some(FormattedAction::default()), kind: None };
    assert!(matches!(history_step(no_kind), HistoryStep::NoKind));
    assert!(matches!(history_step(selection("shell", Channel::Run)), HistoryStep::RunShell { .. }));
    match history_step(selection("url", Channel::Run)) {
        HistoryStep::RunOpen { command } => assert_eq!("open x", command),
        _ => panic!("expected RunOpen"),
    }
    assert!(matches!(history_step(selection("url", Channel::Copy)), HistoryStep::Copy { .. }));
    assert!(matches!(history_step(selection("shell", Channel::Print)), HistoryStep::PrintShell { .. }));
    match history_step(selection("url", Channel::Print)) {
        HistoryStep::PrintOpen { command } => assert_eq!("open x", command),
        _ => panic!("expected PrintOpen"),
    }
}

#[test]
fn prompt_check() {
    let lines = prompt_check_lines("\\u@\\h $ ");
    assert_eq!(2, lines.len());
    assert_eq!("export PS1='{$( fc -ln -1 | weaver prompt)} \\W $ '", lines[1]);
    assert_eq!(vec!["Looking good".to_string()], prompt_check_lines("{$(weaver prompt)}"));
    assert_eq!("<not-set>", prompt_epic(None));
    assert_eq!("ship", prompt_epic(Some("ship")));
    assert_eq!(".open /tmp/db.sqlite", sqlite_open_command("/tmp/db.sqlite"));
}

#[test]
fn flows_by_name() {
    assert!(is_flow_file("deploy.flow.json"));
    assert!(!is_flow_file("deploy.json"));
    assert_eq!("flows/deploy.flow.json", flow_file_path("deploy"));
    let flows = vec![new_flow("a".into()), new_flow("b".into())];
    assert_eq!("b", find_flow(&flows, "b").unwrap().name);
    assert_eq!("flow not found", find_flow(&flows, "c").unwrap_err());
    assert!(flows[0].actions.is_empty());
}

#[test]
fn store_records() {
    let a = shell_action("t".into(), "ls".into(), Some("/".into()), None, "host".into());
    assert_eq!("shell", a.kind);
    assert_eq!("ls", a.command);
    let u = url_action("t".into(), "http://x".into(), "link".into(), Some("e".into()), "host".into());
    assert_eq!("url", u.kind);
    assert_eq!(Some("link".to_string()), u.location);
    assert!(check_insert_count(1).is_ok());
    assert_eq!("Got bad numbers of rows in insert", check_insert_count(0).unwrap_err());
    assert_eq!("bad insert count 2 during migration", insert_count_error(2));
    let f = format_row(None, None, "shell".into(), "ls".into(), None, Some("e".into()));
    assert_eq!(0, f.id);
    assert_eq!("ls", f.name);
    let g = format_row(Some(12), Some("n".into()), "url".into(), "http://x".into(), Some("/".into()), None);
    assert_eq!(12, g.id);
    assert_eq!(("http://x".to_string(), "".to_string()), last_url_entry("http://x".into(), None));
    assert_eq!(("u".to_string(), "l".to_string()), last_url_entry("u".into(), Some("l".into())));
}

#[test]
fn epic_display_is_empty_without_an_epic() {
    assert_eq!("release", epic_display(Some("release")));
    assert_eq!("", epic_display(None));
}

#[test]
fn prompt_starts_the_server_when_asked_and_not_running() {
    assert!(should_start_server(Some(true), false));
    assert!(!should_start_server(Some(true), true));
    assert!(!should_start_server(Some(false), false));
    assert!(!should_start_server(None, false));
}
