use weaver::cli::{command_from_arguments, content_from_arg, channel_from_arg, Arguments, Command, DataSubCommand, ServerArgs, ServerConfig, ServerSubCommand, SubcommandArgs};
use weaver::config::{all_channel, all_content, Channel, Content, ServerRun};

fn args(sub: Option<SubcommandArgs>) -> Arguments {
    Arguments { version: false, subcommand: sub }
}

#[test]
fn server_config_defaults() {
    let c = ServerConfig::current();
    assert_eq!("127.0.0.1:8464", c.http_address);
    assert_eq!("127.0.0.1:8465", c.rpc_address);
    assert_eq!("127.0.0.1:8466", c.actix_address);
}

#[test]
fn version_flag_wins() {
    let a = Arguments { version: true, subcommand: Some(SubcommandArgs::Prompt { check: true }) };
    assert!(matches!(command_from_arguments(a), Command::Noop));
    assert!(matches!(command_from_arguments(args(None)), Command::FlowRecommend));
}

#[test]
fn actions_output_flags() {
    let c = command_from_arguments(args(Some(SubcommandArgs::Actions { content: None, channel: None })));
    match c {
        Command::ActionHistory(k) => {
            assert_eq!(Content::Command, k.content);
            assert_eq!(Channel::Print, k.channel);
        }
        _ => panic!("expected ActionHistory"),
    }
    let c = command_from_arguments(args(Some(SubcommandArgs::Actions {
        content: Some("path-with-command".into()),
        channel: Some("copy".into()),
    })));
    match c {
        Command::ActionHistory(k) => {
            assert_eq!(Content::PathWithCommand, k.content);
            assert_eq!(Channel::Copy, k.channel);
        }
        _ => panic!("expected ActionHistory"),
    }
    assert_eq!(Content::Path, content_from_arg(Some("path")));
    assert_eq!(Content::Command, content_from_arg(Some("command")));
    assert_eq!(Channel::Run, channel_from_arg(Some("run")));
    assert_eq!(Channel::Print, channel_from_arg(Some("print")));
}

#[test]
fn subcommands_map_to_commands() {
    match command_from_arguments(args(Some(SubcommandArgs::Create { name: "f".into(), global: true }))) {
        Command::FlowCreate(n, g) => {
            assert_eq!("f", n);
            assert!(g);
        }
        _ => panic!("expected FlowCreate"),
    }
    match command_from_arguments(args(Some(SubcommandArgs::Run { name: "f".into() }))) {
        Command::FlowRun(n) => assert_eq!("f", n),
        _ => panic!("expected FlowRun"),
    }
    match command_from_arguments(args(Some(SubcommandArgs::Epic { epic_name: Some("e".into()) }))) {
        Command::EpicActivate(n) => assert_eq!("e", n),
        _ => panic!("expected EpicActivate"),
    }
    assert!(matches!(command_from_arguments(args(Some(SubcommandArgs::Epic { epic_name: None }))), Command::EpicList));
    assert!(matches!(command_from_arguments(args(Some(SubcommandArgs::Prompt { check: false }))), Command::ShellPrompt(false)));
    assert!(matches!(
        command_from_arguments(args(Some(SubcommandArgs::Server { sub: Some(ServerArgs::Check) }))),
        Command::Server(ServerSubCommand::Check)
    ));
    assert!(matches!(
        command_from_arguments(args(Some(SubcommandArgs::Server { sub: Some(ServerArgs::Start { foreground: true }) }))),
        Command::Server(ServerSubCommand::Start(ServerRun::Foreground))
    ));
    assert!(matches!(
        command_from_arguments(args(Some(SubcommandArgs::Server { sub: Some(ServerArgs::Start { foreground: false }) }))),
        Command::Server(ServerSubCommand::Start(ServerRun::Daemonize))
    ));
    assert!(matches!(command_from_arguments(args(Some(SubcommandArgs::Data { sqlite: true }))), Command::Data(DataSubCommand::Sqlite)));
    assert!(matches!(command_from_arguments(args(Some(SubcommandArgs::Data { sqlite: false }))), Command::FlowRecommend));
}

#[test]
fn selector_choices() {
    assert_eq!(vec![Channel::Print, Channel::Run, Channel::Copy], all_channel());
    assert_eq!(vec![Content::Command, Content::PathWithCommand, Content::Path], all_content());
}
