use warp_tray::actions::{MenuAction, MenuGroup};
use warp_tray::commands::{
    load_command_list, parse_command_list, user_command_id, user_command_index, ListError,
    LoadError, UserCommand,
};
use warp_tray::invocation::Invocation;
use warp_tray::session::{MenuReaction, TraySession};

fn warp_args(a: MenuAction) -> Option<Vec<String>> {
    a.warp_invocation().map(|inv| {
        assert_eq!(inv.program, "warp-cli");
        inv.args
    })
}

fn cmd(title: &str, command: &str) -> UserCommand {
    UserCommand { title: title.to_string(), command: command.to_string() }
}

#[test]
fn every_action_runs_its_documented_command() {
    let expected: Vec<(MenuAction, &str, Option<Vec<&str>>)> = vec![
        (MenuAction::Connect, "connect", Some(vec!["connect"])),
        (MenuAction::Disconnect, "disconnect", Some(vec!["disconnect"])),
        (MenuAction::Status, "status", Some(vec!["status"])),
        (MenuAction::EnableAlwaysOn, "enable_always_on", Some(vec!["enable-always-on"])),
        (MenuAction::DisableAlwaysOn, "disable_always_on", Some(vec!["disable-always-on"])),
        (MenuAction::ModeWarp, "mode_warp", Some(vec!["set-mode", "warp"])),
        (MenuAction::ModeDoh, "mode_doh", Some(vec!["set-mode", "doh"])),
        (MenuAction::ModeDot, "mode_dot", Some(vec!["set-mode", "dot"])),
        (MenuAction::ModeWarpDoh, "mode_warp_doh", Some(vec!["set-mode", "warp+doh"])),
        (MenuAction::ModeWarpDot, "mode_warp_dot", Some(vec!["set-mode", "warp+dot"])),
        (MenuAction::TeamsUnenroll, "teams_unenroll", Some(vec!["teams-unenroll"])),
        (MenuAction::Register, "register", Some(vec!["register"])),
        (MenuAction::EnableLogging, "enable_logging", Some(vec!["enable-logging"])),
        (MenuAction::DisableLogging, "disable_logging", Some(vec!["disable-logging"])),
        (MenuAction::TraceSupport, "trace_support", Some(vec!["trace-support"])),
        (MenuAction::GenerateReport, "generate_report", Some(vec!["generate-report"])),
        (MenuAction::Save, "save", None),
        (MenuAction::Quit, "quit", None),
    ];
    assert_eq!(MenuAction::all(), expected.iter().map(|e| e.0).collect::<Vec<_>>());
    for (a, id, args) in expected {
        assert_eq!(a.id(), id);
        assert_eq!(MenuAction::from_id(&id.to_string()), Some(a));
        let args: Option<Vec<String>> = args.map(|v| v.iter().map(|s| s.to_string()).collect());
        assert_eq!(warp_args(a), args);
    }
}

#[test]
fn labels_and_groups() {
    assert_eq!(MenuAction::Connect.label(), "Connect");
    assert_eq!(MenuAction::ModeDoh.label(), "DoH (DNS over HTTPS)");
    assert_eq!(MenuAction::TeamsUnenroll.label(), "Unenroll from Cloudflare for Teams");
    assert_eq!(MenuAction::Quit.label(), "Quit");
    assert_eq!(MenuAction::Connect.group(), MenuGroup::Main);
    assert_eq!(MenuAction::EnableAlwaysOn.group(), MenuGroup::Startup);
    assert_eq!(MenuAction::ModeWarpDot.group(), MenuGroup::Mode);
    assert_eq!(MenuAction::GenerateReport.group(), MenuGroup::Other);
    assert_eq!(MenuAction::Quit.group(), MenuGroup::Main);
}

#[test]
fn unknown_identifiers() {
    assert_eq!(MenuAction::from_id(&"".to_string()), None);
    assert_eq!(MenuAction::from_id(&"Connect".to_string()), None);
    assert_eq!(MenuAction::from_id(&"set_mode_warp".to_string()), None);
}

#[test]
fn invocation_keeps_arguments_in_order() {
    let inv = Invocation::new("prog", &["a", "b c", ""]);
    assert_eq!(inv.program, "prog");
    assert_eq!(inv.args, vec!["a", "b c", ""]);
    assert!(Invocation::new("p", &[]).args.is_empty());
}

#[test]
fn parses_a_command_list() {
    let cs = parse_command_list("Files=nautilus ~\n\nTop=gnome-system-monitor --show=cpu\n").unwrap();
    assert_eq!(cs.len(), 2);
    assert_eq!(cs[0].title, "Files");
    assert_eq!(cs[0].command, "nautilus ~");
    assert_eq!(cs[1].title, "Top");
    assert_eq!(cs[1].command, "gnome-system-monitor --show=cpu");
    assert!(parse_command_list("").unwrap().is_empty());
    assert!(parse_command_list("\n\n").unwrap().is_empty());
    let one = parse_command_list("Día=echo olé").unwrap();
    assert_eq!(one[0].title, "Día");
    assert_eq!(one[0].command, "echo olé");
}

#[test]
fn refuses_malformed_lines() {
    assert_eq!(parse_command_list("ok=ls\nno separator").err(), Some(ListError::MissingSeparator { line: 2 }));
    assert_eq!(parse_command_list("\n\n=ls").err(), Some(ListError::EmptyTitle { line: 3 }));
    assert_eq!(parse_command_list("t=").err(), Some(ListError::EmptyCommand { line: 1 }));
    assert_eq!(parse_command_list("a\n=b").err(), Some(ListError::MissingSeparator { line: 1 }));
}

#[test]
fn startup_load_reports_problems() {
    assert_eq!(load_command_list(None).err(), Some(LoadError::Unreadable));
    assert_eq!(
        load_command_list(Some("broken")).err(),
        Some(LoadError::Malformed(ListError::MissingSeparator { line: 1 }))
    );
    assert_eq!(load_command_list(Some("a=b")).unwrap().len(), 1);
}

#[test]
fn user_identifiers() {
    assert_eq!(user_command_id(0), "user_command_0");
    assert_eq!(user_command_id(7), "user_command_7");
    assert_eq!(user_command_id(10), "user_command_10");
    assert_eq!(user_command_id(1234), "user_command_1234");
    assert_eq!(user_command_index(&"user_command_2".to_string(), 3), Some(2));
    assert_eq!(user_command_index(&"user_command_3".to_string(), 3), None);
    assert_eq!(user_command_index(&"user_command_02".to_string(), 3), None);
}

#[test]
fn session_runs_fixed_actions() {
    let mut s = TraySession::new(vec![]);
    match s.on_menu(&"mode_warp_doh".to_string()) {
        MenuReaction::Run(inv) => {
            assert_eq!(inv.program, "warp-cli");
            assert_eq!(inv.args, vec!["set-mode", "warp+doh"]);
        }
        _ => panic!("expected a command"),
    }
    assert!(matches!(s.on_menu(&"save".to_string()), MenuReaction::NotImplemented));
    assert!(matches!(s.on_menu(&"nothing".to_string()), MenuReaction::Ignore));
    assert!(s.on_tick());
}

#[test]
fn quit_happens_once_and_stops_polling() {
    let mut s = TraySession::new(vec![cmd("Files", "nautilus")]);
    assert!(s.is_running());
    assert!(s.on_tick());
    assert!(matches!(s.on_menu(&"quit".to_string()), MenuReaction::Quit));
    assert!(!s.is_running());
    assert!(!s.on_tick());
    assert!(matches!(s.on_menu(&"quit".to_string()), MenuReaction::Ignore));
    assert!(matches!(s.on_menu(&"connect".to_string()), MenuReaction::Ignore));
    assert!(matches!(s.on_menu(&"user_command_0".to_string()), MenuReaction::Ignore));
    assert!(!s.on_tick());
}

#[test]
fn user_commands_get_one_entry_each() {
    let mut s = TraySession::new(vec![cmd("A", "echo a"), cmd("B", "echo b; ls"), cmd("A", "echo again")]);
    let entries = s.user_entries();
    assert_eq!(entries.len(), 3);
    let ids: Vec<&str> = entries.iter().map(|e| e.id.as_str()).collect();
    assert_eq!(ids, vec!["user_command_0", "user_command_1", "user_command_2"]);
    assert_eq!(entries[2].label, "A");
    for a in MenuAction::all() {
        assert!(!ids.contains(&a.id()));
    }
    match s.on_menu(&"user_command_1".to_string()) {
        MenuReaction::Run(inv) => {
            assert_eq!(inv.program, "sh");
            assert_eq!(inv.args, vec!["-c", "echo b; ls"]);
        }
        _ => panic!("expected a command"),
    }
    match s.on_menu(&"user_command_2".to_string()) {
        MenuReaction::Run(inv) => assert_eq!(inv.args, vec!["-c", "echo again"]),
        _ => panic!("expected a command"),
    }
    assert!(matches!(s.on_menu(&"user_command_3".to_string()), MenuReaction::Ignore));
    assert!(TraySession::new(vec![]).user_entries().is_empty());
}
