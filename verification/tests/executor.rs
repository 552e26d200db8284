use vsh::error::VshError;
use vsh::executor::builtin::{
    check_action, confirms, execute_builtin, expand_home, expand_tilde, has_flag, FileAction,
    PathKind,
};
use vsh::executor::execute_command;
use vsh::parser::{parse_command, Command, CommandArgs, Intent, SyntaxStyle};

fn command(intent: Intent, args: CommandArgs) -> Command {
    Command {
        intent,
        args,
        syntax_used: SyntaxStyle::Terse,
    }
}

#[test]
fn copy_and_move_carry_source_and_destination() {
    match execute_command(parse_command("cp a b").unwrap()).unwrap() {
        FileAction::Copy { source, destination } => {
            assert_eq!(source, "a");
            assert_eq!(destination, "b");
        }
        other => panic!("unexpected action: {:?}", other),
    }
    match execute_command(parse_command("move a to b").unwrap()).unwrap() {
        FileAction::Move { source, destination } => {
            assert_eq!(source, "a");
            assert_eq!(destination, "b");
        }
        other => panic!("unexpected action: {:?}", other),
    }
}

#[test]
fn remove_is_forced_by_the_flag() {
    match execute_command(parse_command("rm a -f").unwrap()).unwrap() {
        FileAction::Remove { target, force } => {
            assert_eq!(target, "a");
            assert!(force);
        }
        other => panic!("unexpected action: {:?}", other),
    }
    match execute_builtin(parse_command("rm a -r -ff").unwrap()).unwrap() {
        FileAction::Remove { target, force } => {
            assert_eq!(target, "a");
            assert!(!force);
        }
        other => panic!("unexpected action: {:?}", other),
    }
}

#[test]
fn list_and_change_directory_have_default_paths() {
    match execute_command(command(Intent::List, CommandArgs::new())).unwrap() {
        FileAction::List { path } => assert_eq!(path, "."),
        other => panic!("unexpected action: {:?}", other),
    }
    match execute_command(command(Intent::ChangeDirectory, CommandArgs::new())).unwrap() {
        FileAction::ChangeDirectory { path } => assert_eq!(path, "~"),
        other => panic!("unexpected action: {:?}", other),
    }
    match execute_command(parse_command("cd /tmp").unwrap()).unwrap() {
        FileAction::ChangeDirectory { path } => assert_eq!(path, "/tmp"),
        other => panic!("unexpected action: {:?}", other),
    }
    match execute_command(parse_command("list in /var").unwrap()).unwrap() {
        FileAction::List { path } => assert_eq!(path, "/var"),
        other => panic!("unexpected action: {:?}", other),
    }
}

#[test]
fn incomplete_commands_are_rejected() {
    let mut args = CommandArgs::new();
    for (intent, what) in [
        (Intent::Copy, "Missing source"),
        (Intent::Move, "Missing source"),
        (Intent::Remove, "Missing file to remove"),
    ] {
        match execute_command(command(intent, args.clone())) {
            Err(VshError::InvalidSyntax(m)) => assert_eq!(m, what),
            other => panic!("unexpected outcome: {:?}", other),
        }
    }
    args.source = Some("a".to_string());
    for intent in [Intent::Copy, Intent::Move] {
        match execute_command(command(intent, args.clone())) {
            Err(VshError::InvalidSyntax(m)) => assert_eq!(m, "Missing destination"),
            other => panic!("unexpected outcome: {:?}", other),
        }
    }
}

#[test]
fn flags_are_found_by_exact_text() {
    let flags = vec!["-r".to_string(), "-f".to_string()];
    assert!(has_flag(&flags, "-f"));
    assert!(has_flag(&flags, "-r"));
    assert!(!has_flag(&flags, "-"));
    assert!(!has_flag(&Vec::new(), "-f"));
}

#[test]
fn leading_tilde_becomes_the_home_directory() {
    assert_eq!(expand_home("~", Some("/home/u")), "/home/u");
    assert_eq!(expand_home("~/docs/~x", Some("/home/u")), "/home/u/docs/~x");
    assert_eq!(expand_home("/tmp/~", Some("/home/u")), "/tmp/~");
    assert_eq!(expand_home("~/docs", None), "~/docs");
    assert_eq!(expand_home("", Some("/home/u")), "");
}

#[test]
fn missing_paths_are_reported_with_their_name() {
    let actions = [
        FileAction::Copy { source: "a".to_string(), destination: "b".to_string() },
        FileAction::Move { source: "a".to_string(), destination: "b".to_string() },
        FileAction::Remove { target: "a".to_string(), force: false },
        FileAction::List { path: "a".to_string() },
        FileAction::ChangeDirectory { path: "a".to_string() },
    ];
    for action in &actions {
        match check_action(action, PathKind::Missing) {
            Err(VshError::FileNotFound(p)) => assert_eq!(p, "a"),
            other => panic!("unexpected outcome: {:?}", other),
        }
    }
}

#[test]
fn directories_are_not_copied() {
    let action = FileAction::Copy { source: "a".to_string(), destination: "b".to_string() };
    match check_action(&action, PathKind::Directory) {
        Err(VshError::ExecutionError(m)) => {
            assert_eq!(m, "Directory copy not yet implemented. Use -r flag (coming soon)")
        }
        other => panic!("unexpected outcome: {:?}", other),
    }
    assert!(check_action(&action, PathKind::File).is_ok());
    assert!(check_action(&action, PathKind::Other).is_ok());
}

#[test]
fn move_and_remove_take_anything_that_exists() {
    let moving = FileAction::Move { source: "a".to_string(), destination: "b".to_string() };
    let removing = FileAction::Remove { target: "a".to_string(), force: true };
    for kind in [PathKind::File, PathKind::Directory, PathKind::Other] {
        assert!(check_action(&moving, kind).is_ok());
        assert!(check_action(&removing, kind).is_ok());
    }
}

#[test]
fn only_directories_are_listed_or_entered() {
    let actions = [
        FileAction::List { path: "a b".to_string() },
        FileAction::ChangeDirectory { path: "a b".to_string() },
    ];
    for action in &actions {
        assert!(check_action(action, PathKind::Directory).is_ok());
        for kind in [PathKind::File, PathKind::Other] {
            match check_action(action, kind) {
                Err(VshError::ExecutionError(m)) => assert_eq!(m, "'a b' is not a directory"),
                other => panic!("unexpected outcome: {:?}", other),
            }
        }
    }
}

#[test]
fn only_a_plain_yes_confirms() {
    assert!(confirms("y"));
    assert!(confirms("Y"));
    assert!(confirms("y\n"));
    assert!(confirms("  Y \r\n"));
    assert!(!confirms(""));
    assert!(!confirms("\n"));
    assert!(!confirms("yes"));
    assert!(!confirms("n"));
    assert!(!confirms("y y"));
}

#[test]
fn builtin_test_copy_nonexistent_file() {
    let cmd = Command {
        intent: Intent::Copy,
        args: CommandArgs {
            source: Some("nonexistent.txt".to_string()),
            destination: Some("dest.txt".to_string()),
            path: None,
            flags: vec![],
            extra: vec![],
        },
        syntax_used: SyntaxStyle::Terse,
    };

    let action = execute_builtin(cmd).unwrap();
    let kind = if std::path::Path::new("nonexistent.txt").exists() {
        PathKind::File
    } else {
        PathKind::Missing
    };
    let result = check_action(&action, kind);
    assert!(result.is_err());
}

#[test]
fn path_without_tilde_is_left_alone() {
    assert_eq!(expand_tilde("/tmp/x"), "/tmp/x");
    assert_eq!(expand_tilde("a/~/b"), "a/~/b");
    assert_eq!(expand_tilde(""), "");
}

#[test]
fn tilde_path_keeps_what_follows_the_tilde() {
    let expanded = expand_tilde("~/docs");
    assert!(expanded.ends_with("/docs"));
}
