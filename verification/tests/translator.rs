use vsh::error::VshError;
use vsh::parser::tokenizer::Token;
use vsh::parser::translator::{
    extract_args, extract_named_args, extract_terse_args, extract_verbose_args, requires_path,
    requires_source, validate_args,
};
use vsh::parser::{CommandArgs, Intent, SyntaxStyle};

fn make_token(s: &str) -> Token {
    Token {
        value: s.to_string(),
        is_quoted: false,
    }
}

fn make_tokens(words: &[&str]) -> Vec<Token> {
    let mut out = Vec::new();
    for w in words {
        out.push(make_token(w));
    }
    out
}

fn invalid_syntax_of(r: Result<CommandArgs, VshError>) -> String {
    match r {
        Err(VshError::InvalidSyntax(m)) => m,
        other => panic!("unexpected outcome: {:?}", other),
    }
}

#[test]
fn test_extract_terse_copy() {
    let tokens = vec![
        make_token("cp"),
        make_token("file.txt"),
        make_token("backup/"),
    ];
    let args = extract_terse_args(&tokens, &Intent::Copy).unwrap();
    assert_eq!(args.source, Some("file.txt".to_string()));
    assert_eq!(args.destination, Some("backup/".to_string()));
}

#[test]
fn test_extract_verbose_copy() {
    let tokens = vec![
        make_token("copy"),
        make_token("file.txt"),
        make_token("to"),
        make_token("backup/"),
    ];
    let args = extract_verbose_args(&tokens, &Intent::Copy).unwrap();
    assert_eq!(args.source, Some("file.txt".to_string()));
    assert_eq!(args.destination, Some("backup/".to_string()));
}

#[test]
fn test_extract_named_copy() {
    let tokens = vec![
        make_token("copy"),
        make_token("source=file.txt"),
        make_token("destination=backup/"),
    ];
    let args = extract_named_args(&tokens, &Intent::Copy).unwrap();
    assert_eq!(args.source, Some("file.txt".to_string()));
    assert_eq!(args.destination, Some("backup/".to_string()));
}

#[test]
fn new_arguments_are_empty() {
    let args = CommandArgs::new();
    assert_eq!(args.source, None);
    assert_eq!(args.destination, None);
    assert_eq!(args.path, None);
    assert!(args.flags.is_empty());
    assert!(args.extra.is_empty());
    let args = CommandArgs::default();
    assert_eq!(args.source, None);
    assert!(args.extra.is_empty());
}

#[test]
fn terse_copy_sorts_the_rest_into_flags_and_leftovers() {
    let tokens = make_tokens(&["cp", "a", "b", "-r", "c", "--force", "d", "-"]);
    let args = extract_terse_args(&tokens, &Intent::Copy).unwrap();
    assert_eq!(args.source, Some("a".to_string()));
    assert_eq!(args.destination, Some("b".to_string()));
    assert_eq!(args.path, None);
    assert_eq!(args.flags, vec!["-r", "--force", "-"]);
    assert_eq!(args.extra, vec!["c", "d"]);
}

#[test]
fn terse_copy_and_move_need_two_tokens() {
    for intent in [Intent::Copy, Intent::Move] {
        for words in [&["cp"][..], &["cp", "a"][..], &[][..]] {
            let m = invalid_syntax_of(extract_terse_args(&make_tokens(words), &intent));
            assert_eq!(m, "Expected: <command> <source> <destination>");
        }
    }
}

#[test]
fn terse_remove_takes_a_source() {
    let tokens = make_tokens(&["rm", "a", "-f", "b"]);
    let args = extract_terse_args(&tokens, &Intent::Remove).unwrap();
    assert_eq!(args.source, Some("a".to_string()));
    assert_eq!(args.destination, None);
    assert_eq!(args.flags, vec!["-f"]);
    assert_eq!(args.extra, vec!["b"]);
    let m = invalid_syntax_of(extract_terse_args(&make_tokens(&["rm"]), &Intent::Remove));
    assert_eq!(m, "Expected: <command> <file>");
}

#[test]
fn terse_list_defaults_to_the_current_directory() {
    for intent in [Intent::List, Intent::ChangeDirectory] {
        let args = extract_terse_args(&make_tokens(&["ls"]), &intent).unwrap();
        assert_eq!(args.path, Some(".".to_string()));
        assert!(args.flags.is_empty());
        assert!(args.extra.is_empty());
        let args = extract_terse_args(&make_tokens(&["ls", "/tmp", "-l", "x"]), &intent).unwrap();
        assert_eq!(args.path, Some("/tmp".to_string()));
        assert_eq!(args.flags, vec!["-l"]);
        assert_eq!(args.extra, vec!["x"]);
        let args = extract_terse_args(&make_tokens(&[]), &intent).unwrap();
        assert_eq!(args.path, Some(".".to_string()));
    }
}

#[test]
fn terse_list_takes_a_flag_in_first_place_as_the_path() {
    let args = extract_terse_args(&make_tokens(&["ls", "-l"]), &Intent::List).unwrap();
    assert_eq!(args.path, Some("-l".to_string()));
    assert!(args.flags.is_empty());
}

#[test]
fn verbose_connectors_place_the_token_after_them() {
    let tokens = make_tokens(&["copy", "from", "a", "into", "b", "in", "c", "d", "e"]);
    let args = extract_verbose_args(&tokens, &Intent::Copy).unwrap();
    assert_eq!(args.source, Some("a".to_string()));
    assert_eq!(args.destination, Some("b".to_string()));
    assert_eq!(args.path, Some("c".to_string()));
    assert_eq!(args.extra, vec!["d", "e"]);
    assert!(args.flags.is_empty());
}

#[test]
fn verbose_from_overrides_an_earlier_source() {
    let tokens = make_tokens(&["move", "x", "from", "a", "to", "b", "y"]);
    let args = extract_verbose_args(&tokens, &Intent::Move).unwrap();
    assert_eq!(args.source, Some("a".to_string()));
    assert_eq!(args.destination, Some("b".to_string()));
    assert_eq!(args.extra, vec!["y"]);
}

#[test]
fn verbose_connector_takes_a_connector_as_its_argument() {
    let tokens = make_tokens(&["copy", "a", "to", "to"]);
    let args = extract_verbose_args(&tokens, &Intent::Copy).unwrap();
    assert_eq!(args.source, Some("a".to_string()));
    assert_eq!(args.destination, Some("to".to_string()));
}

#[test]
fn verbose_connector_without_argument_is_rejected() {
    let m = invalid_syntax_of(extract_verbose_args(&make_tokens(&["copy", "a", "to"]), &Intent::Copy));
    assert_eq!(m, "Expected destination after 'to'");
    let m = invalid_syntax_of(extract_verbose_args(&make_tokens(&["copy", "a", "into"]), &Intent::Copy));
    assert_eq!(m, "Expected destination after 'to'");
    let m = invalid_syntax_of(extract_verbose_args(&make_tokens(&["copy", "from"]), &Intent::Copy));
    assert_eq!(m, "Expected source after 'from'");
    let m = invalid_syntax_of(extract_verbose_args(&make_tokens(&["list", "in"]), &Intent::List));
    assert_eq!(m, "Expected path after 'in'");
    let m = invalid_syntax_of(extract_verbose_args(&make_tokens(&["list", "at"]), &Intent::List));
    assert_eq!(m, "Expected path after 'in'");
}

#[test]
fn verbose_list_takes_the_first_free_token_as_path() {
    let tokens = make_tokens(&["list", "a", "b", "with", "c"]);
    let args = extract_verbose_args(&tokens, &Intent::List).unwrap();
    assert_eq!(args.source, None);
    assert_eq!(args.path, Some("a".to_string()));
    assert_eq!(args.extra, vec!["b", "with", "c"]);
}

#[test]
fn verbose_copy_without_destination_is_rejected() {
    let m = invalid_syntax_of(extract_verbose_args(&make_tokens(&["copy", "a", "with", "b"]), &Intent::Copy));
    assert_eq!(m, "Missing destination");
    let m = invalid_syntax_of(extract_verbose_args(&make_tokens(&["copy", "to", "b"]), &Intent::Copy));
    assert_eq!(m, "Missing source");
    let m = invalid_syntax_of(extract_verbose_args(&make_tokens(&["remove"]), &Intent::Remove));
    assert_eq!(m, "Missing file to remove");
}

#[test]
fn named_keys_have_synonyms() {
    for key in ["source", "src", "from"] {
        let tokens = make_tokens(&["rm", &format!("{}=a", key)]);
        let args = extract_named_args(&tokens, &Intent::Remove).unwrap();
        assert_eq!(args.source, Some("a".to_string()));
    }
    for key in ["destination", "dest", "to", "target"] {
        let tokens = make_tokens(&["cp", "src=a", &format!("{}=b", key)]);
        let args = extract_named_args(&tokens, &Intent::Copy).unwrap();
        assert_eq!(args.destination, Some("b".to_string()));
    }
    for key in ["path", "directory", "dir"] {
        let tokens = make_tokens(&["ls", &format!("{}=/tmp", key)]);
        let args = extract_named_args(&tokens, &Intent::List).unwrap();
        assert_eq!(args.path, Some("/tmp".to_string()));
    }
}

#[test]
fn named_splits_once_at_the_first_equals_sign() {
    let tokens = make_tokens(&["cp", "src=a=b", "dest=", "=x", "Source=y", "plain", "k=v"]);
    let args = extract_named_args(&tokens, &Intent::Copy).unwrap();
    assert_eq!(args.source, Some("a=b".to_string()));
    assert_eq!(args.destination, Some("".to_string()));
    assert_eq!(args.path, None);
    assert_eq!(args.extra, vec!["=x", "Source=y", "plain", "k=v"]);
    assert!(args.flags.is_empty());
}

#[test]
fn named_later_value_replaces_an_earlier_one() {
    let tokens = make_tokens(&["rm", "src=a", "from=b"]);
    let args = extract_named_args(&tokens, &Intent::Remove).unwrap();
    assert_eq!(args.source, Some("b".to_string()));
}

#[test]
fn named_skips_the_command_word() {
    let tokens = make_tokens(&["src=zzz", "src=a", "dest=b"]);
    let args = extract_named_args(&tokens, &Intent::Copy).unwrap();
    assert_eq!(args.source, Some("a".to_string()));
    let m = invalid_syntax_of(extract_named_args(&make_tokens(&["src=zzz"]), &Intent::Remove));
    assert_eq!(m, "Missing file to remove");
}

#[test]
fn named_copy_without_a_field_is_rejected() {
    let m = invalid_syntax_of(extract_named_args(&make_tokens(&["cp", "dest=b"]), &Intent::Copy));
    assert_eq!(m, "Missing source");
    let m = invalid_syntax_of(extract_named_args(&make_tokens(&["mv", "src=a"]), &Intent::Move));
    assert_eq!(m, "Missing destination");
    let args = extract_named_args(&make_tokens(&["ls", "a=b"]), &Intent::List).unwrap();
    assert_eq!(args.path, None);
    assert_eq!(args.extra, vec!["a=b"]);
}

#[test]
fn extract_args_follows_the_grammar() {
    let tokens = make_tokens(&["copy", "a", "to", "b"]);
    let args = extract_args(&tokens, &SyntaxStyle::Verbose, &Intent::Copy).unwrap();
    assert_eq!(args.source, Some("a".to_string()));
    assert_eq!(args.destination, Some("b".to_string()));
    assert!(args.extra.is_empty());
    let args = extract_args(&tokens, &SyntaxStyle::Terse, &Intent::Copy).unwrap();
    assert_eq!(args.source, Some("a".to_string()));
    assert_eq!(args.destination, Some("to".to_string()));
    assert_eq!(args.extra, vec!["b"]);
    let m = invalid_syntax_of(extract_args(&tokens, &SyntaxStyle::Named, &Intent::Copy));
    assert_eq!(m, "Missing source");
}

#[test]
fn validation_names_what_is_missing() {
    let mut args = CommandArgs::new();
    for intent in [Intent::List, Intent::ChangeDirectory] {
        assert!(validate_args(&args, &intent).is_ok());
    }
    match validate_args(&args, &Intent::Remove) {
        Err(VshError::InvalidSyntax(m)) => assert_eq!(m, "Missing file to remove"),
        other => panic!("unexpected outcome: {:?}", other),
    }
    match validate_args(&args, &Intent::Copy) {
        Err(VshError::InvalidSyntax(m)) => assert_eq!(m, "Missing source"),
        other => panic!("unexpected outcome: {:?}", other),
    }
    args.source = Some("a".to_string());
    assert!(validate_args(&args, &Intent::Remove).is_ok());
    match validate_args(&args, &Intent::Move) {
        Err(VshError::InvalidSyntax(m)) => assert_eq!(m, "Missing destination"),
        other => panic!("unexpected outcome: {:?}", other),
    }
    args.destination = Some("b".to_string());
    assert!(validate_args(&args, &Intent::Copy).is_ok());
    assert!(validate_args(&args, &Intent::Move).is_ok());
}

#[test]
fn intents_need_a_source_or_a_path() {
    for intent in [Intent::Copy, Intent::Move, Intent::Remove] {
        assert!(requires_source(&intent));
        assert!(!requires_path(&intent));
    }
    for intent in [Intent::List, Intent::ChangeDirectory] {
        assert!(!requires_source(&intent));
        assert!(requires_path(&intent));
    }
}
