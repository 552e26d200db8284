use vsh::repl::{
    prompt_for, prompt_text, repl_action, repl_step, suggestion_for, ReplAction, ReplEvent, ReplStep,
};
use vsh::text::{has_prefix, trim};

#[test]
fn loop_answers_its_own_words() {
    assert_eq!(repl_action(""), ReplAction::Skip);
    assert_eq!(repl_action("exit"), ReplAction::Quit);
    assert_eq!(repl_action("quit"), ReplAction::Quit);
    assert_eq!(repl_action("help"), ReplAction::Help);
    assert_eq!(repl_action("pwd"), ReplAction::PrintWorkingDirectory);
}

#[test]
fn any_other_line_is_a_command() {
    assert_eq!(repl_action("ls"), ReplAction::Run);
    assert_eq!(repl_action("EXIT"), ReplAction::Run);
    assert_eq!(repl_action("exit now"), ReplAction::Run);
    assert_eq!(repl_action(" "), ReplAction::Run);
    assert_eq!(repl_action(trim("  quit\t\n")), ReplAction::Quit);
    assert_eq!(repl_action(trim(" \t ")), ReplAction::Skip);
}

#[test]
fn terse_lines_get_a_verbose_suggestion() {
    assert_eq!(suggestion_for("cp a"), Some("Try: copy <source> to <dest>"));
    assert_eq!(suggestion_for("ls"), Some("Try: list [path]"));
    assert_eq!(suggestion_for("lsx -l"), Some("Try: list [path]"));
    assert_eq!(suggestion_for("mv a"), Some("Try: move <source> to <dest>"));
    assert_eq!(suggestion_for("rm "), Some("Try: remove <file>"));
}

#[test]
fn other_lines_get_no_suggestion() {
    assert_eq!(suggestion_for("cp"), None);
    assert_eq!(suggestion_for("rm"), None);
    assert_eq!(suggestion_for("copy a"), None);
    assert_eq!(suggestion_for(" ls"), None);
    assert_eq!(suggestion_for(""), None);
}

#[test]
fn trim_takes_white_space_from_both_ends() {
    assert_eq!(trim("  a b \t\r\n"), "a b");
    assert_eq!(trim("a"), "a");
    assert_eq!(trim(""), "");
    assert_eq!(trim(" \n "), "");
    assert_eq!(trim("\u{a0}\u{3000}x y\u{2003}"), "x y");
    assert_eq!(trim(" \u{e9} "), "\u{e9}");
    for s in ["", " ", "  a b \t", "\u{2028}k\u{85}", "a  ", "  a"] {
        assert_eq!(trim(s), s.trim());
    }
}

#[test]
fn prefix_is_compared_by_characters() {
    assert!(has_prefix("cp a", "cp "));
    assert!(has_prefix("cp", ""));
    assert!(has_prefix("", ""));
    assert!(!has_prefix("cp", "cp "));
    assert!(!has_prefix("xcp ", "cp "));
    assert!(has_prefix("\u{e9}t\u{e9}", "\u{e9}t"));
}

#[test]
fn lines_are_acted_on_without_the_white_space_around_them() {
    let step = |line: &str| repl_step(&ReplEvent::Line(line.to_string()));
    assert_eq!(step(""), ReplStep::Act(ReplAction::Skip));
    assert_eq!(step("  \t"), ReplStep::Act(ReplAction::Skip));
    assert_eq!(step(" exit \n"), ReplStep::Act(ReplAction::Quit));
    assert_eq!(step("quit"), ReplStep::Act(ReplAction::Quit));
    assert_eq!(step("\thelp"), ReplStep::Act(ReplAction::Help));
    assert_eq!(step("pwd "), ReplStep::Act(ReplAction::PrintWorkingDirectory));
    assert_eq!(step(" cp a b "), ReplStep::Act(ReplAction::Run));
}

#[test]
fn loop_ends_with_the_input_and_on_failure() {
    assert_eq!(repl_step(&ReplEvent::Interrupted), ReplStep::Interrupt);
    assert_eq!(repl_step(&ReplEvent::EndOfInput), ReplStep::Leave);
    assert_eq!(repl_step(&ReplEvent::Failed), ReplStep::Abort);
}

#[test]
fn prompt_names_user_host_and_directory() {
    assert_eq!(prompt_text("alice", Some("box"), "~/src"), "alice@box:~/src$");
    assert_eq!(prompt_text("alice", None, "/"), "alice@localhost:/$");
    assert_eq!(prompt_text("", Some(""), ""), "@:$");
}

#[test]
fn prompt_of_this_machine_ends_with_the_directory() {
    let prompt = prompt_for("~/src");
    assert!(prompt.ends_with(":~/src$"));
    assert!(prompt.contains('@'));
}
