use playferrous::ui::{CommandInterpretation, Ui};

#[test]
fn unknown_command_echo() {
    // An authenticated user with no active session types "foo".
    let ui = Ui::instance();
    match ui.interpret_command("foo") {
        CommandInterpretation::Response { prompt } => {
            assert_eq!(prompt, "Unrecognised command. Use `help` for more information.\n");
        }
        _ => panic!("expected the unrecognised-command response"),
    }
}

#[test]
fn propose_parses_into_an_action() {
    let ui = Ui::instance();
    match ui.interpret_command("propose rock-paper-scissors") {
        CommandInterpretation::Action { command, args } => {
            assert_eq!(command, "propose");
            assert_eq!(args, vec!["rock-paper-scissors".to_string()]);
        }
        _ => panic!("expected an action"),
    }
}

#[test]
fn blank_line_is_a_noop() {
    let ui = Ui::instance();
    assert!(matches!(ui.interpret_command(""), CommandInterpretation::Noop));
    assert!(matches!(ui.interpret_command("   \t "), CommandInterpretation::Noop));
}

#[test]
fn commands_ignore_ascii_case() {
    let ui = Ui::instance();
    match ui.interpret_command("PROPOSE chess") {
        CommandInterpretation::Action { command, args } => {
            assert_eq!(command, "propose");
            assert_eq!(args, vec!["chess".to_string()]);
        }
        _ => panic!("expected an action"),
    }
}

#[test]
fn extra_whitespace_is_ignored() {
    let ui = Ui::instance();
    match ui.interpret_command("  enter   s5  ") {
        CommandInterpretation::Action { command, args } => {
            assert_eq!(command, "enter");
            assert_eq!(args, vec!["s5".to_string()]);
        }
        _ => panic!("expected an action"),
    }
}

#[test]
fn help_renders_the_overview() {
    let ui = Ui::instance();
    match ui.interpret_command("help") {
        CommandInterpretation::Response { prompt } => {
            assert!(prompt.starts_with("Available commands:\n"));
            assert!(prompt.contains("    propose <game-type>\n"));
            assert!(prompt.contains("    enter <session-id>\n"));
            assert!(prompt.contains("    exit \n"));
        }
        _ => panic!("expected a response"),
    }
}

#[test]
fn help_renders_one_command() {
    let ui = Ui::instance();
    match ui.interpret_command("help propose") {
        CommandInterpretation::Response { prompt } => {
            assert!(prompt.starts_with("propose <game-type>\n\n"));
            assert!(prompt.contains("Proposes a new game"));
        }
        _ => panic!("expected a response"),
    }
}

#[test]
fn help_rejects_an_unknown_command() {
    let ui = Ui::instance();
    match ui.interpret_command("help frobnicate") {
        CommandInterpretation::Response { prompt } => {
            assert_eq!(prompt, "Unrecognised command frobnicate\n");
        }
        _ => panic!("expected a response"),
    }
}

#[test]
fn help_rejects_a_subcommand() {
    let ui = Ui::instance();
    match ui.interpret_command("help propose extra") {
        CommandInterpretation::Response { prompt } => {
            assert_eq!(prompt, "Unrecognised subcommand extra\n");
        }
        _ => panic!("expected a response"),
    }
}
