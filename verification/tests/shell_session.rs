//! End-to-end key-event scenarios through the shell session.

use tey_sh::commands::Cmd;
use tey_sh::paint::PaintOp;
use tey_sh::session::{Cli, ConfigError, KeyEvent, KeyModifiers};

fn session(prefix: usize, cols: usize) -> Cli {
    let mut cli = Cli::new(prefix, cols).expect("valid configuration");
    cli.start_line();
    cli
}

fn type_str(cli: &mut Cli, s: &str) {
    for c in s.chars() {
        cli.handle_event(KeyEvent::Char(c, KeyModifiers::Plain));
    }
}

#[test]
fn construction_rejects_narrow_terminals() {
    assert!(matches!(Cli::new(5, 3), Err(ConfigError::PromptTooWide)));
    assert!(matches!(Cli::new(5, 0), Err(ConfigError::NoColumns)));
    assert!(Cli::new(5, 5).is_ok());
}

#[test]
fn typing_then_up_with_empty_history_leaves_the_buffer_alone() {
    // Terminal width 20, prompt width 5, 19 typed characters.
    let mut cli = session(5, 20);
    type_str(&mut cli, "hello world foo bar");
    assert_eq!(cli.get_buffer(), "hello world foo bar");
    let outcome = cli.handle_event(KeyEvent::Up);
    assert!(outcome.ops.is_empty());
    assert_eq!(cli.get_buffer(), "hello world foo bar");
}

#[test]
fn enter_clears_pushes_and_up_recalls_verbatim() {
    let mut cli = session(5, 20);
    type_str(&mut cli, "hello world foo bar");
    let outcome = cli.handle_event(KeyEvent::Enter);
    assert!(!outcome.exit);
    assert_eq!(cli.get_buffer(), "");
    // The line names no known command: exactly one report follows the
    // four end-of-line instructions.
    assert_eq!(outcome.ops.len(), 5);
    assert!(outcome.command.is_none());
    let recall = cli.handle_event(KeyEvent::Up);
    assert!(!recall.ops.is_empty());
    assert_eq!(cli.get_buffer(), "hello world foo bar");
}

#[test]
fn three_submissions_with_a_repeat_store_two_entries() {
    let mut cli = session(5, 20);
    for line in ["a", "b", "b"] {
        type_str(&mut cli, line);
        cli.handle_event(KeyEvent::Enter);
    }
    cli.handle_event(KeyEvent::Up);
    assert_eq!(cli.get_buffer(), "b");
    cli.handle_event(KeyEvent::Up);
    assert_eq!(cli.get_buffer(), "a");
    let top = cli.handle_event(KeyEvent::Up);
    assert!(top.ops.is_empty());
    assert_eq!(cli.get_buffer(), "a");
}

#[test]
fn down_returns_to_the_draft() {
    let mut cli = session(5, 20);
    type_str(&mut cli, "stored");
    cli.handle_event(KeyEvent::Enter);
    type_str(&mut cli, "draft in progress");
    cli.handle_event(KeyEvent::Up);
    assert_eq!(cli.get_buffer(), "stored");
    cli.handle_event(KeyEvent::Down);
    assert_eq!(cli.get_buffer(), "draft in progress");
}

#[test]
fn submitted_lines_are_trimmed_before_dispatch_and_storage() {
    let mut cli = session(5, 40);
    type_str(&mut cli, "  clear  ");
    let outcome = cli.handle_event(KeyEvent::Enter);
    let call = outcome.command.expect("clear is a registered command");
    assert_eq!(call.cmd, Cmd::Clear);
    assert_eq!(call.tokens, vec!["clear"]);
    cli.handle_event(KeyEvent::Up);
    assert_eq!(cli.get_buffer(), "clear");
}

#[test]
fn blank_lines_are_neither_dispatched_nor_stored() {
    let mut cli = session(5, 20);
    type_str(&mut cli, "   ");
    let outcome = cli.handle_event(KeyEvent::Enter);
    assert!(outcome.command.is_none());
    assert_eq!(outcome.ops.len(), 4);
    let up = cli.handle_event(KeyEvent::Up);
    assert!(up.ops.is_empty());
}

#[test]
fn escape_exits_without_touching_state() {
    let mut cli = session(5, 20);
    type_str(&mut cli, "half a line");
    let outcome = cli.handle_event(KeyEvent::Esc);
    assert!(outcome.exit);
    assert!(outcome.ops.is_empty());
    assert_eq!(cli.get_buffer(), "half a line");
}

#[test]
fn control_a_and_e_jump_across_the_line() {
    let mut cli = session(5, 20);
    type_str(&mut cli, "abc");
    cli.handle_event(KeyEvent::Char('a', KeyModifiers::Control));
    cli.handle_event(KeyEvent::Char('x', KeyModifiers::Plain));
    assert_eq!(cli.get_buffer(), "xabc");
    cli.handle_event(KeyEvent::Char('e', KeyModifiers::Control));
    cli.handle_event(KeyEvent::Char('z', KeyModifiers::Plain));
    assert_eq!(cli.get_buffer(), "xabcz");
    // Any other control combination is ignored.
    cli.handle_event(KeyEvent::Char('k', KeyModifiers::Control));
    assert_eq!(cli.get_buffer(), "xabcz");
}

#[test]
fn editing_keys_reach_the_buffer() {
    let mut cli = session(5, 20);
    type_str(&mut cli, "abcd");
    cli.handle_event(KeyEvent::Left);
    cli.handle_event(KeyEvent::Left);
    cli.handle_event(KeyEvent::Backspace);
    assert_eq!(cli.get_buffer(), "acd");
    cli.handle_event(KeyEvent::Delete);
    assert_eq!(cli.get_buffer(), "ad");
    cli.handle_event(KeyEvent::Right);
    cli.handle_event(KeyEvent::Char('!', KeyModifiers::Shift));
    assert_eq!(cli.get_buffer(), "ad!");
}

#[test]
fn tab_is_reserved_and_does_nothing() {
    let mut cli = session(5, 20);
    type_str(&mut cli, "par");
    let outcome = cli.handle_event(KeyEvent::Tab);
    assert!(!outcome.exit);
    assert!(outcome.ops.is_empty());
    assert_eq!(cli.get_buffer(), "par");
}

#[test]
fn dispatch_of_tey_sh_defers_to_the_caller() {
    let mut cli = session(5, 40);
    type_str(&mut cli, "tey.sh tui");
    let outcome = cli.handle_event(KeyEvent::Enter);
    let call = outcome.command.expect("tey.sh is registered");
    assert_eq!(call.cmd, Cmd::TeySh);
    assert_eq!(call.tokens, vec!["tey.sh", "tui"]);
    // The fresh prompt row follows the handler.
    assert!(matches!(outcome.post_ops[0], PaintOp::SavePosition));
}
