//! Tokenization, command lookup, dispatch and the command handlers.

use tey_sh::commands::clear::Clear;
use tey_sh::commands::rm::Rm;
use tey_sh::commands::{Cmd, CommandManager, DispatchAction};
use tey_sh::paint::PaintOp;
use tey_sh::text::{tokenize, trim};

#[test]
fn tokenize_discards_whitespace_runs() {
    let tokens = tokenize("  cmd   a  b ");
    assert_eq!(tokens, vec!["cmd", "a", "b"]);
}

#[test]
fn tokenize_of_blank_input_is_empty() {
    assert!(tokenize("").is_empty());
    assert!(tokenize("   \t ").is_empty());
}

#[test]
fn trim_strips_both_ends() {
    assert_eq!(trim("  hello world  "), "hello world");
    assert_eq!(trim("x"), "x");
    assert_eq!(trim("   "), "");
    assert_eq!(trim(""), "");
}

#[test]
fn command_names_resolve() {
    assert_eq!(Cmd::from_name("tey.sh"), Cmd::TeySh);
    assert_eq!(Cmd::from_name("clear"), Cmd::Clear);
    assert_eq!(Cmd::from_name("rm"), Cmd::Rm);
    assert_eq!(Cmd::from_name("bogus"), Cmd::Unknown);
    assert_eq!(Cmd::TeySh.name(), "tey.sh");
    assert_eq!(Cmd::Clear.name(), "clear");
    assert_eq!(Cmd::Rm.name(), "rm");
}

#[test]
fn dispatching_a_known_name_hands_over_all_tokens() {
    let m = CommandManager::new();
    let outcome = m.execute("tey.sh --help");
    assert_eq!(outcome.action, DispatchAction::Run(Cmd::TeySh));
    assert_eq!(outcome.tokens, vec!["tey.sh", "--help"]);
    assert!(outcome.ops.is_empty());
}

#[test]
fn dispatching_an_unknown_name_reports_exactly_once() {
    let m = CommandManager::new();
    let outcome = m.execute("frobnicate now");
    assert_eq!(outcome.action, DispatchAction::NotFound);
    assert_eq!(outcome.ops.len(), 1);
    assert_eq!(
        outcome.ops[0],
        PaintOp::Write(
            "frobnicate: command not found. Type tey.sh --help to see available commands\n"
                .to_string()
        )
    );
}

#[test]
fn clear_wipes_the_screen() {
    let (ops, switch) = Clear.execute(&vec!["clear".to_string()]);
    assert_eq!(ops, vec![PaintOp::ClearScreen]);
    assert!(!switch);
}

#[test]
fn rm_refuses_ordinary_invocations() {
    let cases: Vec<Vec<&str>> = vec![
        vec!["rm"],
        vec!["rm", "file.txt"],
        vec!["rm", "-rf", "home"],
        vec!["rm", "/", "x"],
        vec!["rm", "-rf", "/", "extra"],
    ];
    for case in cases {
        let tokens: Vec<String> = case.iter().map(|t| t.to_string()).collect();
        let (ops, doomed) = Rm.execute(&tokens, 10, 5);
        assert!(!doomed, "{:?} must not hit the doom condition", tokens);
        assert_eq!(
            ops,
            vec![PaintOp::Write(
                "cannot remove: No such file or directory\n".to_string()
            )]
        );
    }
}

#[test]
fn rm_force_on_root_fills_the_screen_with_noise() {
    for flag in ["-rf", "-fr"] {
        let tokens: Vec<String> = vec!["rm", flag, "/"].iter().map(|t| t.to_string()).collect();
        let (ops, doomed) = Rm.execute(&tokens, 12, 7);
        assert!(doomed);
        assert_eq!(ops.len(), 2);
        assert_eq!(ops[0], PaintOp::ClearScreen);
        match &ops[1] {
            PaintOp::Write(noise) => {
                assert_eq!(noise.chars().count(), 12 * 7);
                for c in noise.chars() {
                    let u = c as u32;
                    assert!((0x20..0x7F).contains(&u), "byte {:#x} out of range", u);
                }
            }
            other => panic!("expected a Write of noise, got {:?}", other),
        }
    }
}

#[test]
fn rm_argument_order_does_not_matter() {
    let tokens: Vec<String> = vec!["rm", "/", "-fr"].iter().map(|t| t.to_string()).collect();
    let (_, doomed) = Rm.execute(&tokens, 3, 3);
    assert!(doomed);
}
