use shell_core::parser::new_token_parser;
use shell_core::parser::SyntaxError;
use shell_core::redirect::RedirectMode;

fn toks(words: &[&str]) -> Vec<String> {
    words.iter().map(|w| w.to_string()).collect()
}

#[test]
fn truncate_redirection_for_descriptor_one() {
    let pc = new_token_parser(toks(&["echo", "hi", ">", "out.txt"])).unwrap();
    assert_eq!(pc.argv, vec!["echo".to_string(), "hi".to_string()]);
    let out = pc.redirects.out.unwrap();
    assert_eq!(out.fd, 1);
    assert_eq!(out.mode, RedirectMode::Truncate);
    assert_eq!(out.path, "out.txt".to_string());
    assert!(pc.redirects.err.is_none());
}

#[test]
fn trailing_operator_is_a_syntax_error() {
    let r = new_token_parser(toks(&["echo", "hi", ">"]));
    assert_eq!(r.unwrap_err(), SyntaxError::RedirectionMissingTarget);
}

#[test]
fn two_independent_redirections_in_one_command() {
    let pc = new_token_parser(toks(&["cmd", "2>>", "err.log", "1>", "out.log"])).unwrap();
    assert_eq!(pc.argv, vec!["cmd".to_string()]);
    let out = pc.redirects.out.unwrap();
    assert_eq!(out.fd, 1);
    assert_eq!(out.mode, RedirectMode::Truncate);
    assert_eq!(out.path, "out.log".to_string());
    let err = pc.redirects.err.unwrap();
    assert_eq!(err.fd, 2);
    assert_eq!(err.mode, RedirectMode::Append);
    assert_eq!(err.path, "err.log".to_string());
}

#[test]
fn later_redirection_for_same_descriptor_wins() {
    let pc = new_token_parser(toks(&["cmd", ">", "first", ">>", "second"])).unwrap();
    assert_eq!(pc.argv, vec!["cmd".to_string()]);
    let out = pc.redirects.out.unwrap();
    assert_eq!(out.mode, RedirectMode::Append);
    assert_eq!(out.path, "second".to_string());
}

#[test]
fn operator_spellings_for_descriptor_one_are_equivalent() {
    for op in [">", "1>"] {
        let pc = new_token_parser(toks(&["c", op, "f"])).unwrap();
        let out = pc.redirects.out.unwrap();
        assert_eq!(out.fd, 1);
        assert_eq!(out.mode, RedirectMode::Truncate);
    }
    for op in [">>", "1>>"] {
        let pc = new_token_parser(toks(&["c", op, "f"])).unwrap();
        let out = pc.redirects.out.unwrap();
        assert_eq!(out.fd, 1);
        assert_eq!(out.mode, RedirectMode::Append);
    }
}

#[test]
fn descriptor_two_truncate_redirection() {
    let pc = new_token_parser(toks(&["c", "2>", "e"])).unwrap();
    let err = pc.redirects.err.unwrap();
    assert_eq!(err.fd, 2);
    assert_eq!(err.mode, RedirectMode::Truncate);
    assert_eq!(err.path, "e".to_string());
    assert!(pc.redirects.out.is_none());
}

#[test]
fn operator_followed_by_operator_leaves_redirection_dangling() {
    let r = new_token_parser(toks(&[">", ">"]));
    assert_eq!(r.unwrap_err(), SyntaxError::RedirectionMissingTarget);
}

#[test]
fn unrecognized_tokens_are_ordinary_arguments() {
    let pc = new_token_parser(toks(&["ls", "-l", "3>", "x"])).unwrap();
    // "3>" is not a redirection operator of this grammar
    assert_eq!(
        pc.argv,
        vec!["ls".to_string(), "-l".to_string(), "3>".to_string(), "x".to_string()]
    );
    assert!(pc.redirects.out.is_none());
    assert!(pc.redirects.err.is_none());
}

#[test]
fn syntax_error_message_text() {
    let e = new_token_parser(toks(&["cmd", "2>>"])).unwrap_err();
    assert_eq!(e.message(), "syntax error: redirection without file".to_string());
}

#[test]
fn redirection_only_line_has_no_command_name() {
    let r = new_token_parser(toks(&[">", "f"]));
    assert_eq!(r.unwrap_err(), SyntaxError::MissingCommand);
}

#[test]
fn several_redirections_without_command_are_still_rejected() {
    let r = new_token_parser(toks(&["2>", "e", "1>>", "o"]));
    assert_eq!(r.unwrap_err(), SyntaxError::MissingCommand);
}

#[test]
fn dangling_operator_is_reported_before_missing_command() {
    let r = new_token_parser(toks(&[">", "f", "2>"]));
    assert_eq!(r.unwrap_err(), SyntaxError::RedirectionMissingTarget);
}

#[test]
fn missing_command_message_text() {
    let e = new_token_parser(toks(&[">", "f"])).unwrap_err();
    assert_eq!(e.message(), "syntax error: missing command name".to_string());
}

#[test]
fn no_tokens_give_empty_command() {
    let pc = new_token_parser(Vec::new()).unwrap();
    assert!(pc.argv.is_empty());
    assert!(pc.redirects.out.is_none());
    assert!(pc.redirects.err.is_none());
}
