use shell_core::tokenizer::tokenize_input;

#[test]
fn splits_on_unquoted_whitespace_keeps_quoted_space() {
    let toks = tokenize_input("a \"b c\" d");
    assert_eq!(toks, vec!["a".to_string(), "b c".to_string(), "d".to_string()]);
}

#[test]
fn single_quotes_take_backslash_literally() {
    let toks = tokenize_input("'a\\nb'");
    assert_eq!(toks, vec!["a\\nb".to_string()]);
}

#[test]
fn double_quote_escape_of_dollar_is_honored() {
    let toks = tokenize_input("\"a\\$b\"");
    assert_eq!(toks, vec!["a$b".to_string()]);
}

#[test]
fn double_quote_unrecognized_escape_keeps_backslash() {
    let toks = tokenize_input("\"a\\qb\"");
    assert_eq!(toks, vec!["a\\qb".to_string()]);
}

#[test]
fn empty_input_yields_no_tokens() {
    let toks = tokenize_input("");
    assert_eq!(toks, Vec::<String>::new());
}

#[test]
fn whitespace_only_input_yields_no_tokens() {
    let toks = tokenize_input("  \t  ");
    assert_eq!(toks, Vec::<String>::new());
}

#[test]
fn repeated_separators_make_no_empty_tokens() {
    let toks = tokenize_input("a   b\t\tc");
    assert_eq!(toks, vec!["a".to_string(), "b".to_string(), "c".to_string()]);
}

#[test]
fn escaped_space_outside_quotes_joins_words() {
    let toks = tokenize_input("a\\ b c");
    assert_eq!(toks, vec!["a b".to_string(), "c".to_string()]);
}

#[test]
fn backslash_outside_quotes_keeps_next_char() {
    let toks = tokenize_input("\\'x");
    assert_eq!(toks, vec!["'x".to_string()]);
}

#[test]
fn adjacent_quoted_pieces_form_one_token() {
    let toks = tokenize_input("a'b'\"c\"d");
    assert_eq!(toks, vec!["abcd".to_string()]);
}

#[test]
fn unterminated_quote_reads_to_end_of_input() {
    let toks = tokenize_input("\"abc def");
    assert_eq!(toks, vec!["abc def".to_string()]);
}

#[test]
fn double_quote_escape_of_backslash_and_quote() {
    let toks = tokenize_input("\"a\\\\b\\\"c\"");
    assert_eq!(toks, vec!["a\\b\"c".to_string()]);
}

#[test]
fn single_quotes_preserve_double_quotes() {
    let toks = tokenize_input("'a\"b'");
    assert_eq!(toks, vec!["a\"b".to_string()]);
}
