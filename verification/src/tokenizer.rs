//! The tokenizer: turns one raw input line into a sequence of word tokens,
//! honouring single quotes, double quotes and backslash escapes.
//!
//! The behaviour is specified as a finite-state machine: `lex_step` gives the
//! transition for one character, `lex_run` folds it over the input, and
//! `tokenize_spec` adds the end-of-input flush of a pending partial token.
//! `tokenize_input` is the executable lexer, proved to match `tokenize_spec`.

use vstd::prelude::*;

use crate::text::push_char;

verus! {

/// The lexer states. `Out` is the initial state (outside any quotes); the
/// two backslash states remember that an escape character was just read.
#[derive(Clone, Copy)]
pub enum TokenizerState {
    Out,
    InSingleQuote,
    InDoubleQuote,
    BackSlashInDoubleQuote,
    BackSlashOutsideQuote,
}

/// The characters that separate tokens outside quotes: exactly the Unicode
/// `White_Space` code points.
pub open spec fn is_space(c: char) -> bool {
    ('\u{9}' <= c && c <= '\u{d}') || c == ' ' || c == '\u{85}' || c == '\u{a0}'
        || c == '\u{1680}' || ('\u{2000}' <= c && c <= '\u{200a}') || c == '\u{2028}'
        || c == '\u{2029}' || c == '\u{202f}' || c == '\u{205f}' || c == '\u{3000}'
}

/// Executable whitespace test, equal to `is_space`.
pub fn is_whitespace_char(c: char) -> (r: bool)
    ensures
        r == is_space(c),
{
    ('\u{9}' <= c && c <= '\u{d}') || c == ' ' || c == '\u{85}' || c == '\u{a0}'
        || c == '\u{1680}' || ('\u{2000}' <= c && c <= '\u{200a}') || c == '\u{2028}'
        || c == '\u{2029}' || c == '\u{202f}' || c == '\u{205f}' || c == '\u{3000}'
}

/// The escape characters that a backslash protects inside double quotes;
/// before any other character the backslash itself is kept.
pub open spec fn is_dquote_escapable(c: char) -> bool {
    c == '$' || c == '`' || c == '\\' || c == '"' || c == '\n'
}

/// Executable test for `is_dquote_escapable`.
pub fn is_dquote_escapable_char(c: char) -> (r: bool)
    ensures
        r == is_dquote_escapable(c),
{
    c == '$' || c == '`' || c == '\\' || c == '"' || c == '\n'
}

/// The full configuration of the lexer: its state, the characters of the
/// token being built, and the tokens already emitted.
pub ghost struct LexState {
    pub st: TokenizerState,
    pub cur: Seq<char>,
    pub toks: Seq<Seq<char>>,
}

/// The configuration before any input is read.
pub open spec fn lex_init() -> LexState {
    LexState { st: TokenizerState::Out, cur: Seq::empty(), toks: Seq::empty() }
}

/// One transition of the lexer on character `c`.
pub open spec fn lex_step(l: LexState, c: char) -> LexState {
    match l.st {
        TokenizerState::Out => {
            if c == '"' {
                LexState { st: TokenizerState::InDoubleQuote, ..l }
            } else if c == '\'' {
                LexState { st: TokenizerState::InSingleQuote, ..l }
            } else if is_space(c) {
                if l.cur.len() > 0 {
                    LexState { st: TokenizerState::Out, cur: Seq::empty(), toks: l.toks.push(l.cur) }
                } else {
                    l
                }
            } else if c == '\\' {
                LexState { st: TokenizerState::BackSlashOutsideQuote, ..l }
            } else {
                LexState { cur: l.cur.push(c), ..l }
            }
        },
        TokenizerState::InSingleQuote => {
            if c == '\'' {
                LexState { st: TokenizerState::Out, ..l }
            } else {
                LexState { cur: l.cur.push(c), ..l }
            }
        },
        TokenizerState::InDoubleQuote => {
            if c == '"' {
                LexState { st: TokenizerState::Out, ..l }
            } else if c == '\\' {
                LexState { st: TokenizerState::BackSlashInDoubleQuote, ..l }
            } else {
                LexState { cur: l.cur.push(c), ..l }
            }
        },
        TokenizerState::BackSlashInDoubleQuote => {
            if is_dquote_escapable(c) {
                LexState { st: TokenizerState::InDoubleQuote, cur: l.cur.push(c), ..l }
            } else {
                LexState {
                    st: TokenizerState::InDoubleQuote,
                    cur: l.cur.push('\\').push(c),
                    ..l
                }
            }
        },
        TokenizerState::BackSlashOutsideQuote => {
            LexState { st: TokenizerState::Out, cur: l.cur.push(c), ..l }
        },
    }
}

/// The lexer configuration after reading all of `s`.
pub open spec fn lex_run(s: Seq<char>) -> LexState
    decreases s.len(),
{
    if s.len() == 0 {
        lex_init()
    } else {
        lex_step(lex_run(s.drop_last()), s.last())
    }
}

/// The tokens of a whole input line: run the lexer, then flush a non-empty
/// pending token. An unterminated quote is not an error: the input simply
/// ends and whatever was accumulated becomes the final token.
pub open spec fn tokenize_spec(s: Seq<char>) -> Seq<Seq<char>> {
    let l = lex_run(s);
    if l.cur.len() > 0 {
        l.toks.push(l.cur)
    } else {
        l.toks
    }
}

/// Splits an input line into word tokens. Whitespace separates tokens only
/// outside quotes; quotes and escape backslashes are consumed, the characters
/// they protect are kept verbatim. Never fails: malformed quoting is read
/// through to the end of the input.
pub fn tokenize_input(input: &str) -> (tokens: Vec<String>)
    ensures
        tokens.deep_view() == tokenize_spec(input@),
{
    let n = input.unicode_len();
    let mut tokens: Vec<String> = Vec::new();
    let mut current_token = String::new();
    let mut state = TokenizerState::Out;
    proof {
        assert(tokens.deep_view() =~= Seq::<Seq<char>>::empty());
    }

    for i in 0..n
        invariant
            n == input@.len(),
            lex_run(input@.take(i as int)) == (LexState {
                st: state,
                cur: current_token@,
                toks: tokens.deep_view(),
            }),
    {
        let c = input.get_char(i);
        proof {
            assert(input@.take(i + 1).drop_last() =~= input@.take(i as int));
            assert(input@.take(i + 1).last() == c);
        }
        let ghost pre = lex_run(input@.take(i as int));
        let ghost post = lex_step(pre, c);
        match state {
            TokenizerState::Out => {
                if c == '"' {
                    state = TokenizerState::InDoubleQuote;
                } else if c == '\'' {
                    state = TokenizerState::InSingleQuote;
                } else if is_whitespace_char(c) {
                    if !current_token.as_str().is_empty() {
                        tokens.push(current_token);
                        current_token = String::new();
                        proof {
                            assert(tokens.deep_view() =~= pre.toks.push(pre.cur));
                        }
                    }
                } else if c == '\\' {
                    state = TokenizerState::BackSlashOutsideQuote;
                } else {
                    push_char(&mut current_token, c);
                }
            },
            TokenizerState::InSingleQuote => {
                if c == '\'' {
                    state = TokenizerState::Out;
                } else {
                    push_char(&mut current_token, c);
                }
            },
            TokenizerState::InDoubleQuote => {
                if c == '"' {
                    state = TokenizerState::Out;
                } else if c == '\\' {
                    state = TokenizerState::BackSlashInDoubleQuote;
                } else {
                    push_char(&mut current_token, c);
                }
            },
            TokenizerState::BackSlashInDoubleQuote => {
                if is_dquote_escapable_char(c) {
                    push_char(&mut current_token, c);
                } else {
                    push_char(&mut current_token, '\\');
                    push_char(&mut current_token, c);
                }
                state = TokenizerState::InDoubleQuote;
            },
            TokenizerState::BackSlashOutsideQuote => {
                push_char(&mut current_token, c);
                state = TokenizerState::Out;
            },
        }
        proof {
            assert(lex_run(input@.take(i + 1)) == post);
        }
    }
    proof {
        assert(input@.take(n as int) =~= input@);
    }
    if !current_token.as_str().is_empty() {
        tokens.push(current_token);
        proof {
            assert(tokens.deep_view() =~= tokenize_spec(input@));
        }
    }
    tokens
}

} // verus!
