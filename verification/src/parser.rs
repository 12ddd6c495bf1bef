//! The command parser: classifies a token sequence into command arguments
//! and redirection directives.
//!
//! The grammar is flat: a redirection operator token (`>`, `1>`, `>>`, `1>>`,
//! `2>`, `2>>`) makes the next token the destination path for the operator's
//! descriptor; every other token is an ordinary argument. The only syntax
//! error is a trailing operator with no path after it. A later directive for
//! the same descriptor overwrites an earlier one.

use vstd::prelude::*;

use crate::redirect::RedirectMode;
use crate::redirect::Redirection;
use crate::redirect::RedirectionModel;
use crate::redirect::Redirects;
use crate::text::str_eq;

verus! {

/// A successfully parsed command: the argument vector (argument 0 is the
/// command name) and the redirections, at most one per descriptor.
#[derive(Debug)]
pub struct ParsedCommand {
    pub argv: Vec<String>,
    pub redirects: Redirects,
}

/// The ways parsing can fail: the tokens ended while a redirection operator
/// was still waiting for its destination path, or the tokens held only
/// redirection directives and no command name.
#[derive(Clone, Copy, Debug, PartialEq, Eq, Structural)]
pub enum SyntaxError {
    RedirectionMissingTarget,
    MissingCommand,
}

impl SyntaxError {
    /// The diagnostic text for this error.
    pub fn message(&self) -> (m: String)
        ensures
            m@ == match self {
                SyntaxError::RedirectionMissingTarget => "syntax error: redirection without file"@,
                SyntaxError::MissingCommand => "syntax error: missing command name"@,
            },
    {
        match self {
            SyntaxError::RedirectionMissingTarget => {
                "syntax error: redirection without file".to_owned()
            },
            SyntaxError::MissingCommand => "syntax error: missing command name".to_owned(),
        }
    }
}

/// Which redirection operator a token is, if any: the descriptor it names
/// and the write mode. Every other token is an argument or a path.
pub open spec fn classify(t: Seq<char>) -> Option<(u8, RedirectMode)> {
    if t == ">"@ || t == "1>"@ {
        Some((1u8, RedirectMode::Truncate))
    } else if t == ">>"@ || t == "1>>"@ {
        Some((1u8, RedirectMode::Append))
    } else if t == "2>"@ {
        Some((2u8, RedirectMode::Truncate))
    } else if t == "2>>"@ {
        Some((2u8, RedirectMode::Append))
    } else {
        None
    }
}

/// Executable operator classification, equal to `classify`.
pub fn classify_token(t: &str) -> (r: Option<(u8, RedirectMode)>)
    ensures
        r == classify(t@),
{
    if str_eq(t, ">") || str_eq(t, "1>") {
        Some((1u8, RedirectMode::Truncate))
    } else if str_eq(t, ">>") || str_eq(t, "1>>") {
        Some((1u8, RedirectMode::Append))
    } else if str_eq(t, "2>") {
        Some((2u8, RedirectMode::Truncate))
    } else if str_eq(t, "2>>") {
        Some((2u8, RedirectMode::Append))
    } else {
        None
    }
}

/// The parser configuration after some prefix of the tokens: the arguments
/// seen, the operator waiting for its path (if any), and the directive most
/// recently stored for each descriptor.
pub ghost struct ParseState {
    pub argv: Seq<Seq<char>>,
    pub pending: Option<(u8, RedirectMode)>,
    pub out: Option<RedirectionModel>,
    pub err: Option<RedirectionModel>,
}

/// The configuration before any token is read.
pub open spec fn parse_init() -> ParseState {
    ParseState { argv: Seq::empty(), pending: None, out: None, err: None }
}

/// One transition of the parser on token `t`.
pub open spec fn parse_step(p: ParseState, t: Seq<char>) -> ParseState {
    match classify(t) {
        Some(pm) => ParseState { pending: Some(pm), ..p },
        None => match p.pending {
            Some((fd, mode)) => {
                let red = RedirectionModel { fd, mode, path: t };
                if fd == 2 {
                    ParseState { pending: None, err: Some(red), ..p }
                } else {
                    ParseState { pending: None, out: Some(red), ..p }
                }
            },
            None => ParseState { argv: p.argv.push(t), ..p },
        },
    }
}

/// The parser configuration after reading all of `toks`.
pub open spec fn parse_run(toks: Seq<Seq<char>>) -> ParseState
    decreases toks.len(),
{
    if toks.len() == 0 {
        parse_init()
    } else {
        parse_step(parse_run(toks.drop_last()), toks.last())
    }
}

/// The model of an optional redirection directive.
pub open spec fn opt_redirection_view(o: Option<Redirection>) -> Option<RedirectionModel> {
    match o {
        Some(r) => Some(r@),
        None => None,
    }
}

/// Parses the tokens of one command line. Succeeds if and only if no
/// redirection operator is left waiting for its path at the end of the
/// tokens and the tokens were not redirections alone; the result then holds
/// exactly the arguments and, per descriptor, the last directive of the
/// token stream. So a successful parse of a non-empty token sequence always
/// carries a command name: the grammar itself would let a line of only
/// redirections through with an empty argument vector, but no caller could
/// dispatch such a command, and rejecting it here keeps every success
/// dispatchable.
pub fn new_token_parser(tokens: Vec<String>) -> (r: Result<ParsedCommand, SyntaxError>)
    ensures
        ({
            let p = parse_run(tokens.deep_view());
            match r {
                Ok(pc) => p.pending is None && (tokens.deep_view().len() == 0 || p.argv.len() > 0)
                    && pc.argv.deep_view() == p.argv
                    && opt_redirection_view(pc.redirects.out) == p.out
                    && opt_redirection_view(pc.redirects.err) == p.err,
                Err(SyntaxError::RedirectionMissingTarget) => p.pending is Some,
                Err(SyntaxError::MissingCommand) => p.pending is None && p.argv.len() == 0
                    && tokens.deep_view().len() > 0,
            }
        }),
{
    let mut argv: Vec<String> = Vec::new();
    let mut pending: Option<(u8, RedirectMode)> = None;
    let mut redirects = Redirects::empty();
    let n = tokens.len();

    proof {
        assert(argv.deep_view() =~= Seq::<Seq<char>>::empty());
    }
    for i in 0..n
        invariant
            n == tokens.len(),
            parse_run(tokens.deep_view().take(i as int)) == (ParseState {
                argv: argv.deep_view(),
                pending,
                out: opt_redirection_view(redirects.out),
                err: opt_redirection_view(redirects.err),
            }),
    {
        let token = tokens[i].clone();
        proof {
            assert(tokens.deep_view().take(i + 1).drop_last() =~= tokens.deep_view().take(
                i as int,
            ));
            assert(tokens.deep_view().take(i + 1).last() == token@);
        }
        let ghost pre = parse_run(tokens.deep_view().take(i as int));
        match classify_token(token.as_str()) {
            Some(pm) => {
                pending = Some(pm);
            },
            None => {
                match pending {
                    Some((fd, mode)) => {
                        let red = Redirection { fd, mode, path: token };
                        if fd == 2 {
                            redirects.err = Some(red);
                        } else {
                            redirects.out = Some(red);
                        }
                        pending = None;
                    },
                    None => {
                        argv.push(token);
                        proof {
                            assert(argv.deep_view() =~= pre.argv.push(tokens.deep_view()[
                                i as int
                            ]));
                        }
                    },
                }
            },
        }
    }
    proof {
        assert(tokens.deep_view().take(n as int) =~= tokens.deep_view());
    }
    if pending.is_some() {
        return Err(SyntaxError::RedirectionMissingTarget);
    }
    if n > 0 && argv.len() == 0 {
        return Err(SyntaxError::MissingCommand);
    }
    Ok(ParsedCommand { argv, redirects })
}

} // verus!
