//! The dispatcher rules: how a parsed command's name is resolved against the
//! fixed builtin set and the externally built executable index, and the exact
//! text of the diagnostics and builtin replies the shell prints.
//!
//! The executable index itself (a scan of the search path) and all actual
//! I/O are external collaborators; they hand these functions plain values
//! (the command name, whether the index knows it, the resolved path) and
//! receive the decision or the message back.

use vstd::prelude::*;

use crate::text::str_eq;

verus! {

/// The reserved builtin names that `type` reports as shell builtins.
pub open spec fn is_builtin_name(s: Seq<char>) -> bool {
    s == "type"@ || s == "echo"@ || s == "exit"@ || s == "pwd"@
}

/// Executable membership test for the builtin set, equal to `is_builtin_name`.
pub fn is_builtin(name: &str) -> (r: bool)
    ensures
        r == is_builtin_name(name@),
{
    str_eq(name, "type") || str_eq(name, "echo") || str_eq(name, "exit") || str_eq(name, "pwd")
}

/// What the shell does with a command, once the name is resolved against the
/// builtin handlers and the executable index.
#[derive(Clone, Copy, Debug, PartialEq, Eq, Structural)]
pub enum DispatchAction {
    RunType,
    RunEcho,
    RunExit,
    RunPwd,
    RunCd,
    Spawn,
    ReportNotFound,
}

/// The resolution order: a name with a builtin handler always wins; an
/// unreserved name is spawned when the executable index knows it, and is
/// otherwise reported as not found.
pub open spec fn dispatch_spec(name: Seq<char>, in_index: bool) -> DispatchAction {
    if name == "type"@ {
        DispatchAction::RunType
    } else if name == "echo"@ {
        DispatchAction::RunEcho
    } else if name == "exit"@ {
        DispatchAction::RunExit
    } else if name == "pwd"@ {
        DispatchAction::RunPwd
    } else if name == "cd"@ {
        DispatchAction::RunCd
    } else if in_index {
        DispatchAction::Spawn
    } else {
        DispatchAction::ReportNotFound
    }
}

/// Resolves a command name. `in_index` says whether the executable index
/// holds the name; the result is `dispatch_spec` of the inputs.
pub fn dispatch_action(name: &str, in_index: bool) -> (a: DispatchAction)
    ensures
        a == dispatch_spec(name@, in_index),
{
    if str_eq(name, "type") {
        DispatchAction::RunType
    } else if str_eq(name, "echo") {
        DispatchAction::RunEcho
    } else if str_eq(name, "exit") {
        DispatchAction::RunExit
    } else if str_eq(name, "pwd") {
        DispatchAction::RunPwd
    } else if str_eq(name, "cd") {
        DispatchAction::RunCd
    } else if in_index {
        DispatchAction::Spawn
    } else {
        DispatchAction::ReportNotFound
    }
}

/// The reply of the `type` builtin: a builtin name is reported as such, an
/// indexed name with its resolved path, anything else as not found.
pub open spec fn type_message_spec(q: Seq<char>, resolved: Option<Seq<char>>) -> Seq<char> {
    if is_builtin_name(q) {
        q + " is a shell builtin"@
    } else {
        match resolved {
            Some(path) => q + " is "@ + path,
            None => q + ": not found"@,
        }
    }
}

/// Builds the `type` builtin's reply for `query`. `resolved` is the location
/// the executable index gives for the name, if any.
pub fn type_message(query: &str, resolved: Option<&str>) -> (m: String)
    ensures
        m@ == type_message_spec(
            query@,
            match resolved {
                Some(p) => Some(p@),
                None => None,
            },
        ),
{
    let mut m = query.to_owned();
    if is_builtin(query) {
        m.append(" is a shell builtin");
    } else {
        match resolved {
            Some(path) => {
                m.append(" is ");
                m.append(path);
            },
            None => {
                m.append(": not found");
            },
        }
    }
    m
}

/// The usage error of `type` when it gets no argument.
pub fn type_missing_operand_message() -> (m: String)
    ensures
        m@ == "type: missing operand"@,
{
    "type: missing operand".to_owned()
}

/// The diagnostic for a command name found neither among the builtins nor in
/// the executable index.
pub fn not_found_message(name: &str) -> (m: String)
    ensures
        m@ == name@ + ": not found"@,
{
    let mut m = name.to_owned();
    m.append(": not found");
    m
}

/// The full unknown-command report: the diagnostic text together with the
/// descriptor it must be written to. The report is an error, so it goes to
/// the command's descriptor-2 sink.
pub fn not_found_report(name: &str) -> (r: (u8, String))
    ensures
        r.0 == 2,
        r.1@ == name@ + ": not found"@,
{
    (2u8, not_found_message(name))
}

/// `exit` terminates the whole shell exactly when its first argument is the
/// literal `0`; with no argument or any other argument the shell goes on.
pub open spec fn exit_terminates(arg: Option<Seq<char>>) -> bool {
    arg == Some("0"@)
}

/// Decides the `exit` builtin: true means terminate the process with status
/// 0, false means print the hint and keep running.
pub fn exit_should_terminate(arg: Option<&str>) -> (r: bool)
    ensures
        r == exit_terminates(
            match arg {
                Some(a) => Some(a@),
                None => None,
            },
        ),
{
    match arg {
        Some(a) => str_eq(a, "0"),
        None => false,
    }
}

/// The hint printed when `exit` is rejected.
pub fn exit_hint_message() -> (m: String)
    ensures
        m@ == "Did you mean `exit 0`?"@,
{
    "Did you mean `exit 0`?".to_owned()
}

/// The arguments joined by single spaces: what `echo` writes.
pub open spec fn joined(args: Seq<Seq<char>>) -> Seq<char>
    decreases args.len(),
{
    if args.len() == 0 {
        Seq::empty()
    } else if args.len() == 1 {
        args[0]
    } else {
        joined(args.drop_last()) + " "@ + args.last()
    }
}

/// Joins `args[from..]` with single spaces. `from` skips the command name
/// when the whole argument vector is passed.
pub fn join_args(args: &Vec<String>, from: usize) -> (s: String)
    requires
        from <= args.len(),
    ensures
        s@ == joined(args.deep_view().skip(from as int)),
{
    let mut s = String::new();
    let n = args.len();
    for i in from..n
        invariant
            from <= i <= n,
            n == args.len(),
            s@ == joined(args.deep_view().subrange(from as int, i as int)),
    {
        if i > from {
            s.append(" ");
        }
        s.append(args[i].as_str());
        proof {
            let sub = args.deep_view().subrange(from as int, i + 1);
            assert(sub.drop_last() =~= args.deep_view().subrange(from as int, i as int));
            assert(sub.last() == args.deep_view()[i as int]);
            if i == from {
                assert(s@ =~= joined(sub));
            }
        }
    }
    proof {
        assert(args.deep_view().subrange(from as int, n as int) =~= args.deep_view().skip(
            from as int,
        ));
    }
    s
}

/// Where `cd` goes: `~` or a missing argument mean the home directory, or
/// the root path when no home directory is known; anything else is taken as
/// given.
pub open spec fn cd_target_spec(arg: Option<Seq<char>>, home: Option<Seq<char>>) -> Seq<char> {
    let fallback = match home {
        Some(h) => h,
        None => "/"@,
    };
    match arg {
        Some(a) => if a == "~"@ {
            fallback
        } else {
            a
        },
        None => fallback,
    }
}

/// Resolves the `cd` argument to the directory to change to. `home` is the
/// home directory the environment reports, if any.
pub fn cd_target(arg: Option<&str>, home: Option<&str>) -> (t: String)
    ensures
        t@ == cd_target_spec(
            match arg {
                Some(a) => Some(a@),
                None => None,
            },
            match home {
                Some(h) => Some(h@),
                None => None,
            },
        ),
{
    let fallback = match home {
        Some(h) => h.to_owned(),
        None => "/".to_owned(),
    };
    match arg {
        Some(a) => if str_eq(a, "~") {
            fallback
        } else {
            a.to_owned()
        },
        None => fallback,
    }
}

/// The diagnostic when the `cd` target cannot be resolved to a directory.
pub fn cd_error_message(target: &str) -> (m: String)
    ensures
        m@ == "cd: "@ + target@ + ": No such file or directory"@,
{
    let mut m = "cd: ".to_owned();
    m.append(target);
    m.append(": No such file or directory");
    m
}

} // verus!
