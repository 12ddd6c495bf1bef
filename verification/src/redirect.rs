//! Redirection directives and the resolver that picks a data sink for a
//! descriptor: a redirected file when the command named one, otherwise the
//! inherited standard stream for descriptors 1 and 2, and an unsupported
//! marker for any other descriptor.

use vstd::prelude::*;

verus! {

/// Whether a redirection overwrites the file or appends to it.
#[derive(Clone, Copy, Debug, PartialEq, Eq, Structural)]
pub enum RedirectMode {
    Truncate,
    Append,
}

/// One redirection directive: send descriptor `fd` (1 = standard output,
/// 2 = standard error) to the file at `path`, in the given mode.
#[derive(Debug)]
pub struct Redirection {
    pub fd: u8,
    pub mode: RedirectMode,
    pub path: String,
}

/// The mathematical model of a `Redirection`: the same fields with the path
/// as a character sequence.
pub ghost struct RedirectionModel {
    pub fd: u8,
    pub mode: RedirectMode,
    pub path: Seq<char>,
}

impl View for Redirection {
    type V = RedirectionModel;

    open spec fn view(&self) -> RedirectionModel {
        RedirectionModel { fd: self.fd, mode: self.mode, path: self.path@ }
    }
}

impl Clone for Redirection {
    fn clone(&self) -> (r: Self)
        ensures
            r@ == self@,
    {
        Redirection { fd: self.fd, mode: self.mode, path: self.path.clone() }
    }
}

/// The redirections of one command, at most one per descriptor. Only
/// descriptors 1 and 2 can ever be named by the grammar, so the mapping is
/// stored as one optional entry for each; its view is the corresponding
/// finite map from descriptor number to directive.
#[derive(Debug)]
pub struct Redirects {
    pub out: Option<Redirection>,
    pub err: Option<Redirection>,
}

impl View for Redirects {
    type V = Map<u8, RedirectionModel>;

    open spec fn view(&self) -> Map<u8, RedirectionModel> {
        Map::new(
            |fd: u8| (fd == 1 && self.out is Some) || (fd == 2 && self.err is Some),
            |fd: u8|
                if fd == 1 {
                    self.out.unwrap()@
                } else {
                    self.err.unwrap()@
                },
        )
    }
}

impl Redirects {
    /// A command with no redirections.
    pub fn empty() -> (r: Redirects)
        ensures
            r@ == Map::<u8, RedirectionModel>::empty(),
            r.out is None,
            r.err is None,
    {
        let r = Redirects { out: None, err: None };
        proof {
            assert(forall|fd: u8| !(#[trigger] r@.contains_key(fd)));
            assert(r@ =~~= Map::<u8, RedirectionModel>::empty());
        }
        r
    }

    /// The directive stored for descriptor `fd`, if any.
    pub fn get(&self, fd: u8) -> (r: Option<&Redirection>)
        ensures
            match r {
                Some(red) => self@.contains_key(fd) && red@ == self@[fd],
                None => !self@.contains_key(fd),
            },
    {
        if fd == 1 {
            match &self.out {
                Some(red) => Some(red),
                None => None,
            }
        } else if fd == 2 {
            match &self.err {
                Some(red) => Some(red),
                None => None,
            }
        } else {
            None
        }
    }
}

/// Where the output of a descriptor goes once redirections are taken into
/// account: a named file, the inherited standard stream, or nowhere because
/// the descriptor is not one this shell supports.
#[derive(Debug)]
pub enum SinkChoice {
    ToFile(Redirection),
    StandardOut,
    StandardErr,
    Unsupported,
}

/// Chooses the data sink for descriptor `fd`: the redirected file when one
/// was named, else the inherited stream matching `fd`, else unsupported.
pub fn sink_for_fd(redirects: &Redirects, fd: u8) -> (s: SinkChoice)
    ensures
        match s {
            SinkChoice::ToFile(red) => redirects@.contains_key(fd) && red@ == redirects@[fd],
            SinkChoice::StandardOut => !redirects@.contains_key(fd) && fd == 1,
            SinkChoice::StandardErr => !redirects@.contains_key(fd) && fd == 2,
            SinkChoice::Unsupported => !redirects@.contains_key(fd) && fd != 1 && fd != 2,
        },
{
    match redirects.get(fd) {
        Some(red) => SinkChoice::ToFile(red.clone()),
        None => {
            if fd == 1 {
                SinkChoice::StandardOut
            } else if fd == 2 {
                SinkChoice::StandardErr
            } else {
                SinkChoice::Unsupported
            }
        },
    }
}

} // verus!
