use vstd::prelude::*;

use crate::error::Error;

verus! {

/// The outcome of one command run to completion on a backend.
#[derive(Debug)]
pub struct CommandResult {
    pub stdout: String,
    pub stderr: String,
    pub success: bool,
    pub code: i32,
}

/// An execution transport: the local machine, or a remote host over a session.
///
/// `run_command` runs one command to completion and captures its output. A non-zero exit or
/// a non-empty standard error is reported through the result's `success` and `code`; only a
/// failure of the transport itself is an `Err`. Nothing is assumed of what a command prints,
/// so every operation built on it states what holds whatever came back.
pub trait Backend {
    fn run_command(&self, c: &str) -> Result<CommandResult, Error>;
}

/// Collects what a remote-session backend is built from.
pub struct SSHBuilder {
    hostname: Option<String>,
}

impl SSHBuilder {
    pub closed spec fn spec_hostname(&self) -> Option<Seq<char>> {
        match self.hostname {
            Some(h) => Some(h@),
            None => None,
        }
    }

    /// A builder with no hostname yet.
    pub fn new() -> (r: Self)
        ensures
            r.spec_hostname() is None,
    {
        SSHBuilder { hostname: None }
    }

    /// Sets the host to connect to.
    pub fn hostname(self, h: &str) -> (r: Self)
        ensures
            r.spec_hostname() == Some(h@),
    {
        let mut b = self;
        b.hostname = Some(String::from_str(h));
        b
    }

    /// The `host:22` address that the session connects to; an error when no hostname was set.
    pub fn remote_addr(&self) -> (r: Result<String, Error>)
        ensures
            self.spec_hostname() is None <==> r is Err,
            r is Err ==> r->Err_0 is Transport,
            r is Ok ==> r->Ok_0@ == self.spec_hostname()->0 + ":22"@,
    {
        match &self.hostname {
            Some(h) => {
                let a = h.clone();
                Ok(a.concat(":22"))
            },
            None => Err(Error::Transport(String::from_str("no hostname was given"))),
        }
    }
}

} // verus!
