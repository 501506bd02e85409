use vstd::prelude::*;

use crate::backend::{Backend, CommandResult};
use crate::error::Error;
use crate::output::Output;

verus! {

/// A question or change about one service.
#[derive(PartialEq, Eq, Structural, Clone, Copy, Debug)]
pub enum ServiceOp {
    IsRunning,
    IsEnabled,
    Enable,
    Disable,
}

/// Service strategies that run on the local machine.
#[derive(PartialEq, Eq, Structural, Clone, Copy, Debug)]
pub enum ServiceInline {
    Systemd,
}

/// Service strategies that run commands through a backend: the `systemctl` command line, or
/// the placeholder for platforms with no service manager, which fails with `NotImplemented`
/// and runs nothing.
#[derive(PartialEq, Eq, Structural, Clone, Copy, Debug)]
pub enum ServiceShell {
    Systemd,
    Null,
}

/// The `systemctl` subcommand for `op`.
pub open spec fn systemctl_verb(op: ServiceOp) -> Seq<char> {
    match op {
        ServiceOp::IsRunning => "is-active"@,
        ServiceOp::IsEnabled => "is-enabled"@,
        ServiceOp::Enable => "enable"@,
        ServiceOp::Disable => "disable"@,
    }
}

/// The command that `s` runs for `op` on service `name`; `None` for the placeholder.
pub open spec fn service_command(s: ServiceShell, op: ServiceOp, name: Seq<char>) -> Option<
    Seq<char>,
> {
    match s {
        ServiceShell::Systemd => Some("systemctl "@ + systemctl_verb(op) + " "@ + name),
        ServiceShell::Null => None,
    }
}

impl ServiceOp {
    /// The `systemctl` subcommand for this operation.
    pub fn systemctl_verb(&self) -> (r: &'static str)
        ensures
            r@ == systemctl_verb(*self),
    {
        match self {
            ServiceOp::IsRunning => "is-active",
            ServiceOp::IsEnabled => "is-enabled",
            ServiceOp::Enable => "enable",
            ServiceOp::Disable => "disable",
        }
    }
}

impl ServiceShell {
    /// The command for `op` on service `name`.
    pub fn command(&self, op: ServiceOp, name: &str) -> (r: Option<String>)
        ensures
            r is Some <==> service_command(*self, op, name@) is Some,
            r is Some ==> r->0@ == service_command(*self, op, name@)->0,
    {
        match self {
            ServiceShell::Systemd => {
                let verb = op.systemctl_verb();
                Some(String::from_str("systemctl ").concat(verb).concat(" ").concat(name))
            },
            ServiceShell::Null => None,
        }
    }

    /// The answer that a command's outcome gives: its exit status, as a `Bool`.
    pub fn interpret(&self, res: &CommandResult) -> (r: Output)
        ensures
            r == Output::Bool(res.success),
    {
        Output::Bool(res.success)
    }

    /// Runs `op` on service `name` through `b`. The placeholder fails with `NotImplemented`
    /// and runs nothing; otherwise a failure of the transport is passed on, and an answer is
    /// the exit status of the command.
    pub fn run<B: Backend>(&self, op: ServiceOp, name: &str, b: &B) -> (r: Result<Output, Error>)
        ensures
            *self == ServiceShell::Null ==> r == Err::<Output, Error>(Error::NotImplemented),
            r is Ok ==> exists|res: CommandResult| r == Ok::<Output, Error>(Output::Bool(res.success)),
    {
        match self.command(op, name) {
            Some(c) => match b.run_command(c.as_str()) {
                Ok(res) => {
                    let out: Result<Output, Error> = Ok(self.interpret(&res));
                    assert(out == Ok::<Output, Error>(Output::Bool(res.success)));
                    out
                },
                Err(e) => Err(e),
            },
            None => Err(Error::NotImplemented),
        }
    }
}

} // verus!
