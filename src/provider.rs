use vstd::prelude::*;

use crate::backend::{Backend, CommandResult};
use crate::error::Error;
use crate::file::{bsd_outcome, unix_command, unix_outcome, Bsd, FileOp, Unix, Whom};
use crate::output::Output;
use crate::service::{ServiceInline, ServiceOp, ServiceShell};

verus! {

/// File strategies that run on the local machine.
#[derive(PartialEq, Eq, Structural, Clone, Copy, Debug)]
pub enum FileInline {
    Posix,
}

/// File strategies that run commands through a backend, one per command dialect.
#[derive(PartialEq, Eq, Structural, Clone, Copy, Debug)]
pub enum FileShell {
    Unix,
    Bsd,
}

/// The file strategies of one platform.
pub struct FileProvider {
    pub inline: FileInline,
    pub shell: FileShell,
}

/// The service strategies of one platform.
pub struct ServiceProvider {
    pub inline: ServiceInline,
    pub shell: ServiceShell,
}

/// Everything a detected platform offers.
pub struct Providers {
    pub file: FileProvider,
    pub service: ServiceProvider,
}

/// The operation that a dispatch descriptor asks for.
pub enum Operation {
    File(FileOp),
    Service(ServiceOp),
}

/// A strategy that runs on the local machine.
#[derive(PartialEq, Eq, Structural, Clone, Copy, Debug)]
pub enum InlineStrategy {
    File(FileInline),
    Service(ServiceInline),
}

/// A strategy that runs commands through a backend.
#[derive(PartialEq, Eq, Structural, Clone, Copy, Debug)]
pub enum ShellStrategy {
    File(FileShell),
    Service(ServiceShell),
}

/// The kind of a backend, which decides the side of a descriptor it runs.
#[derive(PartialEq, Eq, Structural, Clone, Copy, Debug)]
pub enum BackendKind {
    Direct,
    Remote,
}

/// The side of a descriptor that a backend runs.
#[derive(PartialEq, Eq, Structural, Clone, Copy, Debug)]
pub enum Strategy {
    Inline(InlineStrategy),
    Shell(ShellStrategy),
}

/// One operation on one target, with the local and the command-based way to answer it.
pub struct HandleFunc {
    pub operation: Operation,
    pub target: String,
    pub inline: Option<InlineStrategy>,
    pub shell: Option<ShellStrategy>,
}

/// The strategy that a backend of `kind` runs for a descriptor with these sides.
pub open spec fn selected(
    kind: BackendKind,
    inline: Option<InlineStrategy>,
    shell: Option<ShellStrategy>,
) -> Result<Strategy, Error> {
    match kind {
        BackendKind::Direct => match inline {
            Some(s) => Ok(Strategy::Inline(s)),
            None => Err(Error::StrategyNotDefined),
        },
        BackendKind::Remote => match shell {
            Some(s) => Ok(Strategy::Shell(s)),
            None => Err(Error::StrategyNotDefined),
        },
    }
}

/// Picks the side of `hf` that a backend of `kind` runs: local backends the inline strategy,
/// transport-based ones the shell strategy; `StrategyNotDefined` where that side is absent.
pub fn select_strategy(kind: BackendKind, hf: &HandleFunc) -> (r: Result<Strategy, Error>)
    ensures
        r == selected(kind, hf.inline, hf.shell),
{
    match kind {
        BackendKind::Direct => match hf.inline {
            Some(s) => Ok(Strategy::Inline(s)),
            None => Err(Error::StrategyNotDefined),
        },
        BackendKind::Remote => match hf.shell {
            Some(s) => Ok(Strategy::Shell(s)),
            None => Err(Error::StrategyNotDefined),
        },
    }
}

/// What shell strategy `s` makes of outcome `res` of its command for `op`, where `s` answers
/// `op` by one command.
pub open spec fn shell_outcome(s: ShellStrategy, op: Operation, res: CommandResult) -> Result<
    Output,
    Error,
> {
    match (s, op) {
        (ShellStrategy::File(FileShell::Bsd), Operation::File(f)) => bsd_outcome(f, res),
        (ShellStrategy::File(FileShell::Unix), Operation::File(f)) => unix_outcome(f, res),
        (ShellStrategy::Service(_), Operation::Service(_)) => Ok(Output::Bool(res.success)),
        _ => Err(Error::StrategyNotDefined),
    }
}

/// Whether strategy `s` can answer `op` at all.
pub open spec fn fits(s: ShellStrategy, op: Operation) -> bool {
    match (s, op) {
        (ShellStrategy::File(_), Operation::File(_)) => true,
        (ShellStrategy::Service(_), Operation::Service(_)) => true,
        _ => false,
    }
}

/// Runs the shell side of `hf` through `b`. `StrategyNotDefined` when `hf` has no shell
/// side or it is for another capability area, `NotImplemented` for the placeholder service
/// strategy, `StrategyNotDefined` for a file question that the baseline dialect has no
/// command for; else a failure of the transport is passed on, and an answer is what the strategy
/// makes of some outcome of its command.
pub fn handle_shell<B: Backend>(hf: &HandleFunc, b: &B) -> (r: Result<Output, Error>)
    ensures
        hf.shell is None ==> r == Err::<Output, Error>(Error::StrategyNotDefined),
        hf.shell matches Some(s) && !fits(s, hf.operation) ==> r == Err::<Output, Error>(
            Error::StrategyNotDefined,
        ),
        hf.shell == Some(ShellStrategy::Service(ServiceShell::Null)) && hf.operation is Service
            ==> r == Err::<Output, Error>(Error::NotImplemented),
        hf.shell == Some(ShellStrategy::File(FileShell::Unix)) && (hf.operation matches Operation::File(
            op,
        ) && unix_command(op, hf.target@) is None) ==> r == Err::<Output, Error>(
            Error::StrategyNotDefined,
        ),
        r is Ok ==> hf.shell is Some && exists|res: CommandResult|
            shell_outcome(hf.shell->0, hf.operation, res) == r,
{
    let s = match hf.shell {
        Some(s) => s,
        None => return Err(Error::StrategyNotDefined),
    };
    match (s, &hf.operation) {
        (ShellStrategy::File(FileShell::Bsd), Operation::File(op)) => {
            let out = Bsd.run(op, hf.target.as_str(), b);
            proof {
                if out is Ok {
                    let res = choose|res: CommandResult| bsd_outcome(*op, res) == out;
                    assert(shell_outcome(s, hf.operation, res) == out);
                }
            }
            out
        },
        (ShellStrategy::File(FileShell::Unix), Operation::File(op)) => {
            match Unix.command(op, hf.target.as_str()) {
                Some(c) => match b.run_command(c.as_str()) {
                    Ok(res) => {
                        let out = Unix.interpret(op, &res);
                        proof {
                            assert(shell_outcome(s, hf.operation, res) == out);
                        }
                        out
                    },
                    Err(e) => Err(e),
                },
                None => Err(Error::StrategyNotDefined),
            }
        },
        (ShellStrategy::Service(svc), Operation::Service(op)) => {
            let out = svc.run(*op, hf.target.as_str(), b);
            proof {
                if out is Ok {
                    let res = choose|res: CommandResult|
                        out == Ok::<Output, Error>(Output::Bool(res.success));
                    assert(shell_outcome(s, hf.operation, res) == out);
                }
            }
            out
        },
        _ => Err(Error::StrategyNotDefined),
    }
}

impl FileProvider {
    /// A descriptor for file operation `op` on `name` with this provider's strategies.
    pub fn operation(&self, op: FileOp, name: &str) -> (r: HandleFunc)
        ensures
            r.operation == Operation::File(op),
            r.target@ == name@,
            r.inline == Some(InlineStrategy::File(self.inline)),
            r.shell == Some(ShellStrategy::File(self.shell)),
    {
        HandleFunc {
            operation: Operation::File(op),
            target: String::from_str(name),
            inline: Some(InlineStrategy::File(self.inline)),
            shell: Some(ShellStrategy::File(self.shell)),
        }
    }

    /// A descriptor for whether `whom` may read `name`.
    pub fn is_readable(&self, name: &str, whom: Option<Whom>) -> (r: HandleFunc)
        ensures
            r.operation == Operation::File(FileOp::IsReadable(whom)),
            r.target@ == name@,
            r.inline == Some(InlineStrategy::File(self.inline)),
            r.shell == Some(ShellStrategy::File(self.shell)),
    {
        self.operation(FileOp::IsReadable(whom), name)
    }

    /// A descriptor for whether `whom` may write `name`.
    pub fn is_writable(&self, name: &str, whom: Option<Whom>) -> (r: HandleFunc)
        ensures
            r.operation == Operation::File(FileOp::IsWritable(whom)),
            r.target@ == name@,
            r.inline == Some(InlineStrategy::File(self.inline)),
            r.shell == Some(ShellStrategy::File(self.shell)),
    {
        self.operation(FileOp::IsWritable(whom), name)
    }
}

impl ServiceProvider {
    pub fn new(i: ServiceInline, s: ServiceShell) -> (r: ServiceProvider)
        ensures
            r.inline == i,
            r.shell == s,
    {
        ServiceProvider { inline: i, shell: s }
    }

    /// A descriptor for service operation `op` on `name` with this provider's strategies.
    pub fn operation(&self, op: ServiceOp, name: &str) -> (r: HandleFunc)
        ensures
            r.operation == Operation::Service(op),
            r.target@ == name@,
            r.inline == Some(InlineStrategy::Service(self.inline)),
            r.shell == Some(ShellStrategy::Service(self.shell)),
    {
        HandleFunc {
            operation: Operation::Service(op),
            target: String::from_str(name),
            inline: Some(InlineStrategy::Service(self.inline)),
            shell: Some(ShellStrategy::Service(self.shell)),
        }
    }

    /// A descriptor for whether service `name` is running.
    pub fn is_running(&self, name: &str) -> (r: HandleFunc)
        ensures
            r.operation == Operation::Service(ServiceOp::IsRunning),
            r.target@ == name@,
            r.inline == Some(InlineStrategy::Service(self.inline)),
            r.shell == Some(ShellStrategy::Service(self.shell)),
    {
        self.operation(ServiceOp::IsRunning, name)
    }

    /// A descriptor for whether service `name` starts at boot.
    pub fn is_enabled(&self, name: &str) -> (r: HandleFunc)
        ensures
            r.operation == Operation::Service(ServiceOp::IsEnabled),
            r.target@ == name@,
            r.inline == Some(InlineStrategy::Service(self.inline)),
            r.shell == Some(ShellStrategy::Service(self.shell)),
    {
        self.operation(ServiceOp::IsEnabled, name)
    }

    /// A descriptor that makes service `name` start at boot.
    pub fn enable(&self, name: &str) -> (r: HandleFunc)
        ensures
            r.operation == Operation::Service(ServiceOp::Enable),
            r.target@ == name@,
            r.inline == Some(InlineStrategy::Service(self.inline)),
            r.shell == Some(ShellStrategy::Service(self.shell)),
    {
        self.operation(ServiceOp::Enable, name)
    }

    /// A descriptor that stops service `name` from starting at boot.
    pub fn disable(&self, name: &str) -> (r: HandleFunc)
        ensures
            r.operation == Operation::Service(ServiceOp::Disable),
            r.target@ == name@,
            r.inline == Some(InlineStrategy::Service(self.inline)),
            r.shell == Some(ShellStrategy::Service(self.shell)),
    {
        self.operation(ServiceOp::Disable, name)
    }
}

} // verus!
