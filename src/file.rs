use vstd::prelude::*;

use crate::backend::{Backend, CommandResult};
use crate::error::Error;
use crate::output::Output;
use crate::text::{number_of, parse_number};

verus! {

/// The target of a permission check.
#[derive(Debug)]
pub enum Whom {
    Owner,
    Group,
    Others,
    User(String),
}

/// A question about one file, answered by a file strategy.
#[derive(Debug)]
pub enum FileOp {
    Mode,
    Exist,
    IsFile,
    IsDirectory,
    IsBlockDevice,
    IsCharacterDevice,
    IsPipe,
    IsSocket,
    IsSymlink,
    Contents,
    Owner,
    Group,
    IsReadable(Option<Whom>),
    IsWritable(Option<Whom>),
    Md5sum,
    Sha256sum,
    Size,
    LinkedTo,
}

/// The baseline Unix dialect: existence and type checks, contents and link target through
/// POSIX commands.
#[derive(Clone, Copy, Debug)]
pub struct Unix;

/// The BSD dialect: its own `stat`, checksum and permission commands, and the baseline Unix
/// dialect for every other question.
#[derive(Clone, Copy, Debug)]
pub struct Bsd;

/// The `test` flag that answers a type or existence question.
pub open spec fn test_flag(op: FileOp) -> Option<Seq<char>> {
    match op {
        FileOp::Exist => Some("-e"@),
        FileOp::IsFile => Some("-f"@),
        FileOp::IsDirectory => Some("-d"@),
        FileOp::IsBlockDevice => Some("-b"@),
        FileOp::IsCharacterDevice => Some("-c"@),
        FileOp::IsPipe => Some("-p"@),
        FileOp::IsSocket => Some("-S"@),
        FileOp::IsSymlink => Some("-L"@),
        _ => None,
    }
}

/// The command of the baseline dialect for `op` on `name`; `None` where it has none.
pub open spec fn unix_command(op: FileOp, name: Seq<char>) -> Option<Seq<char>> {
    match op {
        FileOp::Contents => Some("cat "@ + name),
        FileOp::LinkedTo => Some("readlink "@ + name),
        _ => match test_flag(op) {
            Some(f) => Some("test "@ + f + " "@ + name),
            None => None,
        },
    }
}

/// What the baseline dialect makes of the outcome of its command: the exit status of a
/// `test`, or the text printed.
pub open spec fn unix_outcome(op: FileOp, res: CommandResult) -> Result<Output, Error> {
    match op {
        FileOp::Contents | FileOp::LinkedTo => Ok(Output::Text(res.stdout)),
        _ => if test_flag(op) is Some {
            Ok(Output::Bool(res.success))
        } else {
            Err(Error::StrategyNotDefined)
        },
    }
}

/// The permission bits that a read check tests for `w`: `0o400`, `0o040`, `0o004`, and
/// `0o444` when no one is named.
pub open spec fn read_mask(w: Option<Whom>) -> i32 {
    match w {
        Some(Whom::Owner) => 0o400,
        Some(Whom::Group) => 0o040,
        Some(Whom::Others) => 0o004,
        _ => 0o444,
    }
}

/// The permission bits that a write check tests for `w`: `0o200`, `0o020`, `0o002`, and
/// `0o222` when no one is named.
pub open spec fn write_mask(w: Option<Whom>) -> i32 {
    match w {
        Some(Whom::Owner) => 0o200,
        Some(Whom::Group) => 0o020,
        Some(Whom::Others) => 0o002,
        _ => 0o222,
    }
}

/// The user whose impersonated probe answers a permission check, if one is named.
pub open spec fn named_user(w: Option<Whom>) -> Option<Seq<char>> {
    match w {
        Some(Whom::User(u)) => Some(u@),
        _ => None,
    }
}

/// The command of the BSD dialect for `op` on `name`.
pub open spec fn bsd_command(op: FileOp, name: Seq<char>) -> Option<Seq<char>> {
    match op {
        FileOp::Mode => Some("stat -f%Lp "@ + name),
        FileOp::Owner => Some("stat -f%Su "@ + name),
        FileOp::Group => Some("stat -f%Sg "@ + name),
        FileOp::Size => Some("stat -f%z "@ + name),
        FileOp::Md5sum => Some("md5 "@ + name + " | awk '{print $4}'"@),
        FileOp::Sha256sum => Some("shasum -a 256 "@ + name + " | awk '{print $1}'"@),
        FileOp::IsReadable(w) => match named_user(w) {
            Some(u) => Some("sudo -u "@ + u + " -s test -r "@ + name),
            None => Some("stat -f%Lp "@ + name),
        },
        FileOp::IsWritable(w) => match named_user(w) {
            Some(u) => Some("sudo -u "@ + u + " -s test -w "@ + name),
            None => Some("stat -f%Lp "@ + name),
        },
        _ => unix_command(op, name),
    }
}

/// The permission bits that `stat -f%Lp` printed: one octal number.
pub open spec fn mode_outcome(res: CommandResult) -> Result<Output, Error> {
    match number_of(res.stdout@, 8) {
        Some(v) => if v <= i32::MAX {
            Ok(Output::I32(v as i32))
        } else {
            Err(Error::Command(res.stdout))
        },
        None => Err(Error::Command(res.stdout)),
    }
}

/// A permission check: the probe's exit status where a user is named, else whether the
/// mode has one of the bits of `mask`.
pub open spec fn permission_outcome(w: Option<Whom>, mask: i32, res: CommandResult) -> Result<
    Output,
    Error,
> {
    if named_user(w) is Some {
        Ok(Output::Bool(res.success))
    } else {
        match mode_outcome(res) {
            Ok(Output::I32(m)) => Ok(Output::Bool(m & mask != 0)),
            other => other,
        }
    }
}

/// What the BSD dialect makes of the outcome of its command for `op`.
pub open spec fn bsd_outcome(op: FileOp, res: CommandResult) -> Result<Output, Error> {
    match op {
        FileOp::Mode => mode_outcome(res),
        FileOp::Owner | FileOp::Group | FileOp::Md5sum | FileOp::Sha256sum => Ok(
            Output::Text(res.stdout),
        ),
        FileOp::Size => match number_of(res.stdout@, 10) {
            Some(v) => if v <= i64::MAX {
                Ok(Output::I64(v as i64))
            } else {
                Err(Error::Command(res.stdout))
            },
            None => Err(Error::Command(res.stdout)),
        },
        FileOp::IsReadable(w) => permission_outcome(w, read_mask(w), res),
        FileOp::IsWritable(w) => permission_outcome(w, write_mask(w), res),
        _ => unix_outcome(op, res),
    }
}

/// `prefix` followed by `name`.
fn joined(prefix: &str, name: &str) -> (r: String)
    ensures
        r@ == prefix@ + name@,
{
    String::from_str(prefix).concat(name)
}

/// The permission bits that a read (`readable`) or write check tests for `w`.
pub fn permission_mask(w: &Option<Whom>, readable: bool) -> (r: i32)
    ensures
        r == if readable {
            read_mask(*w)
        } else {
            write_mask(*w)
        },
{
    match w {
        Some(Whom::Owner) => if readable {
            0o400
        } else {
            0o200
        },
        Some(Whom::Group) => if readable {
            0o040
        } else {
            0o020
        },
        Some(Whom::Others) => if readable {
            0o004
        } else {
            0o002
        },
        _ => if readable {
            0o444
        } else {
            0o222
        },
    }
}

/// Whether permission bits `m` grant the read (`readable`) or write check for `w`: one of the
/// bits of its mask is set.
pub fn mode_grants(m: i32, w: &Option<Whom>, readable: bool) -> (r: bool)
    ensures
        r == (m & (if readable {
            read_mask(*w)
        } else {
            write_mask(*w)
        }) != 0),
{
    m & permission_mask(w, readable) != 0
}

fn copy_output(res: &CommandResult) -> (r: String)
    ensures
        r == res.stdout,
{
    res.stdout.clone()
}

impl Unix {
    /// The command for `op` on `name`; `None` for the questions this dialect leaves to others.
    pub fn command(&self, op: &FileOp, name: &str) -> (r: Option<String>)
        ensures
            r is Some <==> unix_command(*op, name@) is Some,
            r is Some ==> r->0@ == unix_command(*op, name@)->0,
    {
        proof {
            reveal_strlit("cat ");
            reveal_strlit("readlink ");
            reveal_strlit("test ");
        }
        let flag: &str = match op {
            FileOp::Contents => return Some(joined("cat ", name)),
            FileOp::LinkedTo => return Some(joined("readlink ", name)),
            FileOp::Exist => "-e",
            FileOp::IsFile => "-f",
            FileOp::IsDirectory => "-d",
            FileOp::IsBlockDevice => "-b",
            FileOp::IsCharacterDevice => "-c",
            FileOp::IsPipe => "-p",
            FileOp::IsSocket => "-S",
            FileOp::IsSymlink => "-L",
            _ => return None,
        };
        let c = joined("test ", flag).concat(" ").concat(name);
        Some(c)
    }

    /// What the outcome of this dialect's command for `op` answers.
    pub fn interpret(&self, op: &FileOp, res: &CommandResult) -> (r: Result<Output, Error>)
        ensures
            r == unix_outcome(*op, *res),
    {
        match op {
            FileOp::Contents | FileOp::LinkedTo => Ok(Output::Text(copy_output(res))),
            FileOp::Exist | FileOp::IsFile | FileOp::IsDirectory | FileOp::IsBlockDevice
            | FileOp::IsCharacterDevice | FileOp::IsPipe | FileOp::IsSocket
            | FileOp::IsSymlink => Ok(Output::Bool(res.success)),
            _ => Err(Error::StrategyNotDefined),
        }
    }
}

impl Bsd {
    /// The command for `op` on `name`.
    pub fn command(&self, op: &FileOp, name: &str) -> (r: String)
        ensures
            bsd_command(*op, name@) is Some,
            r@ == bsd_command(*op, name@)->0,
    {
        match op {
            FileOp::Mode => joined("stat -f%Lp ", name),
            FileOp::Owner => joined("stat -f%Su ", name),
            FileOp::Group => joined("stat -f%Sg ", name),
            FileOp::Size => joined("stat -f%z ", name),
            FileOp::Md5sum => joined("md5 ", name).concat(" | awk '{print $4}'"),
            FileOp::Sha256sum => joined("shasum -a 256 ", name).concat(" | awk '{print $1}'"),
            FileOp::IsReadable(w) | FileOp::IsWritable(w) => {
                let test = if let FileOp::IsReadable(_) = op {
                    " -s test -r "
                } else {
                    " -s test -w "
                };
                match w {
                    Some(Whom::User(u)) => joined("sudo -u ", u.as_str()).concat(test).concat(
                        name,
                    ),
                    _ => joined("stat -f%Lp ", name),
                }
            },
            _ => {
                let c = Unix.command(op, name);
                match c {
                    Some(c) => c,
                    None => {
                        assert(false);
                        String::new()
                    },
                }
            },
        }
    }

    /// The permission bits printed by `stat -f%Lp`, read as one octal number.
    pub fn parse_mode(res: &CommandResult) -> (r: Result<Output, Error>)
        ensures
            r == mode_outcome(*res),
    {
        match parse_number(res.stdout.as_str(), 8, 2147483647) {
            Some(v) => Ok(Output::I32(v as i32)),
            None => Err(Error::Command(copy_output(res))),
        }
    }

    /// What the outcome of this dialect's command for `op` answers.
    pub fn interpret(&self, op: &FileOp, res: &CommandResult) -> (r: Result<Output, Error>)
        ensures
            r == bsd_outcome(*op, *res),
    {
        match op {
            FileOp::Mode => Bsd::parse_mode(res),
            FileOp::Owner | FileOp::Group | FileOp::Md5sum | FileOp::Sha256sum => Ok(
                Output::Text(copy_output(res)),
            ),
            FileOp::Size => match parse_number(res.stdout.as_str(), 10, 9223372036854775807) {
                Some(v) => Ok(Output::I64(v as i64)),
                None => Err(Error::Command(copy_output(res))),
            },
            FileOp::IsReadable(w) | FileOp::IsWritable(w) => {
                let readable = if let FileOp::IsReadable(_) = op {
                    true
                } else {
                    false
                };
                if let Some(Whom::User(_)) = w {
                    return Ok(Output::Bool(res.success));
                }
                let mode = Bsd::parse_mode(res)?;
                let m = Output::to_i32(mode)?;
                Ok(Output::Bool(mode_grants(m, w, readable)))
            },
            _ => Unix.interpret(op, res),
        }
    }

    /// Runs the command for `op` on `name` through `b` and interprets its outcome. A failure
    /// of the transport is passed on; otherwise the answer is what `interpret` makes of some
    /// outcome of the command.
    pub fn run<B: Backend>(&self, op: &FileOp, name: &str, b: &B) -> (r: Result<Output, Error>)
        ensures
            r is Ok ==> exists|res: CommandResult| bsd_outcome(*op, res) == r,
    {
        let c = self.command(op, name);
        match b.run_command(c.as_str()) {
            Ok(res) => {
                let out = self.interpret(op, &res);
                proof {
                    assert(bsd_outcome(*op, res) == out);
                }
                out
            },
            Err(e) => Err(e),
        }
    }

    /// The permission bits of `name`, as an `I32`.
    pub fn mode<B: Backend>(&self, name: &str, b: &B) -> (r: Result<Output, Error>)
        ensures
            r is Ok ==> exists|res: CommandResult| mode_outcome(res) == r,
    {
        self.run(&FileOp::Mode, name, b)
    }

    /// Whether `whom` (anyone, when `None`) may read `name`, as a `Bool`.
    pub fn is_readable<B: Backend>(&self, name: &str, whom: Option<Whom>, b: &B) -> (r: Result<
        Output,
        Error,
    >)
        ensures
            r is Ok ==> exists|res: CommandResult| permission_outcome(whom, read_mask(whom), res)
                == r,
    {
        self.run(&FileOp::IsReadable(whom), name, b)
    }

    /// Whether `whom` (anyone, when `None`) may write `name`, as a `Bool`.
    pub fn is_writable<B: Backend>(&self, name: &str, whom: Option<Whom>, b: &B) -> (r: Result<
        Output,
        Error,
    >)
        ensures
            r is Ok ==> exists|res: CommandResult| permission_outcome(whom, write_mask(whom), res)
                == r,
    {
        self.run(&FileOp::IsWritable(whom), name, b)
    }
}

/// A permission check for a named user is the exit status of the impersonated probe, whatever
/// the command printed, and so whatever the file's mode is.
pub proof fn lemma_named_user_follows_probe(
    u: String,
    readable: bool,
    res1: CommandResult,
    res2: CommandResult,
)
    requires
        res1.success == res2.success,
    ensures
        ({
            let op = if readable {
                FileOp::IsReadable(Some(Whom::User(u)))
            } else {
                FileOp::IsWritable(Some(Whom::User(u)))
            };
            &&& bsd_outcome(op, res1) == Ok::<Output, Error>(Output::Bool(res1.success))
            &&& bsd_outcome(op, res1) == bsd_outcome(op, res2)
        }),
{
}

} // verus!
