use std::cell::RefCell;

use specinfra::backend::{Backend, CommandResult, SSHBuilder};
use specinfra::error::Error;
use specinfra::file::{FileOp, Whom};
use specinfra::handle::HandleTable;
use specinfra::output::Output;
use specinfra::provider::{
    handle_shell, select_strategy, BackendKind, FileInline, FileProvider, FileShell,
    InlineStrategy, ShellStrategy, Strategy,
};
use specinfra::service::{ServiceInline, ServiceOp, ServiceShell};
use specinfra::provider::ServiceProvider;
use specinfra::text::{parse_number, split_tokens};

struct Canned {
    success: bool,
    commands: RefCell<Vec<String>>,
}

impl Backend for Canned {
    fn run_command(&self, c: &str) -> Result<CommandResult, Error> {
        self.commands.borrow_mut().push(c.to_string());
        Ok(CommandResult {
            stdout: "640\n".to_string(),
            stderr: String::new(),
            success: self.success,
            code: 0,
        })
    }
}

#[test]
fn builder_address() {
    let b = SSHBuilder::new();
    assert!(matches!(b.remote_addr(), Err(Error::Transport(_))));
    let b = SSHBuilder::new().hostname("db.example.com");
    assert_eq!(b.remote_addr().unwrap(), "db.example.com:22");
}

#[test]
fn strategy_selection_by_backend_kind() {
    let fp = FileProvider { inline: FileInline::Posix, shell: FileShell::Bsd };
    let hf = fp.operation(FileOp::Exist, "/tmp");
    assert_eq!(
        select_strategy(BackendKind::Direct, &hf).unwrap(),
        Strategy::Inline(InlineStrategy::File(FileInline::Posix))
    );
    assert_eq!(
        select_strategy(BackendKind::Remote, &hf).unwrap(),
        Strategy::Shell(ShellStrategy::File(FileShell::Bsd))
    );
    let mut bare = fp.operation(FileOp::Exist, "/tmp");
    bare.shell = None;
    bare.inline = None;
    assert!(matches!(select_strategy(BackendKind::Remote, &bare), Err(Error::StrategyNotDefined)));
    assert!(matches!(select_strategy(BackendKind::Direct, &bare), Err(Error::StrategyNotDefined)));
}

#[test]
fn shell_dispatch_runs_the_dialect() {
    let fp = FileProvider { inline: FileInline::Posix, shell: FileShell::Bsd };
    let b = Canned { success: true, commands: RefCell::new(Vec::new()) };
    let r = handle_shell(&fp.is_readable("/etc/passwd", Some(Whom::Others)), &b).unwrap();
    assert!(!Output::to_bool(r).unwrap());
    let r = handle_shell(&fp.is_writable("/etc/passwd", Some(Whom::Owner)), &b).unwrap();
    assert!(Output::to_bool(r).unwrap());
    let unix = FileProvider { inline: FileInline::Posix, shell: FileShell::Unix };
    let r = handle_shell(&unix.operation(FileOp::IsSocket, "/run/s"), &b).unwrap();
    assert!(Output::to_bool(r).unwrap());
    assert!(matches!(
        handle_shell(&unix.operation(FileOp::Mode, "/run/s"), &b),
        Err(Error::StrategyNotDefined)
    ));
    assert_eq!(
        *b.commands.borrow(),
        vec![
            "stat -f%Lp /etc/passwd".to_string(),
            "stat -f%Lp /etc/passwd".to_string(),
            "test -S /run/s".to_string(),
        ]
    );
}

#[test]
fn service_dispatch() {
    let b = Canned { success: false, commands: RefCell::new(Vec::new()) };
    let sp = ServiceProvider::new(ServiceInline::Systemd, ServiceShell::Systemd);
    let r = handle_shell(&sp.is_running("sshd"), &b).unwrap();
    assert!(!Output::to_bool(r).unwrap());
    let _ = handle_shell(&sp.is_enabled("sshd"), &b);
    let _ = handle_shell(&sp.enable("sshd"), &b);
    let _ = handle_shell(&sp.disable("sshd"), &b);
    assert_eq!(
        *b.commands.borrow(),
        vec![
            "systemctl is-active sshd".to_string(),
            "systemctl is-enabled sshd".to_string(),
            "systemctl enable sshd".to_string(),
            "systemctl disable sshd".to_string(),
        ]
    );
}

#[test]
fn placeholder_service_strategy_is_not_implemented() {
    let b = Canned { success: true, commands: RefCell::new(Vec::new()) };
    let sp = ServiceProvider::new(ServiceInline::Systemd, ServiceShell::Null);
    assert!(matches!(handle_shell(&sp.is_running("sshd"), &b), Err(Error::NotImplemented)));
    assert!(matches!(handle_shell(&sp.enable("sshd"), &b), Err(Error::NotImplemented)));
    assert!(b.commands.borrow().is_empty());
    assert_eq!(ServiceOp::Enable, ServiceOp::Enable);
}

#[test]
fn mismatched_strategy_is_not_defined() {
    let b = Canned { success: true, commands: RefCell::new(Vec::new()) };
    let sp = ServiceProvider::new(ServiceInline::Systemd, ServiceShell::Systemd);
    let mut hf = sp.is_running("sshd");
    hf.shell = Some(ShellStrategy::File(FileShell::Bsd));
    assert!(matches!(handle_shell(&hf, &b), Err(Error::StrategyNotDefined)));
    hf.shell = None;
    assert!(matches!(handle_shell(&hf, &b), Err(Error::StrategyNotDefined)));
}

#[test]
fn create_then_destroy() {
    let mut t: HandleTable<String> = HandleTable::new();
    let h = t.create("db.example.com".to_string());
    assert!(t.is_live(h));
    assert_eq!(t.destroy(h).unwrap(), "db.example.com");
    assert!(!t.is_live(h));
    assert!(matches!(t.destroy(h), Err(Error::HandleNotLive)));
}

#[test]
fn destroyed_slot_is_reused_under_a_new_generation() {
    let mut t: HandleTable<u32> = HandleTable::new();
    let a = t.create(1);
    let b = t.create(2);
    assert_ne!(a, b);
    assert_eq!(t.destroy(a).unwrap(), 1);
    let c = t.create(3);
    assert_eq!(c.index, a.index);
    assert_ne!(c.generation, a.generation);
    assert!(matches!(t.destroy(a), Err(Error::HandleNotLive)));
    assert_eq!(t.destroy(c).unwrap(), 3);
    assert_eq!(t.destroy(b).unwrap(), 2);
}

#[test]
fn tokens_and_numbers() {
    assert_eq!(split_tokens(" a\tbb  c\n"), vec!["a", "bb", "c"]);
    assert!(split_tokens(" \n ").is_empty());
    assert_eq!(parse_number(" 755\n", 8, u64::MAX), Some(493));
    assert_eq!(parse_number("755", 10, 754), None);
    assert_eq!(parse_number("8", 8, 100), None);
    assert_eq!(parse_number("1 2", 10, 100), None);
    assert_eq!(parse_number("18446744073709551615", 10, u64::MAX), Some(u64::MAX));
    assert_eq!(parse_number("18446744073709551616", 10, u64::MAX), None);
}

#[test]
fn systemctl_verbs() {
    assert_eq!(ServiceOp::IsRunning.systemctl_verb(), "is-active");
    assert_eq!(ServiceOp::IsEnabled.systemctl_verb(), "is-enabled");
    assert_eq!(ServiceOp::Enable.systemctl_verb(), "enable");
    assert_eq!(ServiceOp::Disable.systemctl_verb(), "disable");
}
