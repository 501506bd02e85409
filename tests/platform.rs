use std::cell::RefCell;

use specinfra::backend::{Backend, CommandResult};
use specinfra::error::Error;
use specinfra::platform::{detect_from_probes, detect_platform, registry, Platform, PlatformKind, RedHat};
use specinfra::provider::FileShell;
use specinfra::service::ServiceShell;

struct Canned {
    stdout: Option<String>,
    commands: RefCell<Vec<String>>,
}

impl Backend for Canned {
    fn run_command(&self, c: &str) -> Result<CommandResult, Error> {
        self.commands.borrow_mut().push(c.to_string());
        match &self.stdout {
            Some(s) => Ok(CommandResult {
                stdout: s.clone(),
                stderr: String::new(),
                success: true,
                code: 0,
            }),
            None => Err(Error::Transport("closed".to_string())),
        }
    }
}

#[test]
fn centos_release_is_parsed() {
    let r = RedHat::detect_by_redhat_release("CentOS Linux release 7.9.2009 (Core)").unwrap();
    assert_eq!(r.name(), "CentOS");
    assert_eq!(r.release(), "7.9.2009");
}

#[test]
fn release_with_trailing_newline_and_extra_spaces() {
    let r = RedHat::detect_by_redhat_release("  Fedora  release 39 (Thirty Nine)\n").unwrap();
    assert_eq!(r.name(), "Fedora");
    assert_eq!(r.release(), "(Thirty");
}

#[test]
fn short_marker_is_no_match() {
    assert!(RedHat::detect_by_redhat_release("").is_none());
    assert!(RedHat::detect_by_redhat_release("CentOS Linux release").is_none());
}

#[test]
fn empty_descriptor() {
    let r = RedHat::new();
    assert_eq!(r.name(), "");
    assert_eq!(r.release(), "");
}

#[test]
fn registry_order_is_fixed() {
    let k = registry();
    assert_eq!(k, vec![PlatformKind::RedHat]);
    assert_eq!(PlatformKind::RedHat.probe_command(), "cat /etc/redhat-release");
    assert_eq!(RedHat::probe_command(), "cat /etc/redhat-release");
}

#[test]
fn detection_from_probes_is_deterministic() {
    let probes = vec![Some("CentOS Linux release 7.9.2009 (Core)\n".to_string())];
    let a = detect_from_probes(&probes).unwrap();
    let b = detect_from_probes(&probes).unwrap();
    let (Platform::RedHat(a), Platform::RedHat(b)) = (a, b);
    assert_eq!(a.name(), b.name());
    assert_eq!(a.release(), b.release());
    assert_eq!(a.release(), "7.9.2009");
}

#[test]
fn failed_or_unparsable_probes_are_unknown() {
    assert!(matches!(detect_from_probes(&vec![None]), Err(Error::PlatformUnknown)));
    assert!(matches!(
        detect_from_probes(&vec![Some("no".to_string())]),
        Err(Error::PlatformUnknown)
    ));
    assert!(matches!(detect_from_probes(&vec![]), Err(Error::PlatformUnknown)));
}

#[test]
fn detection_through_a_backend() {
    let b = Canned {
        stdout: Some("Red Hat Enterprise Linux release 8.6 (Ootpa)".to_string()),
        commands: RefCell::new(Vec::new()),
    };
    let p = detect_platform(&b).unwrap();
    assert_eq!(*b.commands.borrow(), vec!["cat /etc/redhat-release".to_string()]);
    let Platform::RedHat(r) = &p;
    assert_eq!(r.name(), "Red");
    assert_eq!(r.release(), "Linux");
    let providers = p.get_providers();
    assert_eq!(providers.file.shell, FileShell::Unix);
    assert_eq!(providers.service.shell, ServiceShell::Null);
}

#[test]
fn transport_failure_is_no_match() {
    let b = Canned { stdout: None, commands: RefCell::new(Vec::new()) };
    assert!(matches!(detect_platform(&b), Err(Error::PlatformUnknown)));
}

#[test]
fn redhat_shell_detector() {
    let b = Canned {
        stdout: Some("CentOS Linux release 7.9.2009 (Core)\n".to_string()),
        commands: RefCell::new(Vec::new()),
    };
    let r = RedHat::shell_detector(&b).unwrap();
    assert_eq!(r.name(), "CentOS");
    assert_eq!(r.release(), "7.9.2009");
    assert_eq!(*b.commands.borrow(), vec!["cat /etc/redhat-release".to_string()]);
    let b = Canned { stdout: None, commands: RefCell::new(Vec::new()) };
    assert!(RedHat::shell_detector(&b).is_none());
}
