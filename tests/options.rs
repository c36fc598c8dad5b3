use stracer::catalog::{syscall_name, syscall_number, SYSCALL_COUNT};
use stracer::{InvalidKind, InvalidOption, Opt, TraceSpec};

fn strings(v: &[&str]) -> Vec<String> {
    v.iter().map(|s| s.to_string()).collect()
}

fn opt(to_trace: &[&str], dont_trace: &[&str]) -> Opt {
    Opt {
        to_trace: strings(to_trace),
        dont_trace: strings(dont_trace),
        exe: "/bin/true".to_string(),
        exe_args: vec![],
    }
}

#[test]
fn table_names_known_numbers() {
    assert_eq!(syscall_name(0), Some("read"));
    assert_eq!(syscall_name(2), Some("open"));
    assert_eq!(syscall_name(59), Some("execve"));
    assert_eq!(syscall_name(231), Some("exit_group"));
    assert_eq!(syscall_name(334), Some("rseq"));
    assert_eq!(syscall_name(SYSCALL_COUNT), None);
    assert_eq!(syscall_name(u64::MAX), None);
}

#[test]
fn table_finds_numbers_by_name() {
    assert_eq!(syscall_number("openat"), Some(257));
    assert_eq!(syscall_number("read"), Some(0));
    assert_eq!(syscall_number("opne"), None);
    assert_eq!(syscall_number(""), None);
}

#[test]
fn validate_accepts_known_names() {
    assert_eq!(opt(&["open", "read"], &[]).validate(), Ok(()));
    assert_eq!(opt(&[], &["read"]).validate(), Ok(()));
    assert_eq!(opt(&[], &[]).validate(), Ok(()));
}

#[test]
fn validate_rejects_both_lists() {
    let r = opt(&["open"], &["read"]).validate();
    assert_eq!(r, Err(InvalidOption(InvalidKind::BothLists)));
    // the conflict is reported even when names are unknown too
    let r = opt(&["nosuch"], &["other"]).validate();
    assert_eq!(r, Err(InvalidOption(InvalidKind::BothLists)));
}

#[test]
fn validate_names_the_offending_list() {
    assert_eq!(
        opt(&["open", "nosuch"], &[]).validate(),
        Err(InvalidOption(InvalidKind::UnknownToTrace))
    );
    assert_eq!(
        opt(&[], &["read", "nosuch"]).validate(),
        Err(InvalidOption(InvalidKind::UnknownDontTrace))
    );
}

#[test]
fn error_messages() {
    assert_eq!(
        InvalidOption(InvalidKind::BothLists).message(),
        "cannot assign both to_trace and dont_trace"
    );
    assert_eq!(
        InvalidOption(InvalidKind::UnknownToTrace).message(),
        "system call in do_trace does not exist"
    );
    assert_eq!(
        InvalidOption(InvalidKind::UnknownDontTrace).message(),
        "system call in dont_trace does not exist"
    );
}

#[test]
fn syscalls_to_trace_inclusion_in_table_order() {
    assert_eq!(opt(&["open", "read"], &[]).syscalls_to_trace(), vec!["read", "open"]);
}

#[test]
fn syscalls_to_trace_exclusion() {
    let r = opt(&[], &["read"]).syscalls_to_trace();
    assert_eq!(r.len(), 334);
    assert!(!r.contains(&"read"));
    assert_eq!(r[0], "write");
}

#[test]
fn syscalls_to_trace_everything() {
    let r = opt(&[], &[]).syscalls_to_trace();
    assert_eq!(r.len(), 335);
    assert_eq!(r[0], "read");
    assert_eq!(r[334], "rseq");
    let mut sorted = r.clone();
    sorted.sort();
    sorted.dedup();
    assert_eq!(sorted.len(), r.len());
}

#[test]
fn trace_spec_construction() {
    assert!(TraceSpec::new(strings(&["open"]), vec![]).is_ok());
    assert_eq!(
        TraceSpec::new(strings(&["open"]), strings(&["read"])).err(),
        Some(InvalidOption(InvalidKind::BothLists))
    );
    assert_eq!(
        TraceSpec::new(strings(&["bogus"]), vec![]).err(),
        Some(InvalidOption(InvalidKind::UnknownToTrace))
    );
    assert_eq!(
        TraceSpec::new(vec![], strings(&["bogus"])).err(),
        Some(InvalidOption(InvalidKind::UnknownDontTrace))
    );
}

#[test]
fn should_trace_inclusion() {
    let t = TraceSpec::new(strings(&["open"]), vec![]).unwrap();
    assert!(t.should_trace(Some("open")));
    assert!(!t.should_trace(Some("read")));
    assert!(!t.should_trace(None));
}

#[test]
fn should_trace_exclusion() {
    let t = TraceSpec::new(vec![], strings(&["read"])).unwrap();
    assert!(!t.should_trace(Some("read")));
    assert!(t.should_trace(Some("open")));
    assert!(t.should_trace(None));
}

#[test]
fn should_trace_everything() {
    let t = TraceSpec::all();
    assert!(t.should_trace(Some("read")));
    assert!(t.should_trace(None));
}
