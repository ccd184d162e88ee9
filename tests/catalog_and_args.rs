use stalker::{fetch_syscall_table, parse_invocation, parse_pid, CatalogError, Invocation, SyscallCatalog, UsageError};

fn strings(v: &[&str]) -> Vec<String> {
    v.iter().map(|s| s.to_string()).collect()
}

#[test]
fn table_from_json() {
    let json = r#"{"data": [[0, "read", "sys_read"], [1, "write", "sys_write"], [60, "exit"]]}"#;
    let c = fetch_syscall_table(json).unwrap();
    assert_eq!(c.len(), 3);
    assert_eq!(c.lookup(0), Some("read".to_string()));
    assert_eq!(c.lookup(1), Some("write".to_string()));
    assert_eq!(c.lookup(60), Some("exit".to_string()));
    assert_eq!(c.lookup(2), None);
    assert_eq!(c.display_name(2), "unknown");
}

#[test]
fn table_invalid_json() {
    assert_eq!(fetch_syscall_table("{\"data\": [").err(), Some(CatalogError::InvalidJson));
}

#[test]
fn table_missing_data() {
    assert_eq!(fetch_syscall_table("{\"rows\": []}").err(), Some(CatalogError::MissingData));
    assert_eq!(fetch_syscall_table("{\"data\": 3}").err(), Some(CatalogError::MissingData));
    assert_eq!(fetch_syscall_table("[[0, \"read\"]]").err(), Some(CatalogError::MissingData));
}

#[test]
fn table_malformed_row() {
    assert_eq!(fetch_syscall_table("{\"data\": [[0, \"read\"], [\"x\", \"write\"]]}").err(), Some(CatalogError::MalformedEntry(1)));
    assert_eq!(fetch_syscall_table("{\"data\": [[0]]}").err(), Some(CatalogError::MalformedEntry(0)));
    assert_eq!(fetch_syscall_table("{\"data\": [[0, 5]]}").err(), Some(CatalogError::MalformedEntry(0)));
    assert_eq!(fetch_syscall_table("{\"data\": [[0, \"read\"], [1, \"write\"], [-2, \"open\"], 7]}").err(), Some(CatalogError::MalformedEntry(2)));
}

#[test]
fn table_empty_rows() {
    let c = fetch_syscall_table("{\"other\": 1, \"data\": []}").unwrap();
    assert_eq!(c.len(), 0);
    assert_eq!(c.display_name(0), "unknown");
}

#[test]
fn table_duplicate_rows_keep_later() {
    let c = fetch_syscall_table("{\"data\": [[1, \"a\"], [1, \"b\"]]}").unwrap();
    assert_eq!(c.len(), 1);
    assert_eq!(c.display_name(1), "b");
}

#[test]
fn table_later_entry_wins() {
    let c = SyscallCatalog::from_entries(&vec![(1, "a".to_string()), (2, "b".to_string()), (1, "c".to_string())]);
    assert_eq!(c.len(), 2);
    assert_eq!(c.display_name(1), "c");
    assert_eq!(c.display_name(2), "b");
}

#[test]
fn pid_parsing() {
    assert_eq!(parse_pid("123"), Some(123));
    assert_eq!(parse_pid("1"), Some(1));
    assert_eq!(parse_pid("0"), None);
    assert_eq!(parse_pid("9223372036854775807"), Some(9223372036854775807));
    assert_eq!(parse_pid("9223372036854775808"), None);
    assert_eq!(parse_pid("18446744073709551615"), None);
    assert_eq!(parse_pid("18446744073709551616"), None);
    assert_eq!(parse_pid(""), None);
    assert_eq!(parse_pid("12a"), None);
    assert_eq!(parse_pid("-1"), None);
}

#[test]
fn invocation_attach() {
    match parse_invocation(strings(&["-p", "123"])) {
        Ok(Invocation::Attach(p)) => assert_eq!(p, 123),
        other => panic!("unexpected {:?}", other),
    }
}

#[test]
fn invocation_bad_pid() {
    assert!(matches!(parse_invocation(strings(&["-p", "abc"])), Err(UsageError::BadPid)));
}

#[test]
fn invocation_zero_pid() {
    assert!(matches!(parse_invocation(strings(&["-p", "0"])), Err(UsageError::BadPid)));
}

#[test]
fn invocation_empty() {
    assert!(matches!(parse_invocation(Vec::new()), Err(UsageError::NoCommand)));
}

#[test]
fn invocation_launch() {
    match parse_invocation(strings(&["ls", "-al", "/etc/hosts"])) {
        Ok(Invocation::Launch(cmd)) => assert_eq!(cmd, strings(&["ls", "-al", "/etc/hosts"])),
        other => panic!("unexpected {:?}", other),
    }
}
