use oj_judger::cgroups::{cgroup_name, gen_cgroup_name};
use oj_judger::init;
use oj_judger::languages::{Cpp, Language};
use oj_judger::server::MyJudger;
use oj_judger::text::{same_text, split_str};
use oj_judger::timer::unix_timestamp;
use oj_judger::utils::{millis_text, unix_time};

#[test]
fn millis_are_written_in_decimal() {
    assert_eq!(millis_text(0), "0");
    assert_eq!(millis_text(7), "7");
    assert_eq!(millis_text(10), "10");
    assert_eq!(millis_text(1_700_000_000_123), "1700000000123");
    assert_eq!(millis_text(u128::MAX), u128::MAX.to_string());
}

#[test]
fn cgroup_name_holds_the_millis_and_nonce() {
    assert_eq!(cgroup_name(1_700_000_000_123, 0), "oj-cg-1700000000123-0");
    assert_eq!(cgroup_name(0, 42), "oj-cg-0-42");
}

#[test]
fn cgroup_names_of_one_millisecond_differ() {
    assert_ne!(cgroup_name(1_700_000_000_123, 0), cgroup_name(1_700_000_000_123, 1));
    assert_ne!(cgroup_name(12, 3), cgroup_name(1, 23));
    assert_ne!(cgroup_name(1, 0), cgroup_name(10, 0));
}

#[test]
fn clock_helpers_read_the_current_time() {
    let before = unix_timestamp().unwrap();
    assert!(before > 1_600_000_000_000);
    let text = unix_time().unwrap();
    let parsed: u128 = text.parse().unwrap();
    assert!(parsed >= before);
    let name = gen_cgroup_name(7).unwrap();
    assert!(name.starts_with("oj-cg-"));
    assert!(name.ends_with("-7"));
    let stamp: u128 = name["oj-cg-".len()..name.len() - 2].parse().unwrap();
    assert!(stamp >= before);
}

#[test]
fn split_keeps_every_piece() {
    assert_eq!(split_str("g++ main.cpp -o main", ' '), vec!["g++", "main.cpp", "-o", "main"]);
    assert_eq!(split_str("", ' '), vec![""]);
    assert_eq!(split_str("a  b ", ' '), vec!["a", "", "b", ""]);
    assert_eq!(split_str("/usr/bin/python3", ' '), vec!["/usr/bin/python3"]);
}

#[test]
fn same_text_compares_characters() {
    assert!(same_text("abc", "abc"));
    assert!(!same_text("abc", "abd"));
    assert!(!same_text("abc", "ab"));
    assert!(same_text("", ""));
}

#[test]
fn cpp_allows_startup_and_exit_syscalls() {
    let list = Cpp::allowed_syscalls();
    assert_eq!(list.len(), 45);
    for name in ["write", "brk", "mmap", "munmap", "execve"] {
        assert!(list.contains(&name));
    }
    let mut distinct = list.clone();
    distinct.sort();
    distinct.dedup();
    assert_eq!(distinct.len(), 45);
    assert!(list.contains(&"read"));
    assert!(list.contains(&"exit_group"));
    assert!(!list.contains(&"ptrace"));
}

#[test]
fn worker_init_and_service_construct() {
    init();
    let _ = MyJudger::default();
}
