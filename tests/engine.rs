use oj_judger::run_command::{
    cpu_rlimit_seconds, cpu_time_millis, is_sigsys_kill, CgroupLimits, ChildStep, Command, ExecResult,
    Observation, RunOption, RunResult, SetupError,
};

fn observation(status: i32, cpu_ms: u64, max_rss: u64, real_time: u64, oom_killed: bool) -> Observation {
    Observation {
        status,
        user_sec: cpu_ms / 1000,
        user_usec: (cpu_ms % 1000) * 1000,
        max_rss,
        real_time,
        oom_killed,
    }
}

const MINIMAL_SYSCALLS: &[&str] = &["read", "write", "exit_group"];

#[test]
fn true_without_limits_succeeds() {
    let option = RunOption::default("/bin/true");
    let r = option.outcome(&observation(0, 0, 1800, 1, false));
    assert_eq!(r.result, ExecResult::Success);
    assert_eq!(r.exit_code, 0);
    assert_eq!(r.cpu_time, 0);
    assert!(r.memory <= 4096);
}

#[test]
fn busy_loop_exceeds_cpu_limit() {
    let mut cmd = Command::new("/bin/sh");
    cmd.args(vec!["sh", "-c", "while :; do :; done"]).cpu_time(500).real_time(2000);
    // killed by SIGXCPU from the one-second rlimit
    let r = cmd.option.outcome(&observation(24, 1003, 900, 1010, false));
    assert_eq!(r.result, ExecResult::CpuTimeLimitExceeded);
    assert!(r.cpu_time >= 500);
}

#[test]
fn sleep_exceeds_real_time_limit() {
    let mut cmd = Command::new("/bin/sleep");
    cmd.args(vec!["sleep", "10"]).real_time(200);
    // killed by SIGKILL from the watchdog
    let r = cmd.option.outcome(&observation(9, 0, 700, 203, false));
    assert_eq!(r.result, ExecResult::RealTimeLimitExceeded);
    assert!(r.real_time >= 200 && r.real_time <= 400);
}

#[test]
fn sleep_twice_the_wall_limit_is_cut_at_the_limit() {
    let w: u64 = 600;
    let mut cmd = Command::new("/bin/sleep");
    cmd.real_time(w / 2);
    let r = cmd.option.outcome(&observation(9, 0, 700, w / 2 + 4, false));
    assert_eq!(r.result, ExecResult::RealTimeLimitExceeded);
    assert_eq!(r.real_time, w / 2 + 4);
}

#[test]
fn busy_loop_at_one_second_exceeds_cpu_limit() {
    let mut cmd = Command::new("/bin/sh");
    cmd.cpu_time(1000);
    let r = cmd.option.outcome(&observation(24, 1004, 900, 1100, false));
    assert_eq!(r.result, ExecResult::CpuTimeLimitExceeded);
    assert!(r.cpu_time >= 1000);
}

#[test]
fn oom_kill_is_memory_limit_exceeded() {
    let mut cmd = Command::new("/usr/bin/python3");
    cmd.args(vec!["python3", "-c", "a=[0]*10_000_000_000"]).memory(65536);
    let r = cmd.option.outcome(&observation(9, 40, 30000, 60, true));
    assert_eq!(r.result, ExecResult::MemoryLimitExceeded);
}

#[test]
fn peak_memory_over_limit_is_memory_limit_exceeded() {
    let mut cmd = Command::new("/a.out");
    cmd.memory(1024);
    let r = cmd.option.outcome(&observation(0, 10, 1025, 20, false));
    assert_eq!(r.result, ExecResult::MemoryLimitExceeded);
    let r = cmd.option.outcome(&observation(0, 10, 1024, 20, false));
    assert_eq!(r.result, ExecResult::Success);
}

#[test]
fn nonzero_exit_is_runtime_error() {
    let mut cmd = Command::new("/bin/sh");
    cmd.args(vec!["sh", "-c", "exit 7"]);
    let r = cmd.option.outcome(&observation(7 << 8, 0, 900, 2, false));
    assert_eq!(r.result, ExecResult::RuntimeError);
    assert_ne!(r.exit_code, 0);
    assert_eq!(r.exit_code, 1792);
}

#[test]
fn disallowed_syscall_is_syscall_limit_exceeded() {
    let mut cmd = Command::new("/a.out");
    cmd.syscall(MINIMAL_SYSCALLS);
    let r = cmd.option.outcome(&observation(159, 0, 500, 1, false));
    assert_eq!(r.result, ExecResult::SyscallLimitExceeded);
    assert_eq!(r.exit_code, 128 + 31);
    // the same status without a filter is an ordinary runtime error
    let r = RunOption::default("/a.out").outcome(&observation(159, 0, 500, 1, false));
    assert_eq!(r.result, ExecResult::RuntimeError);
}

#[test]
fn sigsys_without_core_dump_is_recognised() {
    assert!(is_sigsys_kill(159));
    assert!(is_sigsys_kill(31));
    assert!(!is_sigsys_kill(0));
    assert!(!is_sigsys_kill(9));
    assert!(!is_sigsys_kill(31 << 8));
}

#[test]
fn stronger_violation_wins() {
    let mut cmd = Command::new("/a.out");
    cmd.memory(1000).cpu_time(1000).real_time(1000).syscall(MINIMAL_SYSCALLS);
    let o = &cmd.option;
    // syscall over everything
    assert_eq!(o.outcome(&observation(159, 2000, 2000, 2000, true)).result, ExecResult::SyscallLimitExceeded);
    // cpu over wall, memory and runtime error
    assert_eq!(o.outcome(&observation(9, 2000, 2000, 2000, true)).result, ExecResult::CpuTimeLimitExceeded);
    // wall over memory and runtime error
    assert_eq!(o.outcome(&observation(9, 10, 2000, 2000, true)).result, ExecResult::RealTimeLimitExceeded);
    // memory over runtime error
    assert_eq!(o.outcome(&observation(9, 10, 2000, 10, false)).result, ExecResult::MemoryLimitExceeded);
    assert_eq!(o.outcome(&observation(9, 10, 10, 10, true)).result, ExecResult::MemoryLimitExceeded);
    // runtime error over success
    assert_eq!(o.outcome(&observation(9, 10, 10, 10, false)).result, ExecResult::RuntimeError);
    assert_eq!(o.outcome(&observation(0, 10, 10, 10, false)).result, ExecResult::Success);
}

#[test]
fn limits_at_their_bound_are_not_exceeded() {
    let mut cmd = Command::new("/a.out");
    cmd.memory(1000).cpu_time(1000).real_time(1000);
    let r = cmd.option.outcome(&observation(0, 1000, 1000, 1000, false));
    assert_eq!(r.result, ExecResult::Success);
}

#[test]
fn measurements_are_reported_as_observed() {
    let r = RunOption::default("/a.out").outcome(&Observation {
        status: 0,
        user_sec: 2,
        user_usec: 345_678,
        max_rss: 5120,
        real_time: 2400,
        oom_killed: false,
    });
    assert_eq!(r.cpu_time, 2345);
    assert_eq!(r.real_time, 2400);
    assert_eq!(r.memory, 5120);
    assert!(r.real_time >= r.cpu_time);
}

#[test]
fn cpu_time_is_user_milliseconds() {
    assert_eq!(cpu_time_millis(0, 0), 0);
    assert_eq!(cpu_time_millis(0, 999), 0);
    assert_eq!(cpu_time_millis(1, 1000), 1001);
    assert_eq!(cpu_time_millis(3, 999_999), 3999);
    assert_eq!(cpu_time_millis(u64::MAX, 0), u64::MAX);
    assert_eq!(cpu_time_millis(u64::MAX / 1000, 999_999), u64::MAX);
}

#[test]
fn cpu_rlimit_rounds_up_to_whole_seconds() {
    assert_eq!(cpu_rlimit_seconds(0), 1);
    assert_eq!(cpu_rlimit_seconds(500), 1);
    assert_eq!(cpu_rlimit_seconds(1000), 1);
    assert_eq!(cpu_rlimit_seconds(1001), 2);
    assert_eq!(cpu_rlimit_seconds(2500), 3);
    assert_eq!(cpu_rlimit_seconds(u64::MAX), u64::MAX / 1000 + 1);
}

#[test]
fn cgroup_limits_convert_kilobytes_to_bytes() {
    let mut cmd = Command::new("/a.out");
    cmd.memory(1024).process(5);
    assert_eq!(
        cmd.option.cgroup_limits(),
        Ok(CgroupLimits { memory_bytes: Some(1_048_576), max_processes: Some(5) })
    );
    assert_eq!(
        RunOption::default("/a.out").cgroup_limits(),
        Ok(CgroupLimits { memory_bytes: None, max_processes: None })
    );
    let mut big = Command::new("/a.out");
    big.memory(u64::MAX);
    assert_eq!(big.option.cgroup_limits(), Err(SetupError::MemoryLimitTooLarge));
    let mut edge = Command::new("/a.out");
    edge.memory((i64::MAX as u64) / 1024);
    assert_eq!(
        edge.option.cgroup_limits(),
        Ok(CgroupLimits { memory_bytes: Some(((i64::MAX as u64) / 1024 * 1024) as i64), max_processes: None })
    );
}

#[test]
fn child_steps_of_a_bare_command() {
    let steps = RunOption::default("/bin/true").child_steps();
    assert_eq!(
        steps,
        vec![ChildStep::NewNetworkNamespace, ChildStep::OwnProcessGroup, ChildStep::AwaitCgroup, ChildStep::Exec]
    );
}

#[test]
fn child_steps_confine_only_after_cgroup_attach() {
    let mut cmd = Command::new("/main");
    cmd.stdin(3)
        .stdout(4)
        .jail_path("/jail")
        .exec_path("/work")
        .uid(1002)
        .syscall(MINIMAL_SYSCALLS)
        .cpu_time(1500);
    let steps = cmd.option.child_steps();
    assert_eq!(
        steps,
        vec![
            ChildStep::NewNetworkNamespace,
            ChildStep::OwnProcessGroup,
            ChildStep::RedirectStdin(3),
            ChildStep::RedirectStdout(4),
            ChildStep::AwaitCgroup,
            ChildStep::EnterJail("/jail"),
            ChildStep::ChangeDir("/work"),
            ChildStep::DropUid(1002),
            ChildStep::InstallSyscallFilter(MINIMAL_SYSCALLS),
            ChildStep::LimitCpu(2),
            ChildStep::Exec,
        ]
    );
    let wait = steps.iter().position(|s| *s == ChildStep::AwaitCgroup).unwrap();
    let exec = steps.iter().position(|s| *s == ChildStep::Exec).unwrap();
    assert!(wait < exec);
    assert_eq!(exec, steps.len() - 1);
}

#[test]
fn builder_sets_each_field() {
    let mut cmd = Command::new("./tmp.zmm");
    cmd.args(vec!["tmp", "go", "run", "tmp.go"])
        .memory(1024 * 1024)
        .cpu_time(200000)
        .real_time(500000)
        .uid(1002)
        .process(1);
    let o = &cmd.option;
    assert_eq!(o.cmd, "./tmp.zmm");
    assert_eq!(o.args, Some(vec!["tmp", "go", "run", "tmp.go"]));
    assert_eq!(o.memory_limit, Some(1024 * 1024));
    assert_eq!(o.cpu_time_limit, Some(200000));
    assert_eq!(o.real_time_limit, Some(500000));
    assert_eq!(o.uid, Some(1002));
    assert_eq!(o.process_limit, Some(1));
    assert_eq!(o.jail_path, None);
    assert_eq!(o.syscall_limit, None);
    assert!(cmd.result.is_none());
    let mut replaced = Command::new("/x");
    replaced.option(RunOption::default("/y"));
    assert_eq!(replaced.option.cmd, "/y");
}

#[test]
fn run_result_constructors() {
    let r = RunResult::new(ExecResult::RuntimeError, 256, 3, 4, 5);
    assert_eq!(r.result, ExecResult::RuntimeError);
    assert_eq!((r.exit_code, r.cpu_time, r.real_time, r.memory), (256, 3, 4, 5));
    let d = RunResult::default();
    assert_eq!(d.result, ExecResult::Success);
    assert_eq!((d.exit_code, d.cpu_time, d.real_time, d.memory), (0, 0, 0, 0));
}
