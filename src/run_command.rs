use vstd::prelude::*;

verus! {

/// Signal number of SIGSYS, which the kernel delivers for a syscall outside
/// an installed seccomp allow-list.
pub const SIGSYS: i32 = 31;

/// Raw wait status of a child that exited normally with code 0.
pub const SUCCESS_EXIT_CODE: i32 = 0;

/// How one execution ended.
#[derive(Clone, Copy, Debug, PartialEq, Eq, Structural)]
pub enum ExecResult {
    Success,
    CpuTimeLimitExceeded,
    RealTimeLimitExceeded,
    MemoryLimitExceeded,
    SyscallLimitExceeded,
    RuntimeError,
}

/// Configuration of one execution. A system call of the allow-list is
/// given by its name (`"read"`, `"exit_group"`, ...).
#[derive(Debug)]
pub struct RunOption<'a> {
    pub cmd: &'a str,
    pub args: Option<Vec<&'a str>>,
    pub jail_path: Option<&'a str>,
    pub exec_path: Option<&'a str>,
    pub uid: Option<u32>,
    pub process_limit: Option<u32>,
    /// kilobytes
    pub memory_limit: Option<u64>,
    /// milliseconds
    pub cpu_time_limit: Option<u64>,
    /// milliseconds
    pub real_time_limit: Option<u64>,
    pub syscall_limit: Option<&'a [&'a str]>,
    /// raw file descriptor
    pub stdin_redirect: Option<u32>,
    /// raw file descriptor
    pub stdout_redirect: Option<u32>,
}

/// The option that runs `cmd` with no argument, no isolation and no limit.
pub open spec fn bare_option<'a>(cmd: &'a str) -> RunOption<'a> {
    RunOption {
        cmd,
        args: None,
        jail_path: None,
        exec_path: None,
        uid: None,
        process_limit: None,
        memory_limit: None,
        cpu_time_limit: None,
        real_time_limit: None,
        syscall_limit: None,
        stdin_redirect: None,
        stdout_redirect: None,
    }
}

impl<'a> RunOption<'a> {
    /// An option that runs `cmd` with no argument, no isolation and no limit.
    pub fn default(cmd: &'a str) -> (r: Self)
        ensures
            r == bare_option(cmd),
    {
        RunOption {
            cmd,
            args: None,
            jail_path: None,
            exec_path: None,
            uid: None,
            process_limit: None,
            memory_limit: None,
            cpu_time_limit: None,
            real_time_limit: None,
            syscall_limit: None,
            stdin_redirect: None,
            stdout_redirect: None,
        }
    }
}

/// Outcome of one execution.
#[derive(Debug)]
pub struct RunResult {
    pub result: ExecResult,
    /// the raw wait status word
    pub exit_code: u32,
    /// user-mode CPU time, milliseconds
    pub cpu_time: u64,
    /// wall-clock time, milliseconds
    pub real_time: u64,
    /// peak resident set, kilobytes
    pub memory: u64,
}

impl RunResult {
    pub fn new(result: ExecResult, exit_code: u32, cpu_time: u64, real_time: u64, memory: u64) -> (r: Self)
        ensures
            r.result == result,
            r.exit_code == exit_code,
            r.cpu_time == cpu_time,
            r.real_time == real_time,
            r.memory == memory,
    {
        RunResult { result, exit_code, real_time, cpu_time, memory }
    }

    /// A successful run that used nothing.
    pub fn default() -> (r: Self)
        ensures
            r.result == ExecResult::Success,
            r.exit_code == 0,
            r.cpu_time == 0,
            r.real_time == 0,
            r.memory == 0,
    {
        RunResult { result: ExecResult::Success, exit_code: 0, real_time: 0, cpu_time: 0, memory: 0 }
    }
}

/// What the parent observed of a reaped child: the raw wait status, the
/// user CPU time and peak resident set from the kernel's rusage, the
/// wall-clock time it measured itself, and whether the cgroup's OOM watcher
/// fired.
#[derive(Clone, Copy, Debug)]
pub struct Observation {
    pub status: i32,
    pub user_sec: u64,
    pub user_usec: u64,
    /// kilobytes
    pub max_rss: u64,
    /// milliseconds
    pub real_time: u64,
    pub oom_killed: bool,
}

/// User CPU milliseconds of an rusage time value, saturated at `u64::MAX`.
pub open spec fn cpu_millis(sec: u64, usec: u64) -> int {
    let t = sec * 1000 + usec / 1000;
    if t > u64::MAX { u64::MAX as int } else { t }
}

/// Whether a raw wait status says that the process died by SIGSYS
/// (with or without a core dump).
pub open spec fn killed_by_sigsys(status: i32) -> bool {
    status & 0x7f == SIGSYS
}

pub open spec fn exceeds(measured: u64, limit: Option<u64>) -> bool {
    match limit {
        Some(l) => measured > l,
        None => false,
    }
}

/// Each violation that an observation shows under an option.
pub open spec fn shows(o: RunOption, obs: Observation, v: ExecResult) -> bool {
    match v {
        ExecResult::Success => true,
        ExecResult::RuntimeError => obs.status != SUCCESS_EXIT_CODE,
        ExecResult::MemoryLimitExceeded => obs.oom_killed || exceeds(obs.max_rss, o.memory_limit),
        ExecResult::RealTimeLimitExceeded => exceeds(obs.real_time, o.real_time_limit),
        ExecResult::CpuTimeLimitExceeded => exceeds(
            cpu_millis(obs.user_sec, obs.user_usec) as u64,
            o.cpu_time_limit,
        ),
        ExecResult::SyscallLimitExceeded => o.syscall_limit is Some && killed_by_sigsys(obs.status),
    }
}

/// Strength of a classification: a stronger one wins over a weaker one.
pub open spec fn strength(v: ExecResult) -> int {
    match v {
        ExecResult::Success => 0,
        ExecResult::RuntimeError => 1,
        ExecResult::MemoryLimitExceeded => 2,
        ExecResult::RealTimeLimitExceeded => 3,
        ExecResult::CpuTimeLimitExceeded => 4,
        ExecResult::SyscallLimitExceeded => 5,
    }
}

/// The classification of an observation: the strongest violation it shows.
pub open spec fn classify(o: RunOption, obs: Observation) -> ExecResult {
    if shows(o, obs, ExecResult::SyscallLimitExceeded) {
        ExecResult::SyscallLimitExceeded
    } else if shows(o, obs, ExecResult::CpuTimeLimitExceeded) {
        ExecResult::CpuTimeLimitExceeded
    } else if shows(o, obs, ExecResult::RealTimeLimitExceeded) {
        ExecResult::RealTimeLimitExceeded
    } else if shows(o, obs, ExecResult::MemoryLimitExceeded) {
        ExecResult::MemoryLimitExceeded
    } else if shows(o, obs, ExecResult::RuntimeError) {
        ExecResult::RuntimeError
    } else {
        ExecResult::Success
    }
}

/// User CPU milliseconds of an rusage time value: `sec * 1000 + usec / 1000`,
/// saturated at `u64::MAX`.
pub fn cpu_time_millis(sec: u64, usec: u64) -> (r: u64)
    ensures
        r == cpu_millis(sec, usec),
{
    let ms = usec / 1000;
    if sec > (u64::MAX - ms) / 1000 {
        u64::MAX
    } else {
        sec * 1000 + ms
    }
}

/// Whether a raw wait status says that the process died by SIGSYS.
pub fn is_sigsys_kill(status: i32) -> (r: bool)
    ensures
        r == killed_by_sigsys(status),
{
    status & 0x7f == SIGSYS
}

/// The CPU-time rlimit, in whole seconds, for a limit in milliseconds:
/// the limit rounded up to a second, and at least one second.
pub fn cpu_rlimit_seconds(cpu_time_limit: u64) -> (r: u64)
    ensures
        r >= 1,
        cpu_time_limit <= r * 1000,
        r == 1 || (r - 1) * 1000 < cpu_time_limit,
        r == rlimit_seconds(cpu_time_limit),
{
    let whole = cpu_time_limit / 1000;
    let secs = if cpu_time_limit % 1000 == 0 { whole } else { whole + 1 };
    if secs < 1 { 1 } else { secs }
}

impl<'a> RunOption<'a> {
    /// The outcome of a run under this option: the strongest violation that
    /// the observation shows, and the measurements, with the raw status as
    /// exit code.
    pub fn outcome(&self, obs: &Observation) -> (r: RunResult)
        ensures
            r.result == classify(*self, *obs),
            r.exit_code == obs.status as u32,
            r.cpu_time == cpu_millis(obs.user_sec, obs.user_usec),
            r.real_time == obs.real_time,
            r.memory == obs.max_rss,
    {
        let cpu_time = cpu_time_millis(obs.user_sec, obs.user_usec);
        let mut res = ExecResult::Success;
        if obs.status != SUCCESS_EXIT_CODE {
            res = ExecResult::RuntimeError;
        }
        if obs.oom_killed {
            res = ExecResult::MemoryLimitExceeded;
        }
        if let Some(memory_limit) = self.memory_limit {
            if obs.max_rss > memory_limit {
                res = ExecResult::MemoryLimitExceeded;
            }
        }
        if let Some(real_time_limit) = self.real_time_limit {
            if obs.real_time > real_time_limit {
                res = ExecResult::RealTimeLimitExceeded;
            }
        }
        if let Some(cpu_time_limit) = self.cpu_time_limit {
            if cpu_time > cpu_time_limit {
                res = ExecResult::CpuTimeLimitExceeded;
            }
        }
        if self.syscall_limit.is_some() {
            if is_sigsys_kill(obs.status) {
                res = ExecResult::SyscallLimitExceeded;
            }
        }
        RunResult::new(res, obs.status as u32, cpu_time, obs.real_time, obs.max_rss)
    }
}

/// Classification precedence: the outcome is a violation that the
/// observation shows, and no violation it shows is stronger; so of two
/// violations that a run shows, the stronger is reported.
pub proof fn lemma_classification_precedence(o: RunOption, obs: Observation, v: ExecResult)
    requires
        shows(o, obs, v),
    ensures
        shows(o, obs, classify(o, obs)),
        strength(v) <= strength(classify(o, obs)),
        v != classify(o, obs) ==> strength(v) < strength(classify(o, obs)),
{
}

/// One step that the child takes between fork and exec, in order.
#[derive(Clone, Copy, Debug, PartialEq, Eq)]
pub enum ChildStep<'a> {
    /// enter a fresh network namespace
    NewNetworkNamespace,
    /// become the leader of its own process group
    OwnProcessGroup,
    /// duplicate a descriptor onto standard input
    RedirectStdin(u32),
    /// duplicate a descriptor onto standard output
    RedirectStdout(u32),
    /// block until the parent has attached it to the cgroup
    AwaitCgroup,
    /// change root to a directory and the working directory to `/`
    EnterJail(&'a str),
    /// change the working directory
    ChangeDir(&'a str),
    /// drop to an unprivileged user
    DropUid(u32),
    /// install the seccomp allow-list
    InstallSyscallFilter(&'a [&'a str]),
    /// set the CPU-time rlimit, in seconds
    LimitCpu(u64),
    /// replace the image by the command
    Exec,
}

/// The CPU-time rlimit in seconds for a limit in milliseconds.
pub open spec fn rlimit_seconds(ms: u64) -> u64 {
    let s: int = if ms % 1000 == 0 { ms as int / 1000 } else { ms as int / 1000 + 1 };
    if s < 1 { 1 } else { s as u64 }
}

pub open spec fn stdin_step<'a>(o: RunOption<'a>) -> Seq<ChildStep<'a>> {
    match o.stdin_redirect {
        Some(fd) => seq![ChildStep::RedirectStdin(fd)],
        None => seq![],
    }
}

pub open spec fn stdout_step<'a>(o: RunOption<'a>) -> Seq<ChildStep<'a>> {
    match o.stdout_redirect {
        Some(fd) => seq![ChildStep::RedirectStdout(fd)],
        None => seq![],
    }
}

pub open spec fn jail_step<'a>(o: RunOption<'a>) -> Seq<ChildStep<'a>> {
    match o.jail_path {
        Some(p) => seq![ChildStep::EnterJail(p)],
        None => seq![],
    }
}

pub open spec fn chdir_step<'a>(o: RunOption<'a>) -> Seq<ChildStep<'a>> {
    match o.exec_path {
        Some(p) => seq![ChildStep::ChangeDir(p)],
        None => seq![],
    }
}

pub open spec fn uid_step<'a>(o: RunOption<'a>) -> Seq<ChildStep<'a>> {
    match o.uid {
        Some(u) => seq![ChildStep::DropUid(u)],
        None => seq![],
    }
}

pub open spec fn filter_step<'a>(o: RunOption<'a>) -> Seq<ChildStep<'a>> {
    match o.syscall_limit {
        Some(l) => seq![ChildStep::InstallSyscallFilter(l)],
        None => seq![],
    }
}

pub open spec fn cpu_step<'a>(o: RunOption<'a>) -> Seq<ChildStep<'a>> {
    match o.cpu_time_limit {
        Some(ms) => seq![ChildStep::LimitCpu(rlimit_seconds(ms))],
        None => seq![],
    }
}

/// The steps before the child waits for its cgroup: they touch only the
/// child's own namespace, process group and descriptors.
pub open spec fn child_prelude<'a>(o: RunOption<'a>) -> Seq<ChildStep<'a>> {
    seq![ChildStep::NewNetworkNamespace, ChildStep::OwnProcessGroup] + stdin_step(o) + stdout_step(o)
}

/// The confinement steps, after the wait and before exec.
pub open spec fn child_confinement<'a>(o: RunOption<'a>) -> Seq<ChildStep<'a>> {
    jail_step(o) + chdir_step(o) + uid_step(o) + filter_step(o) + cpu_step(o)
}

/// The child's steps under an option.
pub open spec fn child_plan<'a>(o: RunOption<'a>) -> Seq<ChildStep<'a>> {
    child_prelude(o).push(ChildStep::AwaitCgroup) + child_confinement(o).push(ChildStep::Exec)
}

/// Whether a step acts on behalf of the sandboxed program: it changes what
/// the program may see or do, or runs it.
pub open spec fn after_attach(s: ChildStep) -> bool {
    match s {
        ChildStep::EnterJail(_) | ChildStep::ChangeDir(_) | ChildStep::DropUid(_)
        | ChildStep::InstallSyscallFilter(_) | ChildStep::LimitCpu(_) | ChildStep::Exec => true,
        _ => false,
    }
}

impl<'a> RunOption<'a> {
    fn prelude_steps(&self) -> (r: Vec<ChildStep<'a>>)
        ensures
            r@ == child_prelude(*self),
    {
        let mut steps: Vec<ChildStep<'a>> = Vec::new();
        steps.push(ChildStep::NewNetworkNamespace);
        steps.push(ChildStep::OwnProcessGroup);
        if let Some(fd) = self.stdin_redirect {
            steps.push(ChildStep::RedirectStdin(fd));
        }
        if let Some(fd) = self.stdout_redirect {
            steps.push(ChildStep::RedirectStdout(fd));
        }
        assert(steps@ =~= child_prelude(*self));
        steps
    }

    #[verifier::rlimit(60)]
    fn push_confinement_steps(&self, steps: &mut Vec<ChildStep<'a>>)
        ensures
            final(steps)@ == old(steps)@ + child_confinement(*self),
    {
        let ghost start = steps@;
        if let Some(p) = self.jail_path {
            steps.push(ChildStep::EnterJail(p));
        }
        assert(steps@ =~= start + jail_step(*self));
        if let Some(p) = self.exec_path {
            steps.push(ChildStep::ChangeDir(p));
        }
        assert(steps@ =~= start + jail_step(*self) + chdir_step(*self));
        if let Some(u) = self.uid {
            steps.push(ChildStep::DropUid(u));
        }
        assert(steps@ =~= start + jail_step(*self) + chdir_step(*self) + uid_step(*self));
        let ghost mid = steps@;
        if let Some(l) = self.syscall_limit {
            steps.push(ChildStep::InstallSyscallFilter(l));
        }
        assert(steps@ =~= mid + filter_step(*self));
        if let Some(ms) = self.cpu_time_limit {
            steps.push(ChildStep::LimitCpu(cpu_rlimit_seconds(ms)));
        }
        assert(steps@ =~= mid + filter_step(*self) + cpu_step(*self));
        assert(steps@ =~= start + child_confinement(*self));
    }

    /// The steps the child takes between fork and exec, in order.
    pub fn child_steps(&self) -> (r: Vec<ChildStep<'a>>)
        ensures
            r@ == child_plan(*self),
    {
        let mut steps = self.prelude_steps();
        steps.push(ChildStep::AwaitCgroup);
        self.push_confinement_steps(&mut steps);
        steps.push(ChildStep::Exec);
        assert(steps@ =~= child_plan(*self));
        steps
    }
}

proof fn lemma_prelude_and_confinement(o: RunOption)
    ensures
        forall|i: int| 0 <= i < child_prelude(o).len() ==> !after_attach(#[trigger] child_prelude(o)[i])
            && child_prelude(o)[i] != ChildStep::AwaitCgroup,
        forall|i: int| 0 <= i < child_confinement(o).len() ==> after_attach(#[trigger] child_confinement(o)[i])
            && child_confinement(o)[i] != ChildStep::AwaitCgroup
            && child_confinement(o)[i] != ChildStep::Exec,
{
}

/// Ordering of setup: the child waits for its cgroup exactly once, every
/// step on behalf of the sandboxed program comes after that wait and every
/// other step before it, and exec comes once, last; so a child whose
/// attachment failed never reaches exec.
pub proof fn lemma_cgroup_before_user_code(o: RunOption)
    ensures
        ({
            let p = child_plan(o);
            let w = child_prelude(o).len() as int;
            &&& 0 <= w < p.len()
            &&& p[w] == ChildStep::AwaitCgroup
            &&& forall|i: int| 0 <= i < p.len() && i != w ==> #[trigger] p[i] != ChildStep::AwaitCgroup
            &&& forall|i: int| 0 <= i < p.len() ==> (after_attach(#[trigger] p[i]) <==> w < i)
            &&& p.last() == ChildStep::Exec
            &&& forall|i: int| 0 <= i < p.len() - 1 ==> #[trigger] p[i] != ChildStep::Exec
        }),
{
    lemma_prelude_and_confinement(o);
    let pre = child_prelude(o);
    let con = child_confinement(o);
    let p = child_plan(o);
    assert forall|i: int| 0 <= i < p.len() implies (after_attach(#[trigger] p[i]) <==> pre.len() < i)
        && (i != pre.len() ==> p[i] != ChildStep::AwaitCgroup)
        && (i < p.len() - 1 ==> p[i] != ChildStep::Exec) by {
        if i < pre.len() {
            assert(p[i] == pre[i]);
        } else if i > pre.len() && i < p.len() - 1 {
            assert(p[i] == con[i - pre.len() - 1]);
        }
    }
}

/// The limits that the parent gives the cgroup.
#[derive(Clone, Copy, Debug, PartialEq, Eq)]
pub struct CgroupLimits {
    /// memory hard limit, bytes
    pub memory_bytes: Option<i64>,
    pub max_processes: Option<i64>,
}

/// Why the parent cannot set up a run.
#[derive(Clone, Copy, Debug, PartialEq, Eq)]
pub enum SetupError {
    /// the memory limit in bytes does not fit the cgroup's signed 64-bit field
    MemoryLimitTooLarge,
}

impl<'a> RunOption<'a> {
    /// The cgroup limits of this option: the memory limit converted from
    /// kilobytes to bytes, and the process limit.
    pub fn cgroup_limits(&self) -> (r: Result<CgroupLimits, SetupError>)
        ensures
            r is Err <==> (self.memory_limit is Some && self.memory_limit->0 * 1024 > i64::MAX),
            r is Err ==> r->Err_0 == SetupError::MemoryLimitTooLarge,
            r is Ok ==> ({
                let l = r->Ok_0;
                &&& l.memory_bytes is Some <==> self.memory_limit is Some
                &&& l.memory_bytes is Some ==> l.memory_bytes->0 == self.memory_limit->0 * 1024
                &&& l.max_processes is Some <==> self.process_limit is Some
                &&& l.max_processes is Some ==> l.max_processes->0 == self.process_limit->0
            }),
    {
        let memory_bytes = match self.memory_limit {
            Some(kb) => {
                if kb > (i64::MAX as u64) / 1024 {
                    return Err(SetupError::MemoryLimitTooLarge);
                }
                Some((kb * 1024) as i64)
            },
            None => None,
        };
        let max_processes = match self.process_limit {
            Some(n) => Some(n as i64),
            None => None,
        };
        Ok(CgroupLimits { memory_bytes, max_processes })
    }
}

/// A command to run, configured step by step.
pub struct Command<'a> {
    pub option: RunOption<'a>,
    pub result: Option<RunResult>,
}

impl<'a> Command<'a> {
    pub fn new(cmd: &'a str) -> (r: Self)
        ensures
            r.option == bare_option(cmd),
            r.result is None,
    {
        Command { option: RunOption::default(cmd), result: None }
    }

    /// Sets the argv presented to the program.
    pub fn args(&mut self, args: Vec<&'a str>) -> (r: &mut Self)
        ensures
            r.option == (RunOption { args: Some(args), ..old(self).option }),
            r.result == old(self).result,
            *final(self) == *final(r),
    {
        self.option.args = Some(args);
        self
    }

    /// Sets the unprivileged user to drop to before exec.
    pub fn uid(&mut self, uid: u32) -> (r: &mut Self)
        ensures
            r.option == (RunOption { uid: Some(uid), ..old(self).option }),
            r.result == old(self).result,
            *final(self) == *final(r),
    {
        self.option.uid = Some(uid);
        self
    }

    /// Sets the directory that becomes the root before exec.
    pub fn jail_path(&mut self, jail_path: &'a str) -> (r: &mut Self)
        ensures
            r.option == (RunOption { jail_path: Some(jail_path), ..old(self).option }),
            r.result == old(self).result,
            *final(self) == *final(r),
    {
        self.option.jail_path = Some(jail_path);
        self
    }

    /// Sets the working directory before exec.
    pub fn exec_path(&mut self, exec_path: &'a str) -> (r: &mut Self)
        ensures
            r.option == (RunOption { exec_path: Some(exec_path), ..old(self).option }),
            r.result == old(self).result,
            *final(self) == *final(r),
    {
        self.option.exec_path = Some(exec_path);
        self
    }

    /// Sets the largest number of processes in the cgroup.
    pub fn process(&mut self, process: u32) -> (r: &mut Self)
        ensures
            r.option == (RunOption { process_limit: Some(process), ..old(self).option }),
            r.result == old(self).result,
            *final(self) == *final(r),
    {
        self.option.process_limit = Some(process);
        self
    }

    /// Sets the memory limit, in kilobytes.
    pub fn memory(&mut self, memory: u64) -> (r: &mut Self)
        ensures
            r.option == (RunOption { memory_limit: Some(memory), ..old(self).option }),
            r.result == old(self).result,
            *final(self) == *final(r),
    {
        self.option.memory_limit = Some(memory);
        self
    }

    /// Sets the user CPU-time limit, in milliseconds.
    pub fn cpu_time(&mut self, cpu_time: u64) -> (r: &mut Self)
        ensures
            r.option == (RunOption { cpu_time_limit: Some(cpu_time), ..old(self).option }),
            r.result == old(self).result,
            *final(self) == *final(r),
    {
        self.option.cpu_time_limit = Some(cpu_time);
        self
    }

    /// Sets the wall-clock limit, in milliseconds.
    pub fn real_time(&mut self, real_time: u64) -> (r: &mut Self)
        ensures
            r.option == (RunOption { real_time_limit: Some(real_time), ..old(self).option }),
            r.result == old(self).result,
            *final(self) == *final(r),
    {
        self.option.real_time_limit = Some(real_time);
        self
    }

    /// Sets the system calls that the program may make, by name.
    pub fn syscall(&mut self, syscall: &'a [&'a str]) -> (r: &mut Self)
        ensures
            r.option == (RunOption { syscall_limit: Some(syscall), ..old(self).option }),
            r.result == old(self).result,
            *final(self) == *final(r),
    {
        self.option.syscall_limit = Some(syscall);
        self
    }

    /// Sets the descriptor that becomes standard input.
    pub fn stdin(&mut self, fd: u32) -> (r: &mut Self)
        ensures
            r.option == (RunOption { stdin_redirect: Some(fd), ..old(self).option }),
            r.result == old(self).result,
            *final(self) == *final(r),
    {
        self.option.stdin_redirect = Some(fd);
        self
    }

    /// Sets the descriptor that becomes standard output.
    pub fn stdout(&mut self, fd: u32) -> (r: &mut Self)
        ensures
            r.option == (RunOption { stdout_redirect: Some(fd), ..old(self).option }),
            r.result == old(self).result,
            *final(self) == *final(r),
    {
        self.option.stdout_redirect = Some(fd);
        self
    }

    /// Replaces the whole option.
    pub fn option(&mut self, option: RunOption<'a>) -> (r: &mut Self)
        ensures
            r.option == option,
            r.result == old(self).result,
            *final(self) == *final(r),
    {
        self.option = option;
        self
    }
}


/// A run over its wall-clock limit, with no CPU or syscall limit set, is
/// classified as over the wall-clock limit, whatever its status and memory.
pub proof fn lemma_wall_limit_exceeded(o: RunOption, obs: Observation)
    requires
        o.cpu_time_limit is None,
        o.syscall_limit is None,
        o.real_time_limit is Some,
        obs.real_time > o.real_time_limit->0,
    ensures
        classify(o, obs) == ExecResult::RealTimeLimitExceeded,
{
}

/// A run whose user CPU time is over its CPU limit, with no syscall limit
/// set, is classified as over the CPU limit; its reported CPU time is then
/// over the limit, and the child ran under a CPU rlimit of the limit
/// rounded up to whole seconds (one second for a limit of 1000 ms).
pub proof fn lemma_cpu_limit_exceeded(o: RunOption, obs: Observation)
    requires
        o.syscall_limit is None,
        o.cpu_time_limit is Some,
        cpu_millis(obs.user_sec, obs.user_usec) > o.cpu_time_limit->0,
    ensures
        classify(o, obs) == ExecResult::CpuTimeLimitExceeded,
        cpu_millis(obs.user_sec, obs.user_usec) >= o.cpu_time_limit->0,
        rlimit_seconds(1000) == 1,
{
}

/// A run that the OOM watcher saw killed, or whose peak memory is over its
/// memory limit, with no CPU, wall-clock or syscall limit set, is
/// classified as over the memory limit.
pub proof fn lemma_memory_limit_exceeded(o: RunOption, obs: Observation)
    requires
        o.cpu_time_limit is None,
        o.real_time_limit is None,
        o.syscall_limit is None,
        obs.oom_killed || (o.memory_limit is Some && obs.max_rss > o.memory_limit->0),
    ensures
        classify(o, obs) == ExecResult::MemoryLimitExceeded,
{
}

/// A run under a syscall allow-list that died by SIGSYS is classified as a
/// syscall violation, whatever other limit it also went over; the raw
/// status of such a death with a core dump, `128 + SIGSYS`, is one.
pub proof fn lemma_syscall_limit_exceeded(o: RunOption, obs: Observation)
    requires
        o.syscall_limit is Some,
        killed_by_sigsys(obs.status),
    ensures
        classify(o, obs) == ExecResult::SyscallLimitExceeded,
        killed_by_sigsys((128 + SIGSYS) as i32),
{
    assert((159i32 & 0x7f) == 31i32) by (bit_vector);
}

} // verus!
