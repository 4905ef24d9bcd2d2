//! Verdicts of a submission: the status of one test case from the engine's
//! outcome, and the aggregate over the cases judged so far.
use vstd::prelude::*;

use crate::run_command::{ExecResult, RunResult};
use crate::text::same_text;

verus! {

/// A submission to judge.
#[derive(Debug)]
pub struct JudgeInfo {
    pub submission_id: String,
    pub compile_cmd: Option<String>,
    pub run_cmd: String,
    pub src_file_name: String,
    pub language: String,
    pub code: String,
    pub problem_id: String,
    pub data_version: String,
    /// milliseconds
    pub cpu_time_limit: u64,
    /// milliseconds
    pub real_time_limit: u64,
    /// kilobytes
    pub memory_limit: u64,
}

/// Status of one test case.
#[derive(Clone, Copy, Debug, PartialEq, Eq, Structural)]
pub enum SingleJudgeStatus {
    Accepted,
    WrongAnswer,
    RuntimeError,
    TimeLimitExceeded,
    MemoryLimitExceeded,
}

/// The status of a test case whose run ended with `r`; `output_matches`
/// tells whether the output matched the expected one, and is looked at only
/// for a successful run.
pub open spec fn case_status(r: ExecResult, output_matches: bool) -> SingleJudgeStatus {
    match r {
        ExecResult::Success => if output_matches {
            SingleJudgeStatus::Accepted
        } else {
            SingleJudgeStatus::WrongAnswer
        },
        ExecResult::CpuTimeLimitExceeded | ExecResult::RealTimeLimitExceeded => SingleJudgeStatus::TimeLimitExceeded,
        ExecResult::MemoryLimitExceeded => SingleJudgeStatus::MemoryLimitExceeded,
        ExecResult::SyscallLimitExceeded | ExecResult::RuntimeError => SingleJudgeStatus::RuntimeError,
    }
}

impl SingleJudgeStatus {
    /// The status of a test case whose run ended with `result`;
    /// `output_matches` is looked at only for a successful run.
    pub fn of_run(result: ExecResult, output_matches: bool) -> (r: Self)
        ensures
            r == case_status(result, output_matches),
    {
        match result {
            ExecResult::Success => if output_matches {
                SingleJudgeStatus::Accepted
            } else {
                SingleJudgeStatus::WrongAnswer
            },
            ExecResult::CpuTimeLimitExceeded => SingleJudgeStatus::TimeLimitExceeded,
            ExecResult::RealTimeLimitExceeded => SingleJudgeStatus::TimeLimitExceeded,
            ExecResult::MemoryLimitExceeded => SingleJudgeStatus::MemoryLimitExceeded,
            ExecResult::SyscallLimitExceeded => SingleJudgeStatus::RuntimeError,
            ExecResult::RuntimeError => SingleJudgeStatus::RuntimeError,
        }
    }
}

/// Status and measurements of one test case.
#[derive(Clone, Copy, Debug)]
pub struct SingleJudgeResult {
    pub status: SingleJudgeStatus,
    pub exit_code: u32,
    pub cpu_time: u64,
    pub real_time: u64,
    pub memory: u64,
}

impl SingleJudgeResult {
    /// A test case's result: `status` with the measurements of its run.
    pub fn from_run_result(status: SingleJudgeStatus, run_result: &RunResult) -> (r: Self)
        ensures
            r.status == status,
            r.exit_code == run_result.exit_code,
            r.cpu_time == run_result.cpu_time,
            r.real_time == run_result.real_time,
            r.memory == run_result.memory,
    {
        SingleJudgeResult {
            status,
            exit_code: run_result.exit_code,
            cpu_time: run_result.cpu_time,
            real_time: run_result.real_time,
            memory: run_result.memory,
        }
    }
}

/// Status of a whole submission.
#[derive(Clone, Copy, Debug, PartialEq, Eq, Structural)]
pub enum JudgeStatus {
    Accepted,
    CompileError,
    Judging,
    MemoryLimitExceeded,
    RuntimeError,
    SystemError,
    TimeLimitExceeded,
    WrongAnswer,
}

/// The name of a status, as it is written out.
pub open spec fn status_name(s: JudgeStatus) -> Seq<char> {
    match s {
        JudgeStatus::Accepted => "Accepted"@,
        JudgeStatus::CompileError => "CompileError"@,
        JudgeStatus::Judging => "Judging"@,
        JudgeStatus::MemoryLimitExceeded => "MemoryLimitExceeded"@,
        JudgeStatus::RuntimeError => "RuntimeError"@,
        JudgeStatus::SystemError => "SystemError"@,
        JudgeStatus::TimeLimitExceeded => "TimeLimitExceeded"@,
        JudgeStatus::WrongAnswer => "WrongAnswer"@,
    }
}

/// The submission status that a test case's status stands for.
pub open spec fn submission_status(s: SingleJudgeStatus) -> JudgeStatus {
    match s {
        SingleJudgeStatus::Accepted => JudgeStatus::Accepted,
        SingleJudgeStatus::WrongAnswer => JudgeStatus::WrongAnswer,
        SingleJudgeStatus::RuntimeError => JudgeStatus::RuntimeError,
        SingleJudgeStatus::TimeLimitExceeded => JudgeStatus::TimeLimitExceeded,
        SingleJudgeStatus::MemoryLimitExceeded => JudgeStatus::MemoryLimitExceeded,
    }
}

impl JudgeStatus {
    /// The name of this status.
    pub fn name(&self) -> (r: &'static str)
        ensures
            r@ == status_name(*self),
    {
        match self {
            JudgeStatus::Accepted => "Accepted",
            JudgeStatus::CompileError => "CompileError",
            JudgeStatus::Judging => "Judging",
            JudgeStatus::MemoryLimitExceeded => "MemoryLimitExceeded",
            JudgeStatus::RuntimeError => "RuntimeError",
            JudgeStatus::SystemError => "SystemError",
            JudgeStatus::TimeLimitExceeded => "TimeLimitExceeded",
            JudgeStatus::WrongAnswer => "WrongAnswer",
        }
    }

    /// The status with name `s`, if there is one.
    pub fn parse(s: &str) -> (r: Option<Self>)
        ensures
            r is Some ==> status_name(r->0) == s@,
            r is None ==> forall|st: JudgeStatus| status_name(st) != s@,
    {
        if same_text(s, "Accepted") {
            Some(JudgeStatus::Accepted)
        } else if same_text(s, "CompileError") {
            Some(JudgeStatus::CompileError)
        } else if same_text(s, "Judging") {
            Some(JudgeStatus::Judging)
        } else if same_text(s, "MemoryLimitExceeded") {
            Some(JudgeStatus::MemoryLimitExceeded)
        } else if same_text(s, "RuntimeError") {
            Some(JudgeStatus::RuntimeError)
        } else if same_text(s, "SystemError") {
            Some(JudgeStatus::SystemError)
        } else if same_text(s, "TimeLimitExceeded") {
            Some(JudgeStatus::TimeLimitExceeded)
        } else if same_text(s, "WrongAnswer") {
            Some(JudgeStatus::WrongAnswer)
        } else {
            None
        }
    }
}

/// No two statuses share a name; so by the contracts of `parse` and
/// `from_str`, the name of a status reads back as that status.
pub proof fn lemma_status_names_distinct(a: JudgeStatus, b: JudgeStatus)
    ensures
        status_name(a) == status_name(b) ==> a == b,
{
    reveal_strlit("Accepted");
    reveal_strlit("CompileError");
    reveal_strlit("Judging");
    reveal_strlit("MemoryLimitExceeded");
    reveal_strlit("RuntimeError");
    reveal_strlit("SystemError");
    reveal_strlit("TimeLimitExceeded");
    reveal_strlit("WrongAnswer");
    if status_name(a) == status_name(b) {
        assert(status_name(a)[0] == status_name(b)[0]);
        assert(status_name(a).len() == status_name(b).len());
    }
}

impl From<SingleJudgeStatus> for JudgeStatus {
    fn from(status: SingleJudgeStatus) -> (r: Self) {
        match status {
            SingleJudgeStatus::Accepted => JudgeStatus::Accepted,
            SingleJudgeStatus::WrongAnswer => JudgeStatus::WrongAnswer,
            SingleJudgeStatus::RuntimeError => JudgeStatus::RuntimeError,
            SingleJudgeStatus::TimeLimitExceeded => JudgeStatus::TimeLimitExceeded,
            SingleJudgeStatus::MemoryLimitExceeded => JudgeStatus::MemoryLimitExceeded,
        }
    }
}

impl vstd::std_specs::convert::FromSpecImpl<SingleJudgeStatus> for JudgeStatus {
    open spec fn obeys_from_spec() -> bool {
        true
    }

    open spec fn from_spec(v: SingleJudgeStatus) -> JudgeStatus {
        submission_status(v)
    }
}

impl std::str::FromStr for JudgeStatus {
    type Err = ();

    fn from_str(s: &str) -> (r: Result<Self, Self::Err>)
        ensures
            r is Ok ==> status_name(r->Ok_0) == s@,
            r is Err ==> forall|st: JudgeStatus| status_name(st) != s@,
    {
        match JudgeStatus::parse(s) {
            Some(st) => Ok(st),
            None => Err(()),
        }
    }
}

/// Verdict of a whole submission.
#[derive(Debug)]
pub struct JudgeResult {
    pub submission_id: String,
    pub status: JudgeStatus,
    pub exit_code: u32,
    pub cpu_time: u64,
    pub real_time: u64,
    pub memory: u64,
    pub results: Vec<SingleJudgeResult>,
    pub msg: Option<String>,
}

impl JudgeResult {
    pub fn new(
        submission_id: String,
        status: JudgeStatus,
        exit_code: u32,
        cpu_time: u64,
        real_time: u64,
        memory: u64,
        results: Vec<SingleJudgeResult>,
        msg: Option<String>,
    ) -> (r: Self)
        ensures
            r.submission_id == submission_id,
            r.status == status,
            r.exit_code == exit_code,
            r.cpu_time == cpu_time,
            r.real_time == real_time,
            r.memory == memory,
            r.results == results,
            r.msg == msg,
    {
        JudgeResult { submission_id, status, exit_code, cpu_time, real_time, memory, results, msg }
    }

    /// The verdict of a submission that did not compile, with the
    /// compiler's output as message.
    pub fn compilation_failed(submission_id: String, msg: String) -> (r: Self)
        ensures
            r.submission_id == submission_id,
            r.status == JudgeStatus::CompileError,
            r.exit_code == 0 && r.cpu_time == 0 && r.real_time == 0 && r.memory == 0,
            r.results@ == Seq::<SingleJudgeResult>::empty(),
            r.msg == Some(msg),
    {
        JudgeResult::new(submission_id, JudgeStatus::CompileError, 0, 0, 0, 0, Vec::new(), Some(msg))
    }

    /// The verdict of a submission that the judge could not handle.
    pub fn judge_failed(submission_id: String, msg: Option<String>) -> (r: Self)
        ensures
            r.submission_id == submission_id,
            r.status == JudgeStatus::SystemError,
            r.exit_code == 0 && r.cpu_time == 0 && r.real_time == 0 && r.memory == 0,
            r.results@ == Seq::<SingleJudgeResult>::empty(),
            r.msg == msg,
    {
        JudgeResult::new(submission_id, JudgeStatus::SystemError, 0, 0, 0, 0, Vec::new(), msg)
    }
}

/// The largest of a sequence of numbers, 0 for none.
pub open spec fn peak(s: Seq<u64>) -> u64
    decreases s.len(),
{
    if s.len() == 0 {
        0
    } else {
        let m = peak(s.drop_last());
        if m < s.last() { s.last() } else { m }
    }
}

pub open spec fn cpu_times(s: Seq<SingleJudgeResult>) -> Seq<u64> {
    s.map_values(|r: SingleJudgeResult| r.cpu_time)
}

pub open spec fn real_times(s: Seq<SingleJudgeResult>) -> Seq<u64> {
    s.map_values(|r: SingleJudgeResult| r.real_time)
}

pub open spec fn memories(s: Seq<SingleJudgeResult>) -> Seq<u64> {
    s.map_values(|r: SingleJudgeResult| r.memory)
}

/// Whether judging stops after these cases: the last one was not accepted.
pub open spec fn verdict_reached(s: Seq<SingleJudgeResult>) -> bool {
    s.len() > 0 && s.last().status != SingleJudgeStatus::Accepted
}

/// The status of a submission whose judged cases are `s`: that of the case
/// that was not accepted, or accepted.
pub open spec fn verdict(s: Seq<SingleJudgeResult>) -> JudgeStatus {
    if verdict_reached(s) {
        submission_status(s.last().status)
    } else {
        JudgeStatus::Accepted
    }
}

/// The test cases of one submission judged so far, in order. Judging stops
/// at the first case that is not accepted.
pub struct JudgeProgress {
    results: Vec<SingleJudgeResult>,
    max_cpu_time: u64,
    max_real_time: u64,
    max_memory: u64,
}

impl View for JudgeProgress {
    type V = Seq<SingleJudgeResult>;

    closed spec fn view(&self) -> Seq<SingleJudgeResult> {
        self.results@
    }
}

proof fn lemma_push_maps(s: Seq<SingleJudgeResult>, r: SingleJudgeResult)
    ensures
        cpu_times(s.push(r)) == cpu_times(s).push(r.cpu_time),
        real_times(s.push(r)) == real_times(s).push(r.real_time),
        memories(s.push(r)) == memories(s).push(r.memory),
{
    assert(cpu_times(s.push(r)) =~= cpu_times(s).push(r.cpu_time));
    assert(real_times(s.push(r)) =~= real_times(s).push(r.real_time));
    assert(memories(s.push(r)) =~= memories(s).push(r.memory));
}

impl JudgeProgress {
    /// The running maxima agree with the cases, and only the last case may
    /// be other than accepted.
    pub closed spec fn wf(&self) -> bool {
        &&& self.max_cpu_time == peak(cpu_times(self.results@))
        &&& self.max_real_time == peak(real_times(self.results@))
        &&& self.max_memory == peak(memories(self.results@))
        &&& forall|i: int| 0 <= i < self.results@.len() - 1
            ==> (#[trigger] self.results@[i]).status == SingleJudgeStatus::Accepted
    }

    /// Nothing judged yet.
    pub fn new() -> (r: Self)
        ensures
            r.wf(),
            r@ == Seq::<SingleJudgeResult>::empty(),
    {
        let r = JudgeProgress { results: Vec::new(), max_cpu_time: 0, max_real_time: 0, max_memory: 0 };
        assert(cpu_times(r.results@) =~= Seq::<u64>::empty());
        assert(real_times(r.results@) =~= Seq::<u64>::empty());
        assert(memories(r.results@) =~= Seq::<u64>::empty());
        r
    }

    /// Whether judging has stopped.
    pub fn is_done(&self) -> (r: bool)
        ensures
            r == verdict_reached(self@),
    {
        let n = self.results.len();
        n > 0 && self.results[n - 1].status != SingleJudgeStatus::Accepted
    }

    /// Records the result of the next case, unless judging has stopped;
    /// returns whether judging goes on.
    pub fn record(&mut self, r: SingleJudgeResult) -> (more: bool)
        requires
            old(self).wf(),
        ensures
            final(self).wf(),
            verdict_reached(old(self)@) ==> final(self)@ == old(self)@,
            !verdict_reached(old(self)@) ==> final(self)@ == old(self)@.push(r),
            more == !verdict_reached(final(self)@),
            forall|i: int| 0 <= i < final(self)@.len() - 1
                ==> (#[trigger] final(self)@[i]).status == SingleJudgeStatus::Accepted,
    {
        if self.is_done() {
            return false;
        }
        proof { lemma_push_maps(self.results@, r); }
        if self.max_cpu_time < r.cpu_time {
            self.max_cpu_time = r.cpu_time;
        }
        if self.max_real_time < r.real_time {
            self.max_real_time = r.real_time;
        }
        if self.max_memory < r.memory {
            self.max_memory = r.memory;
        }
        self.results.push(r);
        proof {
            assert(self.results@.drop_last() =~= old(self).results@);
            assert(cpu_times(self.results@).drop_last() =~= cpu_times(old(self).results@));
            assert(real_times(self.results@).drop_last() =~= real_times(old(self).results@));
            assert(memories(self.results@).drop_last() =~= memories(old(self).results@));
        }
        r.status == SingleJudgeStatus::Accepted
    }

    /// The verdict over the cases judged: the status and exit code of the
    /// case that was not accepted (accepted and 0 where every case was), the
    /// largest CPU time, wall time and memory over all cases, and the cases.
    pub fn finish(self, submission_id: String) -> (r: JudgeResult)
        requires
            self.wf(),
        ensures
            r.submission_id == submission_id,
            r.status == verdict(self@),
            r.exit_code == (if verdict_reached(self@) { self@.last().exit_code } else { 0 }),
            r.cpu_time == peak(cpu_times(self@)),
            r.real_time == peak(real_times(self@)),
            r.memory == peak(memories(self@)),
            r.results@ == self@,
            r.msg is None,
    {
        let done = self.is_done();
        let (status, exit_code) = if done {
            let last = self.results[self.results.len() - 1];
            (JudgeStatus::from(last.status), last.exit_code)
        } else {
            (JudgeStatus::Accepted, 0)
        };
        JudgeResult::new(
            submission_id,
            status,
            exit_code,
            self.max_cpu_time,
            self.max_real_time,
            self.max_memory,
            self.results,
            None,
        )
    }
}

} // verus!
