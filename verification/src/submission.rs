//! The lifecycle of one submission whose test cases are run by the caller.
//!
//! A submission is queued, then running, then judged. While it is running
//! the caller runs its test cases, side by side if it likes, and reports each
//! outcome under the index of its case; the order in which they come in does
//! not matter. The caller gets a judgment only when every case is settled:
//! no partial judgment is ever handed out, and none at all once the
//! submission is cancelled.

use crate::error::SandboxError;
use crate::judge::{Judge, JudgeResult, compile_failure, expired, judged, not_run, scored};
use crate::model::{
    CaseView, ExecutionResult, FailurePolicy, Limits, TestCase, TestCaseResult, TestCaseView,
    case_views, result_views,
};
use vstd::prelude::*;

verus! {

/// Milliseconds to wait before a case is run again after a host error.
pub const RETRY_DELAY_MS: u64 = 100;

/// Where a submission stands.
#[derive(Clone, Copy, Debug, PartialEq, Eq, Structural)]
pub enum Phase {
    /// Accepted for judging; nothing has been run.
    Queued,
    /// The test cases are being run.
    Running,
    /// Every case is settled and the judgment has been handed out.
    Judged,
    /// Cancelled by the caller; what had been recorded is discarded.
    Cancelled,
    /// Given up because of a configuration or host error.
    Failed,
}

/// What the caller is to do after an event.
#[derive(Debug)]
pub enum Step {
    /// Go on: outcomes of other cases are awaited.
    Await,
    /// Run the case with this index once more, after waiting `delay_ms`.
    Retry { index: usize, delay_ms: u64 },
    /// The submission is judged; this is its judgment.
    Judged(JudgeResult),
    /// The submission has failed as a whole with this error.
    Failed(SandboxError),
    /// The event did not apply and changed nothing.
    Ignored,
}

/// One submission on its way from queued to judged.
pub struct Submission {
    cases: Vec<TestCase>,
    limits: Limits,
    policy: FailurePolicy,
    phase: Phase,
    slots: Vec<Option<TestCaseResult>>,
    retried: Vec<bool>,
}

/// The view of a slot: the view of the result it holds, if any.
pub open spec fn slot_view(slot: Option<TestCaseResult>) -> Option<CaseView> {
    match slot {
        Some(r) => Some(r@),
        None => None,
    }
}

/// The views of a sequence of slots, in order.
pub open spec fn slot_views(slots: Seq<Option<TestCaseResult>>) -> Seq<Option<CaseView>> {
    Seq::new(slots.len(), |i: int| slot_view(slots[i]))
}

/// Whether every case has a recorded result.
pub open spec fn all_recorded(recorded: Seq<Option<CaseView>>) -> bool {
    forall|i: int| 0 <= i < recorded.len() ==> (#[trigger] recorded[i]) is Some
}

/// The full result set of a submission that is closed with some cases
/// unsettled: what was recorded stays, and each unsettled case is recorded
/// as cut off by the wall clock if the submission timed out, and as not run
/// otherwise.
pub open spec fn completed(
    recorded: Seq<Option<CaseView>>,
    cases: Seq<TestCaseView>,
    timed_out: bool,
) -> Seq<CaseView> {
    Seq::new(
        recorded.len(),
        |i: int|
            match recorded[i] {
                Some(r) => r,
                None => if timed_out {
                    expired(cases[i])
                } else {
                    not_run(cases[i])
                },
            },
    )
}

/// Settles what is open in `slots` and hands the results out in the order of
/// the cases.
fn complete(cases: &Vec<TestCase>, slots: Vec<Option<TestCaseResult>>, timed_out: bool) -> (out:
    Vec<TestCaseResult>)
    requires
        slots@.len() == cases@.len(),
    ensures
        result_views(out@) == completed(slot_views(slots@), case_views(cases@), timed_out),
{
    let judge = Judge::new();
    let ghost recorded = slot_views(slots@);
    let ghost all = completed(recorded, case_views(cases@), timed_out);
    let n = cases.len();
    let mut slots = slots;
    let mut out: Vec<TestCaseResult> = Vec::new();
    let mut i: usize = 0;
    while i < n
        invariant
            n == cases@.len(),
            slots@.len() == n,
            recorded.len() == n,
            all == completed(recorded, case_views(cases@), timed_out),
            i <= n,
            out@.len() == i,
            forall|j: int| i <= j < n ==> slot_view(#[trigger] slots@[j]) == recorded[j],
            forall|j: int| 0 <= j < i ==> (#[trigger] out@[j])@ == all[j],
        decreases n - i,
    {
        let taken = slots[i].take();
        let result = match taken {
            Some(result) => result,
            None => if timed_out {
                judge.score_expired(&cases[i])
            } else {
                judge.score_not_run(&cases[i])
            },
        };
        out.push(result);
        i = i + 1;
    }
    assert(result_views(out@) =~= all);
    out
}

impl Submission {
    #[verifier::type_invariant]
    spec fn slots_match_cases(self) -> bool {
        self.phase == Phase::Running ==> self.slots@.len() == self.cases@.len()
            && self.retried@.len() == self.cases@.len()
    }

    /// Where the submission stands.
    pub closed spec fn phase(&self) -> Phase {
        self.phase
    }

    /// The test cases, in order.
    pub closed spec fn cases(&self) -> Seq<TestCaseView> {
        case_views(self.cases@)
    }

    /// The limits under which the submission is judged.
    pub closed spec fn limits(&self) -> Limits {
        self.limits
    }

    /// What happens once a case has failed.
    pub closed spec fn policy(&self) -> FailurePolicy {
        self.policy
    }

    /// For each case, the result recorded for it so far. Nothing counts as
    /// recorded unless the submission is running.
    pub closed spec fn recorded(&self) -> Seq<Option<CaseView>> {
        if self.phase == Phase::Running {
            slot_views(self.slots@)
        } else {
            Seq::new(self.cases@.len(), |i: int| None)
        }
    }

    /// For each case, whether it has been run again after a host error.
    pub closed spec fn retried(&self) -> Seq<bool> {
        if self.phase == Phase::Running {
            self.retried@
        } else {
            Seq::new(self.cases@.len(), |i: int| false)
        }
    }

    /// Whether an outcome for the case `index` is awaited.
    pub open spec fn awaits(&self, index: int) -> bool {
        &&& self.phase() == Phase::Running
        &&& 0 <= index < self.cases().len()
        &&& self.recorded()[index] is None
    }

    /// What recording the result `r` for the case `index` leads to. If that
    /// settles the last open case, or if `r` did not pass and the policy is
    /// to stop at the first failure, the submission is judged on what is
    /// recorded, the open cases counting as not run. Otherwise the result is
    /// recorded and the submission goes on running.
    pub open spec fn settles(&self, after: &Submission, index: int, r: CaseView, step: Step)
        -> bool {
        let now = self.recorded().update(index, Some(r));
        if all_recorded(now) || (self.policy() == FailurePolicy::StopOnFirstFailure && !r.passed) {
            &&& after.phase() == Phase::Judged
            &&& step matches Step::Judged(judgment)
            &&& judgment@ == judged(
                completed(now, self.cases(), false),
                self.limits().wall_clock_ms,
                self.limits().memory_mb,
            )
        } else {
            &&& after.phase() == Phase::Running
            &&& step is Await
            &&& after.recorded() == now
            &&& after.retried() == self.retried()
        }
    }

    /// A queued submission of `code`'s test cases.
    pub fn new(cases: Vec<TestCase>, limits: Limits, policy: FailurePolicy) -> (s: Self)
        ensures
            s.phase() == Phase::Queued,
            s.cases() == case_views(cases@),
            s.limits() == limits,
            s.policy() == policy,
    {
        Submission {
            cases,
            limits,
            policy,
            phase: Phase::Queued,
            slots: Vec::new(),
            retried: Vec::new(),
        }
    }

    /// Where the submission stands.
    pub fn current_phase(&self) -> (p: Phase)
        ensures
            p == self.phase(),
    {
        self.phase
    }

    /// The number of test cases.
    pub fn case_count(&self) -> (n: usize)
        ensures
            n == self.cases().len(),
    {
        self.cases.len()
    }

    /// The test case with the given index.
    pub fn case(&self, index: usize) -> (c: Option<&TestCase>)
        ensures
            c is Some <==> index < self.cases().len(),
            c matches Some(case) ==> case@ == self.cases()[index as int],
    {
        if index < self.cases.len() {
            Some(&self.cases[index])
        } else {
            None
        }
    }

    /// Whether an outcome for the case `index` is awaited.
    pub fn is_awaited(&self, index: usize) -> (b: bool)
        ensures
            b == self.awaits(index as int),
    {
        proof {
            use_type_invariant(self);
        }
        match self.phase {
            Phase::Running => index < self.cases.len() && self.slots[index].is_none(),
            _ => false,
        }
    }

    /// Starts a queued submission. With test cases to run it is then
    /// running, with nothing recorded; with none it is judged at once. On
    /// any other submission this changes nothing.
    pub fn start(&mut self) -> (step: Step)
        ensures
            final(self).cases() == old(self).cases(),
            final(self).limits() == old(self).limits(),
            final(self).policy() == old(self).policy(),
            old(self).phase() != Phase::Queued ==> step is Ignored && final(self).phase() == old(self).phase() && final(self).recorded() == old(self).recorded() && final(self).retried()
                == old(self).retried(),
            old(self).phase() == Phase::Queued && old(self).cases().len() > 0 ==> step is Await
                && final(self).phase() == Phase::Running && final(self).recorded() == Seq::new(
                old(self).cases().len(),
                |i: int| None::<CaseView>,
            ) && final(self).retried() == Seq::new(old(self).cases().len(), |i: int| false),
            old(self).phase() == Phase::Queued && old(self).cases().len() == 0 ==> final(self).phase() == Phase::Judged && (step matches Step::Judged(judgment) && judgment@
                == judged(
                Seq::empty(),
                old(self).limits().wall_clock_ms,
                old(self).limits().memory_mb,
            )),
    {
        match self.phase {
            Phase::Queued => {},
            _ => {
                return Step::Ignored;
            },
        }
        let n = self.cases.len();
        if n == 0 {
            self.phase = Phase::Judged;
            let judgment = Judge::new().judge_submission(
                Vec::new(),
                self.limits.wall_clock_ms,
                self.limits.memory_mb,
            );
            assert(judgment@.test_results =~= Seq::empty());
            return Step::Judged(judgment);
        }
        let mut slots: Vec<Option<TestCaseResult>> = Vec::new();
        let mut retried: Vec<bool> = Vec::new();
        let mut i: usize = 0;
        while i < n
            invariant
                i <= n,
                slots@.len() == i,
                retried@.len() == i,
                forall|j: int| 0 <= j < i ==> (#[trigger] slots@[j]) is None,
                forall|j: int| 0 <= j < i ==> !(#[trigger] retried@[j]),
            decreases n - i,
        {
            slots.push(None);
            retried.push(false);
            i = i + 1;
        }
        self.slots = slots;
        self.retried = retried;
        self.phase = Phase::Running;
        assert(self.recorded() =~= Seq::new(old(self).cases().len(), |i: int| None::<CaseView>));
        assert(self.retried() =~= Seq::new(old(self).cases().len(), |i: int| false));
        Step::Await
    }

    /// Takes in the outcome of one run of the case `index`.
    ///
    /// An outcome that is not awaited (the submission is not running, there
    /// is no such case, or the case is settled already) is ignored. A report
    /// is scored and recorded, and so is a source that did not compile; see
    /// [`Submission::settles`]. After a host error the case is to be run
    /// once more; a second host error for the same case, or a configuration
    /// error, fails the submission.
    pub fn record(&mut self, index: usize, outcome: Result<ExecutionResult, SandboxError>) -> (step:
        Step)
        ensures
            final(self).cases() == old(self).cases(),
            final(self).limits() == old(self).limits(),
            final(self).policy() == old(self).policy(),
            !old(self).awaits(index as int) ==> step is Ignored && final(self).phase() == old(self).phase() && final(self).recorded() == old(self).recorded() && final(self).retried()
                == old(self).retried(),
            old(self).awaits(index as int) ==> match outcome {
                Ok(report) => old(self).settles(
                    final(self),
                    index as int,
                    scored(old(self).cases()[index as int], report@),
                    step,
                ),
                Err(SandboxError::Compilation(diagnostics)) => old(self).settles(
                    final(self),
                    index as int,
                    compile_failure(old(self).cases()[index as int], diagnostics@),
                    step,
                ),
                Err(SandboxError::Host(reason)) => if old(self).retried()[index as int] {
                    final(self).phase() == Phase::Failed && step == Step::Failed(
                        SandboxError::Host(reason),
                    )
                } else {
                    &&& final(self).phase() == Phase::Running
                    &&& step == (Step::Retry { index, delay_ms: RETRY_DELAY_MS })
                    &&& final(self).recorded() == old(self).recorded()
                    &&& final(self).retried() == old(self).retried().update(index as int, true)
                },
                Err(SandboxError::Configuration(e)) => final(self).phase() == Phase::Failed
                    && step == Step::Failed(SandboxError::Configuration(e)),
            },
    {
        if !self.is_awaited(index) {
            return Step::Ignored;
        }
        proof {
            use_type_invariant(&*self);
        }
        let judge = Judge::new();
        match outcome {
            Ok(report) => {
                let result = judge.score_execution(&self.cases[index], report);
                self.settle(index, result)
            },
            Err(SandboxError::Compilation(diagnostics)) => {
                let result = judge.score_compile_failure(&self.cases[index], diagnostics);
                self.settle(index, result)
            },
            Err(SandboxError::Host(reason)) => {
                if self.retried[index] {
                    self.phase = Phase::Failed;
                    self.slots = Vec::new();
                    self.retried = Vec::new();
                    Step::Failed(SandboxError::Host(reason))
                } else {
                    let ghost before = self.retried@;
                    self.phase = Phase::Failed;
                    let mut retried: Vec<bool> = Vec::new();
                    core::mem::swap(&mut self.retried, &mut retried);
                    retried.set(index, true);
                    self.retried = retried;
                    self.phase = Phase::Running;
                    assert(self.retried() =~= old(self).retried().update(index as int, true));
                    assert(self.recorded() =~= old(self).recorded());
                    Step::Retry { index, delay_ms: RETRY_DELAY_MS }
                }
            },
            Err(SandboxError::Configuration(e)) => {
                self.phase = Phase::Failed;
                self.slots = Vec::new();
                self.retried = Vec::new();
                Step::Failed(SandboxError::Configuration(e))
            },
        }
    }

    /// Records `result` for the awaited case `index` and judges the
    /// submission if that closes it.
    fn settle(&mut self, index: usize, result: TestCaseResult) -> (step: Step)
        requires
            old(self).awaits(index as int),
        ensures
            final(self).cases() == old(self).cases(),
            final(self).limits() == old(self).limits(),
            final(self).policy() == old(self).policy(),
            old(self).settles(final(self), index as int, result@, step),
    {
        proof {
            use_type_invariant(&*self);
        }
        let ghost before = self.recorded();
        let ghost now = before.update(index as int, Some(result@));
        let stop = match self.policy {
            FailurePolicy::StopOnFirstFailure => !result.passed,
            FailurePolicy::RunAll => false,
        };
        self.phase = Phase::Failed;
        let mut slots: Vec<Option<TestCaseResult>> = Vec::new();
        core::mem::swap(&mut self.slots, &mut slots);
        slots.set(index, Some(result));
        assert(slot_views(slots@) =~= now);
        let n = slots.len();
        let mut full = true;
        let mut i: usize = 0;
        while i < n
            invariant
                n == slots@.len(),
                i <= n,
                full <==> forall|j: int| 0 <= j < i ==> (#[trigger] slots@[j]) is Some,
            decreases n - i,
        {
            if slots[i].is_none() {
                full = false;
            }
            i = i + 1;
        }
        proof {
            if full {
                assert forall|j: int| 0 <= j < now.len() implies (#[trigger] now[j]) is Some by {
                    assert(slots@[j] is Some);
                }
            }
            if all_recorded(now) {
                assert forall|j: int| 0 <= j < n implies (#[trigger] slots@[j]) is Some by {
                    assert(now[j] is Some);
                }
            }
        }
        if full || stop {
            let results = complete(&self.cases, slots, false);
            let judgment = judge_results(results, &self.limits);
            self.retried = Vec::new();
            self.phase = Phase::Judged;
            Step::Judged(judgment)
        } else {
            self.slots = slots;
            self.phase = Phase::Running;
            assert(self.recorded() =~= now);
            Step::Await
        }
    }

    /// Closes a running submission whose time has run out: every case still
    /// open is recorded as cut off by the wall clock, and the submission is
    /// judged. On a submission that is not running this changes nothing.
    pub fn expire(&mut self) -> (step: Step)
        ensures
            final(self).cases() == old(self).cases(),
            final(self).limits() == old(self).limits(),
            final(self).policy() == old(self).policy(),
            old(self).phase() != Phase::Running ==> step is Ignored && final(self).phase() == old(self).phase() && final(self).recorded() == old(self).recorded() && final(self).retried()
                == old(self).retried(),
            old(self).phase() == Phase::Running ==> final(self).phase() == Phase::Judged && (
            step matches Step::Judged(judgment) && judgment@ == judged(
                completed(old(self).recorded(), old(self).cases(), true),
                old(self).limits().wall_clock_ms,
                old(self).limits().memory_mb,
            )),
    {
        match self.phase {
            Phase::Running => {},
            _ => {
                return Step::Ignored;
            },
        }
        proof {
            use_type_invariant(&*self);
        }
        self.phase = Phase::Judged;
        let mut slots: Vec<Option<TestCaseResult>> = Vec::new();
        core::mem::swap(&mut self.slots, &mut slots);
        let results = complete(&self.cases, slots, true);
        let judgment = judge_results(results, &self.limits);
        self.retried = Vec::new();
        Step::Judged(judgment)
    }

    /// Cancels a submission that is queued or running. What had been
    /// recorded is discarded, and no judgment will be handed out. Returns
    /// whether the submission was cancelled by this call.
    pub fn cancel(&mut self) -> (cancelled: bool)
        ensures
            final(self).cases() == old(self).cases(),
            final(self).limits() == old(self).limits(),
            final(self).policy() == old(self).policy(),
            cancelled == (old(self).phase() == Phase::Queued || old(self).phase()
                == Phase::Running),
            cancelled ==> final(self).phase() == Phase::Cancelled,
            !cancelled ==> final(self).phase() == old(self).phase(),
            forall|i: int| !final(self).awaits(i),
    {
        match self.phase {
            Phase::Queued | Phase::Running => {
                self.phase = Phase::Cancelled;
                self.slots = Vec::new();
                self.retried = Vec::new();
                true
            },
            _ => false,
        }
    }
}

/// The judgment of `results` under `limits`.
fn judge_results(results: Vec<TestCaseResult>, limits: &Limits) -> (judgment: JudgeResult)
    ensures
        judgment@ == judged(result_views(results@), limits.wall_clock_ms, limits.memory_mb),
{
    Judge::new().judge_submission(results, limits.wall_clock_ms, limits.memory_mb)
}

} // verus!
