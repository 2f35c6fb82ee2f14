//! The loop that improves a prompt: evaluate it, record its accuracy, have
//! it rewritten where windows failed, and go on until it is accurate
//! enough or the passes are used up.
//!
//! The library decides; the caller does the work. A `Driver` is a loop that
//! is about to evaluate its prompt. Handing it the score of the pass gives
//! what comes next: another pass, a revision to fetch, or the end.

use vstd::prelude::*;
use vstd::string::*;
use crate::candle::SCALE;
use crate::evaluation::{accuracy_of, Evaluation, PredictionResult};
use crate::history::{append, appended, PromptRecord, HISTORY_LIMIT};
use crate::improver::{build_improvement_prompt, improvement_prompt_text};

verus! {

/// The accuracy, in millionths, at which the loop stops.
pub const ACCURACY_THRESHOLD: i64 = 700_000;

/// The number of passes after which the loop stops.
pub const MAX_PASSES: usize = 10;

/// When the loop stops.
#[derive(Debug, Clone, Copy, PartialEq, Eq, Structural)]
pub struct Policy {
    /// The accuracy to reach, in millionths.
    pub threshold: i64,
    /// The most passes to run. The first pass is run in any case.
    pub max_passes: usize,
}

/// How the loop ended.
#[derive(Debug, Clone, Copy, PartialEq, Eq, Structural)]
pub enum Outcome {
    /// The last pass reached the threshold.
    Converged,
    /// The passes are used up, and the last one was below the threshold.
    Exhausted,
}

/// What follows a pass.
#[derive(Debug, Clone, Copy, PartialEq, Eq, Structural)]
pub enum Verdict {
    Continue,
    Stop(Outcome),
}

/// What the loop has reached: the prompt as it stands, the ledger, and how
/// many passes have been run.
#[derive(Debug)]
pub struct Progress {
    pub base_prompt: String,
    pub history: Vec<PromptRecord>,
    pub passes: usize,
}

/// What the loop has reached, with the ledger as a sequence.
pub struct ProgressView {
    pub base_prompt: String,
    pub history: Seq<PromptRecord>,
    pub passes: nat,
}

impl View for Progress {
    type V = ProgressView;

    open spec fn view(&self) -> ProgressView {
        ProgressView {
            base_prompt: self.base_prompt,
            history: self.history@,
            passes: self.passes as nat,
        }
    }
}

/// A loop that is about to evaluate its prompt.
#[derive(Debug)]
pub struct Driver {
    policy: Policy,
    progress: Progress,
}

/// A loop whose last pass had failures, waiting for the revised prompt.
#[derive(Debug)]
pub struct Revision {
    policy: Policy,
    progress: Progress,
    accuracy: i64,
}

/// What the caller does next, with the state to do it in.
#[derive(Debug)]
pub enum Next {
    /// Run a pass on the prompt of this driver.
    Evaluate(Driver),
    /// Put this text to the model and hand its answer to the revision.
    Improve(Revision, String),
    /// Stop.
    Finished(Progress, Outcome),
}

/// What the caller does next, by the views of what it holds.
pub enum NextView {
    Evaluate(Policy, ProgressView),
    Improve(Policy, ProgressView, i64, Seq<char>),
    Finished(ProgressView, Outcome),
}

/// What follows a pass of the given accuracy, the `passes`-th of the loop:
/// the threshold is looked at first, then the number of passes.
pub open spec fn verdict_of(policy: Policy, accuracy: i64, passes: nat) -> Verdict {
    if accuracy >= policy.threshold {
        Verdict::Stop(Outcome::Converged)
    } else if passes >= policy.max_passes {
        Verdict::Stop(Outcome::Exhausted)
    } else {
        Verdict::Continue
    }
}

/// Where the loop goes once a pass is over and done with.
pub open spec fn settled(policy: Policy, progress: ProgressView, accuracy: i64) -> NextView {
    match verdict_of(policy, accuracy, progress.passes) {
        Verdict::Continue => NextView::Evaluate(policy, progress),
        Verdict::Stop(outcome) => NextView::Finished(progress, outcome),
    }
}

/// What the loop has reached once a pass of the given accuracy is
/// recorded: the prompt goes into the ledger with it, and the pass counts.
pub open spec fn recorded(progress: ProgressView, accuracy: i64) -> ProgressView {
    ProgressView {
        base_prompt: progress.base_prompt,
        history: appended(
            progress.history,
            PromptRecord { prompt: progress.base_prompt, score: accuracy },
        ),
        passes: progress.passes + 1,
    }
}

/// Where the loop goes after a pass with the given accuracy and failures.
/// Where a window failed, the prompt is to be revised; where none did, it
/// stays.
pub open spec fn after_evaluation(
    policy: Policy,
    progress: ProgressView,
    accuracy: i64,
    failures: Seq<PredictionResult>,
) -> NextView {
    let reached = recorded(progress, accuracy);
    if failures.len() > 0 {
        NextView::Improve(
            policy,
            reached,
            accuracy,
            improvement_prompt_text(progress.base_prompt@, failures, reached.history),
        )
    } else {
        settled(policy, reached, accuracy)
    }
}

/// Where the loop goes once the revised prompt has come.
pub open spec fn after_revision(
    policy: Policy,
    progress: ProgressView,
    accuracy: i64,
    revised: String,
) -> NextView {
    settled(
        policy,
        ProgressView { base_prompt: revised, history: progress.history, passes: progress.passes },
        accuracy,
    )
}

/// What follows a pass of the given accuracy, the `passes`-th of the loop.
pub fn decide(policy: Policy, accuracy: i64, passes: usize) -> (verdict: Verdict)
    ensures
        verdict == verdict_of(policy, accuracy, passes as nat),
{
    if accuracy >= policy.threshold {
        Verdict::Stop(Outcome::Converged)
    } else if passes >= policy.max_passes {
        Verdict::Stop(Outcome::Exhausted)
    } else {
        Verdict::Continue
    }
}

impl Driver {
    #[verifier::type_invariant]
    spec fn may_run(self) -> bool {
        self.progress.passes == 0 || self.progress.passes < self.policy.max_passes
    }

    /// When this loop stops.
    pub closed spec fn policy(self) -> Policy {
        self.policy
    }

    /// What this loop has reached.
    pub closed spec fn progress(self) -> ProgressView {
        self.progress@
    }

    /// A loop at its start: no pass has been run.
    pub fn new(policy: Policy, base_prompt: String, history: Vec<PromptRecord>) -> (driver: Driver)
        ensures
            driver.policy() == policy,
            driver.progress() == (ProgressView { base_prompt, history: history@, passes: 0 }),
    {
        Driver { policy, progress: Progress { base_prompt, history, passes: 0 } }
    }

    /// The prompt to evaluate.
    pub fn base_prompt(&self) -> (prompt: &str)
        ensures
            prompt@ == self.progress().base_prompt@,
    {
        self.progress.base_prompt.as_str()
    }

    /// The ledger.
    pub fn history(&self) -> (history: &Vec<PromptRecord>)
        ensures
            history@ == self.progress().history,
    {
        &self.progress.history
    }

    /// How many passes have been run.
    pub fn passes(&self) -> (passes: usize)
        ensures
            passes == self.progress().passes,
    {
        self.progress.passes
    }

    /// Takes the score of the pass that was run on the prompt of this loop.
    ///
    /// The prompt and its accuracy go into the ledger. Where a window
    /// failed, the next thing is a revision, whatever the accuracy; where
    /// none did, the prompt stays as it is and the loop goes on or ends.
    pub fn evaluated(self, evaluation: &Evaluation) -> (next: Next)
        ensures
            next@ == after_evaluation(
                self.policy(),
                self.progress(),
                accuracy_of(evaluation.hits(), evaluation.windows()) as i64,
                evaluation.misses(),
            ),
            next is Improve <==> evaluation.misses().len() > 0,
            evaluation.misses().len() == 0 ==> next.base_prompt() == self.progress().base_prompt,
    {
        proof {
            use_type_invariant(&self);
        }
        let accuracy = evaluation.accuracy();
        let Driver { policy, progress } = self;
        let Progress { base_prompt, history, passes } = progress;
        let mut history = history;
        append(&mut history, base_prompt.clone(), accuracy);
        let passes = passes + 1;
        let failures = evaluation.failures();
        if failures.len() > 0 {
            let text = build_improvement_prompt(
                base_prompt.as_str(),
                failures.as_slice(),
                history.as_slice(),
            );
            Next::Improve(
                Revision { policy, progress: Progress { base_prompt, history, passes }, accuracy },
                text,
            )
        } else {
            settle(policy, Progress { base_prompt, history, passes }, accuracy)
        }
    }
}

impl Revision {
    /// When this loop stops.
    pub closed spec fn policy(self) -> Policy {
        self.policy
    }

    /// What this loop has reached.
    pub closed spec fn progress(self) -> ProgressView {
        self.progress@
    }

    /// The accuracy of the pass that failed.
    pub closed spec fn accuracy(self) -> i64 {
        self.accuracy
    }

    /// The ledger, with the pass that failed in it.
    pub fn history(&self) -> (history: &Vec<PromptRecord>)
        ensures
            history@ == self.progress().history,
    {
        &self.progress.history
    }

    /// The accuracy of the pass that failed.
    pub fn score(&self) -> (accuracy: i64)
        ensures
            accuracy == self.accuracy(),
    {
        self.accuracy
    }

    /// Takes the model's revision. It becomes the prompt as it is, whatever
    /// it holds, and the loop goes on or ends by the accuracy of the pass
    /// that failed.
    pub fn revised(self, revision: String) -> (next: Next)
        ensures
            next@ == after_revision(self.policy(), self.progress(), self.accuracy(), revision),
            !(next is Improve),
            next.base_prompt() == revision,
    {
        let Revision { policy, progress, accuracy } = self;
        let Progress { base_prompt: _, history, passes } = progress;
        settle(policy, Progress { base_prompt: revision, history, passes }, accuracy)
    }
}

impl View for Next {
    type V = NextView;

    open spec fn view(&self) -> NextView {
        match *self {
            Next::Evaluate(driver) => NextView::Evaluate(driver.policy(), driver.progress()),
            Next::Improve(revision, text) => NextView::Improve(
                revision.policy(),
                revision.progress(),
                revision.accuracy(),
                text@,
            ),
            Next::Finished(progress, outcome) => NextView::Finished(progress@, outcome),
        }
    }
}

impl NextView {
    /// The prompt as it stands.
    pub open spec fn base_prompt(self) -> String {
        match self {
            NextView::Evaluate(_, progress) => progress.base_prompt,
            NextView::Improve(_, progress, _, _) => progress.base_prompt,
            NextView::Finished(progress, _) => progress.base_prompt,
        }
    }
}

impl Next {
    /// The prompt as it stands.
    pub open spec fn base_prompt(self) -> String {
        self@.base_prompt()
    }
}

fn settle(policy: Policy, progress: Progress, accuracy: i64) -> (next: Next)
    ensures
        next@ == settled(policy, progress@, accuracy),
        !(next is Improve),
{
    match decide(policy, accuracy, progress.passes) {
        Verdict::Continue => Next::Evaluate(Driver { policy, progress }),
        Verdict::Stop(outcome) => Next::Finished(progress, outcome),
    }
}

/// Without failures the prompt stays as it is, and no revision is asked
/// for.
pub proof fn lemma_prompt_kept_without_failures(
    policy: Policy,
    progress: ProgressView,
    accuracy: i64,
    failures: Seq<PredictionResult>,
)
    requires
        failures.len() == 0,
    ensures
        !(after_evaluation(policy, progress, accuracy, failures) is Improve),
        after_evaluation(policy, progress, accuracy, failures).base_prompt()
            == progress.base_prompt,
{
}

/// With failures a revision is asked for, whatever the accuracy, and the
/// text that asks for it is built from the prompt, the failures and the
/// ledger with this pass in it.
pub proof fn lemma_failures_ask_for_revision(
    policy: Policy,
    progress: ProgressView,
    accuracy: i64,
    failures: Seq<PredictionResult>,
)
    requires
        failures.len() > 0,
    ensures
        after_evaluation(policy, progress, accuracy, failures) == NextView::Improve(
            policy,
            recorded(progress, accuracy),
            accuracy,
            improvement_prompt_text(
                progress.base_prompt@,
                failures,
                recorded(progress, accuracy).history,
            ),
        ),
{
}

/// The loop ends as converged exactly where the last pass reached the
/// threshold, as exhausted exactly where it did not and the passes are used
/// up, and goes on otherwise.
pub proof fn lemma_loop_ends(policy: Policy, progress: ProgressView, accuracy: i64)
    ensures
        settled(policy, progress, accuracy) == NextView::Finished(progress, Outcome::Converged)
            <==> accuracy >= policy.threshold,
        settled(policy, progress, accuracy) == NextView::Finished(progress, Outcome::Exhausted)
            <==> accuracy < policy.threshold && progress.passes >= policy.max_passes,
        settled(policy, progress, accuracy) == NextView::Evaluate(policy, progress) <==> accuracy
            < policy.threshold && progress.passes < policy.max_passes,
{
}

/// An accuracy reaches a threshold exactly where the share of hits does:
/// rounding the accuracy down to millionths loses nothing of the
/// comparison.
pub proof fn lemma_threshold_is_exact(hits: nat, windows: nat, threshold: int)
    requires
        windows > 0,
    ensures
        accuracy_of(hits, windows) >= threshold <==> hits * SCALE >= threshold * windows,
{
    let x: int = hits * SCALE;
    let w: int = windows as int;
    assert((x / w >= threshold) <==> (x >= threshold * w)) by (nonlinear_arith)
        requires
            w > 0,
    ;
}

/// The ledger never outgrows its limit through the loop: after a pass it
/// holds at most `HISTORY_LIMIT` records, and the last one is the prompt of
/// that pass with its accuracy.
pub proof fn lemma_pass_is_recorded(progress: ProgressView, accuracy: i64)
    ensures
        recorded(progress, accuracy).history.len() <= HISTORY_LIMIT,
        recorded(progress, accuracy).history.last() == (PromptRecord {
            prompt: progress.base_prompt,
            score: accuracy,
        }),
        recorded(progress, accuracy).passes == progress.passes + 1,
{
}

} // verus!
