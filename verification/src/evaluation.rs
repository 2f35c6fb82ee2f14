//! One evaluation pass: which windows are put to the model, and how its
//! answers are scored against the labels.

use vstd::prelude::*;
use vstd::seq_lib::{to_multiset_build, to_multiset_contains, to_multiset_len};
use vstd::string::*;
use crate::candle::{Candle, SCALE};
use crate::labeler::{default_thresholds, label_candles, labels_of, Action};
use crate::response::{
    cleaned, json_string_members, parse_prediction, read_answer, Prediction, ResponseFault,
};
use crate::window::{
    build_full_prompt, build_window, eligible, full_prompt_text, latest_window, lookback,
    CANDLE_HOURS,
};

verus! {

/// How many model calls may be in flight at once.
pub const MAX_IN_FLIGHT: usize = 20;

/// Why a pass was given up.
#[derive(Debug, Clone, Copy, PartialEq, Eq, Structural)]
pub enum PipelineError {
    /// Fewer candles than one window holds.
    InsufficientData,
    /// The model's answer for a window could not be read.
    MalformedModelResponse(ResponseFault),
}

/// One question to the model: the window it is about, the text to send and
/// the label that the answer is held against.
#[derive(Debug, Clone, PartialEq, Eq)]
pub struct WindowQuery {
    pub window_index: usize,
    pub prompt: String,
    pub label: Action,
}

impl View for WindowQuery {
    type V = (usize, Seq<char>, Action);

    open spec fn view(&self) -> (usize, Seq<char>, Action) {
        (self.window_index, self.prompt@, self.label)
    }
}

/// The model's answer for one window beside the label.
#[derive(Debug, Clone, PartialEq, Eq)]
pub struct PredictionResult {
    pub window_index: usize,
    pub predicted: Action,
    pub rationale: String,
    pub label: Action,
}

impl View for PredictionResult {
    type V = (usize, Action, Seq<char>, Action);

    open spec fn view(&self) -> (usize, Action, Seq<char>, Action) {
        (self.window_index, self.predicted, self.rationale@, self.label)
    }
}

/// Whether a pass scores the window that ends before `end`: the window must
/// be eligible, and a candle must stand at `end`.
pub open spec fn is_scored(end: int, eth_len: int, btc_len: int, sol_len: int) -> bool {
    eligible(end, eth_len, btc_len, sol_len) && end < eth_len
}

/// The first index from `CANDLE_HOURS` on that ends no scored window.
pub open spec fn scoring_end(eth_len: int, btc_len: int, sol_len: int) -> int {
    let by_eth = eth_len;
    let by_btc = btc_len + 1;
    let by_sol = sol_len + 1;
    let least = if by_eth <= by_btc && by_eth <= by_sol {
        by_eth
    } else if by_btc <= by_sol {
        by_btc
    } else {
        by_sol
    };
    if least < CANDLE_HOURS {
        CANDLE_HOURS as int
    } else {
        least
    }
}

/// The question for the window that ends before `end`, by its view. Its
/// label is that of the last candle in the window.
pub open spec fn query_at(
    base_prompt: Seq<char>,
    eth: Seq<Candle>,
    btc: Seq<Candle>,
    sol: Seq<Candle>,
    end: int,
) -> (usize, Seq<char>, Action) {
    (
        end as usize,
        full_prompt_text(base_prompt, lookback(eth, end), lookback(btc, end), lookback(sol, end)),
        labels_of(eth, default_thresholds())[end - 1],
    )
}

/// The questions of a pass, by their views: one for each scored window, in
/// the order of the windows.
pub open spec fn planned_queries(
    base_prompt: Seq<char>,
    eth: Seq<Candle>,
    btc: Seq<Candle>,
    sol: Seq<Candle>,
) -> Seq<(usize, Seq<char>, Action)> {
    Seq::new(
        (scoring_end(eth.len() as int, btc.len() as int, sol.len() as int) - CANDLE_HOURS) as nat,
        |k: int| query_at(base_prompt, eth, btc, sol, CANDLE_HOURS + k),
    )
}

/// The views of a list of questions.
pub open spec fn query_views(queries: Seq<WindowQuery>) -> Seq<(usize, Seq<char>, Action)> {
    queries.map_values(|q: WindowQuery| q@)
}

/// The scored windows are those that end from `CANDLE_HOURS` up to
/// `scoring_end`.
pub proof fn lemma_scored_range(end: int, eth_len: int, btc_len: int, sol_len: int)
    requires
        eth_len >= 0,
        btc_len >= 0,
        sol_len >= 0,
    ensures
        is_scored(end, eth_len, btc_len, sol_len) <==> CANDLE_HOURS <= end < scoring_end(
            eth_len,
            btc_len,
            sol_len,
        ),
{
}

fn first_unscored(eth_len: usize, btc_len: usize, sol_len: usize) -> (end: usize)
    ensures
        end == scoring_end(eth_len as int, btc_len as int, sol_len as int),
{
    let mut least = eth_len;
    if btc_len < least {
        least = btc_len + 1;
    }
    if sol_len < least {
        least = sol_len + 1;
    }
    if least < CANDLE_HOURS {
        CANDLE_HOURS
    } else {
        least
    }
}

/// The questions of a pass over three series under `base_prompt`.
///
/// A pass needs at least `CANDLE_HOURS` candles of the first series. Every
/// window that ends where all three series reach, and before the last candle
/// of the first, gets one question.
pub fn plan_queries(base_prompt: &str, eth: &[Candle], btc: &[Candle], sol: &[Candle]) -> (r: Result<
    Vec<WindowQuery>,
    PipelineError,
>)
    ensures
        r is Err <==> eth@.len() < CANDLE_HOURS,
        r matches Err(e) ==> e == PipelineError::InsufficientData,
        r matches Ok(queries) ==> query_views(queries@) == planned_queries(
            base_prompt@,
            eth@,
            btc@,
            sol@,
        ),
{
    if eth.len() < CANDLE_HOURS {
        return Err(PipelineError::InsufficientData);
    }
    let labels = label_candles(eth);
    let stop = first_unscored(eth.len(), btc.len(), sol.len());
    let mut queries: Vec<WindowQuery> = Vec::new();
    let mut end: usize = CANDLE_HOURS;
    while end < stop
        invariant
            CANDLE_HOURS <= end <= stop,
            stop == scoring_end(eth@.len() as int, btc@.len() as int, sol@.len() as int),
            labels@ == labels_of(eth@, default_thresholds()),
            query_views(queries@) == planned_queries(base_prompt@, eth@, btc@, sol@).take(
                end - CANDLE_HOURS,
            ),
        decreases stop - end,
    {
        proof {
            lemma_scored_range(
                end as int,
                eth@.len() as int,
                btc@.len() as int,
                sol@.len() as int,
            );
        }
        let ghost before = queries@;
        if let Some(window) = build_window(eth, btc, sol, end) {
            let prompt = build_full_prompt(base_prompt, &window);
            let query = WindowQuery { window_index: end, prompt, label: labels[end - 1] };
            assert(query@ == query_at(base_prompt@, eth@, btc@, sol@, end as int));
            queries.push(query);
            assert(query_views(queries@) =~= query_views(before).push(query@));
        }
        end += 1;
        assert(query_views(queries@) =~= planned_queries(base_prompt@, eth@, btc@, sol@).take(
            end - CANDLE_HOURS,
        ));
    }
    assert(planned_queries(base_prompt@, eth@, btc@, sol@).take(stop - CANDLE_HOURS)
        =~= planned_queries(base_prompt@, eth@, btc@, sol@));
    Ok(queries)
}

/// The one question of a live run: the most recent window of each series
/// under `base_prompt`.
pub fn plan_live_query(base_prompt: &str, eth: &[Candle], btc: &[Candle], sol: &[Candle]) -> (r:
    Result<String, PipelineError>)
    ensures
        r is Err <==> eth@.len() < CANDLE_HOURS || btc@.len() < CANDLE_HOURS || sol@.len()
            < CANDLE_HOURS,
        r matches Err(e) ==> e == PipelineError::InsufficientData,
        r matches Ok(prompt) ==> prompt@ == full_prompt_text(
            base_prompt@,
            lookback(eth@, eth@.len() as int),
            lookback(btc@, btc@.len() as int),
            lookback(sol@, sol@.len() as int),
        ),
{
    match latest_window(eth, btc, sol) {
        Some(window) => Ok(build_full_prompt(base_prompt, &window)),
        None => Err(PipelineError::InsufficientData),
    }
}

/// What an answer to a question comes to, given what the answer reads as.
pub open spec fn judged(
    query: (usize, Seq<char>, Action),
    answer: Result<(Action, Seq<char>), ResponseFault>,
) -> Result<(usize, Action, Seq<char>, Action), PipelineError> {
    match answer {
        Ok((predicted, rationale)) => Ok((query.0, predicted, rationale, query.2)),
        Err(fault) => Err(PipelineError::MalformedModelResponse(fault)),
    }
}

/// A result of judging, with the prediction result taken by its view.
pub open spec fn judgement_view(r: Result<PredictionResult, PipelineError>) -> Result<
    (usize, Action, Seq<char>, Action),
    PipelineError,
> {
    match r {
        Ok(result) => Ok(result@),
        Err(e) => Err(e),
    }
}

/// Puts a prediction beside the label of its window.
pub fn compare(window_index: usize, label: Action, prediction: Prediction) -> (result:
    PredictionResult)
    ensures
        result@ == (window_index, prediction.action, prediction.rationale@, label),
{
    PredictionResult {
        window_index,
        predicted: prediction.action,
        rationale: prediction.rationale,
        label,
    }
}

/// Reads the model's answer to `query` and puts it beside the label. An
/// answer that cannot be read is no wrong prediction: it is an error.
pub fn judge(query: &WindowQuery, response: &str) -> (r: Result<PredictionResult, PipelineError>)
    ensures
        judgement_view(r) == judged(
            query@,
            read_answer(json_string_members(cleaned(response@))),
        ),
{
    match parse_prediction(response) {
        Ok(prediction) => Ok(compare(query.window_index, query.label, prediction)),
        Err(fault) => Err(PipelineError::MalformedModelResponse(fault)),
    }
}

/// Whether the model missed the label.
pub open spec fn is_miss(result: PredictionResult) -> bool {
    result.predicted != result.label
}

/// The test that picks the misses out of a list of results.
pub open spec fn miss_filter() -> spec_fn(PredictionResult) -> bool {
    |r: PredictionResult| is_miss(r)
}

/// The results in which the model missed the label, in the order given.
pub open spec fn misses_of(results: Seq<PredictionResult>) -> Seq<PredictionResult> {
    results.filter(miss_filter())
}

/// The share of hits among the windows in millionths, rounded down; zero
/// where no window was scored.
pub open spec fn accuracy_of(hits: nat, windows: nat) -> int {
    if windows == 0 {
        0
    } else {
        (hits * SCALE) / (windows as int)
    }
}

/// The score of a pass: how many windows were put to the model, how many of
/// the answers hit the label, and the answers that missed it.
#[derive(Debug)]
pub struct Evaluation {
    correct: usize,
    total: usize,
    failures: Vec<PredictionResult>,
}

impl Evaluation {
    #[verifier::type_invariant]
    spec fn counts_agree(self) -> bool {
        self.correct + self.failures@.len() == self.total
    }

    /// How many answers hit the label.
    pub closed spec fn hits(self) -> nat {
        self.correct as nat
    }

    /// How many windows were scored.
    pub closed spec fn windows(self) -> nat {
        self.total as nat
    }

    /// The answers that missed the label.
    pub closed spec fn misses(self) -> Seq<PredictionResult> {
        self.failures@
    }

    /// How many answers hit the label.
    pub fn correct(&self) -> (n: usize)
        ensures
            n == self.hits(),
            n <= self.windows(),
    {
        proof {
            use_type_invariant(self);
        }
        self.correct
    }

    /// How many windows were scored.
    pub fn total(&self) -> (n: usize)
        ensures
            n == self.windows(),
            n == self.hits() + self.misses().len(),
    {
        proof {
            use_type_invariant(self);
        }
        self.total
    }

    /// The answers that missed the label.
    pub fn failures(&self) -> (missed: &Vec<PredictionResult>)
        ensures
            missed@ == self.misses(),
    {
        &self.failures
    }

    /// The accuracy of the pass in millionths: between 0 and `SCALE`, and 0
    /// where no window was scored.
    pub fn accuracy(&self) -> (a: i64)
        ensures
            a == accuracy_of(self.hits(), self.windows()),
            0 <= a <= SCALE,
            self.windows() == 0 ==> a == 0,
    {
        proof {
            use_type_invariant(self);
        }
        if self.total == 0 {
            return 0;
        }
        let hits = self.correct as u128;
        let windows = self.total as u128;
        let scale = SCALE as u128;
        assert(hits * scale <= windows * scale <= 0xffff_ffff_ffff_ffff * 1_000_000)
            by (nonlinear_arith)
            requires
                hits <= windows <= 0xffff_ffff_ffff_ffff,
                scale == 1_000_000,
        ;
        let share = hits * scale / windows;
        assert(share <= scale) by (nonlinear_arith)
            requires
                share == (hits * scale) / (windows as int),
                hits * scale <= windows * scale,
                windows > 0,
        ;
        share as i64
    }
}

/// Scores the answers of a pass, in whatever order they came.
pub fn score(results: Vec<PredictionResult>) -> (evaluation: Evaluation)
    ensures
        evaluation.windows() == results@.len(),
        evaluation.misses() == misses_of(results@),
        evaluation.hits() == results@.len() - misses_of(results@).len(),
{
    let total = results.len();
    let ghost all = results@;
    let mut correct: usize = 0;
    let mut failures: Vec<PredictionResult> = Vec::new();
    let mut i: usize = 0;
    for result in it: results
        invariant
            i == it.index@,
            it.seq() == all,
            total == all.len(),
            failures@ == misses_of(all.take(i as int)),
            correct + failures@.len() == i,
    {
        proof {
            let shorter = all.take(i as int);
            let longer = all.take(i + 1);
            assert(longer.drop_last() =~= shorter);
            assert(longer.last() == result);
            reveal(Seq::filter);
        }
        if result.predicted == result.label {
            correct += 1;
        } else {
            failures.push(result);
        }
        i += 1;
    }
    assert(all.take(total as int) =~= all);
    Evaluation { correct, total, failures }
}

/// The accuracy lies between 0 and `SCALE` wherever the hits are no more
/// than the windows, and is 0 where no window was scored.
pub proof fn lemma_accuracy_bounds(hits: nat, windows: nat)
    requires
        hits <= windows,
    ensures
        0 <= accuracy_of(hits, windows) <= SCALE,
        windows == 0 ==> accuracy_of(hits, windows) == 0,
        windows > 0 && hits == windows ==> accuracy_of(hits, windows) == SCALE,
{
    if windows > 0 {
        let w = windows as int;
        let h = hits as int;
        assert(0 <= (h * 1_000_000) / w <= 1_000_000) by (nonlinear_arith)
            requires
                0 <= h <= w,
                w > 0,
        ;
        if hits == windows {
            assert((w * 1_000_000) / w == 1_000_000) by (nonlinear_arith)
                requires
                    w > 0,
            ;
        }
    }
}

/// How often a result stands among the misses: as often as among all the
/// results where it is a miss, and never where it is a hit.
proof fn lemma_misses_count(results: Seq<PredictionResult>, r: PredictionResult)
    ensures
        misses_of(results).to_multiset().count(r) == if is_miss(r) {
            results.to_multiset().count(r)
        } else {
            0
        },
    decreases results.len(),
{
    let pred = miss_filter();
    let all = results.to_multiset();
    let missed = misses_of(results).to_multiset();
    if results.len() == 0 {
        assert(misses_of(results).len() == 0) by {
            reveal(Seq::filter);
        }
        to_multiset_contains(results, r);
        to_multiset_contains(misses_of(results), r);
    } else {
        let earlier = results.drop_last();
        let last = results.last();
        assert(results == earlier.push(last)) by {
            assert(results =~= earlier.push(last));
        }
        lemma_misses_count(earlier, r);
        earlier.lemma_filter_push(last, pred);
        to_multiset_build(earlier, last);
        assert(all == earlier.to_multiset().insert(last));
        vstd::multiset::lemma_insert_increases_count_by_1(earlier.to_multiset(), last);
        vstd::multiset::lemma_insert_other_elements_unchanged(earlier.to_multiset(), last, r);
        if is_miss(last) {
            assert(misses_of(results) == misses_of(earlier).push(last));
            to_multiset_build(misses_of(earlier), last);
            assert(missed == misses_of(earlier).to_multiset().insert(last));
            vstd::multiset::lemma_insert_increases_count_by_1(
                misses_of(earlier).to_multiset(),
                last,
            );
            vstd::multiset::lemma_insert_other_elements_unchanged(
                misses_of(earlier).to_multiset(),
                last,
                r,
            );
        } else {
            assert(misses_of(results) == misses_of(earlier));
        }
    }
}

/// The order in which the answers come changes nothing of the score: the
/// same answers in another order give as many windows, as many misses and
/// the same accuracy.
pub proof fn lemma_order_is_immaterial(first: Seq<PredictionResult>, second: Seq<PredictionResult>)
    requires
        first.to_multiset() == second.to_multiset(),
    ensures
        first.len() == second.len(),
        misses_of(first).len() == misses_of(second).len(),
        misses_of(first).to_multiset() == misses_of(second).to_multiset(),
        accuracy_of((first.len() - misses_of(first).len()) as nat, first.len()) == accuracy_of(
            (second.len() - misses_of(second).len()) as nat,
            second.len(),
        ),
{
    to_multiset_len(first);
    to_multiset_len(second);
    assert forall|r: PredictionResult|
        misses_of(first).to_multiset().count(r) == misses_of(second).to_multiset().count(r) by {
        lemma_misses_count(first, r);
        lemma_misses_count(second, r);
    }
    assert(misses_of(first).to_multiset() =~= misses_of(second).to_multiset());
    to_multiset_len(misses_of(first));
    to_multiset_len(misses_of(second));
}

} // verus!
