//! The retry orchestrator: what to do after each attempt.
//!
//! The orchestrator is a state machine. It starts in [`RetryState::new`]; after
//! each attempt [`RetryState::decide`] maps the state and the attempt's outcome
//! to a [`RetryDecision`]. The caller performs what the decision asks for (it
//! waits, then attempts again) and nothing else: no state survives a call.

use crate::classify::{
    is_rate_limit_error, is_retryable, lemma_only_status_failure_is_retryable,
};
use crate::error::{TranslateError, TranslateErrorView};
use crate::types::{TranslationResult, TranslationResultView};
use vstd::arithmetic::power2::{lemma2_to64, lemma_pow2_unfold, pow2};
use vstd::prelude::*;

verus! {

/// How many times a failed attempt is repeated at most.
pub const MAX_RETRIES: u32 = 5;

/// The wait before the first retry, in milliseconds.
pub const INITIAL_RETRY_DELAY_MS: u64 = 1000;

/// The longest wait before a retry, in milliseconds.
pub const MAX_RETRY_DELAY_MS: u64 = 32000;

/// Where the orchestrator stands between two attempts.
#[derive(Debug, Clone, Copy, PartialEq, Eq, Structural)]
pub struct RetryState {
    /// How many retries have been granted so far.
    pub attempts_made: u32,
    /// The wait before the next retry, in milliseconds.
    pub current_delay: u64,
}

/// What the orchestrator asks of its caller after an attempt.
#[derive(Debug, PartialEq, Eq)]
pub enum RetryDecision {
    /// The attempt succeeded: hand out the result.
    Success(TranslationResult),
    /// Wait `wait_ms` milliseconds, then attempt again in state `next`.
    Retry { wait_ms: u64, next: RetryState },
    /// Give up: hand out the failure of the last attempt, unchanged.
    Failed(TranslateError),
}

/// Mathematical model of a [`RetryDecision`].
pub enum RetryDecisionView {
    Success(TranslationResultView),
    Retry { wait_ms: u64, next: RetryState },
    Failed(TranslateErrorView),
}

impl View for RetryDecision {
    type V = RetryDecisionView;

    open spec fn view(&self) -> RetryDecisionView {
        match self {
            RetryDecision::Success(result) => RetryDecisionView::Success(result@),
            RetryDecision::Retry { wait_ms, next } => RetryDecisionView::Retry {
                wait_ms: *wait_ms,
                next: *next,
            },
            RetryDecision::Failed(error) => RetryDecisionView::Failed(error@),
        }
    }
}

/// Mathematical model of what one attempt produced.
pub type OutcomeView = Result<TranslationResultView, TranslateErrorView>;

/// The model of an attempt's outcome.
pub open spec fn outcome_view(outcome: Result<TranslationResult, TranslateError>) -> OutcomeView {
    match outcome {
        Ok(result) => Ok(result@),
        Err(error) => Err(error@),
    }
}

/// The delay that follows `delay`: twice as long, but no longer than
/// [`MAX_RETRY_DELAY_MS`].
pub open spec fn next_delay(delay: u64) -> u64 {
    if 2 * delay <= MAX_RETRY_DELAY_MS {
        (2 * delay) as u64
    } else {
        MAX_RETRY_DELAY_MS
    }
}

impl RetryState {
    /// The state after a retry has been granted.
    pub open spec fn after_retry(self) -> RetryState {
        RetryState {
            attempts_made: (self.attempts_made + 1) as u32,
            current_delay: next_delay(self.current_delay),
        }
    }

    /// What the orchestrator decides in state `self` on `outcome`: a success
    /// ends the call; a retryable failure is retried while retries are left;
    /// any other failure, and a retryable one once they are used up, ends the
    /// call with that failure.
    pub open spec fn decision(self, outcome: OutcomeView) -> RetryDecisionView {
        match outcome {
            Ok(result) => RetryDecisionView::Success(result),
            Err(error) => {
                if is_retryable(error) && self.attempts_made < MAX_RETRIES {
                    RetryDecisionView::Retry {
                        wait_ms: self.current_delay,
                        next: self.after_retry(),
                    }
                } else {
                    RetryDecisionView::Failed(error)
                }
            },
        }
    }

    /// The state before the first attempt.
    pub fn new() -> (state: RetryState)
        ensures
            state == initial_state(),
    {
        RetryState { attempts_made: 0, current_delay: INITIAL_RETRY_DELAY_MS }
    }

    /// Decides what follows an attempt that ended in `outcome`.
    pub fn decide(self, outcome: Result<TranslationResult, TranslateError>) -> (decision:
        RetryDecision)
        ensures
            decision@ == self.decision(outcome_view(outcome)),
    {
        match outcome {
            Ok(result) => RetryDecision::Success(result),
            Err(error) => {
                if is_rate_limit_error(&error) && self.attempts_made < MAX_RETRIES {
                    let doubled: u64 = if self.current_delay <= MAX_RETRY_DELAY_MS / 2 {
                        self.current_delay * 2
                    } else {
                        MAX_RETRY_DELAY_MS
                    };
                    RetryDecision::Retry {
                        wait_ms: self.current_delay,
                        next: RetryState {
                            attempts_made: self.attempts_made + 1,
                            current_delay: doubled,
                        },
                    }
                } else {
                    RetryDecision::Failed(error)
                }
            },
        }
    }
}

/// Mathematical model of a whole call: the waits between its attempts, in
/// order, and how it ended.
pub struct RunView {
    /// The waits, in milliseconds, one after each attempt but the last.
    pub waits: Seq<u64>,
    /// The result or the failure that the call ended with; `None` while the
    /// orchestrator is still asking for another attempt.
    pub end: Option<OutcomeView>,
}

impl RunView {
    /// How many attempts were made.
    pub open spec fn attempts(self) -> nat {
        if self.end is Some {
            self.waits.len() + 1
        } else {
            self.waits.len()
        }
    }
}

/// What the orchestrator does from `state` on when its attempts end in
/// `outcomes`, one after the other. Outcomes beyond the end of the call are not
/// looked at.
pub open spec fn run_from(state: RetryState, outcomes: Seq<OutcomeView>) -> RunView
    decreases outcomes.len(),
{
    if outcomes.len() == 0 {
        RunView { waits: Seq::empty(), end: None }
    } else {
        match state.decision(outcomes[0]) {
            RetryDecisionView::Success(result) => RunView {
                waits: Seq::empty(),
                end: Some(Ok(result)),
            },
            RetryDecisionView::Failed(error) => RunView {
                waits: Seq::empty(),
                end: Some(Err(error)),
            },
            RetryDecisionView::Retry { wait_ms, next } => {
                let rest = run_from(next, outcomes.drop_first());
                RunView { waits: seq![wait_ms] + rest.waits, end: rest.end }
            },
        }
    }
}

/// The state before the first attempt.
pub open spec fn initial_state() -> RetryState {
    RetryState { attempts_made: 0, current_delay: INITIAL_RETRY_DELAY_MS }
}

/// What a call does when its attempts end in `outcomes`.
pub open spec fn run(outcomes: Seq<OutcomeView>) -> RunView {
    run_from(initial_state(), outcomes)
}

/// The models of a list of outcomes.
pub open spec fn outcome_views(
    outcomes: Seq<Result<TranslationResult, TranslateError>>,
) -> Seq<OutcomeView> {
    Seq::new(outcomes.len(), |i: int| outcome_view(outcomes[i]))
}

/// A call played through on recorded outcomes.
#[derive(Debug, PartialEq, Eq)]
pub struct Replay {
    /// The waits that the orchestrator asked for, in order.
    pub waits: Vec<u64>,
    /// The result or the failure that the call ended with; `None` where the
    /// recorded outcomes ran out before the call ended.
    pub end: Option<Result<TranslationResult, TranslateError>>,
    /// How many attempts were made.
    pub attempts: usize,
}

impl View for Replay {
    type V = RunView;

    open spec fn view(&self) -> RunView {
        RunView {
            waits: self.waits@,
            end: match self.end {
                Some(outcome) => Some(outcome_view(outcome)),
                None => None,
            },
        }
    }
}

/// Plays a call through without performing it: the attempts end in the
/// recorded `outcomes`, one after the other, and no wait is slept.
pub fn replay(outcomes: Vec<Result<TranslationResult, TranslateError>>) -> (played: Replay)
    ensures
        played@ == run(outcome_views(outcomes@)),
        played.attempts == played@.attempts(),
{
    let ghost all = outcome_views(outcomes@);
    let mut rest = outcomes;
    let mut state = RetryState::new();
    let mut waits: Vec<u64> = Vec::new();
    let mut attempts: usize = 0;
    let recorded: usize = rest.len();
    while rest.len() > 0
        invariant
            all == outcome_views(outcomes@),
            run(all).waits == waits@ + run_from(state, outcome_views(rest@)).waits,
            run(all).end == run_from(state, outcome_views(rest@)).end,
            attempts == waits@.len(),
            attempts + rest@.len() == recorded,
        decreases rest.len(),
    {
        let ghost before = outcome_views(rest@);
        let outcome = rest.remove(0);
        assert(outcome_views(rest@) == before.drop_first());
        attempts += 1;
        match state.decide(outcome) {
            RetryDecision::Success(result) => {
                return Replay { waits, end: Some(Ok(result)), attempts };
            },
            RetryDecision::Failed(error) => {
                return Replay { waits, end: Some(Err(error)), attempts };
            },
            RetryDecision::Retry { wait_ms, next } => {
                let ghost waited = waits@;
                waits.push(wait_ms);
                assert(waits@ + run_from(next, outcome_views(rest@)).waits == waited + (seq![
                    wait_ms,
                ] + run_from(next, outcome_views(rest@)).waits));
                state = next;
            },
        }
    }
    Replay { waits, end: None, attempts }
}

/// The wait before retry number `retry` of a call, the first retry being
/// number zero.
pub open spec fn backoff_delay(retry: nat) -> u64
    decreases retry,
{
    if retry == 0 {
        INITIAL_RETRY_DELAY_MS
    } else {
        next_delay(backoff_delay((retry - 1) as nat))
    }
}

/// The sum of `waits`.
pub open spec fn total_wait(waits: Seq<u64>) -> int
    decreases waits.len(),
{
    if waits.len() == 0 {
        0
    } else {
        waits[0] + total_wait(waits.drop_first())
    }
}

impl RetryState {
    /// Whether a call can be in this state: no more retries are granted than
    /// [`MAX_RETRIES`], and the delay is the one that belongs to their number.
    pub open spec fn well_formed(self) -> bool {
        &&& self.attempts_made <= MAX_RETRIES
        &&& self.current_delay == backoff_delay(self.attempts_made as nat)
    }
}

/// The delays double from 1000 ms on and stay at 32000 ms once they have
/// reached it: they are 1000, 2000, 4000, 8000, 16000, then 32000 for ever.
pub proof fn lemma_backoff_delay_doubles_to_cap(retry: nat)
    ensures
        retry < 5 ==> backoff_delay(retry) == INITIAL_RETRY_DELAY_MS * pow2(retry),
        retry >= 5 ==> backoff_delay(retry) == MAX_RETRY_DELAY_MS,
    decreases retry,
{
    lemma2_to64();
    if retry > 0 {
        lemma_backoff_delay_doubles_to_cap((retry - 1) as nat);
        lemma_pow2_unfold(retry);
    }
}

/// The states of a call are well formed: the first one is, and so is the one
/// that follows a granted retry.
pub proof fn lemma_states_stay_well_formed(state: RetryState, outcome: OutcomeView)
    requires
        state.well_formed(),
    ensures
        initial_state().well_formed(),
        state.decision(outcome) matches RetryDecisionView::Retry { wait_ms, next }
            ==> next.well_formed() && next.attempts_made == state.attempts_made + 1,
{
}

/// From a well-formed state on, a call waits no more often than retries are
/// left, each wait is the delay that belongs to its retry, and their sum
/// stays below the cap by the delay that the state holds.
proof fn lemma_run_from_is_bounded(state: RetryState, outcomes: Seq<OutcomeView>)
    requires
        state.well_formed(),
    ensures
        run_from(state, outcomes).waits.len() <= MAX_RETRIES - state.attempts_made,
        forall|i: int|
            0 <= i < run_from(state, outcomes).waits.len() ==> run_from(state, outcomes).waits[i]
                == backoff_delay((state.attempts_made + i) as nat),
        total_wait(run_from(state, outcomes).waits) <= MAX_RETRY_DELAY_MS - state.current_delay,
    decreases outcomes.len(),
{
    lemma_backoff_delay_doubles_to_cap(state.attempts_made as nat);
    lemma2_to64();
    if outcomes.len() > 0 {
        match state.decision(outcomes[0]) {
            RetryDecisionView::Retry { wait_ms, next } => {
                let rest = run_from(next, outcomes.drop_first());
                let waits = run_from(state, outcomes).waits;
                lemma_run_from_is_bounded(next, outcomes.drop_first());
                assert(waits.drop_first() == rest.waits);
                assert forall|i: int| 0 < i < waits.len() implies waits[i] == backoff_delay(
                    (state.attempts_made + i) as nat,
                ) by {
                    assert(waits[i] == rest.waits[i - 1]);
                }
            },
            _ => {},
        }
    }
}

/// Whatever the attempts end in, a call makes at most six of them, one more
/// than [`MAX_RETRIES`]; its waits are the delays 1000, 2000, 4000, 8000 and
/// 16000 ms in this order, as far as it gets; and it waits 31 s at most in all.
pub proof fn lemma_run_is_bounded(outcomes: Seq<OutcomeView>)
    ensures
        run(outcomes).waits.len() <= MAX_RETRIES,
        run(outcomes).attempts() <= MAX_RETRIES + 1,
        forall|i: int|
            0 <= i < run(outcomes).waits.len() ==> run(outcomes).waits[i] == backoff_delay(
                i as nat,
            ),
        total_wait(run(outcomes).waits) <= 31000,
{
    lemma_run_from_is_bounded(initial_state(), outcomes);
}

/// A failure that is no HTTP status failure is never retried: in every state
/// the call ends with it, unchanged.
pub proof fn lemma_failure_without_status_ends_the_call(
    state: RetryState,
    error: TranslateErrorView,
)
    requires
        !(error is HttpStatusFailure),
    ensures
        state.decision(Err(error)) == RetryDecisionView::Failed(error),
{
    lemma_only_status_failure_is_retryable(error);
}

/// Whether an attempt ended in a failure that is retryable.
pub open spec fn is_retryable_failure(outcome: OutcomeView) -> bool {
    outcome matches Err(error) && is_retryable(error)
}

/// From `state` on, a call whose first `k` attempts fail retryably ends with
/// attempt `k` if that one ends otherwise or no retry is left after it.
proof fn lemma_run_from_ends_at(state: RetryState, outcomes: Seq<OutcomeView>, k: int)
    requires
        0 <= k < outcomes.len(),
        state.attempts_made + k <= MAX_RETRIES,
        forall|i: int| 0 <= i < k ==> is_retryable_failure(#[trigger] outcomes[i]),
        state.attempts_made + k == MAX_RETRIES || !is_retryable_failure(outcomes[k]),
    ensures
        run_from(state, outcomes).end == Some(outcomes[k]),
        run_from(state, outcomes).waits.len() == k,
    decreases k,
{
    if k > 0 {
        let rest = outcomes.drop_first();
        assert forall|i: int| 0 <= i < k - 1 implies is_retryable_failure(#[trigger] rest[i]) by {
            assert(rest[i] == outcomes[i + 1]);
        }
        lemma_run_from_ends_at(state.after_retry(), rest, k - 1);
    }
}

/// A call goes on as long as its attempts fail retryably and ends with the
/// first attempt that succeeds or fails terminally, or with the sixth if there
/// is none before: when the first `k` attempts fail retryably, and attempt `k`
/// ends otherwise or is the sixth, the call ends with what attempt `k` ended
/// in, unchanged, after `k` waits and `k + 1` attempts, and the waits are the
/// first `k` backoff delays.
pub proof fn lemma_run_ends_at(outcomes: Seq<OutcomeView>, k: int)
    requires
        0 <= k < outcomes.len(),
        k <= MAX_RETRIES,
        forall|i: int| 0 <= i < k ==> is_retryable_failure(#[trigger] outcomes[i]),
        k == MAX_RETRIES || !is_retryable_failure(outcomes[k]),
    ensures
        run(outcomes).end == Some(outcomes[k]),
        run(outcomes).attempts() == k + 1,
        run(outcomes).waits == Seq::new(k as nat, |i: int| backoff_delay(i as nat)),
{
    lemma_run_from_ends_at(initial_state(), outcomes, k);
    lemma_run_is_bounded(outcomes);
}

} // verus!
