//! The retry orchestrator: a bounded, Fibonacci-backoff retry discipline.
//!
//! A retrieval operation is attempted at most [`MAX_ATTEMPTS`] times. After
//! the k-th failed attempt (k starting at 1), and as long as budget remains,
//! the caller sleeps for `BASE_DELAY_MS * fib(k - 1)` milliseconds before the
//! next attempt; after the last allowed attempt fails, the orchestrator gives
//! up and surfaces the failure. The sleeping and the attempts themselves are
//! outside work driven by the caller; [`RetryState`] decides, and
//! [`run_retry`] gives the whole discipline as a function of the sequence of
//! attempt outcomes.

use vstd::prelude::*;

verus! {

/// Total attempt budget: one initial attempt plus four retries.
pub const MAX_ATTEMPTS: u64 = 5;

/// The delay slept after the first failed attempt, in milliseconds.
pub const BASE_DELAY_MS: u64 = 3000;

/// The Fibonacci sequence as the backoff schedule walks it: 1, 1, 2, 3, 5, ...
pub open spec fn fib(n: nat) -> nat
    decreases n,
{
    if n <= 1 {
        1
    } else {
        fib((n - 1) as nat) + fib((n - 2) as nat)
    }
}

/// The delay slept after the (k+1)-th failed attempt, in milliseconds.
pub open spec fn spec_delay_ms(k: nat) -> nat {
    (BASE_DELAY_MS * fib(k)) as nat
}

proof fn lemma_fib_small()
    ensures
        fib(0) == 1,
        fib(1) == 1,
        fib(2) == 2,
        fib(3) == 3,
        fib(4) == 5,
{
    reveal_with_fuel(fib, 6);
}

/// The delay slept after failure number `k + 1`, in milliseconds.
pub fn delay_ms(k: u64) -> (r: u64)
    requires
        k < MAX_ATTEMPTS - 1,
    ensures
        r as nat == spec_delay_ms(k as nat),
{
    let mut a: u64 = BASE_DELAY_MS;
    let mut b: u64 = BASE_DELAY_MS;
    let mut i: u64 = 0;
    while i < k
        invariant
            i <= k,
            k < MAX_ATTEMPTS - 1,
            a as nat == spec_delay_ms(i as nat),
            b as nat == spec_delay_ms((i + 1) as nat),
        decreases k - i,
    {
        proof {
            lemma_fib_small();
            reveal_with_fuel(fib, 6);
        }
        let next: u64 = a + b;
        a = b;
        b = next;
        i = i + 1;
    }
    a
}

/// What the orchestrator tells the caller after a failed attempt.
#[derive(Clone, Copy, Debug, PartialEq, Eq, Structural)]
pub enum RetryDecision {
    /// Sleep this many milliseconds, then attempt again.
    RetryAfterMs(u64),
    /// The attempt budget is exhausted; surface the last error.
    GiveUp,
}

/// The orchestrator's state across one retried operation: how many attempts
/// have failed so far.
#[derive(Clone, Copy, Debug, PartialEq, Eq, Structural)]
pub struct RetryState {
    pub failures: u64,
}

impl RetryState {
    /// A fresh state: nothing attempted yet.
    pub fn begin() -> (s: RetryState)
        ensures
            s.failures == 0,
    {
        RetryState { failures: 0 }
    }

    /// How many attempts may still be made.
    pub fn attempts_left(&self) -> (r: u64)
        requires
            self.failures <= MAX_ATTEMPTS,
        ensures
            r == MAX_ATTEMPTS - self.failures,
    {
        MAX_ATTEMPTS - self.failures
    }

    /// Record a failed attempt and decide whether to retry, and after what
    /// delay, or to give up.
    pub fn on_failure(&mut self) -> (d: RetryDecision)
        requires
            old(self).failures < MAX_ATTEMPTS,
        ensures
            final(self).failures == old(self).failures + 1,
            final(self).failures < MAX_ATTEMPTS ==> d == RetryDecision::RetryAfterMs(
                delay_after((old(self).failures + 1) as nat),
            ),
            final(self).failures == MAX_ATTEMPTS ==> d == RetryDecision::GiveUp,
    {
        self.failures = self.failures + 1;
        if self.failures < MAX_ATTEMPTS {
            let ms = delay_ms(self.failures - 1);
            proof {
                lemma_delay_after_fits(self.failures as nat);
            }
            RetryDecision::RetryAfterMs(ms)
        } else {
            RetryDecision::GiveUp
        }
    }
}

/// The delay slept after failure number `k`, in milliseconds, as a machine
/// integer.
pub open spec fn delay_after(k: nat) -> u64
    recommends
        1 <= k < MAX_ATTEMPTS,
{
    (BASE_DELAY_MS * fib((k - 1) as nat)) as u64
}

proof fn lemma_delay_after_fits(k: nat)
    requires
        1 <= k < MAX_ATTEMPTS,
    ensures
        delay_after(k) as nat == spec_delay_ms((k - 1) as nat),
{
    lemma_fib_small();
}

/// The retry discipline as a function of the attempt outcomes: how many
/// attempts are used and what comes out, given at most `budget` attempts.
/// `outcomes[i]` is what attempt `i + 1` would return.
pub open spec fn spec_retry_run<T>(outcomes: Seq<Option<T>>, budget: nat) -> (nat, Option<T>)
    decreases budget,
{
    if budget == 0 || outcomes.len() == 0 {
        (0, None::<T>)
    } else if outcomes[0] is Some {
        (1, outcomes[0])
    } else {
        let sub = spec_retry_run(outcomes.drop_first(), (budget - 1) as nat);
        (sub.0 + 1, sub.1)
    }
}

pub proof fn lemma_retry_run_bounded<T>(outcomes: Seq<Option<T>>, budget: nat)
    ensures
        spec_retry_run(outcomes, budget).0 <= budget,
    decreases budget,
{
    if budget == 0 || outcomes.len() == 0 {
    } else if outcomes[0] is Some {
    } else {
        lemma_retry_run_bounded(outcomes.drop_first(), (budget - 1) as nat);
    }
}

fn retry_run_rec<T>(outcomes: Vec<Option<T>>, budget: u64) -> (r: (u64, Option<T>))
    ensures
        r.0 as nat == spec_retry_run(outcomes@, budget as nat).0,
        r.1 == spec_retry_run(outcomes@, budget as nat).1,
    decreases budget,
{
    let mut outcomes = outcomes;
    if budget == 0 || outcomes.len() == 0 {
        (0, None)
    } else {
        let first = outcomes.remove(0);
        match first {
            Some(v) => (1, Some(v)),
            None => {
                let sub = retry_run_rec(outcomes, budget - 1);
                proof {
                    lemma_retry_run_bounded::<T>(outcomes@, (budget - 1) as nat);
                }
                (sub.0 + 1, sub.1)
            },
        }
    }
}

/// Everything a retried operation shows the outside world: how many attempts
/// ran, the delays slept between them, and the final result.
pub struct RetryReport<T> {
    pub attempts: u64,
    pub delays_ms: Vec<u64>,
    pub result: Option<T>,
}

/// Run the whole retry discipline over a fixed sequence of attempt outcomes:
/// attempts stop at the first success or when the budget of
/// [`MAX_ATTEMPTS`] is spent, and between two attempts the caller sleeps the
/// Fibonacci-schedule delay.
pub fn run_retry<T>(outcomes: Vec<Option<T>>) -> (r: RetryReport<T>)
    ensures
        r.attempts as nat == spec_retry_run(outcomes@, MAX_ATTEMPTS as nat).0,
        r.result == spec_retry_run(outcomes@, MAX_ATTEMPTS as nat).1,
        r.attempts == 0 ==> r.delays_ms@.len() == 0,
        r.attempts > 0 ==> r.delays_ms@.len() == r.attempts - 1,
        forall|k: int|
            0 <= k < r.delays_ms@.len() ==> #[trigger] r.delays_ms@[k] as nat == spec_delay_ms(
                k as nat,
            ),
{
    let ghost s = outcomes@;
    let (attempts, result) = retry_run_rec(outcomes, MAX_ATTEMPTS);
    proof {
        lemma_retry_run_bounded::<T>(s, MAX_ATTEMPTS as nat);
    }
    let mut delays_ms: Vec<u64> = Vec::new();
    let sleeps: u64 = if attempts == 0 {
        0
    } else {
        attempts - 1
    };
    let mut k: u64 = 0;
    while k < sleeps
        invariant
            k <= sleeps,
            sleeps < MAX_ATTEMPTS,
            delays_ms@.len() == k,
            forall|j: int|
                0 <= j < k ==> #[trigger] delays_ms@[j] as nat == spec_delay_ms(j as nat),
        decreases sleeps - k,
    {
        let d = delay_ms(k);
        delays_ms.push(d);
        k = k + 1;
    }
    RetryReport { attempts, delays_ms, result }
}

/// Law: a backend that never succeeds is attempted exactly [`MAX_ATTEMPTS`]
/// times, and the whole operation still fails.
pub proof fn lemma_retry_bound<T>(outcomes: Seq<Option<T>>)
    requires
        outcomes.len() >= MAX_ATTEMPTS,
        forall|i: int| 0 <= i < outcomes.len() ==> #[trigger] outcomes[i] is None,
    ensures
        spec_retry_run(outcomes, MAX_ATTEMPTS as nat).0 == MAX_ATTEMPTS,
        spec_retry_run(outcomes, MAX_ATTEMPTS as nat).1 is None,
{
    lemma_retry_all_fail(outcomes, MAX_ATTEMPTS as nat);
}

proof fn lemma_retry_all_fail<T>(outcomes: Seq<Option<T>>, budget: nat)
    requires
        outcomes.len() >= budget,
        forall|i: int| 0 <= i < outcomes.len() ==> #[trigger] outcomes[i] is None,
    ensures
        spec_retry_run(outcomes, budget).0 == budget,
        spec_retry_run(outcomes, budget).1 is None,
    decreases budget,
{
    if budget == 0 {
    } else {
        lemma_retry_all_fail(outcomes.drop_first(), (budget - 1) as nat);
    }
}

/// Law: a backend that fails on every attempt before attempt `k + 1` and
/// succeeds on attempt `k + 1` makes the whole operation succeed, after
/// exactly `k + 1` attempts, with exactly the value that attempt returned.
pub proof fn lemma_eventual_success<T>(outcomes: Seq<Option<T>>, k: int)
    requires
        0 <= k < MAX_ATTEMPTS,
        k < outcomes.len(),
        forall|i: int| 0 <= i < k ==> #[trigger] outcomes[i] is None,
        outcomes[k] is Some,
    ensures
        spec_retry_run(outcomes, MAX_ATTEMPTS as nat).0 == k + 1,
        spec_retry_run(outcomes, MAX_ATTEMPTS as nat).1 == outcomes[k],
{
    lemma_success_at(outcomes, k, MAX_ATTEMPTS as nat);
}

proof fn lemma_success_at<T>(outcomes: Seq<Option<T>>, k: int, budget: nat)
    requires
        0 <= k < budget,
        k < outcomes.len(),
        forall|i: int| 0 <= i < k ==> #[trigger] outcomes[i] is None,
        outcomes[k] is Some,
    ensures
        spec_retry_run(outcomes, budget).0 == k + 1,
        spec_retry_run(outcomes, budget).1 == outcomes[k],
    decreases budget,
{
    if k == 0 {
    } else {
        lemma_success_at(outcomes.drop_first(), k - 1, (budget - 1) as nat);
    }
}

/// Law: the delays between attempts follow the Fibonacci schedule seeded at
/// [`BASE_DELAY_MS`]: 3000, 3000, 6000, then 9000 milliseconds.
pub proof fn lemma_delay_schedule()
    ensures
        spec_delay_ms(0) == 3000,
        spec_delay_ms(1) == 3000,
        spec_delay_ms(2) == 6000,
        spec_delay_ms(3) == 9000,
{
    lemma_fib_small();
}

} // verus!
