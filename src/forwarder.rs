//! One delivery cycle: bounded attempts with exponential backoff around a
//! single transport call, and the store update that ends the cycle.

use vstd::prelude::*;

use crate::config::BackendConfig;
use crate::effects::{JITTER_LIMIT_MS, jitter_ms};
use crate::models::{FhirMessage, MessageRecord, MessageStatus};
use crate::store::{MessageStore, StoreError, holds_id, sent_in, failed_in};

verus! {

/// What one delivery attempt came to.
#[derive(Debug)]
pub enum DeliveryOutcome {
    Success,
    RetryableFailure(String),
    NonRetryableFailure(String),
}

/// What the forwarder does after an attempt.
#[derive(Debug)]
pub enum CycleStep {
    /// The payload was delivered.
    Delivered,
    /// Wait this many milliseconds, then attempt again.
    RetryAfter(u64),
    /// The cycle ends in failure with this detail.
    GiveUp(String),
}

/// Why a delivery cycle did not end well.
#[derive(Debug)]
pub enum ForwardError {
    /// Delivery failed; the failure was recorded in the store.
    Delivery(String),
    /// The outcome could not be recorded in the store.
    Store(StoreError),
}

/// `r` reports a delivery failure with this detail.
pub open spec fn is_delivery_error(r: Result<(), ForwardError>, d: Seq<char>) -> bool {
    match r {
        Err(ForwardError::Delivery(x)) => x@ == d,
        _ => false,
    }
}

/// The attempts of one cycle, the waits between them and how it ended.
#[derive(Debug)]
pub struct CycleReport {
    pub attempts: usize,
    pub delays: Vec<u64>,
    pub result: Result<(), String>,
}

pub open spec fn pow2(n: nat) -> nat
    decreases n,
{
    if n == 0 {
        1
    } else {
        2 * pow2((n - 1) as nat)
    }
}

/// The delay before retry `n` (counted from 0), before jitter: the initial
/// delay doubled `n` times, capped at the largest delay.
pub open spec fn pre_jitter_delay(initial: int, max: int, n: nat) -> int {
    if initial * pow2(n) < max {
        initial * pow2(n)
    } else {
        max
    }
}

pub open spec fn is_retryable(o: DeliveryOutcome) -> bool {
    o is RetryableFailure
}

/// The failure detail of an outcome; empty for a success.
pub open spec fn detail(o: DeliveryOutcome) -> Seq<char> {
    match o {
        DeliveryOutcome::Success => Seq::empty(),
        DeliveryOutcome::RetryableFailure(d) => d@,
        DeliveryOutcome::NonRetryableFailure(d) => d@,
    }
}

/// A cycle over these outcomes, with budget `max`, ends after attempt `k`:
/// every earlier attempt failed retryably, and attempt `k` either settled
/// or used up the budget.
pub open spec fn settles_at(outcomes: Seq<DeliveryOutcome>, max: nat, k: nat) -> bool {
    &&& 1 <= k <= max
    &&& k <= outcomes.len()
    &&& forall|j: int| 0 <= j < k - 1 ==> is_retryable(#[trigger] outcomes[j])
    &&& k < max ==> !is_retryable(outcomes[k - 1])
}

/// A cycle settles after one attempt only.
pub proof fn lemma_settles_unique(outcomes: Seq<DeliveryOutcome>, max: nat, k1: nat, k2: nat)
    requires
        settles_at(outcomes, max, k1),
        settles_at(outcomes, max, k2),
    ensures
        k1 == k2,
{
    if k1 < k2 {
        assert(is_retryable(outcomes[k1 - 1]));
    } else if k2 < k1 {
        assert(is_retryable(outcomes[k2 - 1]));
    }
}

/// Given a transport whose first answer is a non-retryable failure, a cycle
/// makes exactly one attempt.
pub proof fn lemma_non_retryable_single_attempt(outcomes: Seq<DeliveryOutcome>, max: nat, k: nat)
    requires
        settles_at(outcomes, max, k),
        outcomes.len() > 0,
        outcomes[0] is NonRetryableFailure,
    ensures
        k == 1,
{
    if k > 1 {
        assert(is_retryable(outcomes[0]));
    }
}

/// With five attempts, a first delay of 100 ms, a cap of 2000 ms and
/// doubling, the delays before jitter are 100, 200, 400, 800 and 1600 ms,
/// never above the cap.
pub proof fn lemma_default_schedule(n: nat)
    requires
        n < 5,
    ensures
        pre_jitter_delay(100, 2000, n) == 100 * pow2(n),
        pre_jitter_delay(100, 2000, n) <= 2000,
        n == 0 ==> pre_jitter_delay(100, 2000, n) == 100,
        n == 1 ==> pre_jitter_delay(100, 2000, n) == 200,
        n == 2 ==> pre_jitter_delay(100, 2000, n) == 400,
        n == 3 ==> pre_jitter_delay(100, 2000, n) == 800,
        n == 4 ==> pre_jitter_delay(100, 2000, n) == 1600,
{
    reveal_with_fuel(pow2, 5);
}

/// Sorts an answer of the downstream consumer by its HTTP status: success
/// for 2xx, a non-retryable failure for a client error other than 429,
/// and a retryable failure otherwise.
pub fn classify_response(status: u16, body: String) -> (r: DeliveryOutcome)
    ensures
        200 <= status <= 299 ==> r is Success,
        400 <= status <= 499 && status != 429 ==> r is NonRetryableFailure && detail(r) == body@,
        !(200 <= status <= 299) && !(400 <= status <= 499 && status != 429) ==> r is RetryableFailure
            && detail(r) == body@,
{
    if 200 <= status && status <= 299 {
        DeliveryOutcome::Success
    } else if 400 <= status && status <= 499 && status != 429 {
        DeliveryOutcome::NonRetryableFailure(body)
    } else {
        DeliveryOutcome::RetryableFailure(body)
    }
}

/// Delivers payloads to one downstream consumer, `max_attempts` attempts
/// per cycle at most.
#[derive(Clone, Debug)]
pub struct Forwarder {
    pub backend_url: String,
    pub max_attempts: usize,
    pub initial_backoff_ms: u64,
    pub max_backoff_ms: u64,
}

impl Forwarder {
    pub open spec fn wf(&self) -> bool {
        self.max_attempts >= 1
    }

    /// A forwarder for the configured consumer. Its budget is the configured
    /// number of attempts, and at least one.
    pub fn new(config: &BackendConfig) -> (r: Forwarder)
        ensures
            r.wf(),
            r.backend_url@ == config.url@,
            r.max_attempts == if config.max_retries == 0 { 1 } else { config.max_retries as int },
            r.initial_backoff_ms == config.initial_backoff_ms,
            r.max_backoff_ms == config.max_backoff_ms,
    {
        let max_attempts: usize = if config.max_retries == 0 {
            1
        } else {
            config.max_retries as usize
        };
        Forwarder {
            backend_url: config.url.clone(),
            max_attempts,
            initial_backoff_ms: config.initial_backoff_ms,
            max_backoff_ms: config.max_backoff_ms,
        }
    }

    pub open spec fn delay_before(&self, n: nat) -> int {
        pre_jitter_delay(self.initial_backoff_ms as int, self.max_backoff_ms as int, n)
    }

    /// The delay before retry `n`, before jitter.
    pub fn backoff_delay(&self, n: usize) -> (r: u64)
        ensures
            r == self.delay_before(n as nat),
    {
        let init = self.initial_backoff_ms;
        let max = self.max_backoff_ms;
        let mut d: u64 = if init < max {
            init
        } else {
            max
        };
        let mut i: usize = 0;
        assert(pow2(0) == 1);
        while i < n
            invariant
                i <= n,
                d == pre_jitter_delay(init as int, max as int, i as nat),
            decreases n - i,
        {
            proof {
                let p = pow2(i as nat);
                assert(pow2((i + 1) as nat) == 2 * p);
                assert(init * pow2((i + 1) as nat) == 2 * (init * p)) by (nonlinear_arith)
                    requires
                        pow2((i + 1) as nat) == 2 * p,
                ;
                assert(init * p >= 0) by (nonlinear_arith)
                    requires
                        p >= 0,
                ;
            }
            if d < max {
                let doubled: u128 = d as u128 * 2;
                d = if doubled < max as u128 {
                    doubled as u64
                } else {
                    max
                };
            }
            i = i + 1;
        }
        d
    }

    /// The delay before retry `n` after jitter: never above the delay
    /// before jitter. A delay beyond eleven days is jittered within its
    /// first eleven days.
    pub fn jittered_delay(&self, n: usize) -> (r: u64)
        ensures
            r <= self.delay_before(n as nat),
            r <= JITTER_LIMIT_MS,
    {
        let d = self.backoff_delay(n);
        if d <= JITTER_LIMIT_MS {
            jitter_ms(d)
        } else {
            jitter_ms(JITTER_LIMIT_MS)
        }
    }

    /// Decides what follows attempt number `attempts_made` (counted from 1)
    /// of a cycle, given what it came to.
    pub fn next_step(&self, attempts_made: usize, outcome: &DeliveryOutcome) -> (r: CycleStep)
        requires
            attempts_made >= 1,
        ensures
            outcome is Success ==> r is Delivered,
            outcome is NonRetryableFailure ==> r is GiveUp && r->GiveUp_0@ == detail(*outcome),
            outcome is RetryableFailure && attempts_made >= self.max_attempts ==> r is GiveUp
                && r->GiveUp_0@ == detail(*outcome),
            outcome is RetryableFailure && attempts_made < self.max_attempts ==> r is RetryAfter
                && r->RetryAfter_0 <= self.delay_before((attempts_made - 1) as nat),
    {
        match outcome {
            DeliveryOutcome::Success => CycleStep::Delivered,
            DeliveryOutcome::NonRetryableFailure(d) => CycleStep::GiveUp(d.clone()),
            DeliveryOutcome::RetryableFailure(d) => {
                if attempts_made < self.max_attempts {
                    CycleStep::RetryAfter(self.jittered_delay(attempts_made - 1))
                } else {
                    CycleStep::GiveUp(d.clone())
                }
            },
        }
    }

    /// Runs one cycle against the transport's successive answers, without
    /// waiting: the report tells how many attempts were made, the waits
    /// chosen between them, and how the cycle ended.
    pub fn run_cycle(&self, outcomes: &Vec<DeliveryOutcome>) -> (r: CycleReport)
        requires
            self.wf(),
            outcomes.len() >= self.max_attempts,
        ensures
            settles_at(outcomes@, self.max_attempts as nat, r.attempts as nat),
            r.result is Ok <==> outcomes@[r.attempts - 1] is Success,
            r.result is Err ==> r.result->Err_0@ == detail(outcomes@[r.attempts - 1]),
            r.delays.len() == r.attempts - 1,
            forall|j: int| 0 <= j < r.delays.len() ==> #[trigger] r.delays@[j] <= self.delay_before(j as nat),
    {
        let mut delays: Vec<u64> = Vec::new();
        let mut i: usize = 0;
        while i < self.max_attempts
            invariant
                self.wf(),
                i < self.max_attempts,
                outcomes.len() >= self.max_attempts,
                delays.len() == i,
                forall|j: int| 0 <= j < i ==> is_retryable(#[trigger] outcomes@[j]),
                forall|j: int| 0 <= j < delays.len() ==> #[trigger] delays@[j] <= self.delay_before(j as nat),
            decreases self.max_attempts - i,
        {
            let step = self.next_step(i + 1, &outcomes[i]);
            match step {
                CycleStep::Delivered => {
                    return CycleReport { attempts: i + 1, delays, result: Ok(()) };
                },
                CycleStep::GiveUp(d) => {
                    return CycleReport { attempts: i + 1, delays, result: Err(d) };
                },
                CycleStep::RetryAfter(w) => {
                    delays.push(w);
                    i = i + 1;
                },
            }
        }
        CycleReport { attempts: i, delays, result: Ok(()) }
    }

    /// Ends a cycle of `message` in the store: a delivery marks it sent, a
    /// failure marks it failed with the detail and one more attempt. A store
    /// that cannot take the update is reported apart from a delivery failure.
    pub fn record_outcome(
        store: &mut MessageStore,
        message: &FhirMessage,
        result: Result<(), String>,
        now: i64,
    ) -> (r: Result<(), ForwardError>)
        requires
            old(store).wf(),
        ensures
            final(store).wf(),
            !holds_id(old(store)@, message.id) ==> final(store)@ == old(store)@ && r matches Err(
                ForwardError::Store(StoreError::UnknownId),
            ),
            holds_id(old(store)@, message.id) && result is Ok ==> r is Ok && final(store)@
                == sent_in(old(store)@, message.id, now),
            holds_id(old(store)@, message.id) && result is Err ==> final(store)@ == failed_in(
                old(store)@,
                message.id,
                result->Err_0@,
                next_count(message.retry_count),
                now,
            ) && is_delivery_error(r, result->Err_0@),
    {
        match outcome_write(message, result) {
            StoreWrite::MarkSent(id) => match store.mark_as_sent(id, now) {
                Ok(()) => Ok(()),
                Err(e) => Err(ForwardError::Store(e)),
            },
            StoreWrite::MarkFailed(id, d, count) => {
                let kept = d.clone();
                match store.mark_as_failed(id, d, count, now) {
                    Ok(()) => Err(ForwardError::Delivery(kept)),
                    Err(e) => Err(ForwardError::Store(e)),
                }
            },
        }
    }

    /// One full delivery cycle of `message` against the transport's
    /// successive answers, recorded in the store at `now`.
    pub fn forward_message(
        &self,
        store: &mut MessageStore,
        message: &FhirMessage,
        outcomes: &Vec<DeliveryOutcome>,
        now: i64,
    ) -> (r: Result<(), ForwardError>)
        requires
            self.wf(),
            old(store).wf(),
            outcomes.len() >= self.max_attempts,
        ensures
            final(store).wf(),
            final(store)@ == cycle_effect(old(store)@, message@, outcomes@, self.max_attempts as nat, now),
            r is Ok <==> cycle_delivers(old(store)@, message@, outcomes@, self.max_attempts as nat),
            !holds_id(old(store)@, message.id) ==> r matches Err(ForwardError::Store(StoreError::UnknownId)),
            holds_id(old(store)@, message.id) && !cycle_delivers(
                old(store)@,
                message@,
                outcomes@,
                self.max_attempts as nat,
            ) ==> is_delivery_error(
                r,
                detail(outcomes@[cycle_end(outcomes@, self.max_attempts as nat) - 1]),
            ),
    {
        let report = self.run_cycle(outcomes);
        proof {
            let max = self.max_attempts as nat;
            lemma_cycle_end_settles(outcomes@, max);
            lemma_settles_unique(outcomes@, max, report.attempts as nat, cycle_end(outcomes@, max));
        }
        Forwarder::record_outcome(store, message, report.result, now)
    }
}

/// The attempt count that a failed cycle records: one more, held at the
/// largest `i32`.
pub open spec fn next_count(c: i32) -> i32 {
    if c < i32::MAX {
        (c + 1) as i32
    } else {
        c
    }
}

/// The store write that ends a cycle.
#[derive(Debug)]
pub enum StoreWrite {
    /// Mark the message with this identifier sent.
    MarkSent(u128),
    /// Mark it failed, with this detail and attempt count.
    MarkFailed(u128, String, i32),
}

/// `w` marks message `id` failed with detail `d` and count `c`.
pub open spec fn is_failed_write(w: StoreWrite, id: u128, d: Seq<char>, c: i32) -> bool {
    match w {
        StoreWrite::MarkFailed(i, e, n) => i == id && e@ == d && n == c,
        _ => false,
    }
}

/// The write that ends a cycle of `message` with this result.
pub fn outcome_write(message: &FhirMessage, result: Result<(), String>) -> (r: StoreWrite)
    ensures
        result is Ok ==> r == StoreWrite::MarkSent(message.id),
        result is Err ==> is_failed_write(r, message.id, result->Err_0@, next_count(message.retry_count)),
{
    match result {
        Ok(()) => StoreWrite::MarkSent(message.id),
        Err(d) => {
            let count = if message.retry_count < i32::MAX {
                message.retry_count + 1
            } else {
                message.retry_count
            };
            StoreWrite::MarkFailed(message.id, d, count)
        },
    }
}

/// The attempt after which a cycle ends, searching from attempt `k`.
pub open spec fn cycle_end_from(outcomes: Seq<DeliveryOutcome>, max: nat, k: nat) -> nat
    decreases max - k,
{
    if k >= max || k == 0 || !is_retryable(outcomes[k - 1]) {
        k
    } else {
        cycle_end_from(outcomes, max, k + 1)
    }
}

/// The attempt after which a cycle over these answers, with budget `max`,
/// ends.
pub open spec fn cycle_end(outcomes: Seq<DeliveryOutcome>, max: nat) -> nat {
    cycle_end_from(outcomes, max, 1)
}

proof fn lemma_cycle_end_from_settles(outcomes: Seq<DeliveryOutcome>, max: nat, k: nat)
    requires
        1 <= k <= max,
        outcomes.len() >= max,
        forall|j: int| 0 <= j < k - 1 ==> is_retryable(#[trigger] outcomes[j]),
    ensures
        settles_at(outcomes, max, cycle_end_from(outcomes, max, k)),
    decreases max - k,
{
    if k < max && is_retryable(outcomes[k - 1]) {
        lemma_cycle_end_from_settles(outcomes, max, k + 1);
    }
}

/// The attempt named by `cycle_end` is where the cycle settles.
pub proof fn lemma_cycle_end_settles(outcomes: Seq<DeliveryOutcome>, max: nat)
    requires
        max >= 1,
        outcomes.len() >= max,
    ensures
        settles_at(outcomes, max, cycle_end(outcomes, max)),
{
    lemma_cycle_end_from_settles(outcomes, max, 1);
}

/// The cycle of `m` over these answers ends in a delivery.
pub open spec fn cycle_delivers(
    s: Seq<MessageRecord>,
    m: MessageRecord,
    outcomes: Seq<DeliveryOutcome>,
    max: nat,
) -> bool {
    holds_id(s, m.id) && outcomes[cycle_end(outcomes, max) - 1] is Success
}

/// The store after one cycle of `m` over these answers, recorded at `now`.
pub open spec fn cycle_effect(
    s: Seq<MessageRecord>,
    m: MessageRecord,
    outcomes: Seq<DeliveryOutcome>,
    max: nat,
    now: i64,
) -> Seq<MessageRecord> {
    let last = outcomes[cycle_end(outcomes, max) - 1];
    if !holds_id(s, m.id) {
        s
    } else if last is Success {
        sent_in(s, m.id, now)
    } else {
        failed_in(s, m.id, detail(last), next_count(m.retry_count), now)
    }
}

/// Given a transport that always answers with a non-retryable failure, a
/// cycle makes exactly one attempt and records the message failed.
pub proof fn lemma_cycle_non_retryable(
    s: Seq<MessageRecord>,
    m: MessageRecord,
    outcomes: Seq<DeliveryOutcome>,
    max: nat,
    now: i64,
)
    requires
        max >= 1,
        outcomes.len() >= max,
        outcomes[0] is NonRetryableFailure,
    ensures
        cycle_end(outcomes, max) == 1,
        !cycle_delivers(s, m, outcomes, max),
        holds_id(s, m.id) ==> cycle_effect(s, m, outcomes, max, now) == failed_in(
            s,
            m.id,
            detail(outcomes[0]),
            next_count(m.retry_count),
            now,
        ),
{
    lemma_cycle_end_settles(outcomes, max);
    lemma_non_retryable_single_attempt(outcomes, max, cycle_end(outcomes, max));
}

/// Given a transport that fails retryably on every attempt, a cycle uses
/// its whole budget and records the message failed.
pub proof fn lemma_cycle_exhausts_budget(
    s: Seq<MessageRecord>,
    m: MessageRecord,
    outcomes: Seq<DeliveryOutcome>,
    max: nat,
    now: i64,
)
    requires
        max >= 1,
        outcomes.len() >= max,
        forall|j: int| 0 <= j < max ==> is_retryable(#[trigger] outcomes[j]),
    ensures
        cycle_end(outcomes, max) == max,
        !cycle_delivers(s, m, outcomes, max),
        holds_id(s, m.id) ==> cycle_effect(s, m, outcomes, max, now) == failed_in(
            s,
            m.id,
            detail(outcomes[max - 1]),
            next_count(m.retry_count),
            now,
        ),
{
    lemma_cycle_end_settles(outcomes, max);
    assert(settles_at(outcomes, max, max));
    lemma_settles_unique(outcomes, max, max, cycle_end(outcomes, max));
}

/// A cycle never takes a sent message out of `Sent` nor moves its
/// `sent_at`, and never lowers any attempt count.
pub proof fn lemma_cycle_keeps_sent_and_counts(
    s: Seq<MessageRecord>,
    m: MessageRecord,
    outcomes: Seq<DeliveryOutcome>,
    max: nat,
    now: i64,
    i: int,
)
    requires
        0 <= i < s.len(),
    ensures
        cycle_effect(s, m, outcomes, max, now).len() == s.len(),
        s[i].status == MessageStatus::Sent ==> cycle_effect(s, m, outcomes, max, now)[i].status
            == MessageStatus::Sent && cycle_effect(s, m, outcomes, max, now)[i].sent_at == s[i].sent_at,
        cycle_effect(s, m, outcomes, max, now)[i].retry_count >= s[i].retry_count,
{
}

} // verus!
