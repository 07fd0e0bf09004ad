//! The retry sweep: picks undelivered messages below the hard attempt
//! ceiling and drives one delivery cycle for each.

use vstd::prelude::*;

use crate::config::RetryWorkerConfig;
use crate::forwarder::{DeliveryOutcome, Forwarder, cycle_delivers, cycle_effect};
use crate::models::{FhirMessage, MessageRecord};
use crate::store::{MessageStore, at_most, keep, lemma_keep_from, records, retryable_of};

verus! {

/// Messages with this many failed cycles are no longer swept.
pub const HARD_ATTEMPT_CEILING: i32 = 10;

/// The records of `s` whose attempt count is below `ceiling`, in order.
pub open spec fn below_ceiling(s: Seq<MessageRecord>, ceiling: i32) -> Seq<MessageRecord> {
    keep(s, |m: MessageRecord| m.retry_count < ceiling)
}

/// A sweep never hands on a message whose attempt count has reached the
/// ceiling, whatever its status.
pub proof fn lemma_ceiling_excludes(s: Seq<MessageRecord>, ceiling: i32)
    ensures
        forall|i: int|
            0 <= i < below_ceiling(s, ceiling).len() ==> (#[trigger] below_ceiling(s, ceiling)[i]).retry_count
                < ceiling,
{
    lemma_keep_from(s, |m: MessageRecord| m.retry_count < ceiling);
}

/// Keeps the messages whose attempt count is below `ceiling`, in order.
pub fn select_for_retry(messages: Vec<FhirMessage>, ceiling: i32) -> (r: Vec<FhirMessage>)
    ensures
        records(r@) == below_ceiling(records(messages@), ceiling),
{
    let mut out: Vec<FhirMessage> = Vec::new();
    let mut i: usize = 0;
    while i < messages.len()
        invariant
            i <= messages.len(),
            records(out@) == below_ceiling(records(messages@.subrange(0, i as int)), ceiling),
        decreases messages.len() - i,
    {
        let ghost pre = records(messages@.subrange(0, i as int));
        assert(records(messages@.subrange(0, i + 1)).drop_last() =~= pre);
        if messages[i].retry_count < ceiling {
            let ghost before = out@;
            out.push(messages[i].duplicate());
            assert(records(out@) =~= records(before).push(messages@[i as int]@));
        }
        i = i + 1;
    }
    assert(messages@.subrange(0, i as int) =~= messages@);
    out
}

/// Some planned record carries this identifier.
pub open spec fn planned_id(plan: Seq<MessageRecord>, id: u128) -> bool {
    exists|k: int| 0 <= k < plan.len() && (#[trigger] plan[k]).id == id
}

/// The store after the cycles of the first `n` planned messages, in order,
/// each over its own answers.
pub open spec fn sweep_from(
    s: Seq<MessageRecord>,
    plan: Seq<MessageRecord>,
    outcomes: Seq<Vec<DeliveryOutcome>>,
    max: nat,
    now: i64,
    n: nat,
) -> Seq<MessageRecord>
    decreases n,
{
    if n == 0 {
        s
    } else {
        let prev = sweep_from(s, plan, outcomes, max, now, (n - 1) as nat);
        cycle_effect(prev, plan[n - 1], outcomes[n - 1]@, max, now)
    }
}

/// How many of the first `n` planned cycles end in a delivery.
pub open spec fn delivered_in_sweep(
    s: Seq<MessageRecord>,
    plan: Seq<MessageRecord>,
    outcomes: Seq<Vec<DeliveryOutcome>>,
    max: nat,
    now: i64,
    n: nat,
) -> nat
    decreases n,
{
    if n == 0 {
        0
    } else {
        let prev = sweep_from(s, plan, outcomes, max, now, (n - 1) as nat);
        delivered_in_sweep(s, plan, outcomes, max, now, (n - 1) as nat) + if cycle_delivers(
            prev,
            plan[n - 1],
            outcomes[n - 1]@,
            max,
        ) {
            1nat
        } else {
            0nat
        }
    }
}

/// How one sweep went.
#[derive(Clone, Copy, Debug, PartialEq, Eq, Structural)]
pub struct SweepSummary {
    pub dispatched: usize,
    pub successes: usize,
    pub failures: usize,
}

/// Re-drives undelivered messages through the forwarder.
#[derive(Clone, Debug)]
pub struct RetryWorker {
    pub forwarder: Forwarder,
    pub config: RetryWorkerConfig,
    pub ceiling: i32,
}

impl RetryWorker {
    pub fn new(forwarder: Forwarder, config: RetryWorkerConfig) -> (r: RetryWorker)
        ensures
            r.forwarder == forwarder,
            r.config == config,
            r.ceiling == HARD_ATTEMPT_CEILING,
    {
        RetryWorker { forwarder, config, ceiling: HARD_ATTEMPT_CEILING }
    }

    /// What one sweep over this store hands to the forwarder.
    pub open spec fn planned(&self, s: Seq<MessageRecord>) -> Seq<MessageRecord> {
        below_ceiling(at_most(retryable_of(s), self.config.batch_size as int), self.ceiling)
    }

    /// The messages that a sweep dispatches: the first `batch_size`
    /// retryable ones, less those at the ceiling.
    pub fn plan_sweep(&self, store: &MessageStore) -> (r: Vec<FhirMessage>)
        ensures
            records(r@) == self.planned(store@),
    {
        let fetched = store.get_messages_for_retry(self.config.batch_size);
        select_for_retry(fetched, self.ceiling)
    }

    /// One sweep at `now`: each planned message, in order, gets one
    /// delivery cycle against the transport answers given for it. A failed
    /// message never stops the sweep.
    pub fn process_retry_batch(
        &self,
        store: &mut MessageStore,
        outcomes: &Vec<Vec<DeliveryOutcome>>,
        now: i64,
    ) -> (r: SweepSummary)
        requires
            old(store).wf(),
            self.forwarder.wf(),
            outcomes.len() >= self.config.batch_size,
            forall|i: int|
                0 <= i < outcomes.len() ==> (#[trigger] outcomes@[i]).len()
                    >= self.forwarder.max_attempts,
        ensures
            final(store).wf(),
            final(store)@ == sweep_from(
                old(store)@,
                self.planned(old(store)@),
                outcomes@,
                self.forwarder.max_attempts as nat,
                now,
                self.planned(old(store)@).len(),
            ),
            r.dispatched == self.planned(old(store)@).len(),
            r.successes == delivered_in_sweep(
                old(store)@,
                self.planned(old(store)@),
                outcomes@,
                self.forwarder.max_attempts as nat,
                now,
                self.planned(old(store)@).len(),
            ),
            r.successes + r.failures == r.dispatched,
            self.planned(old(store)@).len() == 0 ==> final(store)@ == old(store)@,
            retryable_of(old(store)@).len() == 0 ==> self.planned(old(store)@).len() == 0,
            final(store)@.len() == old(store)@.len(),
            forall|j: int| 0 <= j < old(store)@.len() ==> (#[trigger] final(store)@[j]).id == old(store)@[j].id,
            forall|j: int|
                0 <= j < old(store)@.len() && !planned_id(self.planned(old(store)@), old(store)@[j].id)
                    ==> #[trigger] final(store)@[j] == old(store)@[j],
            forall|j: int|
                0 <= j < old(store)@.len() && old(store)@[j].retry_count >= self.ceiling
                    ==> #[trigger] final(store)@[j] == old(store)@[j],
    {
        let plan = self.plan_sweep(store);
        let ghost start = store@;
        let ghost pl = self.planned(start);
        let ghost max = self.forwarder.max_attempts as nat;
        proof {
            let fetched = at_most(retryable_of(start), self.config.batch_size as int);
            lemma_ceiling_excludes(fetched, self.ceiling);
            if retryable_of(start).len() == 0 {
                assert(fetched =~= Seq::<MessageRecord>::empty());
            }
            lemma_keep_from(fetched, |m: MessageRecord| m.retry_count < self.ceiling);
            lemma_planned_from(*self, start);
            assert forall|j: int|
                0 <= j < start.len() && start[j].retry_count >= self.ceiling implies !planned_id(
                pl,
                start[j].id,
            ) by {
                if planned_id(pl, start[j].id) {
                    let k = choose|k: int| 0 <= k < pl.len() && (#[trigger] pl[k]).id == start[j].id;
                    let j0 = choose|j0: int| 0 <= j0 < start.len() && start[j0] == pl[k];
                    assert(start[j0].id == start[j].id);
                }
            }
        }
        let mut successes: usize = 0;
        let mut failures: usize = 0;
        let mut i: usize = 0;
        while i < plan.len()
            invariant
                store.wf(),
                self.forwarder.wf(),
                max == self.forwarder.max_attempts,
                i <= plan.len(),
                plan.len() <= outcomes.len(),
                successes + failures == i,
                records(plan@) == pl,
                forall|k: int|
                    0 <= k < outcomes.len() ==> (#[trigger] outcomes@[k]).len()
                        >= self.forwarder.max_attempts,
                store@ == sweep_from(start, pl, outcomes@, max, now, i as nat),
                successes == delivered_in_sweep(start, pl, outcomes@, max, now, i as nat),
                store@.len() == start.len(),
                forall|j: int| 0 <= j < start.len() ==> (#[trigger] store@[j]).id == start[j].id,
                forall|j: int|
                    0 <= j < start.len() && !planned_id(pl, start[j].id) ==> #[trigger] store@[j]
                        == start[j],
            decreases plan.len() - i,
        {
            assert(plan@[i as int]@ == pl[i as int]);
            let ghost before = store@;
            let res = self.forwarder.forward_message(store, &plan[i], &outcomes[i], now);
            match res {
                Ok(()) => {
                    successes = successes + 1;
                },
                Err(_) => {
                    failures = failures + 1;
                },
            }
            assert forall|j: int|
                0 <= j < start.len() && !planned_id(pl, start[j].id) implies #[trigger] store@[j]
                    == start[j] by {
                assert(pl[i as int].id != start[j].id);
            }
            i = i + 1;
        }
        SweepSummary { dispatched: plan.len(), successes, failures }
    }
}

/// Every message that a sweep plans is a record of the store.
proof fn lemma_planned_from(w: RetryWorker, s: Seq<MessageRecord>)
    ensures
        forall|k: int|
            0 <= k < w.planned(s).len() ==> exists|j: int|
                0 <= j < s.len() && s[j] == #[trigger] w.planned(s)[k],
{
    let r = retryable_of(s);
    let a = at_most(r, w.config.batch_size as int);
    lemma_keep_from(s, |m: MessageRecord| m.is_retryable());
    lemma_keep_from(a, |m: MessageRecord| m.retry_count < w.ceiling);
    assert forall|k: int| 0 <= k < w.planned(s).len() implies exists|j: int|
        0 <= j < s.len() && s[j] == #[trigger] w.planned(s)[k] by {
        let i = choose|i: int| 0 <= i < a.len() && a[i] == below_ceiling(a, w.ceiling)[k];
        assert(a[i] == r[i]);
        let j = choose|j: int| 0 <= j < s.len() && s[j] == r[i];
    }
}

} // verus!
