//! An in-memory message store: one record per identifier, updated one
//! message at a time.

use vstd::prelude::*;

use crate::models::{FhirMessage, MessageRecord, MessageStatus};

verus! {

/// Why a store operation did not take place.
#[derive(Clone, Copy, Debug, PartialEq, Eq, Structural)]
pub enum StoreError {
    /// A message with this identifier is already stored.
    DuplicateId,
    /// No message with this identifier is stored.
    UnknownId,
}

/// The messages, in the order in which they were inserted.
pub struct MessageStore {
    messages: Vec<FhirMessage>,
}

/// The records of a sequence of messages.
pub open spec fn records(s: Seq<FhirMessage>) -> Seq<MessageRecord> {
    s.map_values(|m: FhirMessage| m@)
}

/// Whether some record carries this identifier.
pub open spec fn holds_id(s: Seq<MessageRecord>, id: u128) -> bool {
    exists|i: int| 0 <= i < s.len() && (#[trigger] s[i]).id == id
}

/// The records of `s` that satisfy `p`, in order.
pub open spec fn keep(s: Seq<MessageRecord>, p: spec_fn(MessageRecord) -> bool) -> Seq<MessageRecord>
    decreases s.len(),
{
    if s.len() == 0 {
        Seq::empty()
    } else {
        let rest = keep(s.drop_last(), p);
        if p(s.last()) {
            rest.push(s.last())
        } else {
            rest
        }
    }
}

/// What `keep` returns is no longer than its input, and each element is an
/// element of the input that satisfies the predicate.
pub proof fn lemma_keep_from(s: Seq<MessageRecord>, p: spec_fn(MessageRecord) -> bool)
    ensures
        keep(s, p).len() <= s.len(),
        forall|k: int|
            0 <= k < keep(s, p).len() ==> p(#[trigger] keep(s, p)[k]) && exists|j: int|
                0 <= j < s.len() && s[j] == keep(s, p)[k],
    decreases s.len(),
{
    if s.len() > 0 {
        let q = s.drop_last();
        lemma_keep_from(q, p);
        assert forall|k: int| 0 <= k < keep(s, p).len() implies p(#[trigger] keep(s, p)[k])
            && exists|j: int| 0 <= j < s.len() && s[j] == keep(s, p)[k] by {
            if k < keep(q, p).len() {
                let j = choose|j: int| 0 <= j < q.len() && q[j] == keep(q, p)[k];
                assert(s[j] == q[j]);
            } else {
                assert(s[s.len() - 1] == keep(s, p)[k]);
            }
        }
    }
}

/// The retryable records of `s`, in order.
pub open spec fn retryable_of(s: Seq<MessageRecord>) -> Seq<MessageRecord> {
    keep(s, |m: MessageRecord| m.is_retryable())
}

/// At most the first `n` elements of `s`.
pub open spec fn at_most(s: Seq<MessageRecord>, n: int) -> Seq<MessageRecord> {
    if s.len() <= n {
        s
    } else if n <= 0 {
        Seq::empty()
    } else {
        s.take(n)
    }
}

/// How many records of `s` have the given status.
pub open spec fn count_status(s: Seq<MessageRecord>, status: MessageStatus) -> nat
    decreases s.len(),
{
    if s.len() == 0 {
        0
    } else {
        count_status(s.drop_last(), status) + if s.last().status == status { 1nat } else { 0nat }
    }
}

/// The records after a delivery of message `id` at `now`.
pub open spec fn sent_in(s: Seq<MessageRecord>, id: u128, now: i64) -> Seq<MessageRecord> {
    s.map_values(|m: MessageRecord| if m.id == id { m.sent(now) } else { m })
}

/// The records after a failed cycle of message `id` at `now`.
pub open spec fn failed_in(
    s: Seq<MessageRecord>,
    id: u128,
    error: Seq<char>,
    count: i32,
    now: i64,
) -> Seq<MessageRecord> {
    s.map_values(|m: MessageRecord| if m.id == id { m.failed(error, count, now) } else { m })
}

/// Once a message is sent, neither a delivery nor a failed cycle recorded
/// in the store changes its status or its `sent_at`.
pub proof fn lemma_sent_is_final(
    s: Seq<MessageRecord>,
    i: int,
    id: u128,
    error: Seq<char>,
    count: i32,
    now: i64,
)
    requires
        0 <= i < s.len(),
        s[i].status == MessageStatus::Sent,
    ensures
        sent_in(s, id, now)[i].status == MessageStatus::Sent,
        sent_in(s, id, now)[i].sent_at == s[i].sent_at,
        failed_in(s, id, error, count, now)[i].status == MessageStatus::Sent,
        failed_in(s, id, error, count, now)[i].sent_at == s[i].sent_at,
{
}

/// No store update lowers a message's attempt count.
pub proof fn lemma_attempts_never_decrease(
    s: Seq<MessageRecord>,
    i: int,
    id: u128,
    error: Seq<char>,
    count: i32,
    now: i64,
)
    requires
        0 <= i < s.len(),
    ensures
        sent_in(s, id, now)[i].retry_count == s[i].retry_count,
        failed_in(s, id, error, count, now)[i].retry_count >= s[i].retry_count,
        sent_in(s, id, now)[i].id == s[i].id,
        failed_in(s, id, error, count, now)[i].id == s[i].id,
{
}

impl View for MessageStore {
    type V = Seq<MessageRecord>;

    closed spec fn view(&self) -> Seq<MessageRecord> {
        records(self.messages@)
    }
}

impl MessageStore {
    /// Identifiers are unique and every record is well formed.
    pub open spec fn wf(&self) -> bool {
        &&& forall|i: int, j: int|
            0 <= i < j < self@.len() ==> (#[trigger] self@[i]).id != (#[trigger] self@[j]).id
        &&& forall|i: int| 0 <= i < self@.len() ==> (#[trigger] self@[i]).wf()
    }

    pub fn new() -> (r: MessageStore)
        ensures
            r.wf(),
            r@ == Seq::<MessageRecord>::empty(),
    {
        let r = MessageStore { messages: Vec::new() };
        assert(r@ =~= Seq::<MessageRecord>::empty());
        r
    }

    pub fn len(&self) -> (r: usize)
        ensures
            r == self@.len(),
    {
        self.messages.len()
    }

    fn find(&self, id: u128) -> (r: Option<usize>)
        ensures
            match r {
                Some(i) => i < self@.len() && self@[i as int].id == id,
                None => !holds_id(self@, id),
            },
    {
        let mut i: usize = 0;
        while i < self.messages.len()
            invariant
                i <= self@.len(),
                self@.len() == self.messages@.len(),
                forall|k: int| 0 <= k < i ==> (#[trigger] self@[k]).id != id,
            decreases self.messages.len() - i,
        {
            if self.messages[i].id == id {
                return Some(i);
            }
            i = i + 1;
        }
        None
    }

    /// Stores a new message; refused when its identifier is already taken.
    pub fn insert_message(&mut self, message: FhirMessage) -> (r: Result<(), StoreError>)
        requires
            old(self).wf(),
            message@.wf(),
        ensures
            final(self).wf(),
            holds_id(old(self)@, message.id) ==> r == Err::<(), StoreError>(StoreError::DuplicateId)
                && final(self)@ == old(self)@,
            !holds_id(old(self)@, message.id) ==> r is Ok && final(self)@ == old(self)@.push(
                message@,
            ),
    {
        match self.find(message.id) {
            Some(_) => Err(StoreError::DuplicateId),
            None => {
                let ghost m = message@;
                self.messages.push(message);
                assert(self@ =~= old(self)@.push(m));
                Ok(())
            },
        }
    }

    /// Records the delivery of a message at `now`.
    pub fn mark_as_sent(&mut self, id: u128, now: i64) -> (r: Result<(), StoreError>)
        requires
            old(self).wf(),
        ensures
            final(self).wf(),
            !holds_id(old(self)@, id) ==> r == Err::<(), StoreError>(StoreError::UnknownId)
                && final(self)@ == old(self)@,
            holds_id(old(self)@, id) ==> r is Ok && final(self)@ == sent_in(old(self)@, id, now),
    {
        match self.find(id) {
            None => Err(StoreError::UnknownId),
            Some(i) => {
                let mut m = self.messages[i].duplicate();
                m.mark_sent_at(now);
                self.messages.set(i, m);
                assert(self@ =~= old(self)@.map_values(
                    |m: MessageRecord| if m.id == id { m.sent(now) } else { m },
                ));
                Ok(())
            },
        }
    }

    /// Records a failed delivery cycle of a message at `now`, which brings
    /// its attempt count to `retry_count` (a lower count leaves it as it is).
    pub fn mark_as_failed(&mut self, id: u128, error: String, retry_count: i32, now: i64) -> (r:
        Result<(), StoreError>)
        requires
            old(self).wf(),
        ensures
            final(self).wf(),
            !holds_id(old(self)@, id) ==> r == Err::<(), StoreError>(StoreError::UnknownId)
                && final(self)@ == old(self)@,
            holds_id(old(self)@, id) ==> r is Ok && final(self)@ == failed_in(
                old(self)@,
                id,
                error@,
                retry_count,
                now,
            ),
    {
        match self.find(id) {
            None => Err(StoreError::UnknownId),
            Some(i) => {
                let old_m = &self.messages[i];
                let ghost e = error@;
                if old_m.status != MessageStatus::Sent {
                    let mut m = old_m.duplicate();
                    m.status = MessageStatus::Failed;
                    if retry_count > m.retry_count {
                        m.retry_count = retry_count;
                    }
                    m.last_error = Some(error);
                    m.last_retry_at = Some(now);
                    self.messages.set(i, m);
                }
                assert(self@ =~= old(self)@.map_values(
                    |m: MessageRecord| if m.id == id { m.failed(e, retry_count, now) } else { m },
                ));
                Ok(())
            },
        }
    }

    /// A copy of the message with this identifier, if one is stored.
    pub fn get_message_by_id(&self, id: u128) -> (r: Option<FhirMessage>)
        requires
            self.wf(),
        ensures
            !holds_id(self@, id) ==> r is None,
            holds_id(self@, id) ==> r is Some && exists|i: int|
                0 <= i < self@.len() && (#[trigger] self@[i]).id == id && r->0@ == self@[i],
    {
        match self.find(id) {
            None => None,
            Some(i) => Some(self.messages[i].duplicate()),
        }
    }

    /// How many stored messages have the given status.
    pub fn count_by_status(&self, status: MessageStatus) -> (r: usize)
        ensures
            r == count_status(self@, status),
    {
        let mut n: usize = 0;
        let mut i: usize = 0;
        while i < self.messages.len()
            invariant
                i <= self@.len(),
                self@.len() == self.messages@.len(),
                n == count_status(self@.subrange(0, i as int), status),
                n <= i,
            decreases self.messages.len() - i,
        {
            assert(self@.subrange(0, i + 1).drop_last() =~= self@.subrange(0, i as int));
            if self.messages[i].status == status {
                n = n + 1;
            }
            i = i + 1;
        }
        assert(self@.subrange(0, i as int) =~= self@);
        n
    }

    /// Copies of the first `limit` retryable messages (pending or failed),
    /// in store order; none when `limit` is not positive.
    pub fn get_messages_for_retry(&self, limit: i32) -> (r: Vec<FhirMessage>)
        ensures
            records(r@) == at_most(retryable_of(self@), limit as int),
    {
        let mut out: Vec<FhirMessage> = Vec::new();
        let mut i: usize = 0;
        while i < self.messages.len()
            invariant
                i <= self@.len(),
                self@.len() == self.messages@.len(),
                records(out@) == at_most(retryable_of(self@.subrange(0, i as int)), limit as int),
            decreases self.messages.len() - i,
        {
            let ghost pre = self@.subrange(0, i as int);
            assert(self@.subrange(0, i + 1).drop_last() =~= pre);
            assert(self@.subrange(0, i + 1).last() == self@[i as int]);
            if self.messages[i].status != MessageStatus::Sent {
                let ghost rp = retryable_of(pre);
                if limit > 0 && out.len() < limit as usize {
                    let m = self.messages[i].duplicate();
                    let ghost before = out@;
                    assert(records(before).len() == before.len());
                    assert(at_most(rp, limit as int) == rp);
                    out.push(m);
                    assert(records(out@) =~= records(before).push(self@[i as int]));
                    assert(records(out@) =~= at_most(rp.push(self@[i as int]), limit as int));
                } else {
                    assert(at_most(rp.push(self@[i as int]), limit as int) =~= at_most(
                        rp,
                        limit as int,
                    ));
                }
            }
            i = i + 1;
        }
        assert(self@.subrange(0, i as int) =~= self@);
        out
    }
}

} // verus!
