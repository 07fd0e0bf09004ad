//! The message entity and its lifecycle state machine.

use vstd::prelude::*;

use crate::effects::{fresh_id, now_millis};

verus! {

/// Delivery state of a message.
#[derive(Clone, Copy, Debug, PartialEq, Eq, Structural)]
pub enum MessageStatus {
    Pending,
    Sent,
    Failed,
}

/// The lowercase name under which a status is stored.
pub open spec fn status_text(s: MessageStatus) -> Seq<char> {
    match s {
        MessageStatus::Pending => seq!['p', 'e', 'n', 'd', 'i', 'n', 'g'],
        MessageStatus::Sent => seq!['s', 'e', 'n', 't'],
        MessageStatus::Failed => seq!['f', 'a', 'i', 'l', 'e', 'd'],
    }
}

/// The status read back from its stored name: anything unknown reads as pending.
pub open spec fn status_of_text(t: Seq<char>) -> MessageStatus {
    if t == status_text(MessageStatus::Sent) {
        MessageStatus::Sent
    } else if t == status_text(MessageStatus::Failed) {
        MessageStatus::Failed
    } else {
        MessageStatus::Pending
    }
}

impl MessageStatus {
    pub fn as_str(&self) -> (r: &'static str)
        ensures
            r@ == status_text(*self),
    {
        match self {
            MessageStatus::Pending => {
                proof {
                    reveal_strlit("pending");
                }
                "pending"
            },
            MessageStatus::Sent => {
                proof {
                    reveal_strlit("sent");
                }
                "sent"
            },
            MessageStatus::Failed => {
                proof {
                    reveal_strlit("failed");
                }
                "failed"
            },
        }
    }

    /// Reads a stored status name back.
    pub fn from_text(t: &str) -> (r: MessageStatus)
        ensures
            r == status_of_text(t@),
    {
        let owned = t.to_owned();
        let sent = "sent".to_owned();
        let failed = "failed".to_owned();
        proof {
            reveal_strlit("sent");
            reveal_strlit("failed");
            assert("sent"@ =~= status_text(MessageStatus::Sent));
            assert("failed"@ =~= status_text(MessageStatus::Failed));
        }
        if owned == sent {
            MessageStatus::Sent
        } else if owned == failed {
            MessageStatus::Failed
        } else {
            MessageStatus::Pending
        }
    }
}

/// A relayed message and its delivery state. Timestamps are milliseconds
/// since the epoch.
#[derive(Clone, Debug)]
pub struct FhirMessage {
    pub id: u128,
    pub payload: String,
    pub status: MessageStatus,
    pub received_at: i64,
    pub sent_at: Option<i64>,
    pub retry_count: i32,
    pub last_error: Option<String>,
    pub last_retry_at: Option<i64>,
}

/// What a message holds, with its texts as character sequences.
pub ghost struct MessageRecord {
    pub id: u128,
    pub payload: Seq<char>,
    pub status: MessageStatus,
    pub received_at: i64,
    pub sent_at: Option<i64>,
    pub retry_count: i32,
    pub last_error: Option<Seq<char>>,
    pub last_retry_at: Option<i64>,
}

/// The view of an optional text.
pub open spec fn text_view(t: Option<String>) -> Option<Seq<char>> {
    match t {
        Some(s) => Some(s@),
        None => None,
    }
}

impl View for FhirMessage {
    type V = MessageRecord;

    open spec fn view(&self) -> MessageRecord {
        MessageRecord {
            id: self.id,
            payload: self.payload@,
            status: self.status,
            received_at: self.received_at,
            sent_at: self.sent_at,
            retry_count: self.retry_count,
            last_error: text_view(self.last_error),
            last_retry_at: self.last_retry_at,
        }
    }
}

impl MessageRecord {
    /// `sent_at` is set exactly when the message was delivered, and the
    /// attempt count is never negative.
    pub open spec fn wf(self) -> bool {
        &&& (self.sent_at is Some <==> self.status == MessageStatus::Sent)
        &&& self.retry_count >= 0
    }

    /// Still to be delivered: pending, or failed in an earlier cycle.
    pub open spec fn is_retryable(self) -> bool {
        self.status != MessageStatus::Sent
    }

    /// The record after a delivery at `now`; one already sent is unchanged.
    pub open spec fn sent(self, now: i64) -> MessageRecord {
        if self.status == MessageStatus::Sent {
            self
        } else {
            MessageRecord { status: MessageStatus::Sent, sent_at: Some(now), ..self }
        }
    }

    /// The record after a failed cycle at `now` that brings the attempt count
    /// to `count`. One already sent is unchanged, and the count never goes down.
    pub open spec fn failed(self, error: Seq<char>, count: i32, now: i64) -> MessageRecord {
        if self.status == MessageStatus::Sent {
            self
        } else {
            MessageRecord {
                status: MessageStatus::Failed,
                retry_count: if count > self.retry_count { count } else { self.retry_count },
                last_error: Some(error),
                last_retry_at: Some(now),
                ..self
            }
        }
    }
}

fn copy_text(t: &Option<String>) -> (r: Option<String>)
    ensures
        text_view(r) == text_view(*t),
{
    match t {
        Some(s) => Some(s.clone()),
        None => None,
    }
}

impl FhirMessage {
    /// A message just received under the given identifier and time.
    pub fn with_id(id: u128, payload: String, received_at: i64) -> (r: FhirMessage)
        ensures
            r@.wf(),
            r@ == (MessageRecord {
                id,
                payload: payload@,
                status: MessageStatus::Pending,
                received_at,
                sent_at: None,
                retry_count: 0,
                last_error: None,
                last_retry_at: None,
            }),
    {
        FhirMessage {
            id,
            payload,
            status: MessageStatus::Pending,
            received_at,
            sent_at: None,
            retry_count: 0,
            last_error: None,
            last_retry_at: None,
        }
    }

    /// A message just received, with a fresh random identifier and the
    /// current time.
    pub fn new(payload: String) -> (r: FhirMessage)
        ensures
            r@.wf(),
            r@.payload == payload@,
            r@.status == MessageStatus::Pending,
            r@.sent_at is None,
            r@.retry_count == 0,
            r@.last_error is None,
            r@.last_retry_at is None,
    {
        let id = fresh_id();
        let now = now_millis();
        FhirMessage::with_id(id, payload, now)
    }

    /// A copy holding the same values.
    pub fn duplicate(&self) -> (r: FhirMessage)
        ensures
            r@ == self@,
    {
        FhirMessage {
            id: self.id,
            payload: self.payload.clone(),
            status: self.status,
            received_at: self.received_at,
            sent_at: self.sent_at,
            retry_count: self.retry_count,
            last_error: copy_text(&self.last_error),
            last_retry_at: self.last_retry_at,
        }
    }

    /// Records a delivery at the given time. A message already sent keeps
    /// its status and its `sent_at`.
    pub fn mark_sent_at(&mut self, now: i64)
        ensures
            final(self)@ == old(self)@.sent(now),
            old(self)@.wf() ==> final(self)@.wf(),
    {
        if self.status != MessageStatus::Sent {
            self.status = MessageStatus::Sent;
            self.sent_at = Some(now);
        }
    }

    /// Records a delivery now.
    pub fn mark_sent(&mut self)
        ensures
            exists|now: i64| final(self)@ == #[trigger] old(self)@.sent(now),
            old(self)@.wf() ==> final(self)@.wf(),
    {
        let now = now_millis();
        self.mark_sent_at(now);
    }

    /// Records a failed delivery cycle at the given time: one more attempt,
    /// the error kept. A message already sent is left as it is.
    pub fn mark_failed_at(&mut self, error: String, now: i64)
        requires
            old(self).status != MessageStatus::Sent ==> old(self).retry_count < i32::MAX,
        ensures
            final(self)@ == old(self)@.failed(error@, (old(self).retry_count + 1) as i32, now),
            old(self)@.wf() ==> final(self)@.wf(),
    {
        if self.status != MessageStatus::Sent {
            self.status = MessageStatus::Failed;
            self.retry_count = self.retry_count + 1;
            self.last_error = Some(error);
            self.last_retry_at = Some(now);
        }
    }

    /// Records a failed delivery cycle now.
    pub fn mark_failed(&mut self, error: String)
        requires
            old(self).status != MessageStatus::Sent ==> old(self).retry_count < i32::MAX,
        ensures
            exists|now: i64|
                final(self)@ == #[trigger] old(self)@.failed(error@, (old(self).retry_count + 1) as i32, now),
            old(self)@.wf() ==> final(self)@.wf(),
    {
        let now = now_millis();
        self.mark_failed_at(error, now);
    }
}

} // verus!
