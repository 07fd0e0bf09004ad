//! The ingestion entry point: a payload is recorded before anything else
//! happens to it.

use vstd::prelude::*;

use crate::effects::{fresh_id, now_millis};
use crate::models::{FhirMessage, MessageRecord, MessageStatus};
use crate::store::{MessageStore, StoreError, holds_id};

verus! {

/// Records a new pending message with the given identifier and receipt
/// time. The message handed back, the one to deliver, is in the store; on
/// an error the store is unchanged and there is nothing to deliver.
pub fn submit_with_id(store: &mut MessageStore, payload: String, id: u128, now: i64) -> (r: Result<
    FhirMessage,
    StoreError,
>)
    requires
        old(store).wf(),
    ensures
        final(store).wf(),
        holds_id(old(store)@, id) ==> final(store)@ == old(store)@ && r == Err::<FhirMessage, StoreError>(
            StoreError::DuplicateId,
        ),
        !holds_id(old(store)@, id) ==> r is Ok && r->Ok_0@ == (MessageRecord {
            id,
            payload: payload@,
            status: MessageStatus::Pending,
            received_at: now,
            sent_at: None,
            retry_count: 0,
            last_error: None,
            last_retry_at: None,
        }) && final(store)@ == old(store)@.push(r->Ok_0@),
        r is Ok ==> holds_id(final(store)@, r->Ok_0.id),
{
    let message = FhirMessage::with_id(id, payload, now);
    let handle = message.duplicate();
    match store.insert_message(message) {
        Ok(()) => {
            assert(final(store)@[final(store)@.len() - 1].id == id);
            Ok(handle)
        },
        Err(e) => Err(e),
    }
}

/// Records a new pending message under a fresh identifier, received now.
pub fn submit(store: &mut MessageStore, payload: String) -> (r: Result<FhirMessage, StoreError>)
    requires
        old(store).wf(),
    ensures
        final(store).wf(),
        old(store)@.len() == 0 ==> r is Ok,
        r is Err ==> final(store)@ == old(store)@ && r == Err::<FhirMessage, StoreError>(
            StoreError::DuplicateId,
        ) && old(store)@.len() > 0,
        r is Ok ==> final(store)@ == old(store)@.push(r->Ok_0@) && r->Ok_0@.payload == payload@
            && r->Ok_0@.status == MessageStatus::Pending && r->Ok_0@.retry_count == 0
            && r->Ok_0@.sent_at is None && holds_id(final(store)@, r->Ok_0.id),
{
    let id = fresh_id();
    let now = now_millis();
    submit_with_id(store, payload, id, now)
}

} // verus!
