//! Mapping storage outcomes to HTTP replies, and the whole handling of one
//! decoded submission: append the pair to the store, then build the reply.

use vstd::prelude::*;
use crate::store::{Store, StoreError, stored_rows};

verus! {

/// The HTTP status that confirms a stored submission.
pub const STATUS_CREATED: u16 = 201;

/// The HTTP status that reports a storage failure.
pub const STATUS_INTERNAL_ERROR: u16 = 500;

/// The fixed confirmation body sent for a stored submission.
pub open spec fn saved_text_spec() -> Seq<char> {
    "Saved!"@
}

pub fn saved_text() -> (r: &'static str)
    ensures
        r@ == saved_text_spec(),
{
    "Saved!"
}

/// An HTTP reply: a status code and a plain-text body.
pub struct Reply {
    pub status: u16,
    pub body: String,
}

/// Translate a storage outcome into the HTTP reply: success is 201 with the
/// fixed confirmation body, and a storage error is 500 with the error's own
/// textual description as the body.
pub fn reply_for(r: Result<(), StoreError>) -> (reply: Reply)
    ensures
        r is Ok ==> reply.status == STATUS_CREATED && reply.body@ == saved_text_spec(),
        r matches Err(e) ==> reply.status == STATUS_INTERNAL_ERROR && reply.body@ == e.message@,
{
    match r {
        Ok(()) => Reply { status: STATUS_CREATED, body: saved_text().to_owned() },
        Err(e) => Reply { status: STATUS_INTERNAL_ERROR, body: e.message },
    }
}

/// Handle one decoded submission: append the `(encrypted, captcha)` pair to
/// the store and answer 201 with the fixed confirmation body; when the store
/// reports a failure, leave the rows as they were and answer 500 with the
/// failure's description.
pub fn handle_submission(store: &mut Store, encrypted: &str, captcha: &str) -> (reply: Reply)
    ensures
        reply.status == STATUS_CREATED || reply.status == STATUS_INTERNAL_ERROR,
        reply.status == STATUS_CREATED ==> stored_rows(*final(store)) == stored_rows(
            *old(store),
        ).push((encrypted@, captcha@)) && reply.body@ == saved_text_spec(),
        reply.status == STATUS_INTERNAL_ERROR ==> stored_rows(*final(store)) == stored_rows(
            *old(store),
        ),
{
    let outcome = store.store(encrypted, captcha);
    reply_for(outcome)
}

} // verus!
