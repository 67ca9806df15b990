//! What Checkout and Portal effects have in common once they were dispatched.

use vstd::prelude::*;
use vstd::utf8::encode_utf8;

use crate::clock::{rfc3339_text, Instant};
use crate::contract::{failure, RuntimeFailure};
use crate::crypto::{opened_bytes, random_bytes};
use crate::effects::{change_wf, EffectChange, EffectOperation};
use crate::receipt::{opening, seal_error, EffectReceipt, ReceiptCipher};
use crate::stripe::{
    classified, classify_http, expiry_text, is_session, law_expiries_are_written_to_the_second,
    parse_session, ClassifiedResponse, HttpReply, ParsedSession, StripeSession,
};
use crate::text::opt_text;

verus! {

/// The failure code of a request that Stripe refused.
pub const STRIPE_REJECTED: &'static str = "stripe_rejected";

/// The failure code of a checkout for a subject with access.
pub const ALREADY_SUBSCRIBED: &'static str = "already_subscribed";

/// What to do with the answer to a dispatched effect.
pub enum ReplyStep {
    /// Read a session from this body.
    Read(Vec<u8>),
    /// Record the failure [`STRIPE_REJECTED`], and refuse the request.
    Refuse,
    /// Record that the outcome is not known, and say so.
    MarkUnknown,
}

/// What an answer asks for.
pub open spec fn reply_step(reply: Option<HttpReply>) -> ReplyStep {
    match classified(reply) {
        Some(ClassifiedResponse::Success(body)) => ReplyStep::Read(body),
        Some(ClassifiedResponse::KnownFailure) => ReplyStep::Refuse,
        None => ReplyStep::MarkUnknown,
    }
}

/// Decides what to do with an answer.
pub fn session_replied(reply: Option<HttpReply>) -> (r: ReplyStep)
    ensures
        r == reply_step(reply),
{
    match classify_http(reply) {
        Some(ClassifiedResponse::Success(body)) => ReplyStep::Read(body),
        Some(ClassifiedResponse::KnownFailure) => ReplyStep::Refuse,
        None => ReplyStep::MarkUnknown,
    }
}

/// What to do with the session of a successful answer.
pub enum SessionStep {
    /// Seal this receipt and accept the effect with this session.
    Accept { session_id: String, receipt: EffectReceipt },
    /// Record that the outcome is not known, and say so.
    MarkUnknown,
}

/// Whether a step is the right one for the session of a successful answer, if it held one: one of
/// the operation's is accepted, with its URL and its expiry as receipt.
pub open spec fn reads_session(
    session: Option<StripeSession>,
    operation: EffectOperation,
    step: SessionStep,
) -> bool {
    if session is Some && is_session(session->0, operation) {
        step matches SessionStep::Accept { session_id, receipt } && session_id == session->0.id
            && receipt.url == session->0.url && opt_text(receipt.expires_at) == expiry_text(
            session->0.expires_at,
        )
    } else {
        step == SessionStep::MarkUnknown
    }
}

/// Decides what to do with the session of a successful answer, if it held one.
pub fn session_read(session: Option<StripeSession>, operation: EffectOperation) -> (r: SessionStep)
    ensures
        reads_session(session, operation, r),
{
    match parse_session(session, operation) {
        Some(session) => SessionStep::Accept {
            session_id: session.id,
            receipt: EffectReceipt { url: session.url, expires_at: session.expires_at },
        },
        None => SessionStep::MarkUnknown,
    }
}

/// Whether a change accepts an effect with this session and a receipt that opens, for this effect,
/// to this plaintext.
pub open spec fn accepts(
    change: EffectChange,
    key: Seq<u8>,
    effect_id: Seq<char>,
    session_id: String,
    plaintext: Seq<u8>,
) -> bool {
    &&& change is Accept
    &&& change->stripe_object_id == session_id
    &&& change->nonce@.len() == 12
    &&& opening(key, change->nonce@, change->ciphertext@, encode_utf8(effect_id)) == Ok::<
        Seq<u8>,
        Seq<char>,
    >(plaintext)
}

/// Whether this is the acceptance of a session with its receipt's encoded form sealed under a nonce,
/// or why there is none.
pub open spec fn accepts_under(
    key: Seq<u8>,
    effect_id: Seq<char>,
    session_id: String,
    encoded: Result<Vec<u8>, String>,
    nonce: Result<Vec<u8>, String>,
    change: Result<EffectChange, RuntimeFailure>,
) -> bool {
    match (encoded, nonce) {
        (Err(detail), _) => change == Err::<EffectChange, RuntimeFailure>(RuntimeFailure { detail }),
        (Ok(_), Err(detail)) => change == Err::<EffectChange, RuntimeFailure>(
            RuntimeFailure { detail },
        ),
        (Ok(plaintext), Ok(nonce)) => match seal_error(key, plaintext@, encode_utf8(effect_id)) {
            Some(message) => change is Err && change->Err_0.detail@ == message,
            None => change is Ok && change->Ok_0->nonce == nonce && accepts(
                change->Ok_0,
                key,
                effect_id,
                session_id,
                plaintext@,
            ),
        },
    }
}

/// Makes the change that accepts an effect: the session and its receipt, sealed under a nonce, if
/// there are an encoded receipt and a nonce.
pub fn accept_with_nonce(
    cipher: &ReceiptCipher,
    effect_id: &str,
    session_id: String,
    encoded: Result<Vec<u8>, String>,
    nonce: Result<Vec<u8>, String>,
) -> (r: Result<EffectChange, RuntimeFailure>)
    requires
        nonce is Ok ==> nonce->Ok_0@.len() == 12,
    ensures
        accepts_under(cipher.key(), effect_id@, session_id, encoded, nonce, r),
{
    let plaintext = match encoded {
        Ok(plaintext) => plaintext,
        Err(detail) => return Err(failure(detail)),
    };
    match cipher.seal(nonce, plaintext.as_slice(), effect_id.as_bytes()) {
        Ok(sealed) => Ok(
            EffectChange::Accept {
                stripe_object_id: session_id,
                nonce: sealed.nonce,
                ciphertext: sealed.ciphertext,
            },
        ),
        Err(failure) => Err(failure),
    }
}

/// Makes the change that accepts an effect, with its receipt sealed under a random nonce. It fails
/// where the random source does.
pub fn accept_change(
    cipher: &ReceiptCipher,
    effect_id: &str,
    session_id: String,
    encoded: Result<Vec<u8>, String>,
) -> (r: Result<EffectChange, RuntimeFailure>)
    ensures
        encoded is Err ==> r == Err::<EffectChange, RuntimeFailure>(
            RuntimeFailure { detail: encoded->Err_0 },
        ),
        encoded is Ok && seal_error(cipher.key(), encoded->Ok_0@, encode_utf8(effect_id@)) is Some
            ==> r is Err,
        r is Ok ==> accepts(
            r->Ok_0,
            cipher.key(),
            effect_id@,
            session_id,
            encoded->Ok_0@,
        ) && change_wf(r->Ok_0),
{
    accept_with_nonce(cipher, effect_id, session_id, encoded, random_bytes(12))
}

/// Makes the change that records a failure.
pub fn fail_change(failure_code: &str) -> (r: EffectChange)
    ensures
        r matches EffectChange::Fail { failure_code: code } && code@ == failure_code@,
{
    EffectChange::Fail { failure_code: failure_code.to_owned() }
}

/// What a successful answer held is accepted exactly where it is a session of the operation's, and
/// then with that session's identifier and a receipt of its URL and its expiry.
pub proof fn law_sessions_are_accepted_as_answered(
    session: StripeSession,
    operation: EffectOperation,
    step: SessionStep,
)
    requires
        reads_session(Some(session), operation, step),
    ensures
        step is Accept == is_session(session, operation),
        step matches SessionStep::Accept { session_id, receipt } ==> {
            &&& session_id == session.id
            &&& receipt.url == session.url
            &&& session.expires_at is None ==> receipt.expires_at is None
            &&& session.expires_at is Some && -377705116800 <= session.expires_at->0 <= 253402300799
                && rfc3339_text(
                Instant { unix_seconds: session.expires_at->0, nanosecond: 0 },
            ) is Ok ==> opt_text(receipt.expires_at) == Some(
                rfc3339_text(
                    Instant { unix_seconds: session.expires_at->0, nanosecond: 0 },
                )->Ok_0,
            )
        },
{
    if session.expires_at is Some {
        law_expiries_are_written_to_the_second(session.expires_at->0);
    }
}

/// An answer is read where it is a success, refused where it refuses for good, and leaves the
/// outcome unknown in every other case.
pub proof fn law_answers_are_followed(reply: HttpReply)
    ensures
        reply_step(None) == ReplyStep::MarkUnknown,
        200 <= reply.status <= 299 && reply.body@.len() <= 1024 * 1024 ==> reply_step(Some(reply))
            == ReplyStep::Read(reply.body),
        200 <= reply.status <= 299 && reply.body@.len() > 1024 * 1024 ==> reply_step(Some(reply))
            == ReplyStep::MarkUnknown,
        400 <= reply.status <= 499 && reply.status != 408 && reply.status != 409 && reply.status
            != 425 && reply.status != 429 ==> reply_step(Some(reply)) == ReplyStep::Refuse,
        !(200 <= reply.status <= 299) && !(400 <= reply.status <= 499) || reply.status == 408
            || reply.status == 409 || reply.status == 425 || reply.status == 429 ==> reply_step(
            Some(reply),
        ) == ReplyStep::MarkUnknown,
{
}

/// What is accepted is stored with Stripe's identifier and with a receipt that opens for this
/// effect, and for no nonce but the stored one, to what was sealed.
pub proof fn law_acceptances_store_an_openable_receipt(
    change: EffectChange,
    key: Seq<u8>,
    effect_id: Seq<char>,
    session_id: String,
    plaintext: Seq<u8>,
)
    requires
        accepts(change, key, effect_id, session_id, plaintext),
    ensures
        change matches EffectChange::Accept { stripe_object_id, nonce, ciphertext } && {
            &&& stripe_object_id == session_id
            &&& nonce@.len() == 12
            &&& opened_bytes(key, nonce@, ciphertext@, encode_utf8(effect_id)) == Some(plaintext)
        },
{
}

/// An acceptance is stored under the nonce that it was sealed with and with Stripe's identifier, for
/// every receipt that is not too long to seal; without an encoded receipt or a nonce there is none.
pub proof fn law_acceptances_seal_the_receipt(
    key: Seq<u8>,
    effect_id: Seq<char>,
    session_id: String,
    encoded: Vec<u8>,
    nonce: Vec<u8>,
    detail: String,
    change: Result<EffectChange, RuntimeFailure>,
)
    ensures
        accepts_under(key, effect_id, session_id, Ok(encoded), Ok(nonce), change) && key.len() == 32
            && encoded@.len() <= 0x10_0000_0000 && encode_utf8(effect_id).len() <= 0x10_0000_0000
            ==> {
            &&& change is Ok
            &&& change->Ok_0 matches EffectChange::Accept {
                stripe_object_id,
                nonce: used,
                ciphertext,
            } && stripe_object_id == session_id && used == nonce && opened_bytes(
                key,
                nonce@,
                ciphertext@,
                encode_utf8(effect_id),
            ) == Some(encoded@)
        },
        accepts_under(key, effect_id, session_id, Err(detail), Ok(nonce), change) ==> change is Err
            && change->Err_0.detail == detail,
        accepts_under(key, effect_id, session_id, Ok(encoded), Err(detail), change) ==> change is Err
            && change->Err_0.detail == detail,
{
}

} // verus!
