//! Creating a Customer Portal session, step by step. Between two steps the caller of these
//! functions performs what the last one asked for.

use vstd::prelude::*;
use vstd::utf8::encode_utf8;

use crate::clock::{rfc3339_text, Instant};
use crate::config::{is_name, law_lists_are_exact, listed, redirects, StripeSubscriptionConfig};
use crate::contract::{
    failure, store_failure, CreatePortalSessionError, CreatePortalSessionRequest,
    CreatePortalSessionResponse, CreatePortalSessionResponseStatus, RuntimeFailure,
};
use crate::crypto::{opened_bytes, sha256_digest};
use crate::effects::{
    effect_step, EffectChange, EffectClaim, EffectOperation, EffectRecord, EffectRow, EffectStatus,
    NewEffect,
};
use crate::json::{object_json, pair_texts};
use crate::receipt::{decrypt_receipt, record_opening, EffectReceipt, ReceiptCipher};
use crate::request::{
    effect_id_of, fingerprint, is_idempotency_key, is_subject, list_portal_members, portal_members,
    request_hash, stable_effect_id, valid_idempotency_key, valid_subject_request,
};
use crate::session::{
    accepts, law_sessions_are_accepted_as_answered, reads_session, reply_step, ReplyStep, SessionStep,
};
use crate::store::{store_error_text, StoreError};
use crate::stripe::{
    is_session, is_success, law_posts_go_where_they_are_meant, portal_fields, portal_form, posts,
    stripe_post, HttpReply, StripeRequest, StripeSession, MAX_STRIPE_RESPONSE_BYTES,
};
use crate::subscription::BillingSubject;
use crate::text::{opt_str, opt_text};
use crate::web::{form_text, joined_url};

verus! {

/// Why a Customer Portal session was not created.
#[derive(Debug)]
pub enum PortalFlowError {
    Domain(CreatePortalSessionError),
    Runtime(RuntimeFailure),
}

/// The refusal of a Customer Portal request before its subject is known.
pub open spec fn portal_refusal(
    config: StripeSubscriptionConfig,
    caller: Option<Seq<char>>,
    request: CreatePortalSessionRequest,
) -> Option<CreatePortalSessionError> {
    if !listed(config@.product_instances, caller) {
        Some(CreatePortalSessionError::Forbidden)
    } else if !is_subject(request.scope_kind@, request.scope_id@, request.subject@)
        || !is_idempotency_key(request.idempotency_key@) || !redirects(
        config@,
        request.return_url@,
    ) {
        Some(CreatePortalSessionError::InvalidRequest)
    } else {
        None
    }
}

/// Checks a Customer Portal request. Its billing subject is to be loaded next.
pub fn begin_portal(
    config: &StripeSubscriptionConfig,
    caller: Option<&str>,
    request: &CreatePortalSessionRequest,
) -> (r: Result<(), PortalFlowError>)
    ensures
        match portal_refusal(*config, opt_str(caller), *request) {
            Some(error) => r == Err::<(), PortalFlowError>(PortalFlowError::Domain(error)),
            None => r is Ok,
        },
{
    if !config.product_allowed(caller) {
        return Err(PortalFlowError::Domain(CreatePortalSessionError::Forbidden));
    }
    if !valid_subject_request(
        request.scope_kind.as_str(),
        request.scope_id.as_str(),
        request.subject.as_str(),
    ) || !valid_idempotency_key(request.idempotency_key.as_str()) || !config.redirect_allowed(
        request.return_url.as_str(),
    ) {
        return Err(PortalFlowError::Domain(CreatePortalSessionError::InvalidRequest));
    }
    Ok(())
}

/// A Customer Portal request that may be carried out: its effect, and the customer it is for.
pub struct PortalStart {
    pub effect: NewEffect,
    pub customer_id: String,
}

/// Whether an effect is that of a caller's Customer Portal request.
pub open spec fn is_portal_effect(
    effect: NewEffect,
    caller: Seq<char>,
    request: CreatePortalSessionRequest,
) -> bool {
    &&& effect.effect_id@ == effect_id_of(caller, EffectOperation::Portal, request.idempotency_key@)
    &&& effect.caller_instance@ == caller
    &&& effect.operation == EffectOperation::Portal
    &&& effect.idempotency_key == request.idempotency_key
    &&& effect.request_hash@ == fingerprint(portal_members(request))
    &&& effect.scope_kind == request.scope_kind
    &&& effect.scope_id == request.scope_id
    &&& effect.subject == request.subject
    &&& effect.price_alias is None
}

/// Makes the effect of a Customer Portal request, which is to be claimed, if its subject has a
/// customer.
pub fn portal_subject_loaded(
    caller: &str,
    request: &CreatePortalSessionRequest,
    subject: Result<Option<BillingSubject>, StoreError>,
) -> (r: Result<PortalStart, PortalFlowError>)
    ensures
        starts_portal(caller@, *request, subject, r),
{
    let subject = match subject {
        Err(error) => return Err(PortalFlowError::Runtime(store_failure(&error))),
        Ok(None) => return Err(PortalFlowError::Domain(CreatePortalSessionError::CustomerNotFound)),
        Ok(Some(subject)) => subject,
    };
    let hash = match request_hash(list_portal_members(request)) {
        Ok(hash) => hash,
        Err(failure) => return Err(PortalFlowError::Runtime(failure)),
    };
    let effect = NewEffect {
        effect_id: stable_effect_id(
            caller,
            EffectOperation::Portal,
            request.idempotency_key.as_str(),
        ),
        caller_instance: caller.to_owned(),
        operation: EffectOperation::Portal,
        idempotency_key: request.idempotency_key.clone(),
        request_hash: hash,
        scope_kind: request.scope_kind.clone(),
        scope_id: request.scope_id.clone(),
        subject: request.subject.clone(),
        price_alias: None,
    };
    Ok(PortalStart { effect, customer_id: subject.customer_id })
}

/// The answer while the outcome is not known.
pub open spec fn unknown_portal(effect_id: String) -> CreatePortalSessionResponse {
    CreatePortalSessionResponse {
        effect_id,
        expires_at: None,
        session_id: None,
        status: CreatePortalSessionResponseStatus::EffectUnknown,
        url: None,
    }
}

/// Makes the answer while the outcome is not known.
pub fn portal_unknown(effect_id: String) -> (r: CreatePortalSessionResponse)
    ensures
        r == unknown_portal(effect_id),
{
    CreatePortalSessionResponse {
        effect_id,
        expires_at: None,
        session_id: None,
        status: CreatePortalSessionResponseStatus::EffectUnknown,
        url: None,
    }
}

/// The refusal that every failure code stands for.
pub fn portal_failure() -> (r: CreatePortalSessionError)
    ensures
        r == CreatePortalSessionError::InvalidRequest,
{
    CreatePortalSessionError::InvalidRequest
}

/// What a claimed Portal effect needs next.
pub enum PortalStep {
    /// Send the request of [`portal_request`], then go on with the answer.
    Dispatch(EffectRecord),
    /// Decode this receipt, then answer with [`portal_replayed`].
    DecodeReceipt { record: EffectRecord, plaintext: Vec<u8> },
    /// Answer.
    Finish(Result<CreatePortalSessionResponse, PortalFlowError>),
}

/// Whether a step answers an effect that was recorded before with its durable state.
pub open spec fn replays_portal(key: Seq<u8>, record: EffectRecord, step: PortalStep) -> bool {
    match record.status {
        EffectStatus::Accepted => match record_opening(key, record) {
            Ok(opened) => step matches PortalStep::DecodeReceipt { record: same_record, plaintext }
                && same_record == record && plaintext@ == opened,
            Err(message) => step matches PortalStep::Finish(Err(PortalFlowError::Runtime(failure)))
                && failure.detail@ == message,
        },
        EffectStatus::KnownFailure => step == PortalStep::Finish(
            Err(PortalFlowError::Domain(CreatePortalSessionError::InvalidRequest)),
        ),
        _ => step == PortalStep::Finish(Ok(unknown_portal(record.effect_id))),
    }
}

/// Answers an effect that was recorded before.
pub fn portal_existing(cipher: &ReceiptCipher, record: EffectRecord) -> (r: PortalStep)
    ensures
        replays_portal(cipher.key(), record, r),
{
    match record.status {
        EffectStatus::Accepted => match decrypt_receipt(cipher, &record) {
            Ok(plaintext) => PortalStep::DecodeReceipt { record, plaintext },
            Err(failure) => PortalStep::Finish(Err(PortalFlowError::Runtime(failure))),
        },
        EffectStatus::KnownFailure => PortalStep::Finish(
            Err(PortalFlowError::Domain(portal_failure())),
        ),
        _ => PortalStep::Finish(Ok(portal_unknown(record.effect_id))),
    }
}

/// Whether a step is what a claim allows.
pub open spec fn follows_portal_claim(
    key: Seq<u8>,
    claim: Result<EffectClaim, StoreError>,
    step: PortalStep,
) -> bool {
    match claim {
        Err(error) => step matches PortalStep::Finish(Err(PortalFlowError::Runtime(failure)))
            && failure.detail@ == store_error_text(error),
        Ok(EffectClaim::Conflict) => step == PortalStep::Finish(
            Err(PortalFlowError::Domain(CreatePortalSessionError::IdempotencyConflict)),
        ),
        Ok(EffectClaim::Existing(record)) => replays_portal(key, record, step),
        Ok(EffectClaim::Dispatch(record)) => step == PortalStep::Dispatch(record),
    }
}

/// Decides what a claim allows.
pub fn portal_claimed(cipher: &ReceiptCipher, claim: Result<EffectClaim, StoreError>) -> (r:
    PortalStep)
    ensures
        follows_portal_claim(cipher.key(), claim, r),
{
    match claim {
        Err(error) => PortalStep::Finish(Err(PortalFlowError::Runtime(store_failure(&error)))),
        Ok(EffectClaim::Conflict) => PortalStep::Finish(
            Err(PortalFlowError::Domain(CreatePortalSessionError::IdempotencyConflict)),
        ),
        Ok(EffectClaim::Existing(record)) => portal_existing(cipher, record),
        Ok(EffectClaim::Dispatch(record)) => PortalStep::Dispatch(record),
    }
}

/// The answer that shows an accepted session.
pub open spec fn accepted_portal(
    effect_id: String,
    session_id: Option<String>,
    receipt: EffectReceipt,
) -> CreatePortalSessionResponse {
    CreatePortalSessionResponse {
        effect_id,
        expires_at: receipt.expires_at,
        session_id,
        status: CreatePortalSessionResponseStatus::Accepted,
        url: Some(receipt.url),
    }
}

/// The answer from a receipt that was decoded, or from what kept it from being.
pub open spec fn replayed_portal(record: EffectRecord, receipt: Result<EffectReceipt, String>) -> Result<
    CreatePortalSessionResponse,
    PortalFlowError,
> {
    match receipt {
        Ok(receipt) => Ok(
            accepted_portal(record.effect_id, record.stripe_object_id, receipt),
        ),
        Err(detail) => Err(PortalFlowError::Runtime(RuntimeFailure { detail })),
    }
}

/// Answers with a receipt that was decoded, or with what kept it from being.
pub fn portal_replayed(record: EffectRecord, receipt: Result<EffectReceipt, String>) -> (r: Result<
    CreatePortalSessionResponse,
    PortalFlowError,
>)
    ensures
        r == replayed_portal(record, receipt),
{
    match receipt {
        Ok(receipt) => Ok(
            CreatePortalSessionResponse {
                effect_id: record.effect_id,
                expires_at: receipt.expires_at,
                session_id: record.stripe_object_id,
                status: CreatePortalSessionResponseStatus::Accepted,
                url: Some(receipt.url),
            },
        ),
        Err(detail) => Err(PortalFlowError::Runtime(failure(detail))),
    }
}

/// Where Customer Portal sessions are created.
pub open spec fn portal_path() -> Seq<char> {
    "v1/billing_portal/sessions"@
}

/// Whether this is the request of a Portal session, if the API base takes the path.
pub open spec fn asks_for_portal(
    api_base: Seq<char>,
    api_key: Seq<char>,
    request: CreatePortalSessionRequest,
    customer_id: Seq<char>,
    effect_id: Seq<char>,
    sent: Option<StripeRequest>,
) -> bool {
    &&& sent is Some == joined_url(api_base, portal_path()) is Some
    &&& sent is Some ==> posts(
        sent->0,
        api_base,
        api_key,
        portal_path(),
        form_text(portal_fields(customer_id, request.return_url@)),
        effect_id,
    )
}

/// Writes the request that creates a Customer Portal session; `None` where the API base does not
/// take the path.
pub fn portal_request(
    api_base: &str,
    api_key: &str,
    request: &CreatePortalSessionRequest,
    customer_id: &str,
    effect_id: &str,
) -> (r: Option<StripeRequest>)
    ensures
        asks_for_portal(api_base@, api_key@, *request, customer_id@, effect_id@, r),
{
    let body = portal_form(customer_id, request.return_url.as_str());
    stripe_post(api_base, api_key, "v1/billing_portal/sessions", body, effect_id)
}

/// Whether an error answers an effect whose failure was recorded, or could not be.
pub open spec fn failed_portal(recorded: Result<bool, StoreError>, error: PortalFlowError) -> bool {
    match recorded {
        Err(stored) => error matches PortalFlowError::Runtime(failure) && failure.detail@
            == store_error_text(stored),
        Ok(_) => error == PortalFlowError::Domain(CreatePortalSessionError::InvalidRequest),
    }
}

/// Answers once a failure was recorded, or could not be.
pub fn portal_failed(recorded: Result<bool, StoreError>) -> (r: PortalFlowError)
    ensures
        failed_portal(recorded, r),
{
    match recorded {
        Err(error) => PortalFlowError::Runtime(store_failure(&error)),
        Ok(_) => PortalFlowError::Domain(portal_failure()),
    }
}

/// Whether a result answers an effect whose acceptance was recorded, or was not.
pub open spec fn recorded_portal(
    effect_id: String,
    session_id: String,
    receipt: EffectReceipt,
    accepted: Result<bool, StoreError>,
    answer: Result<CreatePortalSessionResponse, PortalFlowError>,
) -> bool {
    match accepted {
        Err(error) => answer matches Err(PortalFlowError::Runtime(failure)) && failure.detail@
            == store_error_text(error),
        Ok(true) => answer == Ok::<CreatePortalSessionResponse, PortalFlowError>(
            accepted_portal(effect_id, Some(session_id), receipt),
        ),
        Ok(false) => answer == Ok::<CreatePortalSessionResponse, PortalFlowError>(
            unknown_portal(effect_id),
        ),
    }
}

/// Answers once an effect was accepted, or was not: without the durable receipt the outcome is
/// reported as unknown.
pub fn portal_accepted(
    effect_id: String,
    session_id: String,
    receipt: EffectReceipt,
    accepted: Result<bool, StoreError>,
) -> (r: Result<CreatePortalSessionResponse, PortalFlowError>)
    ensures
        recorded_portal(effect_id, session_id, receipt, accepted, r),
{
    match accepted {
        Err(error) => Err(PortalFlowError::Runtime(store_failure(&error))),
        Ok(true) => Ok(
            CreatePortalSessionResponse {
                effect_id,
                expires_at: receipt.expires_at,
                session_id: Some(session_id),
                status: CreatePortalSessionResponseStatus::Accepted,
                url: Some(receipt.url),
            },
        ),
        Ok(false) => Ok(portal_unknown(effect_id)),
    }
}

/// Whether a result answers a dispatched Portal effect: what Stripe answered, the step that the
/// session of a successful answer leads to, and what became of recording the outcome.
pub open spec fn dispatched_portal(
    effect_id: String,
    reply: Option<HttpReply>,
    step: SessionStep,
    recorded: Result<bool, StoreError>,
    answer: Result<CreatePortalSessionResponse, PortalFlowError>,
) -> bool {
    match reply_step(reply) {
        ReplyStep::MarkUnknown => answer == Ok::<CreatePortalSessionResponse, PortalFlowError>(
            unknown_portal(effect_id),
        ),
        ReplyStep::Refuse => answer matches Err(error) && failed_portal(recorded, error),
        ReplyStep::Read(_) => match step {
            SessionStep::Accept { session_id, receipt } => recorded_portal(
                effect_id,
                session_id,
                receipt,
                recorded,
                answer,
            ),
            SessionStep::MarkUnknown => answer == Ok::<CreatePortalSessionResponse, PortalFlowError>(
                unknown_portal(effect_id),
            ),
        },
    }
}

/// A dispatched Portal effect is reported as accepted exactly where Stripe answered with success, the
/// answer held a session of Stripe's, and the receipt was recorded.
pub proof fn law_portal_is_accepted_only_with_answer_and_receipt(
    effect_id: String,
    reply: Option<HttpReply>,
    session: Option<StripeSession>,
    step: SessionStep,
    recorded: Result<bool, StoreError>,
    answer: Result<CreatePortalSessionResponse, PortalFlowError>,
)
    requires
        reads_session(session, EffectOperation::Portal, step),
        dispatched_portal(effect_id, reply, step, recorded, answer),
    ensures
        (answer is Ok && answer->Ok_0.status == CreatePortalSessionResponseStatus::Accepted) == (
        reply is Some && is_success(reply->0.status as int) && reply->0.body@.len()
            <= MAX_STRIPE_RESPONSE_BYTES && session is Some && is_session(
            session->0,
            EffectOperation::Portal,
        ) && recorded == Ok::<bool, StoreError>(true)),
{
}

/// An accepted Portal effect is answered, ever after, as it was the first time: asking again opens the
/// receipt that was sealed, and the receipt gives the response that the acceptance gave.
pub proof fn law_portal_replays_its_first_answer(
    key: Seq<u8>,
    row: EffectRow,
    change: EffectChange,
    session_id: String,
    plaintext: Seq<u8>,
    receipt: EffectReceipt,
    now: i64,
    step: PortalStep,
)
    requires
        row.record.status == EffectStatus::InFlight,
        accepts(change, key, row.record.effect_id@, session_id, plaintext),
        replays_portal(key, effect_step(row, change, now).record, step),
    ensures
        step is DecodeReceipt,
        step->plaintext@ == plaintext,
        accepted_portal(step->record.effect_id, step->record.stripe_object_id, receipt)
            == accepted_portal(row.record.effect_id, Some(session_id), receipt),
{
}

/// The caller gets what Stripe answered: the first answer to a session that Stripe created and
/// that was recorded carries that session's own URL, identifier and expiry, under the effect.
pub proof fn law_portal_hands_over_the_session(
    effect_id: String,
    reply: HttpReply,
    session: StripeSession,
    step: SessionStep,
    answer: Result<CreatePortalSessionResponse, PortalFlowError>,
)
    requires
        200 <= reply.status <= 299,
        reply.body@.len() <= 1024 * 1024,
        is_session(session, EffectOperation::Portal),
        reads_session(Some(session), EffectOperation::Portal, step),
        dispatched_portal(effect_id, Some(reply), step, Ok(true), answer),
    ensures
        answer is Ok,
        answer->Ok_0.status == CreatePortalSessionResponseStatus::Accepted,
        answer->Ok_0.url == Some(session.url),
        answer->Ok_0.session_id == Some(session.id),
        answer->Ok_0.effect_id == effect_id,
        session.expires_at is None ==> answer->Ok_0.expires_at is None,
        session.expires_at is Some && -377705116800 <= session.expires_at->0 <= 253402300799
            && rfc3339_text(
            Instant { unix_seconds: session.expires_at->0, nanosecond: 0 },
        ) is Ok ==> opt_text(answer->Ok_0.expires_at) == Some(
            rfc3339_text(Instant { unix_seconds: session.expires_at->0, nanosecond: 0 })->Ok_0,
        ),
{
    law_sessions_are_accepted_as_answered(session, EffectOperation::Portal, step);
}

/// The first answer and every replay from the same receipt are one and the same: the receipt's URL
/// and expiry, with the session and the effect.
pub proof fn law_portal_answers_and_replays_agree(
    record: EffectRecord,
    session_id: String,
    receipt: EffectReceipt,
    first: Result<CreatePortalSessionResponse, PortalFlowError>,
)
    requires
        record.stripe_object_id == Some(session_id),
        recorded_portal(record.effect_id, session_id, receipt, Ok(true), first),
    ensures
        first == replayed_portal(record, Ok(receipt)),
        first is Ok,
        first->Ok_0.status == CreatePortalSessionResponseStatus::Accepted,
        first->Ok_0.url == Some(receipt.url),
        first->Ok_0.expires_at == receipt.expires_at,
        first->Ok_0.session_id == Some(session_id),
        first->Ok_0.effect_id == record.effect_id,
{
}

/// A dispatched effect whose outcome is not known is answered as such, with nothing of a session;
/// one that Stripe refused is refused; and one that cannot be recorded fails.
pub proof fn law_portal_never_guesses_an_outcome(
    effect_id: String,
    reply: Option<HttpReply>,
    session: Option<StripeSession>,
    step: SessionStep,
    recorded: Result<bool, StoreError>,
    answer: Result<CreatePortalSessionResponse, PortalFlowError>,
)
    requires
        reads_session(session, EffectOperation::Portal, step),
        dispatched_portal(effect_id, reply, step, recorded, answer),
    ensures
        ({
            let succeeded = reply is Some && 200 <= reply->0.status <= 299 && reply->0.body@.len()
                <= 1024 * 1024;
            let refused = reply is Some && 400 <= reply->0.status <= 499 && reply->0.status != 408
                && reply->0.status != 409 && reply->0.status != 425 && reply->0.status != 429;
            let created = succeeded && session is Some && is_session(
                session->0,
                EffectOperation::Portal,
            );
            &&& !refused && (!created || recorded == Ok::<bool, StoreError>(false)) ==> {
                &&& answer is Ok
                &&& answer->Ok_0.status == CreatePortalSessionResponseStatus::EffectUnknown
                &&& answer->Ok_0.effect_id == effect_id
                &&& answer->Ok_0.url is None
                &&& answer->Ok_0.session_id is None
                &&& answer->Ok_0.expires_at is None
            }
            &&& refused && recorded is Ok ==> answer == Err::<CreatePortalSessionResponse, PortalFlowError>(
                PortalFlowError::Domain(CreatePortalSessionError::InvalidRequest),
            )
            &&& (refused || created) && recorded is Err ==> (answer matches Err(
                PortalFlowError::Runtime(failure),
            ) && failure.detail@ == store_error_text(recorded->Err_0))
        }),
{
}

/// What was recorded before is answered by where it stands: an accepted effect by its own receipt,
/// a failed one by its refusal, and any other as unknown.
pub proof fn law_recorded_portal_effects_answer_by_status(
    key: Seq<u8>,
    record: EffectRecord,
    step: PortalStep,
)
    requires
        replays_portal(key, record, step),
    ensures
        record.status == EffectStatus::KnownFailure ==> step == PortalStep::Finish(
            Err(PortalFlowError::Domain(CreatePortalSessionError::InvalidRequest)),
        ),
        record.status == EffectStatus::Prepared || record.status == EffectStatus::InFlight
            || record.status == EffectStatus::EffectUnknown ==> {
            &&& step matches PortalStep::Finish(Ok(answer)) && {
                &&& answer.status == CreatePortalSessionResponseStatus::EffectUnknown
                &&& answer.effect_id == record.effect_id
                &&& answer.url is None
                &&& answer.session_id is None
                &&& answer.expires_at is None
            }
        },
        record.status == EffectStatus::Accepted && record.response_nonce is Some
            && record.response_nonce->0@.len() == 12 && key.len() == 32
            && record.response_ciphertext is Some && opened_bytes(
            key,
            record.response_nonce->0@,
            record.response_ciphertext->0@,
            encode_utf8(record.effect_id@),
        ) is Some ==> {
            &&& step is DecodeReceipt
            &&& step->record == record
            &&& Some(step->plaintext@) == opened_bytes(
                key,
                record.response_nonce->0@,
                record.response_ciphertext->0@,
                encode_utf8(record.effect_id@),
            )
        },
        record.status == EffectStatus::Accepted ==> !(step matches PortalStep::Finish(Ok(_))),
{
}

/// A request is refused, in this order, as forbidden to whom the policy does not list for the
/// product, and as invalid where it names no subject, carries no usable key or would return
/// elsewhere; nothing else is refused before the subject is known.
pub proof fn law_portal_requests_are_refused_in_order(
    config: StripeSubscriptionConfig,
    caller: Seq<char>,
    request: CreatePortalSessionRequest,
)
    ensures
        portal_refusal(config, None, request) == Some(CreatePortalSessionError::Forbidden),
        ({
            let refusal = portal_refusal(config, Some(caller), request);
            let allowed = exists|i: int|
                0 <= i < config.product_instances@.len() && (
                #[trigger] config.product_instances@[i])@ == caller;
            let sound = is_name(request.scope_kind@) && is_name(request.scope_id@) && is_name(
                request.subject@,
            ) && is_idempotency_key(request.idempotency_key@) && redirects(
                config@,
                request.return_url@,
            );
            &&& !allowed ==> refusal == Some(CreatePortalSessionError::Forbidden)
            &&& allowed && !sound ==> refusal == Some(CreatePortalSessionError::InvalidRequest)
            &&& allowed && sound ==> refusal is None
        }),
{
    law_lists_are_exact(config.product_instances@, caller);
}

/// Whether a result follows from the billing subject of a Customer Portal request.
pub open spec fn starts_portal(
    caller: Seq<char>,
    request: CreatePortalSessionRequest,
    subject: Result<Option<BillingSubject>, StoreError>,
    start: Result<PortalStart, PortalFlowError>,
) -> bool {
    match subject {
        Err(error) => start matches Err(PortalFlowError::Runtime(failure)) && failure.detail@
            == store_error_text(error),
        Ok(None) => start == Err::<PortalStart, PortalFlowError>(
            PortalFlowError::Domain(CreatePortalSessionError::CustomerNotFound),
        ),
        Ok(Some(subject)) => start is Ok && is_portal_effect(start->Ok_0.effect, caller, request)
            && start->Ok_0.customer_id == subject.customer_id,
    }
}

/// A Portal session is for the customer of the stored subject, and its effect is the caller's own,
/// under its key and for its subject; without a stored subject there is no customer.
pub proof fn law_portal_effects_are_the_requests(
    caller: Seq<char>,
    request: CreatePortalSessionRequest,
    subject: Option<BillingSubject>,
    start: Result<PortalStart, PortalFlowError>,
)
    requires
        starts_portal(caller, request, Ok(subject), start),
    ensures
        start is Ok == subject is Some,
        subject is None ==> start == Err::<PortalStart, PortalFlowError>(
            PortalFlowError::Domain(CreatePortalSessionError::CustomerNotFound),
        ),
        start is Ok ==> {
            let effect = start->Ok_0.effect;
            &&& start->Ok_0.customer_id == subject->0.customer_id
            &&& effect.operation == EffectOperation::Portal
            &&& effect.caller_instance@ == caller
            &&& effect.idempotency_key@ == request.idempotency_key@
            &&& effect.scope_kind@ == request.scope_kind@
            &&& effect.scope_id@ == request.scope_id@
            &&& effect.subject@ == request.subject@
            &&& effect.price_alias is None
            &&& effect.effect_id@ == effect_id_of(
                caller,
                EffectOperation::Portal,
                request.idempotency_key@,
            )
            &&& effect.request_hash@ == sha256_digest(object_json(portal_members(request)))
        },
{
}

/// The request of a Portal session is posted to Stripe's path for Portal sessions, for the
/// customer and with the requested return, and under the effect's own identifier as key.
pub proof fn law_portal_requests_are_posted(
    sent: Option<StripeRequest>,
    api_base: Seq<char>,
    api_key: Seq<char>,
    request: CreatePortalSessionRequest,
    customer_id: Seq<char>,
    effect_id: Seq<char>,
)
    requires
        asks_for_portal(api_base, api_key, request, customer_id, effect_id, sent),
    ensures
        sent is Some == joined_url(api_base, "v1/billing_portal/sessions"@) is Some,
        sent is Some ==> {
            &&& sent->0.method@ == "POST"@
            &&& Some(sent->0.url@) == joined_url(api_base, "v1/billing_portal/sessions"@)
            &&& sent->0.body@ == form_text(
                seq![("customer"@, customer_id), ("return_url"@, request.return_url@)],
            )
            &&& pair_texts(sent->0.headers@).contains(("Idempotency-Key"@, effect_id))
            &&& pair_texts(sent->0.headers@).contains(("Authorization"@, "Bearer "@ + api_key))
        },
{
    if sent is Some {
        law_posts_go_where_they_are_meant(
            sent->0,
            api_base,
            api_key,
            portal_path(),
            form_text(portal_fields(customer_id, request.return_url@)),
            effect_id,
        );
    }
}

/// Only the claim that may dispatch goes on to Stripe; a key that was used for another request is a
/// conflict, and a store that fails is no answer.
pub proof fn law_only_dispatching_portal_claims_go_on(
    key: Seq<u8>,
    record: EffectRecord,
    error: StoreError,
    step: PortalStep,
)
    ensures
        follows_portal_claim(key, Ok(EffectClaim::Dispatch(record)), step) ==> step == PortalStep::Dispatch(record),
        follows_portal_claim(key, Ok(EffectClaim::Existing(record)), step) ==> !(step is Dispatch),
        follows_portal_claim(key, Ok(EffectClaim::Conflict), step) ==> step == PortalStep::Finish(
            Err(PortalFlowError::Domain(CreatePortalSessionError::IdempotencyConflict)),
        ),
        follows_portal_claim(key, Err(error), step) ==> (step matches PortalStep::Finish(
            Err(PortalFlowError::Runtime(failure)),
        ) && failure.detail@ == store_error_text(error)),
{
}

/// A receipt that cannot be opened or decoded is told as it is, and never answered with success.
pub proof fn law_portal_receipt_failures_are_told(
    key: Seq<u8>,
    record: EffectRecord,
    detail: String,
    step: PortalStep,
)
    ensures
        replays_portal(key, record, step) && record.status == EffectStatus::Accepted
            && record_opening(key, record) is Err ==> (step matches PortalStep::Finish(
            Err(PortalFlowError::Runtime(failure)),
        ) && failure.detail@ == record_opening(key, record)->Err_0),
        replayed_portal(record, Err(detail)) matches Err(PortalFlowError::Runtime(failure))
            && failure.detail@ == detail@,
{
}

} // verus!
