//! Creating a Checkout Session, step by step. Between two steps the caller of these functions
//! performs what the last one asked for.

use vstd::prelude::*;
use vstd::utf8::encode_utf8;

use crate::clock::{rfc3339_text, Instant};
use crate::config::{
    is_name, law_alias_lookup_is_exact, law_first_alias_is_found, law_lists_are_exact, listed, price_with_alias, redirects,
    StripeSubscriptionConfig,
};
use crate::contract::{
    failure, store_failure, CreateCheckoutSessionError, CreateCheckoutSessionRequest,
    CreateCheckoutSessionResponse, CreateCheckoutSessionResponseStatus, RuntimeFailure,
};
use crate::crypto::{opened_bytes, sha256_digest};
use crate::effects::{
    effect_step, EffectChange, EffectClaim, EffectOperation, EffectRecord, EffectRow, EffectStatus,
    NewEffect,
};
use crate::json::{object_json, pair_texts};
use crate::receipt::{decrypt_receipt, record_opening, EffectReceipt, ReceiptCipher};
use crate::request::{
    checkout_members, effect_id_of, fingerprint, is_idempotency_key, is_subject,
    list_checkout_members, request_hash, stable_effect_id, valid_idempotency_key,
    valid_subject_request,
};
use crate::session::{
    accepts, law_sessions_are_accepted_as_answered, reads_session, reply_step, ReplyStep, SessionStep, ALREADY_SUBSCRIBED, STRIPE_REJECTED,
};
use crate::store::{store_error_text, StoreError};
use crate::stripe::{
    checkout_fields, checkout_form, is_session, is_success, law_posts_go_where_they_are_meant, posts,
    stripe_post, HttpReply, StripeRequest, StripeSession, MAX_STRIPE_RESPONSE_BYTES,
};
use crate::subscription::{access_given, gives_access, BillingSubject};
use crate::text::{opt_str, opt_text, same};
use crate::web::{form_text, joined_url};

verus! {

/// Why a Checkout Session was not created.
#[derive(Debug)]
pub enum CheckoutFlowError {
    Domain(CreateCheckoutSessionError),
    Runtime(RuntimeFailure),
}

/// A Checkout Session request that may be carried out: its effect, and the price it is for.
pub struct CheckoutStart {
    pub effect: NewEffect,
    pub price_id: String,
}

/// The refusal of a Checkout Session request.
pub open spec fn checkout_refusal(
    config: StripeSubscriptionConfig,
    caller: Option<Seq<char>>,
    request: CreateCheckoutSessionRequest,
) -> Option<CreateCheckoutSessionError> {
    if !listed(config@.product_instances, caller) {
        Some(CreateCheckoutSessionError::Forbidden)
    } else if !is_subject(request.scope_kind@, request.scope_id@, request.subject@)
        || !is_idempotency_key(request.idempotency_key@) || !redirects(config@, request.success_url@)
        || !redirects(config@, request.cancel_url@) {
        Some(CreateCheckoutSessionError::InvalidRequest)
    } else if price_with_alias(config.prices@, request.price_alias@) is None {
        Some(CreateCheckoutSessionError::PriceNotFound)
    } else {
        None
    }
}

/// Whether an effect is that of a caller's Checkout Session request.
pub open spec fn is_checkout_effect(
    effect: NewEffect,
    caller: Seq<char>,
    request: CreateCheckoutSessionRequest,
) -> bool {
    &&& effect.effect_id@ == effect_id_of(
        caller,
        EffectOperation::Checkout,
        request.idempotency_key@,
    )
    &&& effect.caller_instance@ == caller
    &&& effect.operation == EffectOperation::Checkout
    &&& effect.idempotency_key == request.idempotency_key
    &&& effect.request_hash@ == fingerprint(checkout_members(request))
    &&& effect.scope_kind == request.scope_kind
    &&& effect.scope_id == request.scope_id
    &&& effect.subject == request.subject
    &&& effect.price_alias == Some(request.price_alias)
}

/// Whether a checkout starts like this, or is refused.
pub open spec fn begins_checkout(
    config: StripeSubscriptionConfig,
    caller: Option<Seq<char>>,
    request: CreateCheckoutSessionRequest,
    start: Result<CheckoutStart, CheckoutFlowError>,
) -> bool {
    match checkout_refusal(config, caller, request) {
        Some(error) => start == Err::<CheckoutStart, CheckoutFlowError>(
            CheckoutFlowError::Domain(error),
        ),
        None => start is Ok && is_checkout_effect(start->Ok_0.effect, caller->0, request)
            && start->Ok_0.price_id == price_with_alias(
            config.prices@,
            request.price_alias@,
        )->0.price_id,
    }
}

/// Checks a Checkout Session request and makes its effect, which is to be claimed.
pub fn begin_checkout(
    config: &StripeSubscriptionConfig,
    caller: Option<&str>,
    request: &CreateCheckoutSessionRequest,
) -> (r: Result<CheckoutStart, CheckoutFlowError>)
    ensures
        begins_checkout(*config, opt_str(caller), *request, r),
{
    let caller_name = match caller {
        Some(name) => name,
        None => return Err(CheckoutFlowError::Domain(CreateCheckoutSessionError::Forbidden)),
    };
    if !config.product_allowed(caller) {
        return Err(CheckoutFlowError::Domain(CreateCheckoutSessionError::Forbidden));
    }
    if !valid_subject_request(
        request.scope_kind.as_str(),
        request.scope_id.as_str(),
        request.subject.as_str(),
    ) || !valid_idempotency_key(request.idempotency_key.as_str()) || !config.redirect_allowed(
        request.success_url.as_str(),
    ) || !config.redirect_allowed(request.cancel_url.as_str()) {
        return Err(CheckoutFlowError::Domain(CreateCheckoutSessionError::InvalidRequest));
    }
    let price_id = match config.price(request.price_alias.as_str()) {
        Some(price) => price.price_id.clone(),
        None => return Err(CheckoutFlowError::Domain(CreateCheckoutSessionError::PriceNotFound)),
    };
    let hash = match request_hash(list_checkout_members(request)) {
        Ok(hash) => hash,
        Err(failure) => return Err(CheckoutFlowError::Runtime(failure)),
    };
    let effect = NewEffect {
        effect_id: stable_effect_id(
            caller_name,
            EffectOperation::Checkout,
            request.idempotency_key.as_str(),
        ),
        caller_instance: caller_name.to_owned(),
        operation: EffectOperation::Checkout,
        idempotency_key: request.idempotency_key.clone(),
        request_hash: hash,
        scope_kind: request.scope_kind.clone(),
        scope_id: request.scope_id.clone(),
        subject: request.subject.clone(),
        price_alias: Some(request.price_alias.clone()),
    };
    Ok(CheckoutStart { effect, price_id })
}

/// The answer while the outcome is not known.
pub open spec fn unknown_checkout(effect_id: String) -> CreateCheckoutSessionResponse {
    CreateCheckoutSessionResponse {
        effect_id,
        expires_at: None,
        session_id: None,
        status: CreateCheckoutSessionResponseStatus::EffectUnknown,
        url: None,
    }
}

/// Makes the answer while the outcome is not known.
pub fn checkout_unknown(effect_id: String) -> (r: CreateCheckoutSessionResponse)
    ensures
        r == unknown_checkout(effect_id),
{
    CreateCheckoutSessionResponse {
        effect_id,
        expires_at: None,
        session_id: None,
        status: CreateCheckoutSessionResponseStatus::EffectUnknown,
        url: None,
    }
}

/// The refusal that a failure code stands for.
pub open spec fn checkout_failure_of(code: Option<Seq<char>>) -> CreateCheckoutSessionError {
    if code == Some(ALREADY_SUBSCRIBED@) {
        CreateCheckoutSessionError::AlreadySubscribed
    } else {
        CreateCheckoutSessionError::InvalidRequest
    }
}

/// Finds the refusal that a failure code stands for.
pub fn checkout_failure(code: Option<&str>) -> (r: CreateCheckoutSessionError)
    ensures
        r == checkout_failure_of(opt_str(code)),
{
    match code {
        Some(code) => if same(code, ALREADY_SUBSCRIBED) {
            CreateCheckoutSessionError::AlreadySubscribed
        } else {
            CreateCheckoutSessionError::InvalidRequest
        },
        None => CreateCheckoutSessionError::InvalidRequest,
    }
}

/// What a claimed checkout needs next.
pub enum CheckoutStep {
    /// Load the billing subject, then go on with [`checkout_subject_loaded`].
    LoadSubject(EffectRecord),
    /// Decode this receipt, then answer with [`checkout_replayed`].
    DecodeReceipt { record: EffectRecord, plaintext: Vec<u8> },
    /// Answer.
    Finish(Result<CreateCheckoutSessionResponse, CheckoutFlowError>),
}

/// Whether a step answers an effect that was recorded before with its durable state.
pub open spec fn replays_checkout(key: Seq<u8>, record: EffectRecord, step: CheckoutStep) -> bool {
    match record.status {
        EffectStatus::Accepted => match record_opening(key, record) {
            Ok(opened) => step matches CheckoutStep::DecodeReceipt { record: same_record, plaintext }
                && same_record == record && plaintext@ == opened,
            Err(message) => step matches CheckoutStep::Finish(
                Err(CheckoutFlowError::Runtime(failure)),
            ) && failure.detail@ == message,
        },
        EffectStatus::KnownFailure => step == CheckoutStep::Finish(
            Err(CheckoutFlowError::Domain(checkout_failure_of(opt_text(record.failure_code)))),
        ),
        _ => step == CheckoutStep::Finish(Ok(unknown_checkout(record.effect_id))),
    }
}

/// Answers an effect that was recorded before.
pub fn checkout_existing(cipher: &ReceiptCipher, record: EffectRecord) -> (r: CheckoutStep)
    ensures
        replays_checkout(cipher.key(), record, r),
{
    match record.status {
        EffectStatus::Accepted => match decrypt_receipt(cipher, &record) {
            Ok(plaintext) => CheckoutStep::DecodeReceipt { record, plaintext },
            Err(failure) => CheckoutStep::Finish(Err(CheckoutFlowError::Runtime(failure))),
        },
        EffectStatus::KnownFailure => {
            let error = match &record.failure_code {
                Some(code) => checkout_failure(Some(code.as_str())),
                None => checkout_failure(None),
            };
            CheckoutStep::Finish(Err(CheckoutFlowError::Domain(error)))
        },
        _ => CheckoutStep::Finish(Ok(checkout_unknown(record.effect_id))),
    }
}

/// Whether a step is what a claim allows.
pub open spec fn follows_checkout_claim(
    key: Seq<u8>,
    claim: Result<EffectClaim, StoreError>,
    step: CheckoutStep,
) -> bool {
    match claim {
        Err(error) => step matches CheckoutStep::Finish(Err(CheckoutFlowError::Runtime(failure)))
            && failure.detail@ == store_error_text(error),
        Ok(EffectClaim::Conflict) => step == CheckoutStep::Finish(
            Err(CheckoutFlowError::Domain(CreateCheckoutSessionError::IdempotencyConflict)),
        ),
        Ok(EffectClaim::Existing(record)) => replays_checkout(key, record, step),
        Ok(EffectClaim::Dispatch(record)) => step == CheckoutStep::LoadSubject(record),
    }
}

/// Decides what a claim allows.
pub fn checkout_claimed(cipher: &ReceiptCipher, claim: Result<EffectClaim, StoreError>) -> (r:
    CheckoutStep)
    ensures
        follows_checkout_claim(cipher.key(), claim, r),
{
    match claim {
        Err(error) => CheckoutStep::Finish(
            Err(CheckoutFlowError::Runtime(store_failure(&error))),
        ),
        Ok(EffectClaim::Conflict) => CheckoutStep::Finish(
            Err(CheckoutFlowError::Domain(CreateCheckoutSessionError::IdempotencyConflict)),
        ),
        Ok(EffectClaim::Existing(record)) => checkout_existing(cipher, record),
        Ok(EffectClaim::Dispatch(record)) => CheckoutStep::LoadSubject(record),
    }
}

/// The answer that shows an accepted session.
pub open spec fn accepted_checkout(
    effect_id: String,
    session_id: Option<String>,
    receipt: EffectReceipt,
) -> CreateCheckoutSessionResponse {
    CreateCheckoutSessionResponse {
        effect_id,
        expires_at: receipt.expires_at,
        session_id,
        status: CreateCheckoutSessionResponseStatus::Accepted,
        url: Some(receipt.url),
    }
}

/// The answer from a receipt that was decoded, or from what kept it from being.
pub open spec fn replayed_checkout(record: EffectRecord, receipt: Result<EffectReceipt, String>) -> Result<
    CreateCheckoutSessionResponse,
    CheckoutFlowError,
> {
    match receipt {
        Ok(receipt) => Ok(
            accepted_checkout(record.effect_id, record.stripe_object_id, receipt),
        ),
        Err(detail) => Err(CheckoutFlowError::Runtime(RuntimeFailure { detail })),
    }
}

/// Answers with a receipt that was decoded, or with what kept it from being.
pub fn checkout_replayed(record: EffectRecord, receipt: Result<EffectReceipt, String>) -> (r: Result<
    CreateCheckoutSessionResponse,
    CheckoutFlowError,
>)
    ensures
        r == replayed_checkout(record, receipt),
{
    match receipt {
        Ok(receipt) => Ok(
            CreateCheckoutSessionResponse {
                effect_id: record.effect_id,
                expires_at: receipt.expires_at,
                session_id: record.stripe_object_id,
                status: CreateCheckoutSessionResponseStatus::Accepted,
                url: Some(receipt.url),
            },
        ),
        Err(detail) => Err(CheckoutFlowError::Runtime(failure(detail))),
    }
}

/// What a dispatched checkout needs next.
pub enum CheckoutDispatch {
    /// Send this request, then go on with the answer.
    Send(StripeRequest),
    /// Record the failure [`ALREADY_SUBSCRIBED`], then answer with [`checkout_failed`].
    AlreadySubscribed,
    /// Answer.
    Finish(CheckoutFlowError),
    /// The API base does not take the path.
    Unjoinable,
}

/// Where Checkout Sessions are created.
pub open spec fn checkout_path() -> Seq<char> {
    "v1/checkout/sessions"@
}

/// Decides whether a claimed checkout is sent: not for a subject that already has access.
pub fn checkout_subject_loaded(
    api_base: &str,
    api_key: &str,
    request: &CreateCheckoutSessionRequest,
    price_id: &str,
    effect_id: &str,
    subject: Result<Option<BillingSubject>, StoreError>,
) -> (r: CheckoutDispatch)
    ensures
        dispatches_checkout(
            api_base@,
            api_key@,
            *request,
            price_id@,
            effect_id@,
            subject,
            r,
        ),
{
    match subject {
        Err(error) => return CheckoutDispatch::Finish(
            CheckoutFlowError::Runtime(store_failure(&error)),
        ),
        Ok(Some(subject)) => {
            if access_given(subject.subscription_status.as_str()) {
                return CheckoutDispatch::AlreadySubscribed;
            }
        },
        Ok(None) => {},
    }
    let body = checkout_form(request, price_id);
    match stripe_post(api_base, api_key, "v1/checkout/sessions", body, effect_id) {
        Some(request) => CheckoutDispatch::Send(request),
        None => CheckoutDispatch::Unjoinable,
    }
}

/// Whether an error answers an effect whose failure was recorded, or could not be.
pub open spec fn failed_checkout(
    failure_code: Seq<char>,
    recorded: Result<bool, StoreError>,
    error: CheckoutFlowError,
) -> bool {
    match recorded {
        Err(stored) => error matches CheckoutFlowError::Runtime(failure) && failure.detail@
            == store_error_text(stored),
        Ok(_) => error == CheckoutFlowError::Domain(checkout_failure_of(Some(failure_code))),
    }
}

/// Answers once a failure was recorded, or could not be.
pub fn checkout_failed(failure_code: &str, recorded: Result<bool, StoreError>) -> (r: CheckoutFlowError)
    ensures
        failed_checkout(failure_code@, recorded, r),
{
    match recorded {
        Err(error) => CheckoutFlowError::Runtime(store_failure(&error)),
        Ok(_) => CheckoutFlowError::Domain(checkout_failure(Some(failure_code))),
    }
}

/// Whether a result answers an effect whose acceptance was recorded, or was not.
pub open spec fn recorded_checkout(
    effect_id: String,
    session_id: String,
    receipt: EffectReceipt,
    accepted: Result<bool, StoreError>,
    answer: Result<CreateCheckoutSessionResponse, CheckoutFlowError>,
) -> bool {
    match accepted {
        Err(error) => answer matches Err(CheckoutFlowError::Runtime(failure)) && failure.detail@
            == store_error_text(error),
        Ok(true) => answer == Ok::<CreateCheckoutSessionResponse, CheckoutFlowError>(
            accepted_checkout(effect_id, Some(session_id), receipt),
        ),
        Ok(false) => answer == Ok::<CreateCheckoutSessionResponse, CheckoutFlowError>(
            unknown_checkout(effect_id),
        ),
    }
}

/// Answers once an effect was accepted, or was not: without the durable receipt the outcome is
/// reported as unknown.
pub fn checkout_accepted(
    effect_id: String,
    session_id: String,
    receipt: EffectReceipt,
    accepted: Result<bool, StoreError>,
) -> (r: Result<CreateCheckoutSessionResponse, CheckoutFlowError>)
    ensures
        recorded_checkout(effect_id, session_id, receipt, accepted, r),
{
    match accepted {
        Err(error) => Err(CheckoutFlowError::Runtime(store_failure(&error))),
        Ok(true) => Ok(
            CreateCheckoutSessionResponse {
                effect_id,
                expires_at: receipt.expires_at,
                session_id: Some(session_id),
                status: CreateCheckoutSessionResponseStatus::Accepted,
                url: Some(receipt.url),
            },
        ),
        Ok(false) => Ok(checkout_unknown(effect_id)),
    }
}

/// Whether a result answers a dispatched checkout: what Stripe answered, the step that the
/// session of a successful answer leads to, and what became of recording the outcome.
pub open spec fn dispatched_checkout(
    effect_id: String,
    reply: Option<HttpReply>,
    step: SessionStep,
    recorded: Result<bool, StoreError>,
    answer: Result<CreateCheckoutSessionResponse, CheckoutFlowError>,
) -> bool {
    match reply_step(reply) {
        ReplyStep::MarkUnknown => answer == Ok::<CreateCheckoutSessionResponse, CheckoutFlowError>(
            unknown_checkout(effect_id),
        ),
        ReplyStep::Refuse => answer matches Err(error) && failed_checkout(
                STRIPE_REJECTED@,
                recorded,
                error,
            ),
        ReplyStep::Read(_) => match step {
            SessionStep::Accept { session_id, receipt } => recorded_checkout(
                effect_id,
                session_id,
                receipt,
                recorded,
                answer,
            ),
            SessionStep::MarkUnknown => answer == Ok::<CreateCheckoutSessionResponse, CheckoutFlowError>(
                unknown_checkout(effect_id),
            ),
        },
    }
}

/// A dispatched checkout is reported as accepted exactly where Stripe answered with success, the
/// answer held a session of Stripe's, and the receipt was recorded.
pub proof fn law_checkout_is_accepted_only_with_answer_and_receipt(
    effect_id: String,
    reply: Option<HttpReply>,
    session: Option<StripeSession>,
    step: SessionStep,
    recorded: Result<bool, StoreError>,
    answer: Result<CreateCheckoutSessionResponse, CheckoutFlowError>,
)
    requires
        reads_session(session, EffectOperation::Checkout, step),
        dispatched_checkout(effect_id, reply, step, recorded, answer),
    ensures
        (answer is Ok && answer->Ok_0.status == CreateCheckoutSessionResponseStatus::Accepted) == (
        reply is Some && is_success(reply->0.status as int) && reply->0.body@.len()
            <= MAX_STRIPE_RESPONSE_BYTES && session is Some && is_session(
            session->0,
            EffectOperation::Checkout,
        ) && recorded == Ok::<bool, StoreError>(true)),
{
}

/// An accepted checkout is answered, ever after, as it was the first time: asking again opens the
/// receipt that was sealed, and the receipt gives the response that the acceptance gave.
pub proof fn law_checkout_replays_its_first_answer(
    key: Seq<u8>,
    row: EffectRow,
    change: EffectChange,
    session_id: String,
    plaintext: Seq<u8>,
    receipt: EffectReceipt,
    now: i64,
    step: CheckoutStep,
)
    requires
        row.record.status == EffectStatus::InFlight,
        accepts(change, key, row.record.effect_id@, session_id, plaintext),
        replays_checkout(key, effect_step(row, change, now).record, step),
    ensures
        step is DecodeReceipt,
        step->plaintext@ == plaintext,
        accepted_checkout(step->record.effect_id, step->record.stripe_object_id, receipt)
            == accepted_checkout(row.record.effect_id, Some(session_id), receipt),
{
}

/// Recording a failure, and asking again, gives the refusal of that failure once more.
pub proof fn law_checkout_refusals_are_stable(
    row: EffectRow,
    failure_code: String,
    now: i64,
    key: Seq<u8>,
    step: CheckoutStep,
)
    requires
        row.record.status == EffectStatus::InFlight,
        replays_checkout(
            key,
            effect_step(
                row,
                EffectChange::Fail { failure_code },
                now,
            ).record,
            step,
        ),
    ensures
        step == CheckoutStep::Finish(
            Err(CheckoutFlowError::Domain(checkout_failure_of(Some(failure_code@)))),
        ),
{
}

/// The caller gets what Stripe answered: the first answer to a session that Stripe created and
/// that was recorded carries that session's own URL, identifier and expiry, under the effect.
pub proof fn law_checkout_hands_over_the_session(
    effect_id: String,
    reply: HttpReply,
    session: StripeSession,
    step: SessionStep,
    answer: Result<CreateCheckoutSessionResponse, CheckoutFlowError>,
)
    requires
        200 <= reply.status <= 299,
        reply.body@.len() <= 1024 * 1024,
        is_session(session, EffectOperation::Checkout),
        reads_session(Some(session), EffectOperation::Checkout, step),
        dispatched_checkout(effect_id, Some(reply), step, Ok(true), answer),
    ensures
        answer is Ok,
        answer->Ok_0.status == CreateCheckoutSessionResponseStatus::Accepted,
        answer->Ok_0.url == Some(session.url),
        answer->Ok_0.session_id == Some(session.id),
        answer->Ok_0.effect_id == effect_id,
        session.expires_at is None ==> answer->Ok_0.expires_at is None,
        session.expires_at is Some && -377705116800 <= session.expires_at->0 <= 253402300799
            && rfc3339_text(
            Instant { unix_seconds: session.expires_at->0, nanosecond: 0 },
        ) is Ok ==> opt_text(answer->Ok_0.expires_at) == Some(
            rfc3339_text(Instant { unix_seconds: session.expires_at->0, nanosecond: 0 })->Ok_0,
        ),
{
    law_sessions_are_accepted_as_answered(session, EffectOperation::Checkout, step);
}

/// The first answer and every replay from the same receipt are one and the same: the receipt's URL
/// and expiry, with the session and the effect.
pub proof fn law_checkout_answers_and_replays_agree(
    record: EffectRecord,
    session_id: String,
    receipt: EffectReceipt,
    first: Result<CreateCheckoutSessionResponse, CheckoutFlowError>,
)
    requires
        record.stripe_object_id == Some(session_id),
        recorded_checkout(record.effect_id, session_id, receipt, Ok(true), first),
    ensures
        first == replayed_checkout(record, Ok(receipt)),
        first is Ok,
        first->Ok_0.status == CreateCheckoutSessionResponseStatus::Accepted,
        first->Ok_0.url == Some(receipt.url),
        first->Ok_0.expires_at == receipt.expires_at,
        first->Ok_0.session_id == Some(session_id),
        first->Ok_0.effect_id == record.effect_id,
{
}

/// A dispatched effect whose outcome is not known is answered as such, with nothing of a session;
/// one that Stripe refused is refused; and one that cannot be recorded fails.
pub proof fn law_checkout_never_guesses_an_outcome(
    effect_id: String,
    reply: Option<HttpReply>,
    session: Option<StripeSession>,
    step: SessionStep,
    recorded: Result<bool, StoreError>,
    answer: Result<CreateCheckoutSessionResponse, CheckoutFlowError>,
)
    requires
        reads_session(session, EffectOperation::Checkout, step),
        dispatched_checkout(effect_id, reply, step, recorded, answer),
    ensures
        ({
            let succeeded = reply is Some && 200 <= reply->0.status <= 299 && reply->0.body@.len()
                <= 1024 * 1024;
            let refused = reply is Some && 400 <= reply->0.status <= 499 && reply->0.status != 408
                && reply->0.status != 409 && reply->0.status != 425 && reply->0.status != 429;
            let created = succeeded && session is Some && is_session(
                session->0,
                EffectOperation::Checkout,
            );
            &&& !refused && (!created || recorded == Ok::<bool, StoreError>(false)) ==> {
                &&& answer is Ok
                &&& answer->Ok_0.status == CreateCheckoutSessionResponseStatus::EffectUnknown
                &&& answer->Ok_0.effect_id == effect_id
                &&& answer->Ok_0.url is None
                &&& answer->Ok_0.session_id is None
                &&& answer->Ok_0.expires_at is None
            }
            &&& refused && recorded is Ok ==> answer == Err::<CreateCheckoutSessionResponse, CheckoutFlowError>(
                CheckoutFlowError::Domain(CreateCheckoutSessionError::InvalidRequest),
            )
            &&& (refused || created) && recorded is Err ==> (answer matches Err(
                CheckoutFlowError::Runtime(failure),
            ) && failure.detail@ == store_error_text(recorded->Err_0))
        }),
{
    reveal_strlit("stripe_rejected");
    reveal_strlit("already_subscribed");
    assert("stripe_rejected"@.len() == 15 && "already_subscribed"@.len() == 18);
}

/// What was recorded before is answered by where it stands: an accepted effect by its own receipt,
/// a failed one by its refusal, and any other as unknown.
pub proof fn law_recorded_checkout_effects_answer_by_status(
    key: Seq<u8>,
    record: EffectRecord,
    step: CheckoutStep,
)
    requires
        replays_checkout(key, record, step),
    ensures
        record.status == EffectStatus::KnownFailure ==> step == CheckoutStep::Finish(
            Err(
                CheckoutFlowError::Domain(
                    if opt_text(record.failure_code) == Some("already_subscribed"@) {
                        CreateCheckoutSessionError::AlreadySubscribed
                    } else {
                        CreateCheckoutSessionError::InvalidRequest
                    },
                ),
            ),
        ),
        record.status == EffectStatus::Prepared || record.status == EffectStatus::InFlight
            || record.status == EffectStatus::EffectUnknown ==> {
            &&& step matches CheckoutStep::Finish(Ok(answer)) && {
                &&& answer.status == CreateCheckoutSessionResponseStatus::EffectUnknown
                &&& answer.effect_id == record.effect_id
                &&& answer.url is None
                &&& answer.session_id is None
                &&& answer.expires_at is None
            }
        },
        record.status == EffectStatus::Accepted && record.response_nonce is Some
            && record.response_nonce->0@.len() == 12 && key.len() == 32
            && record.response_ciphertext is Some && opened_bytes(
            key,
            record.response_nonce->0@,
            record.response_ciphertext->0@,
            encode_utf8(record.effect_id@),
        ) is Some ==> {
            &&& step is DecodeReceipt
            &&& step->record == record
            &&& Some(step->plaintext@) == opened_bytes(
                key,
                record.response_nonce->0@,
                record.response_ciphertext->0@,
                encode_utf8(record.effect_id@),
            )
        },
        record.status == EffectStatus::Accepted ==> !(step matches CheckoutStep::Finish(Ok(_))),
{
}

/// A request is refused, in this order, as forbidden to whom the policy does not list for the
/// product, as invalid where it names no subject, carries no usable key or would redirect
/// elsewhere, and for a price that is not configured; nothing else is refused.
pub proof fn law_checkout_requests_are_refused_in_order(
    config: StripeSubscriptionConfig,
    caller: Seq<char>,
    request: CreateCheckoutSessionRequest,
)
    ensures
        checkout_refusal(config, None, request) == Some(CreateCheckoutSessionError::Forbidden),
        ({
            let refusal = checkout_refusal(config, Some(caller), request);
            let allowed = exists|i: int|
                0 <= i < config.product_instances@.len() && (
                #[trigger] config.product_instances@[i])@ == caller;
            let sound = is_name(request.scope_kind@) && is_name(request.scope_id@) && is_name(
                request.subject@,
            ) && is_idempotency_key(request.idempotency_key@) && redirects(
                config@,
                request.success_url@,
            ) && redirects(config@, request.cancel_url@);
            let priced = exists|i: int|
                0 <= i < config.prices@.len() && (#[trigger] config.prices@[i]).alias@
                    == request.price_alias@;
            &&& !allowed ==> refusal == Some(CreateCheckoutSessionError::Forbidden)
            &&& allowed && !sound ==> refusal == Some(CreateCheckoutSessionError::InvalidRequest)
            &&& allowed && sound && !priced ==> refusal == Some(
                CreateCheckoutSessionError::PriceNotFound,
            )
            &&& allowed && sound && priced ==> refusal is None
        }),
{
    law_lists_are_exact(config.product_instances@, caller);
    law_alias_lookup_is_exact(config.prices@, request.price_alias@);
}

/// The effect of a request is the caller's own, under its key, for its subject and its price; it
/// is told from every other by the caller, the operation and the key, and its fingerprint is the
/// digest of all that the request says.
pub proof fn law_checkout_effects_are_the_requests(
    effect: NewEffect,
    caller: Seq<char>,
    request: CreateCheckoutSessionRequest,
)
    requires
        is_checkout_effect(effect, caller, request),
    ensures
        effect.operation == EffectOperation::Checkout,
        effect.caller_instance@ == caller,
        effect.idempotency_key@ == request.idempotency_key@,
        effect.scope_kind@ == request.scope_kind@,
        effect.scope_id@ == request.scope_id@,
        effect.subject@ == request.subject@,
        opt_text(effect.price_alias) == Some(request.price_alias@),
        effect.effect_id@ == effect_id_of(
            caller,
            EffectOperation::Checkout,
            request.idempotency_key@,
        ),
        effect.request_hash@ == sha256_digest(object_json(checkout_members(request))),
{
}

/// Whether a step follows from the billing subject of a claimed checkout.
pub open spec fn dispatches_checkout(
    api_base: Seq<char>,
    api_key: Seq<char>,
    request: CreateCheckoutSessionRequest,
    price_id: Seq<char>,
    effect_id: Seq<char>,
    subject: Result<Option<BillingSubject>, StoreError>,
    step: CheckoutDispatch,
) -> bool {
    match subject {
        Err(error) => step matches CheckoutDispatch::Finish(CheckoutFlowError::Runtime(failure))
            && failure.detail@ == store_error_text(error),
        Ok(subject) => if subject is Some && gives_access(subject->0.subscription_status@) {
            step == CheckoutDispatch::AlreadySubscribed
        } else if joined_url(api_base, checkout_path()) is None {
            step == CheckoutDispatch::Unjoinable
        } else {
            step matches CheckoutDispatch::Send(sent) && posts(
                sent,
                api_base,
                api_key,
                checkout_path(),
                form_text(checkout_fields(request, price_id)),
                effect_id,
            )
        },
    }
}

/// A subject whose subscription is active or on trial gets no second checkout; for any other the
/// request of the session is sent, to Stripe's path for Checkout Sessions and under the effect's
/// own identifier as idempotency key.
pub proof fn law_checkouts_are_sent_once_for_subjects_without_access(
    api_base: Seq<char>,
    api_key: Seq<char>,
    request: CreateCheckoutSessionRequest,
    price_id: Seq<char>,
    effect_id: Seq<char>,
    subject: Option<BillingSubject>,
    step: CheckoutDispatch,
)
    requires
        dispatches_checkout(api_base, api_key, request, price_id, effect_id, Ok(subject), step),
        joined_url(api_base, "v1/checkout/sessions"@) is Some,
    ensures
        (step == CheckoutDispatch::AlreadySubscribed) == (subject is Some && (
        subject->0.subscription_status@ == "active"@ || subject->0.subscription_status@
            == "trialing"@)),
        step != CheckoutDispatch::AlreadySubscribed ==> {
            &&& step matches CheckoutDispatch::Send(sent) && {
                &&& sent.method@ == "POST"@
                &&& Some(sent.url@) == joined_url(api_base, "v1/checkout/sessions"@)
                &&& sent.body@ == form_text(checkout_fields(request, price_id))
                &&& pair_texts(sent.headers@).contains(("Idempotency-Key"@, effect_id))
                &&& pair_texts(sent.headers@).contains(("Authorization"@, "Bearer "@ + api_key))
            }
        },
{
    if let CheckoutDispatch::Send(sent) = step {
        law_posts_go_where_they_are_meant(
            sent,
            api_base,
            api_key,
            checkout_path(),
            form_text(checkout_fields(request, price_id)),
            effect_id,
        );
    }
}

/// Only the claim that may dispatch goes on to Stripe; a key that was used for another request is a
/// conflict, and a store that fails is no answer.
pub proof fn law_only_dispatching_checkout_claims_go_on(
    key: Seq<u8>,
    record: EffectRecord,
    error: StoreError,
    step: CheckoutStep,
)
    ensures
        follows_checkout_claim(key, Ok(EffectClaim::Dispatch(record)), step) ==> step == CheckoutStep::LoadSubject(record),
        follows_checkout_claim(key, Ok(EffectClaim::Existing(record)), step) ==> !(step is LoadSubject),
        follows_checkout_claim(key, Ok(EffectClaim::Conflict), step) ==> step == CheckoutStep::Finish(
            Err(CheckoutFlowError::Domain(CreateCheckoutSessionError::IdempotencyConflict)),
        ),
        follows_checkout_claim(key, Err(error), step) ==> (step matches CheckoutStep::Finish(
            Err(CheckoutFlowError::Runtime(failure)),
        ) && failure.detail@ == store_error_text(error)),
{
}

/// A checkout that is let through is at the Stripe Price that its alias is configured for, and its
/// effect is the request's own.
pub proof fn law_checkouts_are_at_the_configured_price(
    config: StripeSubscriptionConfig,
    caller: Seq<char>,
    request: CreateCheckoutSessionRequest,
    start: Result<CheckoutStart, CheckoutFlowError>,
    k: int,
)
    requires
        begins_checkout(config, Some(caller), request, start),
        0 <= k < config.prices@.len(),
        config.prices@[k].alias@ == request.price_alias@,
        forall|j: int| 0 <= j < k ==> (#[trigger] config.prices@[j]).alias@ != request.price_alias@,
    ensures
        start is Ok == checkout_refusal(config, Some(caller), request) is None,
        start is Ok ==> start->Ok_0.price_id@ == config.prices@[k].price_id@,
        start is Ok ==> is_checkout_effect(start->Ok_0.effect, caller, request),
        start is Err ==> start->Err_0 == CheckoutFlowError::Domain(
            checkout_refusal(config, Some(caller), request)->0,
        ),
{
    law_first_alias_is_found(config.prices@, k);
}

/// A receipt that cannot be opened or decoded is told as it is, and never answered with success.
pub proof fn law_checkout_receipt_failures_are_told(
    key: Seq<u8>,
    record: EffectRecord,
    detail: String,
    step: CheckoutStep,
)
    ensures
        replays_checkout(key, record, step) && record.status == EffectStatus::Accepted
            && record_opening(key, record) is Err ==> (step matches CheckoutStep::Finish(
            Err(CheckoutFlowError::Runtime(failure)),
        ) && failure.detail@ == record_opening(key, record)->Err_0),
        replayed_checkout(record, Err(detail)) matches Err(CheckoutFlowError::Runtime(failure))
            && failure.detail@ == detail@,
{
}

/// A checkout for which no request can be written is none that was sent, and a store that fails is
/// told as it is; neither reaches Stripe.
pub proof fn law_unsent_checkouts_are_told(
    api_base: Seq<char>,
    api_key: Seq<char>,
    request: CreateCheckoutSessionRequest,
    price_id: Seq<char>,
    effect_id: Seq<char>,
    subject: Option<BillingSubject>,
    error: StoreError,
    step: CheckoutDispatch,
)
    ensures
        dispatches_checkout(api_base, api_key, request, price_id, effect_id, Ok(subject), step)
            && joined_url(api_base, "v1/checkout/sessions"@) is None && (subject is None || (
        subject->0.subscription_status@ != "active"@ && subject->0.subscription_status@
            != "trialing"@)) ==> step == CheckoutDispatch::Unjoinable,
        dispatches_checkout(api_base, api_key, request, price_id, effect_id, Err(error), step) ==> (
        step matches CheckoutDispatch::Finish(CheckoutFlowError::Runtime(failure))
            && failure.detail@ == store_error_text(error)),
{
}

} // verus!
