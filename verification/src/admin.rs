//! Ingesting webhooks, and inspecting and settling effects, step by step. Between two steps the
//! caller of these functions performs what the last one asked for.

use vstd::prelude::*;
use vstd::utf8::encode_utf8;

use crate::clock::{parse_rfc3339, rfc3339_instant, Instant};
use crate::config::{
    is_name, is_stripe_id, law_alias_lookup_is_exact, law_lists_are_exact, listed, price_with_alias,
    valid_name, valid_stripe_id, StripeSubscriptionConfig,
};
use crate::contract::{
    failure, store_failure, AdminFlowError, IngestWebhookError, IngestWebhookRequest,
    IngestWebhookResponse, IngestWebhookResponseOutcome, InspectEffectError, InspectEffectRequest,
    InspectEffectResponse, InspectEffectResponseOperation, InspectEffectResponseStatus,
    ResolveUnknownEffectError, ResolveUnknownEffectRequest, ResolveUnknownEffectRequestResolution,
    ResolveUnknownEffectResponse, ResolveUnknownEffectResponseStatus, RuntimeFailure,
};
use crate::crypto::{opened_bytes, random_bytes, sha256, sha256_digest};
use crate::effects::{
    effect_step, settles, EffectChange, EffectOperation, EffectRecord, EffectRow, EffectStatus,
    ManualResolution,
};
use crate::receipt::{
    decrypt_receipt, opening, record_opening, seal_error, EffectReceipt, ReceiptCipher,
};
use crate::receipts::{
    delivery_step_of, is_receipt, webhook_row, DeliveryStep, WebhookRecordOutcome, WebhookRow,
};
use crate::request::{is_effect_id, is_subject, valid_effect_id, valid_subject_request};
use crate::store::{store_error_text, StoreError};
use crate::stripe::{is_session_url, session_prefix, valid_session_id, valid_session_url};
use crate::text::{clone_text, opt_str, opt_text, same, same_option};
use crate::web::parsed_url;
use crate::webhook::{
    delivery_outcome, verify_and_parse, ReconciliationTarget, VerifiedEvent, WebhookError,
};

verus! {

/// Whether a caller is let deliver webhooks, or refused.
pub open spec fn begins_ingest(
    config: StripeSubscriptionConfig,
    caller: Option<Seq<char>>,
    begun: Result<(), AdminFlowError>,
) -> bool {
    if listed(config@.webhook_instances, caller) {
        begun is Ok
    } else {
        begun == Err::<(), AdminFlowError>(AdminFlowError::Webhook(IngestWebhookError::Forbidden))
    }
}

/// Checks that a caller may deliver webhooks.
pub fn begin_ingest(config: &StripeSubscriptionConfig, caller: Option<&str>) -> (r: Result<
    (),
    AdminFlowError,
>)
    ensures
        begins_ingest(*config, opt_str(caller), r),
{
    if !config.webhook_allowed(caller) {
        return Err(AdminFlowError::Webhook(IngestWebhookError::Forbidden));
    }
    Ok(())
}

/// What a refused delivery is answered. A delivery of the wrong mode is told no more than that its
/// signature is not accepted here.
pub open spec fn webhook_refusal(error: WebhookError) -> IngestWebhookError {
    match error {
        WebhookError::BodyTooLarge => IngestWebhookError::BodyTooLarge,
        WebhookError::InvalidSignature => IngestWebhookError::InvalidSignature,
        WebhookError::ModeMismatch => IngestWebhookError::InvalidSignature,
        WebhookError::StaleSignature => IngestWebhookError::StaleSignature,
        WebhookError::InvalidEvent => IngestWebhookError::InvalidEvent,
    }
}

/// Finds what a refused delivery is answered.
pub fn webhook_domain(error: WebhookError) -> (r: IngestWebhookError)
    ensures
        r == webhook_refusal(error),
{
    match error {
        WebhookError::BodyTooLarge => IngestWebhookError::BodyTooLarge,
        WebhookError::InvalidSignature | WebhookError::ModeMismatch => {
            IngestWebhookError::InvalidSignature
        },
        WebhookError::StaleSignature => IngestWebhookError::StaleSignature,
        WebhookError::InvalidEvent => IngestWebhookError::InvalidEvent,
    }
}

/// Whether a target can be reconciled: known kinds of identifiers, and for a checkout a subject
/// and a configured price.
pub open spec fn is_target(config: StripeSubscriptionConfig, target: ReconciliationTarget) -> bool {
    &&& is_stripe_id(target.subscription_id@, "sub_"@)
    &&& is_stripe_id(target.customer_id@, "cus_"@)
    &&& target.checkout_subject is Some ==> {
        let subject = target.checkout_subject->0;
        is_subject(subject.scope_kind@, subject.scope_id@, subject.subject@) && price_with_alias(
            config.prices@,
            subject.price_alias@,
        ) is Some
    }
}

fn valid_target(config: &StripeSubscriptionConfig, target: &ReconciliationTarget) -> (r: bool)
    ensures
        r == is_target(*config, *target),
{
    let subject_valid = match &target.checkout_subject {
        Some(subject) => valid_subject_request(
            subject.scope_kind.as_str(),
            subject.scope_id.as_str(),
            subject.subject.as_str(),
        ) && config.price(subject.price_alias.as_str()).is_some(),
        None => true,
    };
    valid_stripe_id(target.subscription_id.as_str(), "sub_") && valid_stripe_id(
        target.customer_id.as_str(),
        "cus_",
    ) && subject_valid
}

/// What a delivery with this outcome is accepted as.
pub open spec fn accepted_event(
    config: StripeSubscriptionConfig,
    outcome: Result<VerifiedEvent, WebhookError>,
) -> Result<VerifiedEvent, IngestWebhookError> {
    match outcome {
        Err(error) => Err(webhook_refusal(error)),
        Ok(event) => if event.target is Some && !is_target(config, event.target->0) {
            Err(IngestWebhookError::InvalidEvent)
        } else {
            Ok(event)
        },
    }
}

/// Decides whether a delivery with this outcome is accepted.
pub fn accept_event(
    config: &StripeSubscriptionConfig,
    outcome: Result<VerifiedEvent, WebhookError>,
) -> (r: Result<VerifiedEvent, IngestWebhookError>)
    ensures
        r == accepted_event(*config, outcome),
{
    let event = match outcome {
        Ok(event) => event,
        Err(error) => return Err(webhook_domain(error)),
    };
    if let Some(target) = &event.target {
        if !valid_target(config, target) {
            return Err(IngestWebhookError::InvalidEvent);
        }
    }
    Ok(event)
}

/// An accepted delivery: the event, and its receipt to be recorded.
pub struct IngestStart {
    pub event: VerifiedEvent,
    pub row: WebhookRow,
}

/// Whether this is an accepted delivery with its receipt, or why it was not accepted.
pub open spec fn ingests(
    config: StripeSubscriptionConfig,
    signing_secret: Seq<u8>,
    request: IngestWebhookRequest,
    now: Instant,
    start: Result<IngestStart, AdminFlowError>,
) -> bool {
    match accepted_event(
        config,
        delivery_outcome(
            signing_secret,
            request.raw_body@,
            request.signature_header@,
            now,
            config.signature_tolerance_seconds,
            config.max_webhook_body_bytes,
            config.livemode,
        ),
    ) {
        Err(error) => start == Err::<IngestStart, AdminFlowError>(AdminFlowError::Webhook(error)),
        Ok(event) => start is Ok && start->Ok_0.event == event && is_receipt(
            start->Ok_0.row,
            event,
            sha256_digest(encode_utf8(request.raw_body@)),
        ),
    }
}

/// Verifies a delivery and makes its receipt.
pub fn ingest_delivery(
    config: &StripeSubscriptionConfig,
    signing_secret: &[u8],
    request: &IngestWebhookRequest,
    now: Instant,
) -> (r: Result<IngestStart, AdminFlowError>)
    ensures
        ingests(*config, signing_secret@, *request, now, r),
{
    let outcome = verify_and_parse(
        signing_secret,
        request.raw_body.as_str(),
        request.signature_header.as_str(),
        now,
        config.signature_tolerance_seconds(),
        config.max_webhook_body_bytes(),
        config.livemode(),
    );
    let event = match accept_event(config, outcome) {
        Ok(event) => event,
        Err(error) => return Err(AdminFlowError::Webhook(error)),
    };
    let row = webhook_row(&event, sha256(request.raw_body.as_str().as_bytes()));
    Ok(IngestStart { event, row })
}

/// The outcome that a recorded delivery is answered with.
pub open spec fn ingest_outcome(outcome: WebhookRecordOutcome, targeted: bool) -> IngestWebhookResponseOutcome {
    if outcome == WebhookRecordOutcome::Duplicate {
        IngestWebhookResponseOutcome::Duplicate
    } else if targeted {
        IngestWebhookResponseOutcome::Accepted
    } else {
        IngestWebhookResponseOutcome::Ignored
    }
}

/// The answer to a recorded delivery.
pub open spec fn ingested(event: VerifiedEvent, outcome: WebhookRecordOutcome) -> IngestWebhookResponse {
    IngestWebhookResponse {
        event_id: event.event_id,
        event_type: event.event_type,
        outcome: ingest_outcome(outcome, event.target is Some),
        reconciliation_enqueued: outcome == WebhookRecordOutcome::Created && event.target is Some,
    }
}

/// Whether this answers a delivery that was recorded, or could not be.
pub open spec fn answers_ingest(
    event: VerifiedEvent,
    recorded: Result<WebhookRecordOutcome, StoreError>,
    answer: Result<IngestWebhookResponse, AdminFlowError>,
) -> bool {
    match recorded {
        Err(error) => answer matches Err(AdminFlowError::Runtime(failure)) && failure.detail@
            == store_error_text(error),
        Ok(outcome) => answer == Ok::<IngestWebhookResponse, AdminFlowError>(
            ingested(event, outcome),
        ),
    }
}

/// Answers a delivery once it was recorded, or could not be.
pub fn ingest_response(
    event: VerifiedEvent,
    recorded: Result<WebhookRecordOutcome, StoreError>,
) -> (r: Result<IngestWebhookResponse, AdminFlowError>)
    ensures
        answers_ingest(event, recorded, r),
{
    let outcome = match recorded {
        Ok(outcome) => outcome,
        Err(error) => return Err(AdminFlowError::Runtime(store_failure(&error))),
    };
    let targeted = event.target.is_some();
    let answer = if outcome == WebhookRecordOutcome::Duplicate {
        IngestWebhookResponseOutcome::Duplicate
    } else if targeted {
        IngestWebhookResponseOutcome::Accepted
    } else {
        IngestWebhookResponseOutcome::Ignored
    };
    Ok(
        IngestWebhookResponse {
            event_id: event.event_id,
            event_type: event.event_type,
            outcome: answer,
            reconciliation_enqueued: outcome == WebhookRecordOutcome::Created && targeted,
        },
    )
}

/// Whether a request to look at an effect is let through, or refused.
pub open spec fn begins_inspect(
    config: StripeSubscriptionConfig,
    caller: Option<Seq<char>>,
    request: InspectEffectRequest,
    begun: Result<(), AdminFlowError>,
) -> bool {
    if !listed(config@.operator_instances, caller) {
        begun == Err::<(), AdminFlowError>(AdminFlowError::Inspect(InspectEffectError::Forbidden))
    } else if !is_effect_id(request.effect_id@) {
        begun == Err::<(), AdminFlowError>(
            AdminFlowError::Inspect(InspectEffectError::InvalidEffect),
        )
    } else {
        begun is Ok
    }
}

/// Checks a request to look at an effect.
pub fn begin_inspect(
    config: &StripeSubscriptionConfig,
    caller: Option<&str>,
    request: &InspectEffectRequest,
) -> (r: Result<(), AdminFlowError>)
    ensures
        begins_inspect(*config, opt_str(caller), *request, r),
{
    if !config.operator_allowed(caller) {
        return Err(AdminFlowError::Inspect(InspectEffectError::Forbidden));
    }
    if !valid_effect_id(request.effect_id.as_str()) {
        return Err(AdminFlowError::Inspect(InspectEffectError::InvalidEffect));
    }
    Ok(())
}

/// The shown form of an operation.
pub open spec fn shown_operation(operation: EffectOperation) -> InspectEffectResponseOperation {
    match operation {
        EffectOperation::Checkout => InspectEffectResponseOperation::Checkout,
        EffectOperation::Portal => InspectEffectResponseOperation::Portal,
    }
}

/// The shown form of a status.
pub open spec fn shown_status(status: EffectStatus) -> InspectEffectResponseStatus {
    match status {
        EffectStatus::Prepared => InspectEffectResponseStatus::Prepared,
        EffectStatus::InFlight => InspectEffectResponseStatus::InFlight,
        EffectStatus::Accepted => InspectEffectResponseStatus::Accepted,
        EffectStatus::KnownFailure => InspectEffectResponseStatus::KnownFailure,
        EffectStatus::EffectUnknown => InspectEffectResponseStatus::EffectUnknown,
    }
}

/// What is shown of an effect, with its receipt where it has one.
pub open spec fn shown_effect(record: EffectRecord, receipt: Option<EffectReceipt>) -> InspectEffectResponse {
    InspectEffectResponse {
        effect_id: record.effect_id,
        expires_at: match receipt {
            Some(receipt) => receipt.expires_at,
            None => None,
        },
        failure_code: record.failure_code,
        operation: shown_operation(record.operation),
        status: shown_status(record.status),
        stripe_object_id: record.stripe_object_id,
        url: match receipt {
            Some(receipt) => Some(receipt.url),
            None => None,
        },
    }
}

fn inspect_response(record: EffectRecord, receipt: Option<EffectReceipt>) -> (r: InspectEffectResponse)
    ensures
        r == shown_effect(record, receipt),
{
    let (expires_at, url) = match receipt {
        Some(receipt) => (receipt.expires_at, Some(receipt.url)),
        None => (None, None),
    };
    InspectEffectResponse {
        effect_id: record.effect_id,
        expires_at,
        failure_code: record.failure_code,
        operation: match record.operation {
            EffectOperation::Checkout => InspectEffectResponseOperation::Checkout,
            EffectOperation::Portal => InspectEffectResponseOperation::Portal,
        },
        status: match record.status {
            EffectStatus::Prepared => InspectEffectResponseStatus::Prepared,
            EffectStatus::InFlight => InspectEffectResponseStatus::InFlight,
            EffectStatus::Accepted => InspectEffectResponseStatus::Accepted,
            EffectStatus::KnownFailure => InspectEffectResponseStatus::KnownFailure,
            EffectStatus::EffectUnknown => InspectEffectResponseStatus::EffectUnknown,
        },
        stripe_object_id: record.stripe_object_id,
        url,
    }
}

/// What a loaded effect needs to be shown.
pub enum InspectStep {
    /// Decode this receipt, then answer with [`inspect_decoded`].
    DecodeReceipt { record: EffectRecord, plaintext: Vec<u8> },
    /// Answer.
    Finish(Result<InspectEffectResponse, AdminFlowError>),
}

/// Whether a step is what a loaded effect needs to be shown.
pub open spec fn shows_loaded(
    key: Seq<u8>,
    loaded: Result<Option<EffectRecord>, StoreError>,
    step: InspectStep,
) -> bool {
    match loaded {
        Err(error) => step matches InspectStep::Finish(Err(AdminFlowError::Runtime(failure)))
            && failure.detail@ == store_error_text(error),
        Ok(None) => step == InspectStep::Finish(
            Err(AdminFlowError::Inspect(InspectEffectError::NotFound)),
        ),
        Ok(Some(record)) => if record.status != EffectStatus::Accepted {
            step == InspectStep::Finish(Ok(shown_effect(record, None)))
        } else {
            match record_opening(key, record) {
                Ok(opened) => step matches InspectStep::DecodeReceipt {
                    record: same_record,
                    plaintext,
                } && same_record == record && plaintext@ == opened,
                Err(message) => step matches InspectStep::Finish(
                    Err(AdminFlowError::Runtime(failure)),
                ) && failure.detail@ == message,
            }
        },
    }
}

/// Decides what a loaded effect needs to be shown: an accepted one its receipt, any other nothing.
pub fn inspect_loaded(
    cipher: &ReceiptCipher,
    loaded: Result<Option<EffectRecord>, StoreError>,
) -> (r: InspectStep)
    ensures
        shows_loaded(cipher.key(), loaded, r),
{
    let record = match loaded {
        Err(error) => return InspectStep::Finish(
            Err(AdminFlowError::Runtime(store_failure(&error))),
        ),
        Ok(None) => return InspectStep::Finish(
            Err(AdminFlowError::Inspect(InspectEffectError::NotFound)),
        ),
        Ok(Some(record)) => record,
    };
    if record.status != EffectStatus::Accepted {
        return InspectStep::Finish(Ok(inspect_response(record, None)));
    }
    match decrypt_receipt(cipher, &record) {
        Ok(plaintext) => InspectStep::DecodeReceipt { record, plaintext },
        Err(failure) => InspectStep::Finish(Err(AdminFlowError::Runtime(failure))),
    }
}

/// The shown form of an accepted effect with a receipt that was decoded, or what kept it from being.
pub open spec fn inspected(record: EffectRecord, receipt: Result<EffectReceipt, String>) -> Result<
    InspectEffectResponse,
    AdminFlowError,
> {
    match receipt {
        Ok(receipt) => Ok(shown_effect(record, Some(receipt))),
        Err(detail) => Err(AdminFlowError::Runtime(RuntimeFailure { detail })),
    }
}

/// Shows an accepted effect with a receipt that was decoded, or answers with what kept it from
/// being.
pub fn inspect_decoded(record: EffectRecord, receipt: Result<EffectReceipt, String>) -> (r: Result<
    InspectEffectResponse,
    AdminFlowError,
>)
    ensures
        r == inspected(record, receipt),
{
    match receipt {
        Ok(receipt) => Ok(inspect_response(record, Some(receipt))),
        Err(detail) => Err(AdminFlowError::Runtime(failure(detail))),
    }
}

/// Whether a request to settle an effect is let through, or refused.
pub open spec fn begins_resolve(
    config: StripeSubscriptionConfig,
    caller: Option<Seq<char>>,
    request: ResolveUnknownEffectRequest,
    begun: Result<(), AdminFlowError>,
) -> bool {
    if !listed(config@.operator_instances, caller) {
        begun == Err::<(), AdminFlowError>(
            AdminFlowError::Resolve(ResolveUnknownEffectError::Forbidden),
        )
    } else if !is_effect_id(request.effect_id@) {
        begun == Err::<(), AdminFlowError>(
            AdminFlowError::Resolve(ResolveUnknownEffectError::InvalidResolution),
        )
    } else {
        begun is Ok
    }
}

/// Checks a request to settle an effect.
pub fn begin_resolve(
    config: &StripeSubscriptionConfig,
    caller: Option<&str>,
    request: &ResolveUnknownEffectRequest,
) -> (r: Result<(), AdminFlowError>)
    ensures
        begins_resolve(*config, opt_str(caller), *request, r),
{
    if !config.operator_allowed(caller) {
        return Err(AdminFlowError::Resolve(ResolveUnknownEffectError::Forbidden));
    }
    if !valid_effect_id(request.effect_id.as_str()) {
        return Err(AdminFlowError::Resolve(ResolveUnknownEffectError::InvalidResolution));
    }
    Ok(())
}

/// Whether this is a loaded effect that is to be settled, or why there is none.
pub open spec fn takes_effect(
    loaded: Result<Option<EffectRecord>, StoreError>,
    taken: Result<EffectRecord, AdminFlowError>,
) -> bool {
    match loaded {
        Err(error) => taken matches Err(AdminFlowError::Runtime(failure)) && failure.detail@
            == store_error_text(error),
        Ok(None) => taken == Err::<EffectRecord, AdminFlowError>(
            AdminFlowError::Resolve(ResolveUnknownEffectError::NotFound),
        ),
        Ok(Some(record)) => taken == Ok::<EffectRecord, AdminFlowError>(record),
    }
}

/// Takes a loaded effect that is to be settled.
pub fn resolve_loaded(loaded: Result<Option<EffectRecord>, StoreError>) -> (r: Result<
    EffectRecord,
    AdminFlowError,
>)
    ensures
        takes_effect(loaded, r),
{
    match loaded {
        Err(error) => Err(AdminFlowError::Runtime(store_failure(&error))),
        Ok(None) => Err(AdminFlowError::Resolve(ResolveUnknownEffectError::NotFound)),
        Ok(Some(record)) => Ok(record),
    }
}

/// What an operator found of an effect.
pub enum Finding {
    /// Stripe accepted it: its object, and the receipt.
    Accepted { stripe_object_id: String, receipt: EffectReceipt },
    /// It failed, with this code.
    KnownFailure { failure_code: String },
}

/// Whether a request settles an effect of this operation as accepted: an object and a URL of the
/// operation, no failure code, and a written expiry if any.
pub open spec fn finds_accepted(operation: EffectOperation, request: ResolveUnknownEffectRequest) -> bool {
    &&& request.stripe_object_id is Some && is_stripe_id(
        request.stripe_object_id->0@,
        session_prefix(operation),
    )
    &&& request.url is Some && is_session_url(request.url->0@, operation)
    &&& request.failure_code is None
    &&& request.expires_at is Some ==> rfc3339_instant(request.expires_at->0@) is Some
}

/// Whether a request settles an effect as failed: a code, and nothing of a session.
pub open spec fn finds_failure(request: ResolveUnknownEffectRequest) -> bool {
    &&& request.failure_code is Some && is_name(request.failure_code->0@)
    &&& request.stripe_object_id is None
    &&& request.url is None
    &&& request.expires_at is None
}

/// What a request finds of an effect of this operation; `None` where it is no valid finding.
pub open spec fn finding_of(operation: EffectOperation, request: ResolveUnknownEffectRequest) -> Option<
    Finding,
> {
    match request.resolution {
        ResolveUnknownEffectRequestResolution::Accepted => if finds_accepted(operation, request) {
            Some(
                Finding::Accepted {
                    stripe_object_id: request.stripe_object_id->0,
                    receipt: EffectReceipt {
                        url: request.url->0,
                        expires_at: request.expires_at,
                    },
                },
            )
        } else {
            None
        },
        ResolveUnknownEffectRequestResolution::KnownFailure => if finds_failure(request) {
            Some(Finding::KnownFailure { failure_code: request.failure_code->0 })
        } else {
            None
        },
    }
}

/// Reads what a request finds of an effect.
pub fn validate_resolution(record: &EffectRecord, request: &ResolveUnknownEffectRequest) -> (r: Result<
    Finding,
    ResolveUnknownEffectError,
>)
    ensures
        match finding_of(record.operation, *request) {
            Some(finding) => r == Ok::<Finding, ResolveUnknownEffectError>(finding),
            None => r == Err::<Finding, ResolveUnknownEffectError>(
                ResolveUnknownEffectError::InvalidResolution,
            ),
        },
{
    match request.resolution {
        ResolveUnknownEffectRequestResolution::Accepted => {
            let (object_id, url) = match (&request.stripe_object_id, &request.url) {
                (Some(object_id), Some(url)) => (object_id, url),
                _ => return Err(ResolveUnknownEffectError::InvalidResolution),
            };
            let expiry_valid = match &request.expires_at {
                Some(expires_at) => parse_rfc3339(expires_at.as_str()).is_some(),
                None => true,
            };
            if !valid_session_id(object_id.as_str(), record.operation) || !valid_session_url(
                url.as_str(),
                record.operation,
            ) || request.failure_code.is_some() || !expiry_valid {
                return Err(ResolveUnknownEffectError::InvalidResolution);
            }
            Ok(
                Finding::Accepted {
                    stripe_object_id: object_id.clone(),
                    receipt: EffectReceipt {
                        url: url.clone(),
                        expires_at: clone_text(&request.expires_at),
                    },
                },
            )
        },
        ResolveUnknownEffectRequestResolution::KnownFailure => {
            let code = match &request.failure_code {
                Some(code) => code,
                None => return Err(ResolveUnknownEffectError::InvalidResolution),
            };
            if !valid_name(code.as_str()) || request.stripe_object_id.is_some()
                || request.url.is_some() || request.expires_at.is_some() {
                return Err(ResolveUnknownEffectError::InvalidResolution);
            }
            Ok(Finding::KnownFailure { failure_code: code.clone() })
        },
    }
}

/// Whether this is the resolution of an effect that Stripe accepted, with the receipt's encoded form
/// sealed under a nonce, if there are both.
pub open spec fn resolves_accepted(
    key: Seq<u8>,
    effect_id: Seq<char>,
    stripe_object_id: String,
    encoded: Result<Vec<u8>, String>,
    nonce: Result<Vec<u8>, String>,
    resolution: Result<ManualResolution, ResolveUnknownEffectError>,
) -> bool {
    if encoded is Ok && nonce is Ok && seal_error(
        key,
        encoded->Ok_0@,
        encode_utf8(effect_id),
    ) is None {
        &&& resolution is Ok
        &&& resolution->Ok_0.target_status == EffectStatus::Accepted
        &&& resolution->Ok_0.stripe_object_id == Some(stripe_object_id)
        &&& resolution->Ok_0.nonce == Some(nonce->Ok_0)
        &&& resolution->Ok_0.ciphertext is Some
        &&& resolution->Ok_0.failure_code is None
        &&& opening(
            key,
            nonce->Ok_0@,
            resolution->Ok_0.ciphertext->0@,
            encode_utf8(effect_id),
        ) == Ok::<Seq<u8>, Seq<char>>(encoded->Ok_0@)
        &&& settles(resolution->Ok_0)
    } else {
        resolution == Err::<ManualResolution, ResolveUnknownEffectError>(
            ResolveUnknownEffectError::InvalidResolution,
        )
    }
}

/// Makes the resolution of an effect that Stripe accepted: its object, and the receipt's encoded
/// form sealed under a nonce, if there are both.
pub fn accept_resolution_with_nonce(
    cipher: &ReceiptCipher,
    effect_id: &str,
    stripe_object_id: String,
    encoded: Result<Vec<u8>, String>,
    nonce: Result<Vec<u8>, String>,
) -> (r: Result<ManualResolution, ResolveUnknownEffectError>)
    requires
        nonce is Ok ==> nonce->Ok_0@.len() == 12,
    ensures
        resolves_accepted(cipher.key(), effect_id@, stripe_object_id, encoded, nonce, r),
{
    let plaintext = match encoded {
        Ok(plaintext) => plaintext,
        Err(_) => return Err(ResolveUnknownEffectError::InvalidResolution),
    };
    match cipher.seal(nonce, plaintext.as_slice(), effect_id.as_bytes()) {
        Ok(sealed) => Ok(
            ManualResolution {
                target_status: EffectStatus::Accepted,
                stripe_object_id: Some(stripe_object_id),
                nonce: Some(sealed.nonce),
                ciphertext: Some(sealed.ciphertext),
                failure_code: None,
            },
        ),
        Err(_) => Err(ResolveUnknownEffectError::InvalidResolution),
    }
}

/// Makes the resolution of an effect that Stripe accepted, with its receipt sealed under a random
/// nonce. It fails where the random source does.
pub fn accept_resolution(
    cipher: &ReceiptCipher,
    effect_id: &str,
    stripe_object_id: String,
    encoded: Result<Vec<u8>, String>,
) -> (r: Result<ManualResolution, ResolveUnknownEffectError>)
    ensures
        encoded is Err || seal_error(cipher.key(), encoded->Ok_0@, encode_utf8(effect_id@)) is Some
            ==> r is Err,
        r is Err ==> r->Err_0 == ResolveUnknownEffectError::InvalidResolution,
        r is Ok ==> {
            &&& r->Ok_0.target_status == EffectStatus::Accepted
            &&& r->Ok_0.stripe_object_id == Some(stripe_object_id)
            &&& settles(r->Ok_0)
            &&& opening(
                cipher.key(),
                r->Ok_0.nonce->0@,
                r->Ok_0.ciphertext->0@,
                encode_utf8(effect_id@),
            ) == Ok::<Seq<u8>, Seq<char>>(encoded->Ok_0@)
        },
{
    accept_resolution_with_nonce(cipher, effect_id, stripe_object_id, encoded, random_bytes(12))
}

/// The resolution of an effect that failed.
pub open spec fn failed_resolution(failure_code: String) -> ManualResolution {
    ManualResolution {
        target_status: EffectStatus::KnownFailure,
        stripe_object_id: None,
        nonce: None,
        ciphertext: None,
        failure_code: Some(failure_code),
    }
}

/// Makes the resolution of an effect that failed.
pub fn fail_resolution(failure_code: String) -> (r: ManualResolution)
    ensures
        r == failed_resolution(failure_code),
        settles(r),
{
    ManualResolution {
        target_status: EffectStatus::KnownFailure,
        stripe_object_id: None,
        nonce: None,
        ciphertext: None,
        failure_code: Some(failure_code),
    }
}

/// The shown status of a settled effect.
pub open spec fn settled_status(resolution: ResolveUnknownEffectRequestResolution) -> ResolveUnknownEffectResponseStatus {
    match resolution {
        ResolveUnknownEffectRequestResolution::Accepted => {
            ResolveUnknownEffectResponseStatus::Accepted
        },
        ResolveUnknownEffectRequestResolution::KnownFailure => {
            ResolveUnknownEffectResponseStatus::KnownFailure
        },
    }
}

fn show_settled(resolution: ResolveUnknownEffectRequestResolution) -> (r:
    ResolveUnknownEffectResponseStatus)
    ensures
        r == settled_status(resolution),
{
    match resolution {
        ResolveUnknownEffectRequestResolution::Accepted => {
            ResolveUnknownEffectResponseStatus::Accepted
        },
        ResolveUnknownEffectRequestResolution::KnownFailure => {
            ResolveUnknownEffectResponseStatus::KnownFailure
        },
    }
}

/// The answer of a resolution that changed something, or repeated what stands.
pub open spec fn resolved(request: ResolveUnknownEffectRequest, changed: bool) -> ResolveUnknownEffectResponse {
    ResolveUnknownEffectResponse {
        changed,
        effect_id: request.effect_id,
        status: settled_status(request.resolution),
    }
}

/// What a resolution needs next.
pub enum ResolveStep {
    /// Apply this change to the effect's row, then answer with [`resolve_changed`].
    Apply(EffectChange),
    /// Decode this receipt, then answer with [`resolve_decoded`].
    DecodeReceipt { record: EffectRecord, plaintext: Vec<u8> },
    /// Answer.
    Finish(Result<ResolveUnknownEffectResponse, AdminFlowError>),
}

/// Whether a step is the right one for a resolution of a recorded effect: an effect of unknown
/// outcome is settled, a settled one is compared with what is asked for, and any other is refused.
pub open spec fn resolves(
    key: Seq<u8>,
    record: EffectRecord,
    request: ResolveUnknownEffectRequest,
    resolution: ManualResolution,
    step: ResolveStep,
) -> bool {
    let invalid = ResolveStep::Finish(
        Err(AdminFlowError::Resolve(ResolveUnknownEffectError::InvalidResolution)),
    );
    if record.status == resolution.target_status {
        match record.status {
            EffectStatus::Accepted => match record_opening(key, record) {
                Ok(opened) => step matches ResolveStep::DecodeReceipt {
                    record: same_record,
                    plaintext,
                } && same_record == record && plaintext@ == opened,
                Err(_) => step == invalid,
            },
            EffectStatus::KnownFailure => if opt_text(record.failure_code) == opt_text(
                request.failure_code,
            ) {
                step == ResolveStep::Finish(Ok(resolved(request, false)))
            } else {
                step == invalid
            },
            _ => step == invalid,
        }
    } else if record.status != EffectStatus::EffectUnknown {
        step == ResolveStep::Finish(
            Err(AdminFlowError::Resolve(ResolveUnknownEffectError::NotUnknown)),
        )
    } else {
        step == ResolveStep::Apply(EffectChange::Resolve(resolution))
    }
}

fn resolve_response(request: &ResolveUnknownEffectRequest, changed: bool) -> (r:
    ResolveUnknownEffectResponse)
    ensures
        r == resolved(*request, changed),
{
    ResolveUnknownEffectResponse {
        changed,
        effect_id: request.effect_id.clone(),
        status: show_settled(request.resolution),
    }
}

/// Decides what a resolution of a recorded effect needs.
pub fn resolve_decided(
    cipher: &ReceiptCipher,
    record: EffectRecord,
    request: &ResolveUnknownEffectRequest,
    resolution: ManualResolution,
) -> (r: ResolveStep)
    ensures
        resolves(cipher.key(), record, *request, resolution, r),
{
    if record.status == resolution.target_status {
        if record.status == EffectStatus::Accepted {
            return match decrypt_receipt(cipher, &record) {
                Ok(plaintext) => ResolveStep::DecodeReceipt { record, plaintext },
                Err(_) => ResolveStep::Finish(
                    Err(AdminFlowError::Resolve(ResolveUnknownEffectError::InvalidResolution)),
                ),
            };
        }
        if record.status == EffectStatus::KnownFailure && same_option(
            &record.failure_code,
            &request.failure_code,
        ) {
            return ResolveStep::Finish(Ok(resolve_response(request, false)));
        }
        return ResolveStep::Finish(
            Err(AdminFlowError::Resolve(ResolveUnknownEffectError::InvalidResolution)),
        );
    }
    if record.status != EffectStatus::EffectUnknown {
        return ResolveStep::Finish(
            Err(AdminFlowError::Resolve(ResolveUnknownEffectError::NotUnknown)),
        );
    }
    ResolveStep::Apply(EffectChange::Resolve(resolution))
}

/// Whether an accepted effect is what a request says of it.
pub open spec fn repeats(
    record: EffectRecord,
    receipt: EffectReceipt,
    request: ResolveUnknownEffectRequest,
) -> bool {
    &&& opt_text(record.stripe_object_id) == opt_text(request.stripe_object_id)
    &&& receipt.url@ == match request.url {
        Some(url) => url@,
        None => Seq::empty(),
    }
    &&& opt_text(receipt.expires_at) == opt_text(request.expires_at)
}

/// The answer to a resolution that repeats an accepted effect, or contradicts it.
pub open spec fn repeated(
    record: EffectRecord,
    request: ResolveUnknownEffectRequest,
    receipt: Result<EffectReceipt, String>,
) -> Result<ResolveUnknownEffectResponse, AdminFlowError> {
    if receipt is Ok && repeats(record, receipt->Ok_0, request) {
        Ok(resolved(request, false))
    } else {
        Err(AdminFlowError::Resolve(ResolveUnknownEffectError::InvalidResolution))
    }
}

/// Answers a resolution that repeats an accepted effect, or contradicts it.
pub fn resolve_decoded(
    record: &EffectRecord,
    request: &ResolveUnknownEffectRequest,
    receipt: Result<EffectReceipt, String>,
) -> (r: Result<ResolveUnknownEffectResponse, AdminFlowError>)
    ensures
        r == repeated(*record, *request, receipt),
{
    let receipt = match receipt {
        Ok(receipt) => receipt,
        Err(_) => return Err(
            AdminFlowError::Resolve(ResolveUnknownEffectError::InvalidResolution),
        ),
    };
    let same_url = match &request.url {
        Some(url) => same(receipt.url.as_str(), url.as_str()),
        None => receipt.url.as_str().is_empty(),
    };
    assert(receipt.url@.len() == 0 ==> receipt.url@ == Seq::<char>::empty());
    if same_option(&record.stripe_object_id, &request.stripe_object_id) && same_url && same_option(
        &receipt.expires_at,
        &request.expires_at,
    ) {
        Ok(resolve_response(request, false))
    } else {
        Err(AdminFlowError::Resolve(ResolveUnknownEffectError::InvalidResolution))
    }
}

/// Whether this answers an effect that was settled, or where another resolution came first, or the
/// store failed.
pub open spec fn answers_resolve(
    request: ResolveUnknownEffectRequest,
    changed: Result<bool, StoreError>,
    answer: Result<ResolveUnknownEffectResponse, AdminFlowError>,
) -> bool {
    match changed {
        Err(error) => answer matches Err(AdminFlowError::Runtime(failure)) && failure.detail@
            == store_error_text(error),
        Ok(false) => answer == Err::<ResolveUnknownEffectResponse, AdminFlowError>(
            AdminFlowError::Resolve(ResolveUnknownEffectError::NotUnknown),
        ),
        Ok(true) => answer == Ok::<ResolveUnknownEffectResponse, AdminFlowError>(
            resolved(request, true),
        ),
    }
}

/// Answers once an effect was settled, or another resolution came first, or the store failed.
pub fn resolve_changed(
    request: &ResolveUnknownEffectRequest,
    changed: Result<bool, StoreError>,
) -> (r: Result<ResolveUnknownEffectResponse, AdminFlowError>)
    ensures
        answers_resolve(*request, changed, r),
{
    match changed {
        Err(error) => Err(AdminFlowError::Runtime(store_failure(&error))),
        Ok(false) => Err(AdminFlowError::Resolve(ResolveUnknownEffectError::NotUnknown)),
        Ok(true) => Ok(resolve_response(request, true)),
    }
}

/// A resolution changes an effect only where its outcome is not known, and only to an outcome.
pub proof fn law_only_unknown_effects_are_resolved(
    key: Seq<u8>,
    record: EffectRecord,
    request: ResolveUnknownEffectRequest,
    resolution: ManualResolution,
    step: ResolveStep,
)
    requires
        settles(resolution),
        resolves(key, record, request, resolution, step),
    ensures
        step is Apply ==> record.status == EffectStatus::EffectUnknown && step->Apply_0
            == EffectChange::Resolve(resolution),
        record.status == EffectStatus::Prepared || record.status == EffectStatus::InFlight ==> step
            == ResolveStep::Finish(
            Err(AdminFlowError::Resolve(ResolveUnknownEffectError::NotUnknown)),
        ),
{
}

/// Settling an effect as failed, and asking for the same again, changes nothing the second time.
pub proof fn law_failure_resolutions_repeat(
    key: Seq<u8>,
    row: EffectRow,
    request: ResolveUnknownEffectRequest,
    resolution: ManualResolution,
    now: i64,
    step: ResolveStep,
)
    requires
        row.record.status == EffectStatus::EffectUnknown,
        settles(resolution),
        resolution.target_status == EffectStatus::KnownFailure,
        resolution.failure_code == request.failure_code,
        resolves(
            key,
            effect_step(row, EffectChange::Resolve(resolution), now).record,
            request,
            resolution,
            step,
        ),
    ensures
        step == ResolveStep::Finish(Ok(resolved(request, false))),
{
}

/// Settling an effect as accepted, and asking for the same again, finds the receipt that was
/// sealed the first time.
pub proof fn law_acceptance_resolutions_repeat(
    key: Seq<u8>,
    row: EffectRow,
    request: ResolveUnknownEffectRequest,
    resolution: ManualResolution,
    plaintext: Seq<u8>,
    now: i64,
    again: ManualResolution,
    step: ResolveStep,
)
    requires
        row.record.status == EffectStatus::EffectUnknown,
        settles(resolution),
        settles(again),
        resolution.target_status == EffectStatus::Accepted,
        again.target_status == EffectStatus::Accepted,
        opening(
            key,
            resolution.nonce->0@,
            resolution.ciphertext->0@,
            encode_utf8(row.record.effect_id@),
        ) == Ok::<Seq<u8>, Seq<char>>(plaintext),
        resolves(
            key,
            effect_step(row, EffectChange::Resolve(resolution), now).record,
            request,
            again,
            step,
        ),
    ensures
        step is DecodeReceipt,
        step->DecodeReceipt_plaintext@ == plaintext,
        step->DecodeReceipt_record.stripe_object_id == resolution.stripe_object_id,
{
}

/// A duplicate delivery asks for nothing and is answered as one; the first delivery of an event
/// enqueues its reconciliation exactly where it has a target, with its checkout subject linked
/// first where it has one, and the answer says whether it was enqueued.
pub proof fn law_duplicates_enqueue_nothing(event: VerifiedEvent, outcome: WebhookRecordOutcome)
    ensures
        outcome == WebhookRecordOutcome::Duplicate ==> {
            &&& delivery_step_of(outcome, event.target) == DeliveryStep::Nothing
            &&& !ingested(event, outcome).reconciliation_enqueued
            &&& ingested(event, outcome).outcome == IngestWebhookResponseOutcome::Duplicate
        },
        outcome == WebhookRecordOutcome::Created && event.target is Some ==> {
            &&& delivery_step_of(outcome, event.target) == DeliveryStep::Enqueue {
                link: event.target->0.checkout_subject is Some,
            }
            &&& ingested(event, outcome).reconciliation_enqueued
            &&& ingested(event, outcome).outcome == IngestWebhookResponseOutcome::Accepted
        },
        outcome == WebhookRecordOutcome::Created && event.target is None ==> {
            &&& delivery_step_of(outcome, event.target) == DeliveryStep::Nothing
            &&& !ingested(event, outcome).reconciliation_enqueued
            &&& ingested(event, outcome).outcome == IngestWebhookResponseOutcome::Ignored
        },
        ingested(event, outcome).reconciliation_enqueued == (delivery_step_of(
            outcome,
            event.target,
        ) is Enqueue),
{
}

/// Each role does its own work alone: webhooks are delivered by those on the list for webhooks,
/// effects are looked at and settled by those on the list for operators, and only under an
/// identifier that an effect can have.
pub proof fn law_roles_do_their_own_work(
    config: StripeSubscriptionConfig,
    caller: Seq<char>,
    inspect: InspectEffectRequest,
    resolve: ResolveUnknownEffectRequest,
    begun: Result<(), AdminFlowError>,
)
    ensures
        ({
            let webhook = exists|i: int|
                0 <= i < config.webhook_instances@.len() && (
                #[trigger] config.webhook_instances@[i])@ == caller;
            let operator = exists|i: int|
                0 <= i < config.operator_instances@.len() && (
                #[trigger] config.operator_instances@[i])@ == caller;
            &&& begins_ingest(config, Some(caller), begun) ==> begun is Ok == webhook
            &&& begins_ingest(config, Some(caller), begun) && begun is Err ==> begun->Err_0
                == AdminFlowError::Webhook(IngestWebhookError::Forbidden)
            &&& begins_inspect(config, Some(caller), inspect, begun) ==> begun is Ok == (operator
                && is_effect_id(inspect.effect_id@))
            &&& begins_inspect(config, Some(caller), inspect, begun) && begun is Err
                ==> begun->Err_0 == AdminFlowError::Inspect(
                if operator {
                    InspectEffectError::InvalidEffect
                } else {
                    InspectEffectError::Forbidden
                },
            )
            &&& begins_resolve(config, Some(caller), resolve, begun) ==> begun is Ok == (operator
                && is_effect_id(resolve.effect_id@))
            &&& begins_resolve(config, Some(caller), resolve, begun) && begun is Err
                ==> begun->Err_0 == AdminFlowError::Resolve(
                if operator {
                    ResolveUnknownEffectError::InvalidResolution
                } else {
                    ResolveUnknownEffectError::Forbidden
                },
            )
        }),
        begins_ingest(config, None, begun) ==> begun is Err,
        begins_inspect(config, None, inspect, begun) ==> begun is Err,
        begins_resolve(config, None, resolve, begun) ==> begun is Err,
{
    law_lists_are_exact(config.webhook_instances@, caller);
    law_lists_are_exact(config.operator_instances@, caller);
}

/// A refused delivery is told why, except that one of the wrong mode is told no more than one with
/// a wrong signature.
pub proof fn law_refused_deliveries_are_told_why(error: WebhookError)
    ensures
        (webhook_refusal(error) == IngestWebhookError::BodyTooLarge) == (error
            == WebhookError::BodyTooLarge),
        (webhook_refusal(error) == IngestWebhookError::StaleSignature) == (error
            == WebhookError::StaleSignature),
        (webhook_refusal(error) == IngestWebhookError::InvalidEvent) == (error
            == WebhookError::InvalidEvent),
        (webhook_refusal(error) == IngestWebhookError::InvalidSignature) == (error
            == WebhookError::InvalidSignature || error == WebhookError::ModeMismatch),
{
}

/// A verified event is accepted as it is, unless it asks for a reconciliation that cannot be: its
/// identifiers must be those of a subscription and a customer, and a checkout must name a subject
/// and a configured price.
pub proof fn law_only_reconcilable_events_are_accepted(
    config: StripeSubscriptionConfig,
    event: VerifiedEvent,
    error: WebhookError,
)
    ensures
        ({
            let target = event.target->0;
            let subject = target.checkout_subject->0;
            let sound = is_stripe_id(target.subscription_id@, "sub_"@) && is_stripe_id(
                target.customer_id@,
                "cus_"@,
            ) && (target.checkout_subject is Some ==> is_name(subject.scope_kind@) && is_name(
                subject.scope_id@,
            ) && is_name(subject.subject@) && exists|i: int|
                0 <= i < config.prices@.len() && (#[trigger] config.prices@[i]).alias@
                    == subject.price_alias@);
            &&& event.target is None || sound ==> accepted_event(config, Ok(event)) == Ok::<
                VerifiedEvent,
                IngestWebhookError,
            >(event)
            &&& event.target is Some && !sound ==> accepted_event(config, Ok(event)) == Err::<
                VerifiedEvent,
                IngestWebhookError,
            >(IngestWebhookError::InvalidEvent)
        }),
        accepted_event(config, Err(error)) is Err,
{
    if event.target is Some && event.target->0.checkout_subject is Some {
        law_alias_lookup_is_exact(
            config.prices@,
            event.target->0.checkout_subject->0.price_alias@,
        );
    }
}

/// An accepted delivery is recorded with the event's own identifier and type and the digest of the
/// body as it was delivered.
pub proof fn law_accepted_deliveries_are_recorded(
    config: StripeSubscriptionConfig,
    signing_secret: Seq<u8>,
    request: IngestWebhookRequest,
    now: Instant,
    start: IngestStart,
)
    requires
        ingests(config, signing_secret, request, now, Ok(start)),
    ensures
        delivery_outcome(
            signing_secret,
            request.raw_body@,
            request.signature_header@,
            now,
            config.signature_tolerance_seconds,
            config.max_webhook_body_bytes,
            config.livemode,
        ) == Ok::<VerifiedEvent, WebhookError>(start.event),
        start.row.event_id@ == start.event.event_id@,
        start.row.event_type@ == start.event.event_type@,
        start.row.payload_sha256@ == sha256_digest(encode_utf8(request.raw_body@)),
{
}

/// A recorded delivery is answered with its own identifier and type; its outcome tells a first
/// delivery from a repeated one, and one with something to reconcile from one that is ignored.
pub proof fn law_deliveries_are_answered(
    event: VerifiedEvent,
    outcome: WebhookRecordOutcome,
    error: StoreError,
    answer: Result<IngestWebhookResponse, AdminFlowError>,
)
    ensures
        answers_ingest(event, Ok(outcome), answer) ==> {
            &&& answer is Ok
            &&& answer->Ok_0.event_id@ == event.event_id@
            &&& answer->Ok_0.event_type@ == event.event_type@
            &&& (answer->Ok_0.outcome == IngestWebhookResponseOutcome::Duplicate) == (outcome
                == WebhookRecordOutcome::Duplicate)
            &&& (answer->Ok_0.outcome == IngestWebhookResponseOutcome::Accepted) == (outcome
                == WebhookRecordOutcome::Created && event.target is Some)
            &&& (answer->Ok_0.outcome == IngestWebhookResponseOutcome::Ignored) == (outcome
                == WebhookRecordOutcome::Created && event.target is None)
            &&& answer->Ok_0.reconciliation_enqueued == (outcome == WebhookRecordOutcome::Created
                && event.target is Some)
        },
        answers_ingest(event, Err(error), answer) ==> (answer matches Err(
            AdminFlowError::Runtime(failure),
        ) && failure.detail@ == store_error_text(error)),
{
}

/// An effect is shown as it is recorded: its identifier, its object and its failure, its operation
/// and its status by name. An accepted one is shown with the URL and the expiry of its receipt, and
/// any other with neither.
pub proof fn law_effects_are_shown_as_recorded(record: EffectRecord, receipt: EffectReceipt)
    ensures
        ({
            let open = shown_effect(record, None);
            let accepted = shown_effect(record, Some(receipt));
            &&& open.effect_id@ == record.effect_id@ && accepted.effect_id@ == record.effect_id@
            &&& opt_text(open.stripe_object_id) == opt_text(record.stripe_object_id)
            &&& opt_text(accepted.stripe_object_id) == opt_text(record.stripe_object_id)
            &&& opt_text(open.failure_code) == opt_text(record.failure_code)
            &&& opt_text(accepted.failure_code) == opt_text(record.failure_code)
            &&& open.url is None && open.expires_at is None
            &&& opt_text(accepted.url) == Some(receipt.url@)
            &&& opt_text(accepted.expires_at) == opt_text(receipt.expires_at)
            &&& open.operation == accepted.operation && open.status == accepted.status
            &&& (open.operation == InspectEffectResponseOperation::Checkout) == (record.operation
                == EffectOperation::Checkout)
            &&& (open.status == InspectEffectResponseStatus::Prepared) == (record.status
                == EffectStatus::Prepared)
            &&& (open.status == InspectEffectResponseStatus::InFlight) == (record.status
                == EffectStatus::InFlight)
            &&& (open.status == InspectEffectResponseStatus::Accepted) == (record.status
                == EffectStatus::Accepted)
            &&& (open.status == InspectEffectResponseStatus::KnownFailure) == (record.status
                == EffectStatus::KnownFailure)
            &&& (open.status == InspectEffectResponseStatus::EffectUnknown) == (record.status
                == EffectStatus::EffectUnknown)
        }),
        inspected(record, Ok(receipt)) == Ok::<InspectEffectResponse, AdminFlowError>(
            shown_effect(record, Some(receipt)),
        ),
{
}

/// Looking at an effect: what is not there is not found, an accepted effect needs its receipt, and
/// any other is shown at once.
pub proof fn law_effects_are_looked_up(
    key: Seq<u8>,
    loaded: Option<EffectRecord>,
    step: InspectStep,
)
    requires
        shows_loaded(key, Ok(loaded), step),
    ensures
        loaded is None ==> step == InspectStep::Finish(
            Err(AdminFlowError::Inspect(InspectEffectError::NotFound)),
        ),
        loaded is Some && loaded->0.status != EffectStatus::Accepted ==> (
        step matches InspectStep::Finish(Ok(answer)) && answer.effect_id == loaded->0.effect_id
            && answer.url is None && answer.stripe_object_id == loaded->0.stripe_object_id
            && answer.failure_code == loaded->0.failure_code),
        loaded is Some && loaded->0.status == EffectStatus::Accepted ==> !(
        step matches InspectStep::Finish(Ok(_))),
        loaded is Some && loaded->0.status == EffectStatus::Accepted
            && loaded->0.response_nonce is Some && loaded->0.response_nonce->0@.len() == 12
            && key.len() == 32 && loaded->0.response_ciphertext is Some && opened_bytes(
            key,
            loaded->0.response_nonce->0@,
            loaded->0.response_ciphertext->0@,
            encode_utf8(loaded->0.effect_id@),
        ) is Some ==> {
            &&& step is DecodeReceipt
            &&& step->DecodeReceipt_record == loaded->0
            &&& Some(step->DecodeReceipt_plaintext@) == opened_bytes(
                key,
                loaded->0.response_nonce->0@,
                loaded->0.response_ciphertext->0@,
                encode_utf8(loaded->0.effect_id@),
            )
        },
{
}

/// An operator's finding of an acceptance names a session of the effect's own operation, by its
/// identifier and by a URL over HTTPS at Stripe's host, with an expiry that can be read if any, and
/// no failure; it is taken as it was given.
pub proof fn law_acceptances_are_found_with_their_session(
    operation: EffectOperation,
    request: ResolveUnknownEffectRequest,
)
    requires
        request.resolution == ResolveUnknownEffectRequestResolution::Accepted,
    ensures
        ({
            let finding = finding_of(operation, request);
            let prefix = if operation == EffectOperation::Checkout {
                "cs_"@
            } else {
                "bps_"@
            };
            let host = if operation == EffectOperation::Checkout {
                "checkout.stripe.com"@
            } else {
                "billing.stripe.com"@
            };
            &&& finding is Some == {
                &&& request.stripe_object_id is Some
                &&& is_stripe_id(request.stripe_object_id->0@, prefix)
                &&& request.url is Some
                &&& parsed_url(request.url->0@) is Some
                &&& parsed_url(request.url->0@)->0.scheme == "https"@
                &&& parsed_url(request.url->0@)->0.host == Some(host)
                &&& parsed_url(request.url->0@)->0.username.len() == 0
                &&& parsed_url(request.url->0@)->0.password is None
                &&& request.failure_code is None
                &&& request.expires_at is Some ==> rfc3339_instant(request.expires_at->0@) is Some
            }
            &&& finding is Some ==> (finding->0 matches Finding::Accepted {
                stripe_object_id,
                receipt,
            } && Some(stripe_object_id) == request.stripe_object_id && Some(receipt.url)
                == request.url && receipt.expires_at == request.expires_at)
        }),
{
}

/// An operator's finding of a failure names a code, and nothing of a session; it is taken as it was
/// given.
pub proof fn law_failures_are_found_with_their_code(
    operation: EffectOperation,
    request: ResolveUnknownEffectRequest,
)
    requires
        request.resolution == ResolveUnknownEffectRequestResolution::KnownFailure,
    ensures
        finding_of(operation, request) is Some == (request.failure_code is Some && is_name(
            request.failure_code->0@,
        ) && request.stripe_object_id is None && request.url is None && request.expires_at is None),
        finding_of(operation, request) is Some ==> (
        finding_of(operation, request)->0 matches Finding::KnownFailure { failure_code }
            && Some(failure_code) == request.failure_code),
{
}

/// Settling an effect of unknown outcome stores exactly what the operator found: as accepted, its
/// object and a receipt that opens for this effect to what was encoded; as failed, its code.
pub proof fn law_resolutions_store_the_finding(
    key: Seq<u8>,
    row: EffectRow,
    stripe_object_id: String,
    encoded: Vec<u8>,
    nonce: Vec<u8>,
    resolution: ManualResolution,
    failure_code: String,
    now: i64,
)
    requires
        row.record.status == EffectStatus::EffectUnknown,
        key.len() == 32,
        nonce@.len() == 12,
        resolves_accepted(
            key,
            row.record.effect_id@,
            stripe_object_id,
            Ok(encoded),
            Ok(nonce),
            Ok(resolution),
        ),
    ensures
        ({
            let after = effect_step(row, EffectChange::Resolve(resolution), now).record;
            &&& after.status == EffectStatus::Accepted
            &&& after.effect_id == row.record.effect_id
            &&& after.stripe_object_id == Some(stripe_object_id)
            &&& after.failure_code is None
            &&& after.response_nonce == Some(nonce)
            &&& after.response_ciphertext is Some
            &&& opened_bytes(
                key,
                nonce@,
                after.response_ciphertext->0@,
                encode_utf8(row.record.effect_id@),
            ) == Some(encoded@)
        }),
        ({
            let after = effect_step(
                row,
                EffectChange::Resolve(failed_resolution(failure_code)),
                now,
            ).record;
            &&& after.status == EffectStatus::KnownFailure
            &&& after.failure_code == Some(failure_code)
            &&& after.stripe_object_id is None
            &&& after.response_nonce is None
            &&& after.response_ciphertext is None
        }),
{
}

/// A resolution is decided by where the effect stands: one of unknown outcome is settled; one that
/// failed is confirmed with its own code and refused with any other; one that stands otherwise than
/// asked for is refused.
pub proof fn law_resolutions_follow_the_status(
    key: Seq<u8>,
    record: EffectRecord,
    request: ResolveUnknownEffectRequest,
    resolution: ManualResolution,
    step: ResolveStep,
)
    requires
        resolves(key, record, request, resolution, step),
        resolution.target_status == EffectStatus::Accepted || resolution.target_status
            == EffectStatus::KnownFailure,
    ensures
        record.status == EffectStatus::EffectUnknown ==> step == ResolveStep::Apply(
            EffectChange::Resolve(resolution),
        ),
        record.status != EffectStatus::EffectUnknown && record.status != resolution.target_status
            ==> step == ResolveStep::Finish(
            Err(AdminFlowError::Resolve(ResolveUnknownEffectError::NotUnknown)),
        ),
        record.status == EffectStatus::KnownFailure && resolution.target_status
            == EffectStatus::KnownFailure ==> step == ResolveStep::Finish(
            if opt_text(record.failure_code) == opt_text(request.failure_code) {
                Ok(resolved(request, false))
            } else {
                Err(AdminFlowError::Resolve(ResolveUnknownEffectError::InvalidResolution))
            },
        ),
{
}

/// A resolution is answered for its own effect and with what was asked for; only one that settled
/// the effect says that something changed, and one that came too late is refused.
pub proof fn law_resolutions_are_answered(
    request: ResolveUnknownEffectRequest,
    changed: bool,
    answer: Result<ResolveUnknownEffectResponse, AdminFlowError>,
)
    ensures
        resolved(request, changed).changed == changed,
        resolved(request, changed).effect_id@ == request.effect_id@,
        (resolved(request, changed).status == ResolveUnknownEffectResponseStatus::Accepted) == (
        request.resolution == ResolveUnknownEffectRequestResolution::Accepted),
        answers_resolve(request, Ok(true), answer) ==> answer is Ok && answer->Ok_0.changed
            && answer->Ok_0.effect_id@ == request.effect_id@,
        answers_resolve(request, Ok(false), answer) ==> answer == Err::<
            ResolveUnknownEffectResponse,
            AdminFlowError,
        >(AdminFlowError::Resolve(ResolveUnknownEffectError::NotUnknown)),
{
}

/// An accepted effect is confirmed exactly by a request that names its object, its URL and its
/// expiry; one that names anything else is refused.
pub proof fn law_acceptances_are_confirmed_word_for_word(
    record: EffectRecord,
    request: ResolveUnknownEffectRequest,
    receipt: EffectReceipt,
    detail: String,
)
    requires
        request.url is Some,
    ensures
        repeated(record, request, Ok(receipt)) is Ok == (opt_text(record.stripe_object_id)
            == opt_text(request.stripe_object_id) && receipt.url@ == request.url->0@ && opt_text(
            receipt.expires_at,
        ) == opt_text(request.expires_at)),
        repeated(record, request, Ok(receipt)) is Ok ==> !repeated(
            record,
            request,
            Ok(receipt),
        )->Ok_0.changed,
        repeated(record, request, Ok(receipt)) is Err ==> repeated(record, request, Ok(receipt))
            == Err::<ResolveUnknownEffectResponse, AdminFlowError>(
            AdminFlowError::Resolve(ResolveUnknownEffectError::InvalidResolution),
        ),
        repeated(record, request, Err(detail)) is Err,
{
}

/// An effect that is to be settled must be there.
pub proof fn law_only_recorded_effects_are_settled(
    record: EffectRecord,
    error: StoreError,
    taken: Result<EffectRecord, AdminFlowError>,
)
    ensures
        takes_effect(Ok(Some(record)), taken) ==> taken == Ok::<EffectRecord, AdminFlowError>(record),
        takes_effect(Ok(None), taken) ==> taken == Err::<EffectRecord, AdminFlowError>(
            AdminFlowError::Resolve(ResolveUnknownEffectError::NotFound),
        ),
        takes_effect(Err(error), taken) ==> (taken matches Err(AdminFlowError::Runtime(failure))
            && failure.detail@ == store_error_text(error)),
{
}

/// A store that fails while an effect is looked up or settled is told as it is, and so is a receipt
/// that cannot be opened or decoded.
pub proof fn law_admin_failures_are_told(
    key: Seq<u8>,
    record: EffectRecord,
    request: ResolveUnknownEffectRequest,
    error: StoreError,
    detail: String,
    step: InspectStep,
    answer: Result<ResolveUnknownEffectResponse, AdminFlowError>,
)
    ensures
        shows_loaded(key, Err(error), step) ==> (step matches InspectStep::Finish(
            Err(AdminFlowError::Runtime(failure)),
        ) && failure.detail@ == store_error_text(error)),
        shows_loaded(key, Ok(Some(record)), step) && record.status == EffectStatus::Accepted
            && record_opening(key, record) is Err ==> (step matches InspectStep::Finish(
            Err(AdminFlowError::Runtime(failure)),
        ) && failure.detail@ == record_opening(key, record)->Err_0),
        inspected(record, Err(detail)) matches Err(AdminFlowError::Runtime(failure))
            && failure.detail@ == detail@,
        answers_resolve(request, Err(error), answer) ==> (answer matches Err(
            AdminFlowError::Runtime(failure),
        ) && failure.detail@ == store_error_text(error)),
{
}

/// An acceptance is settled for every receipt that is encoded and not too long to seal; one that
/// cannot be encoded or sealed is no valid resolution.
pub proof fn law_acceptances_need_a_sealed_receipt(
    key: Seq<u8>,
    effect_id: Seq<char>,
    stripe_object_id: String,
    encoded: Vec<u8>,
    nonce: Vec<u8>,
    detail: String,
    resolution: Result<ManualResolution, ResolveUnknownEffectError>,
)
    ensures
        resolves_accepted(key, effect_id, stripe_object_id, Ok(encoded), Ok(nonce), resolution) ==> {
            let sealable = key.len() == 32 && encoded@.len() <= 0x10_0000_0000 && encode_utf8(
                effect_id,
            ).len() <= 0x10_0000_0000;
            &&& resolution is Ok == sealable
            &&& resolution is Err ==> resolution->Err_0
                == ResolveUnknownEffectError::InvalidResolution
        },
        resolves_accepted(key, effect_id, stripe_object_id, Err(detail), Ok(nonce), resolution)
            ==> resolution == Err::<ManualResolution, ResolveUnknownEffectError>(
            ResolveUnknownEffectError::InvalidResolution,
        ),
        resolves_accepted(key, effect_id, stripe_object_id, Ok(encoded), Err(detail), resolution)
            ==> resolution == Err::<ManualResolution, ResolveUnknownEffectError>(
            ResolveUnknownEffectError::InvalidResolution,
        ),
{
}

} // verus!
