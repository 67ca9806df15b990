//! The requests, responses and errors of the capabilities that an instance provides.

use vstd::prelude::*;

use crate::store::{store_error_text, StoreError};
use crate::text::opt_text;

verus! {

/// A failure of the plugin itself, with its detail.
#[derive(Debug)]
pub struct RuntimeFailure {
    pub detail: String,
}

/// Makes a failure.
pub fn failure(detail: String) -> (r: RuntimeFailure)
    ensures
        r == (RuntimeFailure { detail }),
{
    RuntimeFailure { detail }
}

/// Makes a failure of a failed store operation.
pub fn store_failure(error: &StoreError) -> (r: RuntimeFailure)
    ensures
        r.detail@ == store_error_text(*error),
{
    failure(error.message())
}

/// A request for a Checkout Session.
pub struct CreateCheckoutSessionRequest {
    pub cancel_url: String,
    pub idempotency_key: String,
    pub price_alias: String,
    pub scope_id: String,
    pub scope_kind: String,
    pub subject: String,
    pub success_url: String,
}

/// The outcome of a Checkout Session request. The URL is short-lived access and is left out of
/// the debug evidence.
pub struct CreateCheckoutSessionResponse {
    pub effect_id: String,
    pub expires_at: Option<String>,
    pub session_id: Option<String>,
    pub status: CreateCheckoutSessionResponseStatus,
    pub url: Option<String>,
}

/// Whether a Checkout Session was created.
#[derive(Clone, Copy, Debug, PartialEq, Eq, Structural)]
pub enum CreateCheckoutSessionResponseStatus {
    Accepted,
    EffectUnknown,
}

/// Why a Checkout Session was refused.
#[derive(Clone, Copy, Debug, PartialEq, Eq, Structural)]
pub enum CreateCheckoutSessionError {
    AlreadySubscribed,
    Forbidden,
    IdempotencyConflict,
    InvalidRequest,
    PriceNotFound,
}

/// A request for a Customer Portal session.
pub struct CreatePortalSessionRequest {
    pub idempotency_key: String,
    pub return_url: String,
    pub scope_id: String,
    pub scope_kind: String,
    pub subject: String,
}

/// The outcome of a Customer Portal session request.
pub struct CreatePortalSessionResponse {
    pub effect_id: String,
    pub expires_at: Option<String>,
    pub session_id: Option<String>,
    pub status: CreatePortalSessionResponseStatus,
    pub url: Option<String>,
}

/// Whether a Customer Portal session was created.
#[derive(Clone, Copy, Debug, PartialEq, Eq, Structural)]
pub enum CreatePortalSessionResponseStatus {
    Accepted,
    EffectUnknown,
}

/// Why a Customer Portal session was refused.
#[derive(Clone, Copy, Debug, PartialEq, Eq, Structural)]
pub enum CreatePortalSessionError {
    CustomerNotFound,
    Forbidden,
    IdempotencyConflict,
    InvalidRequest,
}

/// A request for the projected subscription of a subject.
pub struct GetSubscriptionRequest {
    pub scope_id: String,
    pub scope_kind: String,
    pub subject: String,
}

/// The projected subscription of a subject.
pub struct GetSubscriptionResponse {
    pub cancel_at_period_end: bool,
    pub current_period_end: Option<String>,
    pub customer_id: String,
    pub entitlement_state: GetSubscriptionResponseEntitlementState,
    pub price_alias: Option<String>,
    pub revision: i64,
    pub scope_id: String,
    pub scope_kind: String,
    pub status: GetSubscriptionResponseStatus,
    pub subject: String,
    pub subscription_id: Option<String>,
}

/// The status of a subscription.
#[derive(Clone, Copy, Debug, PartialEq, Eq, Structural)]
pub enum GetSubscriptionResponseStatus {
    /// There is no subscription yet; stored as `none`.
    Absent,
    Incomplete,
    IncompleteExpired,
    Trialing,
    Active,
    PastDue,
    Canceled,
    Unpaid,
    Paused,
    Unknown,
}

/// How far the entitlements of a subscription have been projected.
#[derive(Clone, Copy, Debug, PartialEq, Eq, Structural)]
pub enum GetSubscriptionResponseEntitlementState {
    Pending,
    Granted,
    Revoked,
    Failed,
}

/// Why a projected subscription was not returned.
#[derive(Clone, Copy, Debug, PartialEq, Eq, Structural)]
pub enum GetSubscriptionError {
    Forbidden,
    InvalidRequest,
    NotFound,
}

/// A webhook delivery. Both parts are secret material and are left out of the debug evidence.
pub struct IngestWebhookRequest {
    pub raw_body: String,
    pub signature_header: String,
}

/// The receipt of a webhook delivery.
pub struct IngestWebhookResponse {
    pub event_id: String,
    pub event_type: String,
    pub outcome: IngestWebhookResponseOutcome,
    pub reconciliation_enqueued: bool,
}

/// What became of a webhook delivery.
#[derive(Clone, Copy, Debug, PartialEq, Eq, Structural)]
pub enum IngestWebhookResponseOutcome {
    Accepted,
    Duplicate,
    Ignored,
}

/// Why a webhook delivery was refused.
#[derive(Clone, Copy, Debug, PartialEq, Eq, Structural)]
pub enum IngestWebhookError {
    BodyTooLarge,
    Forbidden,
    InvalidEvent,
    InvalidSignature,
    StaleSignature,
}

/// A request to look at an effect.
pub struct InspectEffectRequest {
    pub effect_id: String,
}

/// The durable state of an effect.
pub struct InspectEffectResponse {
    pub effect_id: String,
    pub expires_at: Option<String>,
    pub failure_code: Option<String>,
    pub operation: InspectEffectResponseOperation,
    pub status: InspectEffectResponseStatus,
    pub stripe_object_id: Option<String>,
    pub url: Option<String>,
}

/// The operation of an inspected effect.
#[derive(Clone, Copy, Debug, PartialEq, Eq, Structural)]
pub enum InspectEffectResponseOperation {
    Checkout,
    Portal,
}

/// The status of an inspected effect.
#[derive(Clone, Copy, Debug, PartialEq, Eq, Structural)]
pub enum InspectEffectResponseStatus {
    Prepared,
    InFlight,
    Accepted,
    KnownFailure,
    EffectUnknown,
}

/// Why an effect was not shown.
#[derive(Clone, Copy, Debug, PartialEq, Eq, Structural)]
pub enum InspectEffectError {
    Forbidden,
    InvalidEffect,
    NotFound,
}

/// An operator's request to settle an effect of unknown outcome.
pub struct ResolveUnknownEffectRequest {
    pub effect_id: String,
    pub expires_at: Option<String>,
    pub failure_code: Option<String>,
    pub resolution: ResolveUnknownEffectRequestResolution,
    pub stripe_object_id: Option<String>,
    pub url: Option<String>,
}

/// How an operator settles an effect.
#[derive(Clone, Copy, Debug, PartialEq, Eq, Structural)]
pub enum ResolveUnknownEffectRequestResolution {
    Accepted,
    KnownFailure,
}

/// The outcome of a resolution.
pub struct ResolveUnknownEffectResponse {
    pub changed: bool,
    pub effect_id: String,
    pub status: ResolveUnknownEffectResponseStatus,
}

/// The status of a settled effect.
#[derive(Clone, Copy, Debug, PartialEq, Eq, Structural)]
pub enum ResolveUnknownEffectResponseStatus {
    Accepted,
    KnownFailure,
}

/// Why a resolution was refused.
#[derive(Clone, Copy, Debug, PartialEq, Eq, Structural)]
pub enum ResolveUnknownEffectError {
    Forbidden,
    InvalidResolution,
    NotFound,
    NotUnknown,
}

/// The outcome of one run of the reconciliation worker.
pub struct ReconcileNextResponse {
    pub revision: Option<i64>,
    pub status: ReconcileNextResponseStatus,
    pub subscription_id: Option<String>,
}

/// What a run of the worker came to.
#[derive(Clone, Copy, Debug, PartialEq, Eq, Structural)]
pub enum ReconcileNextResponseStatus {
    Converged,
    Idle,
    RetryPending,
}

/// Why a run of the worker was refused.
#[derive(Clone, Copy, Debug, PartialEq, Eq, Structural)]
pub enum ReconcileNextError {
    Forbidden,
    InvalidState,
}

/// Why an administrative operation gave no response.
#[derive(Debug)]
pub enum AdminFlowError {
    Webhook(IngestWebhookError),
    Inspect(InspectEffectError),
    Reconcile(ReconcileNextError),
    Resolve(ResolveUnknownEffectError),
    Runtime(RuntimeFailure),
}

/// A usage event to be published to a Stripe meter.
pub struct PublishMeterEventRequest {
    pub delivery_id: String,
    pub meter: String,
    pub occurred_at: String,
    pub quantity: String,
    pub scope_id: String,
    pub scope_kind: String,
    pub subject: String,
}

/// The receipt of a published usage event.
pub struct PublishMeterEventResponse {
    pub accepted: bool,
    pub outcome: PublishMeterEventResponseOutcome,
    pub provider_reference: String,
}

/// Whether a usage event was published now or before.
#[derive(Clone, Copy, Debug, PartialEq, Eq, Structural)]
pub enum PublishMeterEventResponseOutcome {
    Accepted,
    Replayed,
}

/// Why a usage event was not published.
#[derive(Clone, Copy, Debug, PartialEq, Eq, Structural)]
pub enum PublishMeterEventError {
    AccountNotFound,
    EffectUnknown,
    Forbidden,
    IdempotencyConflict,
    InvalidEvent,
    MeterNotConfigured,
}

/// The form that `std` gives a string in debug output: in double quotes, with escapes.
pub uninterp spec fn debug_text(value: Seq<char>) -> Seq<char>;

/// Formats a string with `std`'s `Debug`. The claim: the form depends on the string alone.
#[verifier::external_body]
fn debug_string(value: &str) -> (r: String)
    ensures
        r@ == debug_text(value@),
{
    format!("{value:?}")
}

/// The debug form of an optional string.
pub open spec fn debug_option(value: Option<Seq<char>>) -> Seq<char> {
    match value {
        Some(text) => "Some("@ + debug_text(text) + ")"@,
        None => "None"@,
    }
}

fn debug_optional(value: &Option<String>) -> (r: String)
    ensures
        r@ == debug_option(opt_text(*value)),
{
    match value {
        Some(text) => {
            let mut out = "Some(".to_owned();
            out.append(debug_string(text.as_str()).as_str());
            out.append(")");
            out
        },
        None => "None".to_owned(),
    }
}

/// The debug evidence of a Checkout Session response: every field but the URL.
pub open spec fn checkout_evidence(response: CreateCheckoutSessionResponse) -> Seq<char> {
    "CreateCheckoutSessionResponse { effect_id: "@ + debug_text(response.effect_id@)
        + ", expires_at: "@ + debug_option(opt_text(response.expires_at)) + ", session_id: "@
        + debug_option(opt_text(response.session_id)) + ", status: "@ + (match response.status {
        CreateCheckoutSessionResponseStatus::Accepted => "Accepted"@,
        CreateCheckoutSessionResponseStatus::EffectUnknown => "EffectUnknown"@,
    }) + ", url: \"<redacted>\" }"@
}

impl CreateCheckoutSessionResponse {
    /// The debug evidence, without the URL.
    pub fn debug_evidence(&self) -> (r: String)
        ensures
            r@ == checkout_evidence(*self),
    {
        let mut out = "CreateCheckoutSessionResponse { effect_id: ".to_owned();
        out.append(debug_string(self.effect_id.as_str()).as_str());
        out.append(", expires_at: ");
        out.append(debug_optional(&self.expires_at).as_str());
        out.append(", session_id: ");
        out.append(debug_optional(&self.session_id).as_str());
        out.append(", status: ");
        match self.status {
            CreateCheckoutSessionResponseStatus::Accepted => out.append("Accepted"),
            CreateCheckoutSessionResponseStatus::EffectUnknown => out.append("EffectUnknown"),
        }
        out.append(", url: \"<redacted>\" }");
        out
    }
}

impl IngestWebhookRequest {
    /// The debug evidence, which shows nothing of the delivery.
    pub fn debug_evidence(&self) -> (r: String)
        ensures
            r@
                == "IngestWebhookRequest { raw_body: \"<redacted>\", signature_header: \"<redacted>\" }"@,
    {
        "IngestWebhookRequest { raw_body: \"<redacted>\", signature_header: \"<redacted>\" }".to_owned()
    }
}

/// The redirect URL has no part in the debug evidence of a Checkout Session response.
pub proof fn law_evidence_hides_the_url(
    response: CreateCheckoutSessionResponse,
    other: CreateCheckoutSessionResponse,
)
    requires
        response.effect_id@ == other.effect_id@,
        opt_text(response.expires_at) == opt_text(other.expires_at),
        opt_text(response.session_id) == opt_text(other.session_id),
        response.status == other.status,
    ensures
        checkout_evidence(response) == checkout_evidence(other),
{
}

} // verus!
