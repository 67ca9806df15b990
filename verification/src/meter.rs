//! Publishing a usage event to a Stripe meter, step by step. Between two steps the caller of these
//! functions performs what the last one asked for.

use vstd::prelude::*;

use crate::clock::{parse_rfc3339, rfc3339_instant, Instant};
use crate::config::{allowed, is_name, law_lists_are_exact, listed, valid_name};
use crate::contract::{
    failure, store_failure, PublishMeterEventError, PublishMeterEventRequest,
    PublishMeterEventResponse, PublishMeterEventResponseOutcome, RuntimeFailure,
};
use crate::crypto::sha256_digest;
use crate::effects::EffectStatus;
use crate::json::{object_json, pair_texts};
use crate::meter_effects::{
    law_meter_rows_stay_well_formed, meter_change_wf, meter_row_wf, meter_run, meter_step,
    MeterChange, MeterEffectClaim, MeterEffectRecord, MeterEffectRow, NewMeterEffect,
};
use crate::request::{fingerprint, list_meter_members, meter_members, request_hash};
use crate::session::STRIPE_REJECTED;
use crate::store::{store_error_text, StoreError};
use crate::stripe::{
    classified, classify_http, law_posts_go_where_they_are_meant, meter_fields, meter_form, posts,
    stripe_post, ClassifiedResponse, HttpReply, StripeRequest,
};
use crate::text::{chars_of, code_point, is_digit, opt_str, opt_text, same, texts};
use crate::web::{form_text, joined_url};

verus! {

/// How long ago an event may have occurred: 35 days, in seconds.
pub const MAX_AGE_SECONDS: i64 = 3024000;

/// How far ahead an event may be: five minutes, in seconds.
pub const MAX_LEAD_SECONDS: i64 = 300;

/// Why a usage event was not published.
#[derive(Debug)]
pub enum MeterFlowError {
    Domain(PublishMeterEventError),
    Runtime(RuntimeFailure),
}

/// A configured meter: its alias, and the name of its events at Stripe.
pub struct MeterMapping {
    pub alias: String,
    pub event_name: String,
}

/// Who may publish usage events, and to which meters.
pub struct MeterPolicy {
    pub meter_instances: Vec<String>,
    pub meters: Vec<MeterMapping>,
}

/// The first meter with this alias.
pub open spec fn meter_with_alias(meters: Seq<MeterMapping>, alias: Seq<char>) -> Option<MeterMapping>
    decreases meters.len(),
{
    if meters.len() == 0 {
        None
    } else if meters[0].alias@ == alias {
        Some(meters[0])
    } else {
        meter_with_alias(meters.skip(1), alias)
    }
}

impl MeterPolicy {
    /// Decides whether a caller may publish usage events.
    pub fn meter_allowed(&self, caller: Option<&str>) -> (r: bool)
        ensures
            r == listed(texts(self.meter_instances@), opt_str(caller)),
    {
        allowed(&self.meter_instances, caller)
    }

    /// Finds a meter by its alias.
    pub fn meter(&self, alias: &str) -> (r: Option<&MeterMapping>)
        ensures
            r is Some == meter_with_alias(self.meters@, alias@) is Some,
            r is Some ==> *r->0 == meter_with_alias(self.meters@, alias@)->0,
    {
        let mut i: usize = 0;
        assert(self.meters@.skip(0) == self.meters@);
        while i < self.meters.len()
            invariant
                i <= self.meters@.len(),
                meter_with_alias(self.meters@, alias@) == meter_with_alias(
                    self.meters@.skip(i as int),
                    alias@,
                ),
            decreases self.meters@.len() - i,
        {
            if same(self.meters[i].alias.as_str(), alias) {
                return Some(&self.meters[i]);
            }
            assert(self.meters@.skip(i as int).skip(1) == self.meters@.skip(i + 1));
            i += 1;
        }
        None
    }
}

/// A quantity: one to 100 decimal digits without a leading zero, or a single zero.
pub open spec fn is_quantity(text: Seq<char>) -> bool {
    &&& 1 <= text.len() <= 100
    &&& forall|i: int| 0 <= i < text.len() ==> is_digit(#[trigger] text[i])
    &&& text.len() > 1 ==> text[0] != '0'
}

/// Decides [`is_quantity`].
pub fn valid_quantity(value: &str) -> (r: bool)
    ensures
        r == is_quantity(value@),
{
    let chars = chars_of(value);
    if chars.len() < 1 || chars.len() > 100 || (chars.len() > 1 && chars[0] == '0') {
        return false;
    }
    let mut i: usize = 0;
    while i < chars.len()
        invariant
            i <= chars@.len(),
            chars@ == value@,
            forall|j: int| 0 <= j < i ==> is_digit(#[trigger] value@[j]),
        decreases chars@.len() - i,
    {
        let code: u32 = code_point(chars[i]);
        if code < 48 || code > 57 {
            assert(!is_digit(value@[i as int]));
            return false;
        }
        i += 1;
    }
    true
}

/// Whether a usage event is well formed, its time aside.
pub open spec fn is_meter_request(request: PublishMeterEventRequest) -> bool {
    &&& is_name(request.delivery_id@) && request.delivery_id@.len() <= 100
    &&& is_name(request.scope_kind@)
    &&& is_name(request.scope_id@)
    &&& is_name(request.subject@)
    &&& is_name(request.meter@)
    &&& is_quantity(request.quantity@)
}

/// Decides [`is_meter_request`].
pub fn valid_meter_request(request: &PublishMeterEventRequest) -> (r: bool)
    ensures
        r == is_meter_request(*request),
{
    valid_name(request.delivery_id.as_str()) && chars_of(request.delivery_id.as_str()).len() <= 100
        && valid_name(request.scope_kind.as_str()) && valid_name(request.scope_id.as_str())
        && valid_name(request.subject.as_str()) && valid_name(request.meter.as_str())
        && valid_quantity(request.quantity.as_str())
}

/// Whether an event that occurred then may still, or already, be published now: not before the
/// oldest and not after the newest instant of the window.
pub open spec fn in_window(occurred_at: Instant, now: Instant) -> bool {
    let oldest = now.unix_seconds - MAX_AGE_SECONDS;
    let newest = now.unix_seconds + MAX_LEAD_SECONDS;
    &&& occurred_at.unix_seconds > oldest || (occurred_at.unix_seconds == oldest
        && occurred_at.nanosecond >= now.nanosecond)
    &&& occurred_at.unix_seconds < newest || (occurred_at.unix_seconds == newest
        && occurred_at.nanosecond <= now.nanosecond)
}

/// The time of a usage event that may be published now.
pub open spec fn event_time(request: PublishMeterEventRequest, now: Instant) -> Option<Instant> {
    if !is_meter_request(request) {
        None
    } else {
        match rfc3339_instant(request.occurred_at@) {
            Some(occurred_at) => if in_window(occurred_at, now) {
                Some(occurred_at)
            } else {
                None
            },
            None => None,
        }
    }
}

/// Decides whether an event that occurred then may be published now.
pub fn within_window(occurred_at: &Instant, now: &Instant) -> (r: bool)
    ensures
        r == in_window(*occurred_at, *now),
{
    let occurred: i128 = occurred_at.unix_seconds as i128;
    let oldest: i128 = now.unix_seconds as i128 - MAX_AGE_SECONDS as i128;
    let newest: i128 = now.unix_seconds as i128 + MAX_LEAD_SECONDS as i128;
    (occurred > oldest || (occurred == oldest && occurred_at.nanosecond >= now.nanosecond)) && (
    occurred < newest || (occurred == newest && occurred_at.nanosecond <= now.nanosecond))
}

/// Checks a usage event, and gives its time.
pub fn validate_request(request: &PublishMeterEventRequest, now: &Instant) -> (r: Option<Instant>)
    ensures
        r == event_time(*request, *now),
{
    if !valid_meter_request(request) {
        return None;
    }
    match parse_rfc3339(request.occurred_at.as_str()) {
        Some(occurred_at) => if within_window(&occurred_at, now) {
            Some(occurred_at)
        } else {
            None
        },
        None => None,
    }
}

/// A usage event that may be published: the meter's event name at Stripe, and its time.
pub struct MeterStart {
    pub caller: String,
    pub event_name: String,
    pub occurred_at: Instant,
}

/// The refusal of a usage event before its account is known.
pub open spec fn meter_refusal(
    policy: MeterPolicy,
    caller: Option<Seq<char>>,
    request: PublishMeterEventRequest,
    now: Instant,
) -> Option<PublishMeterEventError> {
    if !listed(texts(policy.meter_instances@), caller) {
        Some(PublishMeterEventError::Forbidden)
    } else if event_time(request, now) is None {
        Some(PublishMeterEventError::InvalidEvent)
    } else if meter_with_alias(policy.meters@, request.meter@) is None {
        Some(PublishMeterEventError::MeterNotConfigured)
    } else {
        None
    }
}

/// Whether a usage event may be published like this, or is refused.
pub open spec fn begins_meter(
    policy: MeterPolicy,
    caller: Option<Seq<char>>,
    request: PublishMeterEventRequest,
    now: Instant,
    start: Result<MeterStart, MeterFlowError>,
) -> bool {
    match meter_refusal(policy, caller, request, now) {
        Some(error) => start == Err::<MeterStart, MeterFlowError>(MeterFlowError::Domain(error)),
        None => {
            &&& start is Ok
            &&& start->Ok_0.caller@ == caller->0
            &&& start->Ok_0.event_name == meter_with_alias(
                policy.meters@,
                request.meter@,
            )->0.event_name
            &&& Some(start->Ok_0.occurred_at) == event_time(request, now)
        },
    }
}

/// Checks a usage event against the policy. The customer of its subject is to be loaded next.
pub fn begin_meter(
    policy: &MeterPolicy,
    caller: Option<&str>,
    request: &PublishMeterEventRequest,
    now: &Instant,
) -> (r: Result<MeterStart, MeterFlowError>)
    ensures
        begins_meter(*policy, opt_str(caller), *request, *now, r),
{
    let caller_name = match caller {
        Some(name) => name,
        None => return Err(MeterFlowError::Domain(PublishMeterEventError::Forbidden)),
    };
    if !policy.meter_allowed(caller) {
        return Err(MeterFlowError::Domain(PublishMeterEventError::Forbidden));
    }
    let occurred_at = match validate_request(request, now) {
        Some(occurred_at) => occurred_at,
        None => return Err(MeterFlowError::Domain(PublishMeterEventError::InvalidEvent)),
    };
    let event_name = match policy.meter(request.meter.as_str()) {
        Some(meter) => meter.event_name.clone(),
        None => return Err(MeterFlowError::Domain(PublishMeterEventError::MeterNotConfigured)),
    };
    Ok(MeterStart { caller: caller_name.to_owned(), event_name, occurred_at })
}

/// A usage event whose account is known: its effect, and the customer it is for.
pub struct MeterReady {
    pub effect: NewMeterEffect,
    pub customer_id: String,
}

/// Whether an effect is that of a usage event.
pub open spec fn is_meter_effect(
    effect: NewMeterEffect,
    start: MeterStart,
    request: PublishMeterEventRequest,
) -> bool {
    &&& effect.delivery_id == request.delivery_id
    &&& effect.caller_instance == start.caller
    &&& effect.request_hash@ == fingerprint(meter_members(request))
    &&& effect.scope_kind == request.scope_kind
    &&& effect.scope_id == request.scope_id
    &&& effect.subject == request.subject
    &&& effect.meter_alias == request.meter
    &&& effect.stripe_event_name == start.event_name
    &&& effect.quantity == request.quantity
    &&& effect.occurred_at == start.occurred_at
}

/// Whether this is the effect of a usage event whose subject has this customer, or why there is
/// none.
pub open spec fn readies_meter(
    start: MeterStart,
    request: PublishMeterEventRequest,
    customer: Result<Option<String>, StoreError>,
    ready: Result<MeterReady, MeterFlowError>,
) -> bool {
    match customer {
        Err(error) => ready matches Err(MeterFlowError::Runtime(failure)) && failure.detail@
            == store_error_text(error),
        Ok(None) => ready == Err::<MeterReady, MeterFlowError>(
            MeterFlowError::Domain(PublishMeterEventError::AccountNotFound),
        ),
        Ok(Some(customer_id)) => ready is Ok && ready->Ok_0.customer_id == customer_id
            && is_meter_effect(ready->Ok_0.effect, start, request),
    }
}

/// Makes the effect of a usage event, which is to be claimed, if its subject has a customer.
pub fn meter_customer_loaded(
    start: MeterStart,
    request: &PublishMeterEventRequest,
    customer: Result<Option<String>, StoreError>,
) -> (r: Result<MeterReady, MeterFlowError>)
    ensures
        readies_meter(start, *request, customer, r),
{
    let customer_id = match customer {
        Err(error) => return Err(MeterFlowError::Runtime(store_failure(&error))),
        Ok(None) => return Err(MeterFlowError::Domain(PublishMeterEventError::AccountNotFound)),
        Ok(Some(customer_id)) => customer_id,
    };
    let hash = match request_hash(list_meter_members(request)) {
        Ok(hash) => hash,
        Err(failure) => return Err(MeterFlowError::Runtime(failure)),
    };
    let effect = NewMeterEffect {
        delivery_id: request.delivery_id.clone(),
        caller_instance: start.caller,
        request_hash: hash,
        scope_kind: request.scope_kind.clone(),
        scope_id: request.scope_id.clone(),
        subject: request.subject.clone(),
        meter_alias: request.meter.clone(),
        stripe_event_name: start.event_name,
        quantity: request.quantity.clone(),
        occurred_at: start.occurred_at,
    };
    Ok(MeterReady { effect, customer_id })
}

/// The answer to an event that was recorded before.
pub open spec fn replayed_meter(
    record: MeterEffectRecord,
    answer: Result<PublishMeterEventResponse, MeterFlowError>,
) -> bool {
    match record.status {
        EffectStatus::Accepted => match record.provider_reference {
            Some(provider_reference) => answer == Ok::<PublishMeterEventResponse, MeterFlowError>(
                PublishMeterEventResponse {
                    accepted: true,
                    outcome: PublishMeterEventResponseOutcome::Replayed,
                    provider_reference,
                },
            ),
            None => answer matches Err(MeterFlowError::Runtime(failure)) && failure.detail@
                == "accepted Stripe meter effect has no provider reference"@,
        },
        EffectStatus::KnownFailure => if record.failure_code is Some && record.failure_code->0@
            == STRIPE_REJECTED@ {
            answer == Err::<PublishMeterEventResponse, MeterFlowError>(
                MeterFlowError::Domain(PublishMeterEventError::InvalidEvent),
            )
        } else {
            answer matches Err(MeterFlowError::Runtime(failure)) && failure.detail@
                == "known Stripe meter failure has an invalid failure code"@
        },
        _ => answer == Err::<PublishMeterEventResponse, MeterFlowError>(
            MeterFlowError::Domain(PublishMeterEventError::EffectUnknown),
        ),
    }
}

/// Answers an event that was recorded before.
pub fn existing_response(record: MeterEffectRecord) -> (r: Result<
    PublishMeterEventResponse,
    MeterFlowError,
>)
    ensures
        replayed_meter(record, r),
{
    match record.status {
        EffectStatus::Accepted => match record.provider_reference {
            Some(provider_reference) => Ok(
                PublishMeterEventResponse {
                    accepted: true,
                    outcome: PublishMeterEventResponseOutcome::Replayed,
                    provider_reference,
                },
            ),
            None => Err(
                MeterFlowError::Runtime(
                    failure("accepted Stripe meter effect has no provider reference".to_owned()),
                ),
            ),
        },
        EffectStatus::KnownFailure => {
            let rejected = match &record.failure_code {
                Some(code) => same(code.as_str(), STRIPE_REJECTED),
                None => false,
            };
            if rejected {
                Err(MeterFlowError::Domain(PublishMeterEventError::InvalidEvent))
            } else {
                Err(
                    MeterFlowError::Runtime(
                        failure("known Stripe meter failure has an invalid failure code".to_owned()),
                    ),
                )
            }
        },
        _ => Err(MeterFlowError::Domain(PublishMeterEventError::EffectUnknown)),
    }
}

/// What a claimed event needs next.
pub enum MeterStep {
    /// Send the request of [`meter_request`], then go on with the answer.
    Dispatch(MeterEffectRecord),
    /// Answer.
    Finish(Result<PublishMeterEventResponse, MeterFlowError>),
}

/// Whether a step is what a claim allows.
pub open spec fn follows_meter_claim(
    claim: Result<MeterEffectClaim, StoreError>,
    step: MeterStep,
) -> bool {
    match claim {
        Err(error) => step matches MeterStep::Finish(Err(MeterFlowError::Runtime(failure)))
            && failure.detail@ == store_error_text(error),
        Ok(MeterEffectClaim::Conflict) => step == MeterStep::Finish(
            Err(MeterFlowError::Domain(PublishMeterEventError::IdempotencyConflict)),
        ),
        Ok(MeterEffectClaim::Existing(record)) => step matches MeterStep::Finish(answer)
            && replayed_meter(record, answer),
        Ok(MeterEffectClaim::Dispatch(record)) => step == MeterStep::Dispatch(record),
    }
}

/// Decides what a claim allows.
pub fn meter_claimed(claim: Result<MeterEffectClaim, StoreError>) -> (r: MeterStep)
    ensures
        follows_meter_claim(claim, r),
{
    match claim {
        Err(error) => MeterStep::Finish(Err(MeterFlowError::Runtime(store_failure(&error)))),
        Ok(MeterEffectClaim::Conflict) => MeterStep::Finish(
            Err(MeterFlowError::Domain(PublishMeterEventError::IdempotencyConflict)),
        ),
        Ok(MeterEffectClaim::Existing(record)) => MeterStep::Finish(existing_response(record)),
        Ok(MeterEffectClaim::Dispatch(record)) => MeterStep::Dispatch(record),
    }
}

/// Where usage events are published.
pub open spec fn meter_path() -> Seq<char> {
    "v1/billing/meter_events"@
}

/// Writes the form that publishes a usage event.
pub fn meter_event_form(
    request: &PublishMeterEventRequest,
    event_name: &str,
    customer_id: &str,
    occurred_at: i64,
) -> (r: String)
    ensures
        r@ == form_text(
            meter_fields(
                request.quantity@,
                request.delivery_id@,
                event_name@,
                customer_id@,
                occurred_at as int,
            ),
        ),
{
    meter_form(
        request.quantity.as_str(),
        request.delivery_id.as_str(),
        event_name,
        customer_id,
        occurred_at,
    )
}

/// Whether this is the request that publishes a usage event, if the API base takes the path.
pub open spec fn publishes(
    api_base: Seq<char>,
    api_key: Seq<char>,
    request: PublishMeterEventRequest,
    event_name: Seq<char>,
    customer_id: Seq<char>,
    occurred_at: Instant,
    sent: Option<StripeRequest>,
) -> bool {
    &&& sent is Some == joined_url(api_base, meter_path()) is Some
    &&& sent is Some ==> posts(
        sent->0,
        api_base,
        api_key,
        meter_path(),
        form_text(
            meter_fields(
                request.quantity@,
                request.delivery_id@,
                event_name,
                customer_id,
                occurred_at.unix_seconds as int,
            ),
        ),
        request.delivery_id@,
    )
}

/// Writes the request that publishes a usage event, under the delivery as idempotency key; `None`
/// where the API base does not take the path.
pub fn meter_request(
    api_base: &str,
    api_key: &str,
    request: &PublishMeterEventRequest,
    event_name: &str,
    customer_id: &str,
    occurred_at: &Instant,
) -> (r: Option<StripeRequest>)
    ensures
        publishes(
            api_base@,
            api_key@,
            *request,
            event_name@,
            customer_id@,
            *occurred_at,
            r,
        ),
{
    let body = meter_event_form(request, event_name, customer_id, occurred_at.unix_seconds);
    stripe_post(
        api_base,
        api_key,
        "v1/billing/meter_events",
        body,
        request.delivery_id.as_str(),
    )
}

/// A published usage event as Stripe answers it.
pub struct StripeMeterEvent {
    pub identifier: String,
}

/// What to do with the answer to a published event.
pub enum MeterReplyStep {
    /// Read the event from this body, then go on with [`parse_meter_reference`].
    Read(Vec<u8>),
    /// Record the failure [`STRIPE_REJECTED`], then answer with [`meter_failed`].
    Refuse,
    /// Record that the outcome is not known, and answer so.
    MarkUnknown,
}

/// What to do with an answer.
pub open spec fn meter_reply_step(reply: Option<HttpReply>) -> MeterReplyStep {
    match classified(reply) {
        Some(ClassifiedResponse::Success(body)) => MeterReplyStep::Read(body),
        Some(ClassifiedResponse::KnownFailure) => MeterReplyStep::Refuse,
        None => MeterReplyStep::MarkUnknown,
    }
}

/// Decides what to do with an answer.
pub fn meter_replied(reply: Option<HttpReply>) -> (r: MeterReplyStep)
    ensures
        r == meter_reply_step(reply),
{
    match classify_http(reply) {
        Some(ClassifiedResponse::Success(body)) => MeterReplyStep::Read(body),
        Some(ClassifiedResponse::KnownFailure) => MeterReplyStep::Refuse,
        None => MeterReplyStep::MarkUnknown,
    }
}

/// Stripe's reference of an event, if the answer held one that is the delivery's own identifier.
pub open spec fn meter_reference(event: Option<StripeMeterEvent>, delivery_id: Seq<char>) -> Option<
    String,
> {
    if event is Some && event->0.identifier@ == delivery_id {
        Some(event->0.identifier)
    } else {
        None
    }
}

/// Takes Stripe's reference of an event, if the answer held one: it must be the delivery's own
/// identifier.
pub fn parse_meter_reference(event: Option<StripeMeterEvent>, delivery_id: &str) -> (r: Option<String>)
    ensures
        r == meter_reference(event, delivery_id@),
{
    match event {
        Some(event) => if same(event.identifier.as_str(), delivery_id) {
            Some(event.identifier)
        } else {
            None
        },
        None => None,
    }
}

/// Whether this answers a refusal that was recorded, or could not be.
pub open spec fn failed_meter(recorded: Result<bool, StoreError>, answer: MeterFlowError) -> bool {
    match recorded {
        Err(error) => answer matches MeterFlowError::Runtime(failure) && failure.detail@
            == store_error_text(error),
        Ok(true) => answer == MeterFlowError::Domain(PublishMeterEventError::InvalidEvent),
        Ok(false) => answer == MeterFlowError::Domain(PublishMeterEventError::EffectUnknown),
    }
}

/// Answers once a refusal was recorded, or could not be: what is not recorded is not known.
pub fn meter_failed(recorded: Result<bool, StoreError>) -> (r: MeterFlowError)
    ensures
        failed_meter(recorded, r),
{
    match recorded {
        Err(error) => MeterFlowError::Runtime(store_failure(&error)),
        Ok(true) => MeterFlowError::Domain(PublishMeterEventError::InvalidEvent),
        Ok(false) => MeterFlowError::Domain(PublishMeterEventError::EffectUnknown),
    }
}

/// The answer while the outcome is not known.
pub fn meter_unknown() -> (r: MeterFlowError)
    ensures
        r == MeterFlowError::Domain(PublishMeterEventError::EffectUnknown),
{
    MeterFlowError::Domain(PublishMeterEventError::EffectUnknown)
}

/// Whether a result answers an event that was accepted with this reference, and whose acceptance
/// was recorded, or was not.
pub open spec fn accepted_meter(
    provider_reference: String,
    accepted: Result<bool, StoreError>,
    answer: Result<PublishMeterEventResponse, MeterFlowError>,
) -> bool {
    match accepted {
        Err(error) => answer matches Err(MeterFlowError::Runtime(failure)) && failure.detail@
            == store_error_text(error),
        Ok(false) => answer == Err::<PublishMeterEventResponse, MeterFlowError>(
            MeterFlowError::Domain(PublishMeterEventError::EffectUnknown),
        ),
        Ok(true) => answer == Ok::<PublishMeterEventResponse, MeterFlowError>(
            PublishMeterEventResponse {
                accepted: true,
                outcome: PublishMeterEventResponseOutcome::Accepted,
                provider_reference,
            },
        ),
    }
}

/// Answers once an event was accepted, or was not: without the durable reference the outcome is
/// not known.
pub fn meter_accepted(provider_reference: String, accepted: Result<bool, StoreError>) -> (r: Result<
    PublishMeterEventResponse,
    MeterFlowError,
>)
    ensures
        accepted_meter(provider_reference, accepted, r),
{
    match accepted {
        Err(error) => Err(MeterFlowError::Runtime(store_failure(&error))),
        Ok(false) => Err(MeterFlowError::Domain(PublishMeterEventError::EffectUnknown)),
        Ok(true) => Ok(
            PublishMeterEventResponse {
                accepted: true,
                outcome: PublishMeterEventResponseOutcome::Accepted,
                provider_reference,
            },
        ),
    }
}

/// Publishing an accepted event again is answered with the same reference, and a rejected one with
/// the same refusal.
pub proof fn law_meter_outcomes_replay(
    row: MeterEffectRow,
    provider_reference: String,
    failure_code: String,
    now: i64,
    accepted: Result<PublishMeterEventResponse, MeterFlowError>,
    failed: Result<PublishMeterEventResponse, MeterFlowError>,
)
    requires
        row.record.status == EffectStatus::InFlight,
        failure_code@ == STRIPE_REJECTED@,
        replayed_meter(
            meter_step(row, MeterChange::Accept { provider_reference }, now).record,
            accepted,
        ),
        replayed_meter(meter_step(row, MeterChange::Fail { failure_code }, now).record, failed),
    ensures
        accepted is Ok && accepted->Ok_0.provider_reference == provider_reference,
        failed == Err::<PublishMeterEventResponse, MeterFlowError>(
            MeterFlowError::Domain(PublishMeterEventError::InvalidEvent),
        ),
{
}

/// A published event is answered with its delivery's own identifier: by the call that sent it as
/// accepted, and by every later call as replayed. `event` is what Stripe answered.
pub proof fn law_published_events_name_their_delivery(
    row: MeterEffectRow,
    event: Option<StripeMeterEvent>,
    recorded: Result<bool, StoreError>,
    now: i64,
    answer: Result<PublishMeterEventResponse, MeterFlowError>,
    replay: Result<PublishMeterEventResponse, MeterFlowError>,
)
    requires
        meter_row_wf(row),
        row.record.status == EffectStatus::InFlight,
        meter_reference(event, row.record.delivery_id@) is Some,
        accepted_meter(meter_reference(event, row.record.delivery_id@)->0, recorded, answer),
        replayed_meter(
            meter_step(
                row,
                MeterChange::Accept {
                    provider_reference: meter_reference(event, row.record.delivery_id@)->0,
                },
                now,
            ).record,
            replay,
        ),
    ensures
        meter_change_wf(
            MeterChange::Accept {
                provider_reference: meter_reference(event, row.record.delivery_id@)->0,
            },
            row.record.delivery_id@,
        ),
        answer is Ok ==> {
            &&& answer->Ok_0.accepted
            &&& answer->Ok_0.outcome == PublishMeterEventResponseOutcome::Accepted
            &&& answer->Ok_0.provider_reference@ == row.record.delivery_id@
        },
        replay is Ok,
        replay->Ok_0.accepted,
        replay->Ok_0.outcome == PublishMeterEventResponseOutcome::Replayed,
        replay->Ok_0.provider_reference@ == row.record.delivery_id@,
{
}

/// Whatever a row has been through, a call that finds it and is answered with success is answered
/// with the delivery's own identifier, as replayed.
pub proof fn law_replays_name_the_delivery(
    row: MeterEffectRow,
    history: Seq<(MeterChange, i64)>,
    replay: Result<PublishMeterEventResponse, MeterFlowError>,
)
    requires
        meter_row_wf(row),
        forall|i: int|
            0 <= i < history.len() ==> meter_change_wf(
                (#[trigger] history[i]).0,
                row.record.delivery_id@,
            ),
        replayed_meter(meter_run(row, history).record, replay),
    ensures
        replay is Ok == (meter_run(row, history).record.status == EffectStatus::Accepted),
        replay is Ok ==> {
            &&& replay->Ok_0.accepted
            &&& replay->Ok_0.outcome == PublishMeterEventResponseOutcome::Replayed
            &&& replay->Ok_0.provider_reference@ == row.record.delivery_id@
        },
{
    law_meter_rows_stay_well_formed(row, history);
}

/// A quantity is a natural number in decimal: a further digit makes another one, as long as it is
/// not too long and did not begin with a zero, and nothing else does.
pub proof fn law_quantities_are_decimal(text: Seq<char>, c: char)
    ensures
        is_quantity(seq![c]) == ('0' as int <= c as int <= '9' as int),
        !is_quantity(Seq::empty()),
        is_quantity(text) ==> 1 <= text.len() <= 100,
        is_quantity(text) ==> is_quantity(text.push(c)) == ('0' as int <= c as int <= '9' as int
            && text.len() < 100 && text != seq!['0']),
{
    assert(seq![c][0] == c);
    let longer = text.push(c);
    assert(longer[text.len() as int] == c);
    if is_quantity(text) {
        assert(longer[0] == text[0]);
        assert forall|i: int| 0 <= i < text.len() implies is_digit(#[trigger] longer[i]) by {
            assert(longer[i] == text[i]);
        }
        if text.len() == 1 && text[0] == '0' {
            assert(text == seq!['0']);
        }
    }
}

/// The window of a usage event reaches 35 days back and five minutes ahead, to the nanosecond.
pub proof fn law_the_window_is_exact(occurred_at: Instant, now: Instant)
    requires
        occurred_at.nanosecond < 1000000000,
        now.nanosecond < 1000000000,
    ensures
        ({
            let elapsed = (now.unix_seconds - occurred_at.unix_seconds) * 1000000000 + (
            now.nanosecond - occurred_at.nanosecond);
            in_window(occurred_at, now) == (-(5 * 60 * 1000000000) <= elapsed <= 35 * 24 * 3600
                * 1000000000)
        }),
{
}

/// A usage event is well formed exactly where its delivery, its subject and its meter are names,
/// the delivery of at most 100 characters, and its quantity is one.
pub proof fn law_events_are_well_formed(request: PublishMeterEventRequest)
    ensures
        is_meter_request(request) == (is_name(request.delivery_id@) && request.delivery_id@.len()
            <= 100 && is_name(request.scope_kind@) && is_name(request.scope_id@) && is_name(
            request.subject@,
        ) && is_name(request.meter@) && is_quantity(request.quantity@)),
{
}

proof fn lemma_meter_lookup(meters: Seq<MeterMapping>, alias: Seq<char>)
    ensures
        meter_with_alias(meters, alias) is Some == exists|i: int|
            0 <= i < meters.len() && (#[trigger] meters[i]).alias@ == alias,
    decreases meters.len(),
{
    if meters.len() > 0 && meters[0].alias@ != alias {
        let rest = meters.skip(1);
        lemma_meter_lookup(rest, alias);
        if meter_with_alias(rest, alias) is Some {
            let i = choose|i: int| 0 <= i < rest.len() && (#[trigger] rest[i]).alias@ == alias;
            assert(meters[i + 1].alias@ == alias);
        } else {
            assert forall|i: int| 0 <= i < meters.len() implies (#[trigger] meters[i]).alias@
                != alias by {
                if i > 0 {
                    assert(rest[i - 1] == meters[i]);
                }
            }
        }
    }
}

/// Of several meters the first with an alias is the one that is found by it.
pub proof fn law_first_meter_is_found(meters: Seq<MeterMapping>, k: int)
    requires
        0 <= k < meters.len(),
        forall|j: int| 0 <= j < k ==> (#[trigger] meters[j]).alias@ != meters[k].alias@,
    ensures
        meter_with_alias(meters, meters[k].alias@) == Some(meters[k]),
    decreases k,
{
    if k > 0 {
        let rest = meters.skip(1);
        assert(meters[0].alias@ != meters[k].alias@);
        assert forall|j: int| 0 <= j < k - 1 implies (#[trigger] rest[j]).alias@
            != rest[k - 1].alias@ by {
            assert(meters[j + 1].alias@ != meters[k].alias@);
        }
        law_first_meter_is_found(rest, k - 1);
    }
}

/// A usage event is refused, in this order, as forbidden to whom the policy does not list for
/// meters, as invalid where it is not well formed or its time cannot be read or is outside the
/// window, and for a meter that is not configured; nothing else is refused. What is let through is
/// the caller's own, for its meter's event name and at its own time.
pub proof fn law_meter_events_are_refused_in_order(
    policy: MeterPolicy,
    caller: Seq<char>,
    request: PublishMeterEventRequest,
    now: Instant,
    start: Result<MeterStart, MeterFlowError>,
)
    requires
        begins_meter(policy, Some(caller), request, now, start),
    ensures
        ({
            let allowed = exists|i: int|
                0 <= i < policy.meter_instances@.len() && (#[trigger] policy.meter_instances@[i])@
                    == caller;
            let occurred_at = rfc3339_instant(request.occurred_at@);
            let sound = is_meter_request(request) && occurred_at is Some && in_window(
                occurred_at->0,
                now,
            );
            let configured = exists|i: int|
                0 <= i < policy.meters@.len() && (#[trigger] policy.meters@[i]).alias@
                    == request.meter@;
            &&& !allowed ==> start == Err::<MeterStart, MeterFlowError>(
                MeterFlowError::Domain(PublishMeterEventError::Forbidden),
            )
            &&& allowed && !sound ==> start == Err::<MeterStart, MeterFlowError>(
                MeterFlowError::Domain(PublishMeterEventError::InvalidEvent),
            )
            &&& allowed && sound && !configured ==> start == Err::<MeterStart, MeterFlowError>(
                MeterFlowError::Domain(PublishMeterEventError::MeterNotConfigured),
            )
            &&& allowed && sound && configured ==> start is Ok && start->Ok_0.caller@ == caller
                && start->Ok_0.occurred_at == occurred_at->0 && exists|i: int|
                0 <= i < policy.meters@.len() && (#[trigger] policy.meters@[i]).alias@
                    == request.meter@ && policy.meters@[i].event_name == start->Ok_0.event_name
        }),
{
    law_lists_are_exact(policy.meter_instances@, caller);
    lemma_meter_lookup(policy.meters@, request.meter@);
    lemma_found_meter(policy.meters@, request.meter@);
}

proof fn lemma_found_meter(meters: Seq<MeterMapping>, alias: Seq<char>)
    ensures
        meter_with_alias(meters, alias) is Some ==> exists|i: int|
            0 <= i < meters.len() && (#[trigger] meters[i]).alias@ == alias && meters[i]
                == meter_with_alias(meters, alias)->0,
    decreases meters.len(),
{
    if meters.len() > 0 && meters[0].alias@ != alias {
        let rest = meters.skip(1);
        lemma_found_meter(rest, alias);
        if meter_with_alias(rest, alias) is Some {
            let i = choose|i: int|
                0 <= i < rest.len() && (#[trigger] rest[i]).alias@ == alias && rest[i]
                    == meter_with_alias(rest, alias)->0;
            assert(meters[i + 1].alias@ == alias);
        }
    }
}

/// Without a name no one publishes usage events.
pub proof fn law_unnamed_callers_publish_nothing(
    policy: MeterPolicy,
    request: PublishMeterEventRequest,
    now: Instant,
    start: Result<MeterStart, MeterFlowError>,
)
    requires
        begins_meter(policy, None, request, now, start),
    ensures
        start == Err::<MeterStart, MeterFlowError>(
            MeterFlowError::Domain(PublishMeterEventError::Forbidden),
        ),
{
}

/// The effect of a usage event is the event's own, column by column, and its fingerprint is the
/// digest of all that the event says; without a customer there is none.
pub proof fn law_meter_effects_are_the_events(
    start: MeterStart,
    request: PublishMeterEventRequest,
    customer: Option<String>,
    ready: Result<MeterReady, MeterFlowError>,
)
    requires
        readies_meter(start, request, Ok(customer), ready),
    ensures
        ready is Ok == customer is Some,
        customer is None ==> ready == Err::<MeterReady, MeterFlowError>(
            MeterFlowError::Domain(PublishMeterEventError::AccountNotFound),
        ),
        ready is Ok ==> {
            let effect = ready->Ok_0.effect;
            &&& Some(ready->Ok_0.customer_id) == customer
            &&& effect.delivery_id@ == request.delivery_id@
            &&& effect.caller_instance@ == start.caller@
            &&& effect.scope_kind@ == request.scope_kind@
            &&& effect.scope_id@ == request.scope_id@
            &&& effect.subject@ == request.subject@
            &&& effect.meter_alias@ == request.meter@
            &&& effect.stripe_event_name@ == start.event_name@
            &&& effect.quantity@ == request.quantity@
            &&& effect.occurred_at == start.occurred_at
            &&& effect.request_hash@ == sha256_digest(object_json(meter_members(request)))
        },
{
}

/// An event that was recorded before is answered by where it stands: an accepted one with its own
/// reference, one that Stripe rejected as invalid, and an open one as unknown; a conflict is refused
/// and only a dispatch is sent.
pub proof fn law_recorded_meter_events_answer_by_status(
    claim: MeterEffectClaim,
    record: MeterEffectRecord,
    step: MeterStep,
)
    requires
        follows_meter_claim(Ok(claim), step),
    ensures
        claim == MeterEffectClaim::Conflict ==> step == MeterStep::Finish(
            Err(MeterFlowError::Domain(PublishMeterEventError::IdempotencyConflict)),
        ),
        claim == MeterEffectClaim::Dispatch(record) ==> step == MeterStep::Dispatch(record),
        claim is Dispatch == step is Dispatch,
        claim == MeterEffectClaim::Existing(record) && record.status == EffectStatus::Accepted
            && record.provider_reference is Some ==> {
            &&& step matches MeterStep::Finish(Ok(answer)) && {
                &&& answer.accepted
                &&& answer.outcome == PublishMeterEventResponseOutcome::Replayed
                &&& answer.provider_reference@ == record.provider_reference->0@
            }
        },
        claim == MeterEffectClaim::Existing(record) && record.status == EffectStatus::KnownFailure
            && opt_text(record.failure_code) == Some("stripe_rejected"@) ==> step
            == MeterStep::Finish(Err(MeterFlowError::Domain(PublishMeterEventError::InvalidEvent))),
        claim == MeterEffectClaim::Existing(record) && record.status == EffectStatus::KnownFailure
            && opt_text(record.failure_code) != Some("stripe_rejected"@) ==> (
        step matches MeterStep::Finish(Err(MeterFlowError::Runtime(failure))) && failure.detail@
            == "known Stripe meter failure has an invalid failure code"@),
        claim == MeterEffectClaim::Existing(record) && record.status == EffectStatus::Accepted
            && record.provider_reference is None ==> (step matches MeterStep::Finish(
            Err(MeterFlowError::Runtime(failure)),
        ) && failure.detail@ == "accepted Stripe meter effect has no provider reference"@),
        claim == MeterEffectClaim::Existing(record) && (record.status == EffectStatus::Prepared
            || record.status == EffectStatus::InFlight || record.status
            == EffectStatus::EffectUnknown) ==> step == MeterStep::Finish(
            Err(MeterFlowError::Domain(PublishMeterEventError::EffectUnknown)),
        ),
{
}

/// The request of a usage event is posted to Stripe's path for meter events, under the delivery as
/// idempotency key and as the event's identifier, with the event's name, customer, quantity and
/// time.
pub proof fn law_meter_requests_are_posted(
    api_base: Seq<char>,
    api_key: Seq<char>,
    request: PublishMeterEventRequest,
    event_name: Seq<char>,
    customer_id: Seq<char>,
    occurred_at: Instant,
    sent: Option<StripeRequest>,
)
    requires
        publishes(api_base, api_key, request, event_name, customer_id, occurred_at, sent),
    ensures
        sent is Some == joined_url(api_base, "v1/billing/meter_events"@) is Some,
        sent is Some ==> {
            &&& sent->0.method@ == "POST"@
            &&& Some(sent->0.url@) == joined_url(api_base, "v1/billing/meter_events"@)
            &&& pair_texts(sent->0.headers@).contains(("Idempotency-Key"@, request.delivery_id@))
            &&& pair_texts(sent->0.headers@).contains(("Authorization"@, "Bearer "@ + api_key))
            &&& sent->0.body@ == form_text(
                meter_fields(
                    request.quantity@,
                    request.delivery_id@,
                    event_name,
                    customer_id,
                    occurred_at.unix_seconds as int,
                ),
            )
        },
{
    if sent is Some {
        law_posts_go_where_they_are_meant(
            sent->0,
            api_base,
            api_key,
            meter_path(),
            form_text(
                meter_fields(
                    request.quantity@,
                    request.delivery_id@,
                    event_name,
                    customer_id,
                    occurred_at.unix_seconds as int,
                ),
            ),
            request.delivery_id@,
        );
    }
}

/// A published event is read from a success, refused for good by a refusal, and of unknown outcome
/// with any other answer or none.
pub proof fn law_meter_answers_are_followed(reply: HttpReply)
    ensures
        meter_reply_step(None) == MeterReplyStep::MarkUnknown,
        ({
            let succeeded = 200 <= reply.status <= 299;
            let refused = 400 <= reply.status <= 499 && reply.status != 408 && reply.status != 409
                && reply.status != 425 && reply.status != 429;
            let step = meter_reply_step(Some(reply));
            &&& succeeded && reply.body@.len() <= 1024 * 1024 ==> step == MeterReplyStep::Read(
                reply.body,
            )
            &&& refused ==> step == MeterReplyStep::Refuse
            &&& !refused && !(succeeded && reply.body@.len() <= 1024 * 1024) ==> step
                == MeterReplyStep::MarkUnknown
        }),
{
}

/// The first answer to a published event: accepted, under Stripe's reference, exactly where the
/// acceptance was recorded; a refusal is answered as such exactly where it was recorded; and what
/// was not recorded is not known.
pub proof fn law_meter_answers_need_the_record(
    provider_reference: String,
    recorded: bool,
    error: StoreError,
    answer: Result<PublishMeterEventResponse, MeterFlowError>,
    refusal: MeterFlowError,
)
    ensures
        accepted_meter(provider_reference, Ok(recorded), answer) ==> {
            &&& answer is Ok == recorded
            &&& answer is Ok ==> answer->Ok_0.accepted && answer->Ok_0.outcome
                == PublishMeterEventResponseOutcome::Accepted && answer->Ok_0.provider_reference@
                == provider_reference@
            &&& answer is Err ==> answer->Err_0 == MeterFlowError::Domain(
                PublishMeterEventError::EffectUnknown,
            )
        },
        accepted_meter(provider_reference, Err(error), answer) ==> (answer matches Err(
            MeterFlowError::Runtime(failure),
        ) && failure.detail@ == store_error_text(error)),
        failed_meter(Ok(recorded), refusal) ==> refusal == MeterFlowError::Domain(
            if recorded {
                PublishMeterEventError::InvalidEvent
            } else {
                PublishMeterEventError::EffectUnknown
            },
        ),
        failed_meter(Err(error), refusal) ==> (refusal matches MeterFlowError::Runtime(failure)
            && failure.detail@ == store_error_text(error)),
{
}

/// A store that fails while an event is prepared or claimed is told as it is.
pub proof fn law_meter_store_failures_are_told(
    start: MeterStart,
    request: PublishMeterEventRequest,
    error: StoreError,
    ready: Result<MeterReady, MeterFlowError>,
    step: MeterStep,
)
    ensures
        readies_meter(start, request, Err(error), ready) ==> (ready matches Err(
            MeterFlowError::Runtime(failure),
        ) && failure.detail@ == store_error_text(error)),
        follows_meter_claim(Err(error), step) ==> (step matches MeterStep::Finish(
            Err(MeterFlowError::Runtime(failure)),
        ) && failure.detail@ == store_error_text(error)),
{
}

/// An answered event counts only where it names the delivery.
pub proof fn law_references_are_the_deliverys(event: StripeMeterEvent, delivery_id: Seq<char>)
    ensures
        meter_reference(None, delivery_id) is None,
        event.identifier@ == delivery_id ==> opt_text(meter_reference(Some(event), delivery_id))
            == Some(delivery_id),
        event.identifier@ != delivery_id ==> meter_reference(Some(event), delivery_id) is None,
{
}

} // verus!
