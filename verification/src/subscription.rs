//! The projected subscription of a billing subject.

use vstd::prelude::*;

use crate::clock::{format_rfc3339, rfc3339_text, Instant};
use crate::config::{is_name, law_lists_are_exact, listed, StripeSubscriptionConfig};
use crate::contract::{
    failure, store_failure, GetSubscriptionError, GetSubscriptionRequest, GetSubscriptionResponse,
    GetSubscriptionResponseEntitlementState, GetSubscriptionResponseStatus, RuntimeFailure,
};
use crate::request::{is_subject, valid_subject_request};
use crate::store::{quoted, quoted_text, store_error_text, StoreError};
use crate::text::{opt_str, opt_text, same};

verus! {

/// A billing subject and what is projected of its subscription.
pub struct BillingSubject {
    pub scope_kind: String,
    pub scope_id: String,
    pub subject: String,
    pub customer_id: String,
    pub subscription_id: Option<String>,
    pub price_alias: Option<String>,
    pub subscription_status: String,
    pub cancel_at_period_end: bool,
    pub current_period_end: Option<Instant>,
    pub entitlement_state: String,
    pub revision: i64,
}

/// Whether a status gives access: `trialing` and `active` do.
pub open spec fn gives_access(status: Seq<char>) -> bool {
    status == "trialing"@ || status == "active"@
}

/// Decides [`gives_access`].
pub fn access_given(status: &str) -> (r: bool)
    ensures
        r == gives_access(status@),
{
    same(status, "trialing") || same(status, "active")
}

/// Why a subscription was not returned.
#[derive(Debug)]
pub enum SubscriptionFlowError {
    Domain(GetSubscriptionError),
    Runtime(RuntimeFailure),
}

/// The refusal of a request for a subscription.
pub open spec fn get_refusal(
    config: StripeSubscriptionConfig,
    caller: Option<Seq<char>>,
    request: GetSubscriptionRequest,
) -> Option<GetSubscriptionError> {
    if !listed(config@.product_instances, caller) {
        Some(GetSubscriptionError::Forbidden)
    } else if !is_subject(request.scope_kind@, request.scope_id@, request.subject@) {
        Some(GetSubscriptionError::InvalidRequest)
    } else {
        None
    }
}

/// Checks a request for a subscription.
pub fn begin_get_subscription(
    config: &StripeSubscriptionConfig,
    caller: Option<&str>,
    request: &GetSubscriptionRequest,
) -> (r: Result<(), SubscriptionFlowError>)
    ensures
        match get_refusal(*config, opt_str(caller), *request) {
            Some(error) => r == Err::<(), SubscriptionFlowError>(
                SubscriptionFlowError::Domain(error),
            ),
            None => r is Ok,
        },
{
    if !config.product_allowed(caller) {
        return Err(SubscriptionFlowError::Domain(GetSubscriptionError::Forbidden));
    }
    if !valid_subject_request(
        request.scope_kind.as_str(),
        request.scope_id.as_str(),
        request.subject.as_str(),
    ) {
        return Err(SubscriptionFlowError::Domain(GetSubscriptionError::InvalidRequest));
    }
    Ok(())
}

/// The status that a stored name stands for.
pub open spec fn subscription_status_of(text: Seq<char>) -> Option<GetSubscriptionResponseStatus> {
    if text == "none"@ {
        Some(GetSubscriptionResponseStatus::Absent)
    } else if text == "incomplete"@ {
        Some(GetSubscriptionResponseStatus::Incomplete)
    } else if text == "incomplete_expired"@ {
        Some(GetSubscriptionResponseStatus::IncompleteExpired)
    } else if text == "trialing"@ {
        Some(GetSubscriptionResponseStatus::Trialing)
    } else if text == "active"@ {
        Some(GetSubscriptionResponseStatus::Active)
    } else if text == "past_due"@ {
        Some(GetSubscriptionResponseStatus::PastDue)
    } else if text == "canceled"@ {
        Some(GetSubscriptionResponseStatus::Canceled)
    } else if text == "unpaid"@ {
        Some(GetSubscriptionResponseStatus::Unpaid)
    } else if text == "paused"@ {
        Some(GetSubscriptionResponseStatus::Paused)
    } else if text == "unknown"@ {
        Some(GetSubscriptionResponseStatus::Unknown)
    } else {
        None
    }
}

fn read_subscription_status(text: &str) -> (r: Option<GetSubscriptionResponseStatus>)
    ensures
        r == subscription_status_of(text@),
{
    if same(text, "none") {
        Some(GetSubscriptionResponseStatus::Absent)
    } else if same(text, "incomplete") {
        Some(GetSubscriptionResponseStatus::Incomplete)
    } else if same(text, "incomplete_expired") {
        Some(GetSubscriptionResponseStatus::IncompleteExpired)
    } else if same(text, "trialing") {
        Some(GetSubscriptionResponseStatus::Trialing)
    } else if same(text, "active") {
        Some(GetSubscriptionResponseStatus::Active)
    } else if same(text, "past_due") {
        Some(GetSubscriptionResponseStatus::PastDue)
    } else if same(text, "canceled") {
        Some(GetSubscriptionResponseStatus::Canceled)
    } else if same(text, "unpaid") {
        Some(GetSubscriptionResponseStatus::Unpaid)
    } else if same(text, "paused") {
        Some(GetSubscriptionResponseStatus::Paused)
    } else if same(text, "unknown") {
        Some(GetSubscriptionResponseStatus::Unknown)
    } else {
        None
    }
}

/// The entitlement state that a stored name stands for.
pub open spec fn entitlement_state_of(text: Seq<char>) -> Option<
    GetSubscriptionResponseEntitlementState,
> {
    if text == "pending"@ {
        Some(GetSubscriptionResponseEntitlementState::Pending)
    } else if text == "granted"@ {
        Some(GetSubscriptionResponseEntitlementState::Granted)
    } else if text == "revoked"@ {
        Some(GetSubscriptionResponseEntitlementState::Revoked)
    } else if text == "failed"@ {
        Some(GetSubscriptionResponseEntitlementState::Failed)
    } else {
        None
    }
}

fn read_entitlement_state(text: &str) -> (r: Option<GetSubscriptionResponseEntitlementState>)
    ensures
        r == entitlement_state_of(text@),
{
    if same(text, "pending") {
        Some(GetSubscriptionResponseEntitlementState::Pending)
    } else if same(text, "granted") {
        Some(GetSubscriptionResponseEntitlementState::Granted)
    } else if same(text, "revoked") {
        Some(GetSubscriptionResponseEntitlementState::Revoked)
    } else if same(text, "failed") {
        Some(GetSubscriptionResponseEntitlementState::Failed)
    } else {
        None
    }
}

/// The message of what keeps a subject from being returned.
pub open spec fn subject_error(subject: BillingSubject) -> Option<Seq<char>> {
    if subscription_status_of(subject.subscription_status@) is None {
        Some(quoted_text("invalid stored subscription status"@, subject.subscription_status@))
    } else if entitlement_state_of(subject.entitlement_state@) is None {
        Some(quoted_text("invalid stored entitlement state"@, subject.entitlement_state@))
    } else if subject.current_period_end is Some {
        match rfc3339_text(subject.current_period_end->0) {
            Ok(_) => None,
            Err(message) => Some(message),
        }
    } else {
        None
    }
}

/// Whether a response shows a subject.
pub open spec fn shows(subject: BillingSubject, response: GetSubscriptionResponse) -> bool {
    &&& response.cancel_at_period_end == subject.cancel_at_period_end
    &&& opt_text(response.current_period_end) == match subject.current_period_end {
        Some(instant) => match rfc3339_text(instant) {
            Ok(text) => Some(text),
            Err(_) => None,
        },
        None => None,
    }
    &&& response.customer_id == subject.customer_id
    &&& Some(response.entitlement_state) == entitlement_state_of(subject.entitlement_state@)
    &&& response.price_alias == subject.price_alias
    &&& response.revision == subject.revision
    &&& response.scope_id == subject.scope_id
    &&& response.scope_kind == subject.scope_kind
    &&& Some(response.status) == subscription_status_of(subject.subscription_status@)
    &&& response.subject == subject.subject
    &&& response.subscription_id == subject.subscription_id
}

/// Makes the response that shows a subject.
pub fn subscription_response(subject: BillingSubject) -> (r: Result<
    GetSubscriptionResponse,
    RuntimeFailure,
>)
    ensures
        match subject_error(subject) {
            Some(message) => r is Err && r->Err_0.detail@ == message,
            None => r is Ok && shows(subject, r->Ok_0),
        },
{
    let status = match read_subscription_status(subject.subscription_status.as_str()) {
        Some(status) => status,
        None => return Err(
            failure(
                quoted("invalid stored subscription status", subject.subscription_status.as_str()),
            ),
        ),
    };
    let entitlement_state = match read_entitlement_state(subject.entitlement_state.as_str()) {
        Some(state) => state,
        None => return Err(
            failure(quoted("invalid stored entitlement state", subject.entitlement_state.as_str())),
        ),
    };
    let current_period_end = match &subject.current_period_end {
        Some(instant) => match format_rfc3339(instant) {
            Ok(text) => Some(text),
            Err(message) => return Err(failure(message)),
        },
        None => None,
    };
    Ok(
        GetSubscriptionResponse {
            cancel_at_period_end: subject.cancel_at_period_end,
            current_period_end,
            customer_id: subject.customer_id,
            entitlement_state,
            price_alias: subject.price_alias,
            revision: subject.revision,
            scope_id: subject.scope_id,
            scope_kind: subject.scope_kind,
            status,
            subject: subject.subject,
            subscription_id: subject.subscription_id,
        },
    )
}

/// Whether an answer to a request for a subscription is that of what the store holds.
pub open spec fn answers_get(
    loaded: Result<Option<BillingSubject>, StoreError>,
    answer: Result<GetSubscriptionResponse, SubscriptionFlowError>,
) -> bool {
    match loaded {
        Err(error) => answer matches Err(SubscriptionFlowError::Runtime(failure)) && failure.detail@
            == store_error_text(error),
        Ok(None) => answer == Err::<GetSubscriptionResponse, SubscriptionFlowError>(
            SubscriptionFlowError::Domain(GetSubscriptionError::NotFound),
        ),
        Ok(Some(subject)) => match subject_error(subject) {
            Some(message) => answer matches Err(SubscriptionFlowError::Runtime(failure))
                && failure.detail@ == message,
            None => answer is Ok && shows(subject, answer->Ok_0),
        },
    }
}

/// Answers a request for a subscription with what the store holds.
pub fn finish_get_subscription(loaded: Result<Option<BillingSubject>, StoreError>) -> (r: Result<
    GetSubscriptionResponse,
    SubscriptionFlowError,
>)
    ensures
        answers_get(loaded, r),
{
    match loaded {
        Err(error) => Err(SubscriptionFlowError::Runtime(store_failure(&error))),
        Ok(None) => Err(SubscriptionFlowError::Domain(GetSubscriptionError::NotFound)),
        Ok(Some(subject)) => match subscription_response(subject) {
            Ok(response) => Ok(response),
            Err(failure) => Err(SubscriptionFlowError::Runtime(failure)),
        },
    }
}

proof fn lemma_stored_names()
    ensures
        "pending"@ != "granted"@ && "pending"@ != "revoked"@ && "pending"@ != "failed"@,
        "granted"@ != "revoked"@ && "granted"@ != "failed"@ && "revoked"@ != "failed"@,
        "none"@.len() == 4 && "incomplete"@.len() == 10 && "incomplete_expired"@.len() == 18,
        "trialing"@.len() == 8 && "active"@.len() == 6 && "past_due"@.len() == 8,
        "canceled"@.len() == 8 && "unpaid"@.len() == 6 && "paused"@.len() == 6,
        "unknown"@.len() == 7,
        "trialing"@[0] == 't' && "past_due"@[0] == 'p' && "canceled"@[0] == 'c',
        "active"@[0] == 'a' && "unpaid"@[0] == 'u' && "paused"@[0] == 'p',
{
    reveal_strlit("pending");
    reveal_strlit("granted");
    reveal_strlit("revoked");
    reveal_strlit("failed");
    assert("pending"@[0] == 'p' && "granted"@[0] == 'g' && "revoked"@[0] == 'r');
    assert("pending"@.len() == 7 && "granted"@.len() == 7 && "failed"@.len() == 6);
    reveal_strlit("none");
    reveal_strlit("incomplete");
    reveal_strlit("incomplete_expired");
    reveal_strlit("trialing");
    reveal_strlit("active");
    reveal_strlit("past_due");
    reveal_strlit("canceled");
    reveal_strlit("unpaid");
    reveal_strlit("paused");
    reveal_strlit("unknown");
}

/// A stored subject is shown with the entitlement state whose name it holds, and with no other: a
/// subject that is shown as granted is one that is stored as granted.
pub proof fn law_entitlement_states_are_shown_by_name(
    subject: BillingSubject,
    answer: Result<GetSubscriptionResponse, SubscriptionFlowError>,
)
    requires
        answers_get(Ok(Some(subject)), answer),
        answer is Ok,
    ensures
        (answer->Ok_0.entitlement_state == GetSubscriptionResponseEntitlementState::Pending) == (
        subject.entitlement_state@ == "pending"@),
        (answer->Ok_0.entitlement_state == GetSubscriptionResponseEntitlementState::Granted) == (
        subject.entitlement_state@ == "granted"@),
        (answer->Ok_0.entitlement_state == GetSubscriptionResponseEntitlementState::Revoked) == (
        subject.entitlement_state@ == "revoked"@),
        (answer->Ok_0.entitlement_state == GetSubscriptionResponseEntitlementState::Failed) == (
        subject.entitlement_state@ == "failed"@),
{
    lemma_stored_names();
}

/// A stored subject is shown with the status whose name it holds, and with no other.
pub proof fn law_statuses_are_shown_by_name(
    subject: BillingSubject,
    answer: Result<GetSubscriptionResponse, SubscriptionFlowError>,
)
    requires
        answers_get(Ok(Some(subject)), answer),
        answer is Ok,
    ensures
        (answer->Ok_0.status == GetSubscriptionResponseStatus::Absent) == (
        subject.subscription_status@ == "none"@),
        (answer->Ok_0.status == GetSubscriptionResponseStatus::Incomplete) == (
        subject.subscription_status@ == "incomplete"@),
        (answer->Ok_0.status == GetSubscriptionResponseStatus::IncompleteExpired) == (
        subject.subscription_status@ == "incomplete_expired"@),
        (answer->Ok_0.status == GetSubscriptionResponseStatus::Trialing) == (
        subject.subscription_status@ == "trialing"@),
        (answer->Ok_0.status == GetSubscriptionResponseStatus::Active) == (
        subject.subscription_status@ == "active"@),
        (answer->Ok_0.status == GetSubscriptionResponseStatus::PastDue) == (
        subject.subscription_status@ == "past_due"@),
        (answer->Ok_0.status == GetSubscriptionResponseStatus::Canceled) == (
        subject.subscription_status@ == "canceled"@),
        (answer->Ok_0.status == GetSubscriptionResponseStatus::Unpaid) == (
        subject.subscription_status@ == "unpaid"@),
        (answer->Ok_0.status == GetSubscriptionResponseStatus::Paused) == (
        subject.subscription_status@ == "paused"@),
        (answer->Ok_0.status == GetSubscriptionResponseStatus::Unknown) == (
        subject.subscription_status@ == "unknown"@),
{
    lemma_stored_names();
}

/// A stored subject is shown with its own identifiers, price, period and revision.
pub proof fn law_subjects_are_shown_as_stored(
    subject: BillingSubject,
    answer: Result<GetSubscriptionResponse, SubscriptionFlowError>,
)
    requires
        answers_get(Ok(Some(subject)), answer),
        answer is Ok,
    ensures
        answer->Ok_0.scope_kind@ == subject.scope_kind@,
        answer->Ok_0.scope_id@ == subject.scope_id@,
        answer->Ok_0.subject@ == subject.subject@,
        answer->Ok_0.customer_id@ == subject.customer_id@,
        opt_text(answer->Ok_0.subscription_id) == opt_text(subject.subscription_id),
        opt_text(answer->Ok_0.price_alias) == opt_text(subject.price_alias),
        answer->Ok_0.cancel_at_period_end == subject.cancel_at_period_end,
        answer->Ok_0.revision == subject.revision,
        answer->Ok_0.current_period_end is Some == subject.current_period_end is Some,
        subject.current_period_end is Some ==> rfc3339_text(subject.current_period_end->0)
            == Ok::<Seq<char>, Seq<char>>(answer->Ok_0.current_period_end->0@),
{
}

/// Every stored subject whose status, entitlement state and period can be read is shown; one that
/// cannot fails, and where there is none nothing is found.
pub proof fn law_readable_subjects_are_shown(
    subject: BillingSubject,
    error: StoreError,
    answer: Result<GetSubscriptionResponse, SubscriptionFlowError>,
)
    ensures
        answers_get(Ok(Some(subject)), answer) && (subject.entitlement_state@ == "pending"@
            || subject.entitlement_state@ == "granted"@ || subject.entitlement_state@ == "revoked"@
            || subject.entitlement_state@ == "failed"@) && (subject.subscription_status@ == "none"@
            || subject.subscription_status@ == "incomplete"@ || subject.subscription_status@
            == "incomplete_expired"@ || subject.subscription_status@ == "trialing"@
            || subject.subscription_status@ == "active"@ || subject.subscription_status@
            == "past_due"@ || subject.subscription_status@ == "canceled"@
            || subject.subscription_status@ == "unpaid"@ || subject.subscription_status@
            == "paused"@ || subject.subscription_status@ == "unknown"@) && (
        subject.current_period_end is Some ==> rfc3339_text(subject.current_period_end->0) is Ok)
            ==> answer is Ok,
        answers_get(Ok(Some(subject)), answer) && answer is Err ==> answer->Err_0 is Runtime,
        answers_get(Ok(None), answer) ==> answer == Err::<
            GetSubscriptionResponse,
            SubscriptionFlowError,
        >(SubscriptionFlowError::Domain(GetSubscriptionError::NotFound)),
        answers_get(Err(error), answer) ==> (answer matches Err(SubscriptionFlowError::Runtime(failure)) && failure.detail@ == store_error_text(error)),
{
}

/// A request is refused, in this order, as forbidden to whom the policy does not list for the
/// product, and as invalid where it names no subject; nothing else is refused.
pub proof fn law_get_requests_are_refused_in_order(
    config: StripeSubscriptionConfig,
    caller: Seq<char>,
    request: GetSubscriptionRequest,
)
    ensures
        get_refusal(config, None, request) == Some(GetSubscriptionError::Forbidden),
        ({
            let refusal = get_refusal(config, Some(caller), request);
            let allowed = exists|i: int|
                0 <= i < config.product_instances@.len() && (
                #[trigger] config.product_instances@[i])@ == caller;
            let sound = is_name(request.scope_kind@) && is_name(request.scope_id@) && is_name(
                request.subject@,
            );
            &&& !allowed ==> refusal == Some(GetSubscriptionError::Forbidden)
            &&& allowed && !sound ==> refusal == Some(GetSubscriptionError::InvalidRequest)
            &&& allowed && sound ==> refusal is None
        }),
{
    law_lists_are_exact(config.product_instances@, caller);
}

/// Of all statuses, `trialing` and `active` give access and no other does.
pub proof fn law_only_trialing_and_active_give_access(
    subject: BillingSubject,
    answer: Result<GetSubscriptionResponse, SubscriptionFlowError>,
)
    requires
        answers_get(Ok(Some(subject)), answer),
        answer is Ok,
    ensures
        gives_access(subject.subscription_status@) == (answer->Ok_0.status
            == GetSubscriptionResponseStatus::Trialing || answer->Ok_0.status
            == GetSubscriptionResponseStatus::Active),
{
    lemma_stored_names();
}

/// A stored status or entitlement state that is no name of one is told with what is stored, and a
/// period that cannot be written with the reason.
pub proof fn law_unreadable_subjects_are_told(
    subject: BillingSubject,
    answer: Result<GetSubscriptionResponse, SubscriptionFlowError>,
)
    requires
        answers_get(Ok(Some(subject)), answer),
    ensures
        subscription_status_of(subject.subscription_status@) is None ==> (answer matches Err(
            SubscriptionFlowError::Runtime(failure),
        ) && failure.detail@ == quoted_text(
            "invalid stored subscription status"@,
            subject.subscription_status@,
        )),
        subscription_status_of(subject.subscription_status@) is Some && entitlement_state_of(
            subject.entitlement_state@,
        ) is None ==> (answer matches Err(SubscriptionFlowError::Runtime(failure))
            && failure.detail@ == quoted_text(
            "invalid stored entitlement state"@,
            subject.entitlement_state@,
        )),
        answer is Ok && subject.current_period_end is Some ==> rfc3339_text(
            subject.current_period_end->0,
        ) is Ok,
{
}

} // verus!
