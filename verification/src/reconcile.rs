//! Reconciling a subscription, step by step: fetch its current state, converge the entitlements,
//! and settle the reconciliation. Between two steps the caller of these functions performs what
//! the last one asked for.

use vstd::prelude::*;

use crate::clock::{format_rfc3339, rfc3339_text, Instant};
use crate::config::{
    is_stripe_id, law_first_price_is_found, law_lists_are_exact, law_price_id_lookup_is_exact,
    listed, price_with_id, EntitlementMapping, PriceMapping, StripeSubscriptionConfig,
};
use crate::contract::{
    store_failure, AdminFlowError, GetSubscriptionResponse,
    GetSubscriptionResponseEntitlementState, GetSubscriptionResponseStatus, ReconcileNextError,
    ReconcileNextResponse, ReconcileNextResponseStatus,
};
use crate::lease::{after_projection, CanonicalState, Convergence, ReconciliationClaim};
use crate::store::{out_of_range, store_error_text, StoreError, OUT_OF_RANGE};
use crate::stripe::{
    is_subscription, is_success, law_subscriptions_are_projected_as_answered,
    law_subscriptions_have_one_price, parse_canonical_subscription, projects, CanonicalSubscription,
    HttpReply, StripeSubscriptionWire, MAX_STRIPE_RESPONSE_BYTES,
};
use crate::subscription::{
    access_given, answers_get, gives_access, law_entitlement_states_are_shown_by_name,
    law_statuses_are_shown_by_name, law_subjects_are_shown_as_stored, BillingSubject,
    SubscriptionFlowError,
};
use crate::text::{clone_text, opt_str, opt_text, same};

verus! {

/// Why a reconciliation was handed back.
#[derive(Clone, Copy, Debug, PartialEq, Eq, Structural)]
pub enum RetryCode {
    StripeFetchFailed,
    StripeFetchRejected,
    StripeSubscriptionInvalid,
    StripeCustomerMismatch,
    BillingSubjectNotLinked,
    EntitlementRevokeRejected,
    EntitlementRevokeUnavailable,
    EntitlementPutRejected,
    EntitlementPutUnavailable,
    EntitlementBindingStoreFailed,
}

/// The stored text of a code.
pub open spec fn retry_text(code: RetryCode) -> Seq<char> {
    match code {
        RetryCode::StripeFetchFailed => "stripe_fetch_failed"@,
        RetryCode::StripeFetchRejected => "stripe_fetch_rejected"@,
        RetryCode::StripeSubscriptionInvalid => "stripe_subscription_invalid"@,
        RetryCode::StripeCustomerMismatch => "stripe_customer_mismatch"@,
        RetryCode::BillingSubjectNotLinked => "billing_subject_not_linked"@,
        RetryCode::EntitlementRevokeRejected => "entitlement_revoke_rejected"@,
        RetryCode::EntitlementRevokeUnavailable => "entitlement_revoke_unavailable"@,
        RetryCode::EntitlementPutRejected => "entitlement_put_rejected"@,
        RetryCode::EntitlementPutUnavailable => "entitlement_put_unavailable"@,
        RetryCode::EntitlementBindingStoreFailed => "entitlement_binding_store_failed"@,
    }
}

impl RetryCode {
    /// The stored text.
    pub fn as_str(self) -> (r: &'static str)
        ensures
            r@ == retry_text(self),
    {
        match self {
            RetryCode::StripeFetchFailed => "stripe_fetch_failed",
            RetryCode::StripeFetchRejected => "stripe_fetch_rejected",
            RetryCode::StripeSubscriptionInvalid => "stripe_subscription_invalid",
            RetryCode::StripeCustomerMismatch => "stripe_customer_mismatch",
            RetryCode::BillingSubjectNotLinked => "billing_subject_not_linked",
            RetryCode::EntitlementRevokeRejected => "entitlement_revoke_rejected",
            RetryCode::EntitlementRevokeUnavailable => "entitlement_revoke_unavailable",
            RetryCode::EntitlementPutRejected => "entitlement_put_rejected",
            RetryCode::EntitlementPutUnavailable => "entitlement_put_unavailable",
            RetryCode::EntitlementBindingStoreFailed => "entitlement_binding_store_failed",
        }
    }
}

/// Every stored failure code of a reconciliation is short: at most 32 characters.
pub proof fn law_retry_codes_are_bounded(code: RetryCode)
    ensures
        0 < retry_text(code).len() <= 32,
{
    reveal_strlit("stripe_fetch_failed");
    reveal_strlit("stripe_fetch_rejected");
    reveal_strlit("stripe_subscription_invalid");
    reveal_strlit("stripe_customer_mismatch");
    reveal_strlit("billing_subject_not_linked");
    reveal_strlit("entitlement_revoke_rejected");
    reveal_strlit("entitlement_revoke_unavailable");
    reveal_strlit("entitlement_put_rejected");
    reveal_strlit("entitlement_put_unavailable");
    reveal_strlit("entitlement_binding_store_failed");
}

/// Whether a caller is let run reconciliations under its own name, or refused.
pub open spec fn begins_reconcile(
    config: StripeSubscriptionConfig,
    caller: Option<Seq<char>>,
    worker: Result<String, AdminFlowError>,
) -> bool {
    if listed(config@.worker_instances, caller) {
        worker is Ok && worker->Ok_0@ == caller->0
    } else {
        worker == Err::<String, AdminFlowError>(
            AdminFlowError::Reconcile(ReconcileNextError::Forbidden),
        )
    }
}

/// Checks that a caller may run reconciliations, and gives its name.
pub fn begin_reconcile(config: &StripeSubscriptionConfig, caller: Option<&str>) -> (r: Result<
    String,
    AdminFlowError,
>)
    ensures
        begins_reconcile(*config, opt_str(caller), r),
{
    let worker = match caller {
        Some(worker) => worker,
        None => return Err(AdminFlowError::Reconcile(ReconcileNextError::Forbidden)),
    };
    if !config.worker_allowed(caller) {
        return Err(AdminFlowError::Reconcile(ReconcileNextError::Forbidden));
    }
    Ok(worker.to_owned())
}

/// What an attempt to claim leads to.
pub enum ClaimedStep {
    /// Fetch the subscription of this claim.
    Fetch(ReconciliationClaim),
    /// Answer.
    Finish(Result<ReconcileNextResponse, AdminFlowError>),
}

/// The answer where there is nothing to reconcile.
pub open spec fn idle() -> ReconcileNextResponse {
    ReconcileNextResponse {
        revision: None,
        status: ReconcileNextResponseStatus::Idle,
        subscription_id: None,
    }
}

/// Whether a step is what an attempt to claim leads to.
pub open spec fn follows_claim(
    claim: Result<Option<ReconciliationClaim>, StoreError>,
    step: ClaimedStep,
) -> bool {
    match claim {
        Err(error) => step matches ClaimedStep::Finish(Err(AdminFlowError::Runtime(failure)))
            && failure.detail@ == store_error_text(error),
        Ok(None) => step == ClaimedStep::Finish(Ok(idle())),
        Ok(Some(claim)) => step == ClaimedStep::Fetch(claim),
    }
}

/// Decides what an attempt to claim leads to.
pub fn reconciliation_claimed(claim: Result<Option<ReconciliationClaim>, StoreError>) -> (r:
    ClaimedStep)
    ensures
        follows_claim(claim, r),
{
    match claim {
        Err(error) => ClaimedStep::Finish(
            Err(AdminFlowError::Runtime(store_failure(&error))),
        ),
        Ok(None) => ClaimedStep::Finish(
            Ok(
                ReconcileNextResponse {
                    revision: None,
                    status: ReconcileNextResponseStatus::Idle,
                    subscription_id: None,
                },
            ),
        ),
        Ok(Some(claim)) => ClaimedStep::Fetch(claim),
    }
}

/// The body of a fetched subscription, or the code with which the work is handed back.
pub open spec fn fetched(reply: Option<HttpReply>) -> Result<Vec<u8>, RetryCode> {
    match reply {
        None => Err(RetryCode::StripeFetchFailed),
        Some(reply) => if is_success(reply.status as int) {
            Ok(reply.body)
        } else {
            Err(RetryCode::StripeFetchRejected)
        },
    }
}

/// Takes the body of a fetched subscription, or the code with which the work is handed back.
pub fn subscription_fetched(reply: Option<HttpReply>) -> (r: Result<Vec<u8>, RetryCode>)
    ensures
        r == fetched(reply),
{
    match reply {
        None => Err(RetryCode::StripeFetchFailed),
        Some(reply) => if 200 <= reply.status && reply.status < 300 {
            Ok(reply.body)
        } else {
            Err(RetryCode::StripeFetchRejected)
        },
    }
}

/// Whether this is the current state of a claimed subscription in a body of this size, or the code
/// with which the work is handed back.
pub open spec fn reads_subscription(
    claim: ReconciliationClaim,
    body_bytes: usize,
    wire: Option<StripeSubscriptionWire>,
    read: Result<CanonicalSubscription, RetryCode>,
) -> bool {
    if !(body_bytes <= MAX_STRIPE_RESPONSE_BYTES && wire is Some && is_subscription(wire->0)) {
        read == Err::<CanonicalSubscription, RetryCode>(RetryCode::StripeSubscriptionInvalid)
    } else if wire->0.customer@ != claim.customer_id@ {
        read == Err::<CanonicalSubscription, RetryCode>(RetryCode::StripeCustomerMismatch)
    } else {
        read is Ok && projects(wire->0, read->Ok_0)
    }
}

/// Takes the current state of a claimed subscription from a body of this size, or gives the code
/// with which the work is handed back.
pub fn subscription_read(
    claim: &ReconciliationClaim,
    body_bytes: usize,
    wire: Option<StripeSubscriptionWire>,
) -> (r: Result<CanonicalSubscription, RetryCode>)
    ensures
        reads_subscription(*claim, body_bytes, wire, r),
{
    let canonical = match parse_canonical_subscription(body_bytes, wire) {
        Some(canonical) => canonical,
        None => return Err(RetryCode::StripeSubscriptionInvalid),
    };
    if !same(canonical.customer_id.as_str(), claim.customer_id.as_str()) {
        return Err(RetryCode::StripeCustomerMismatch);
    }
    Ok(canonical)
}

/// Whether a subject has this subscription.
pub open spec fn has_subscription(subject: BillingSubject, subscription_id: Seq<char>) -> bool {
    opt_text(subject.subscription_id) == Some(subscription_id)
}

/// Whether a subject may be the one of a subscription: it has the subscription or the customer.
pub open spec fn may_own(
    subject: BillingSubject,
    subscription_id: Seq<char>,
    customer_id: Seq<char>,
) -> bool {
    has_subscription(subject, subscription_id) || subject.customer_id@ == customer_id
}

/// The place of a subject among those that may be the one of a subscription: first those without
/// any subscription yet, then those with this one, then those with another.
pub open spec fn place(subject: BillingSubject, subscription_id: Seq<char>) -> int {
    if subject.subscription_id is None {
        0
    } else if has_subscription(subject, subscription_id) {
        1
    } else {
        2
    }
}

/// Whether the subject at `i` is the one to be reconciled: of those that may be the one of the
/// subscription it has the first place, and of those in the same place it is the first.
pub open spec fn is_candidate(
    subjects: Seq<BillingSubject>,
    subscription_id: Seq<char>,
    customer_id: Seq<char>,
    i: int,
) -> bool {
    &&& 0 <= i < subjects.len()
    &&& may_own(subjects[i], subscription_id, customer_id)
    &&& forall|j: int|
        0 <= j < subjects.len() && may_own(#[trigger] subjects[j], subscription_id, customer_id)
            ==> place(subjects[i], subscription_id) <= place(subjects[j], subscription_id) && (place(
            subjects[i],
            subscription_id,
        ) == place(subjects[j], subscription_id) ==> i <= j)
}

/// Whether no subject may be the one of a subscription.
pub open spec fn no_candidate(
    subjects: Seq<BillingSubject>,
    subscription_id: Seq<char>,
    customer_id: Seq<char>,
) -> bool {
    forall|j: int|
        0 <= j < subjects.len() ==> !may_own(#[trigger] subjects[j], subscription_id, customer_id)
}

/// Whether this is the subject to be reconciled, or there is none.
pub open spec fn picks(
    subjects: Seq<BillingSubject>,
    subscription_id: Seq<char>,
    customer_id: Seq<char>,
    picked: Option<BillingSubject>,
) -> bool {
    match picked {
        Some(subject) => exists|i: int| #[trigger]
            is_candidate(subjects, subscription_id, customer_id, i) && subject == subjects[i],
        None => no_candidate(subjects, subscription_id, customer_id),
    }
}

fn find_place(subject: &BillingSubject, subscription_id: &str) -> (r: u8)
    ensures
        r == place(*subject, subscription_id@),
{
    match &subject.subscription_id {
        None => 0,
        Some(own) => if same(own.as_str(), subscription_id) {
            1
        } else {
            2
        },
    }
}

/// Picks the subject to be reconciled.
pub fn reconciliation_candidate(
    subjects: Vec<BillingSubject>,
    subscription_id: &str,
    customer_id: &str,
) -> (r: Option<BillingSubject>)
    ensures
        picks(subjects@, subscription_id@, customer_id@, r),
{
    let mut rest = subjects;
    let mut found: Option<usize> = None;
    let mut i: usize = 0;
    while i < rest.len()
        invariant
            i <= rest@.len(),
            rest@ == subjects@,
            match found {
                Some(best) => best < i && is_candidate(
                    subjects@.take(i as int),
                    subscription_id@,
                    customer_id@,
                    best as int,
                ),
                None => no_candidate(subjects@.take(i as int), subscription_id@, customer_id@),
            },
        decreases rest@.len() - i,
    {
        let ghost seen = subjects@.take(i as int);
        let ghost more = subjects@.take(i + 1);
        assert(forall|j: int| 0 <= j < i ==> #[trigger] more[j] == seen[j]);
        assert(more[i as int] == subjects@[i as int]);
        let here: u8 = find_place(&rest[i], subscription_id);
        if here == 1 || same(rest[i].customer_id.as_str(), customer_id) {
            match found {
                Some(best) => {
                    assert(more[best as int] == seen[best as int]);
                    if here < find_place(&rest[best], subscription_id) {
                        found = Some(i);
                    }
                },
                None => {
                    found = Some(i);
                },
            }
        }
        i += 1;
    }
    assert(subjects@.take(i as int) == subjects@);
    match found {
        Some(best) => {
            assert(is_candidate(subjects@, subscription_id@, customer_id@, best as int));
            Some(rest.remove(best))
        },
        None => None,
    }
}

/// What the lookup of a billing subject leads to.
pub enum SubjectStep {
    /// Reconcile this subject.
    Linked(BillingSubject),
    /// Hand the work back.
    Retry(RetryCode),
    /// Answer.
    Finish(AdminFlowError),
}

/// Whether a step is what the lookup of a billing subject leads to.
pub open spec fn follows_lookup(
    subject: Result<Option<BillingSubject>, StoreError>,
    step: SubjectStep,
) -> bool {
    match subject {
        Err(error) => step matches SubjectStep::Finish(AdminFlowError::Runtime(failure))
            && failure.detail@ == store_error_text(error),
        Ok(None) => step == SubjectStep::Retry(RetryCode::BillingSubjectNotLinked),
        Ok(Some(subject)) => step == SubjectStep::Linked(subject),
    }
}

/// Decides what the lookup of a billing subject leads to.
pub fn reconciliation_subject(subject: Result<Option<BillingSubject>, StoreError>) -> (r: SubjectStep)
    ensures
        follows_lookup(subject, r),
{
    match subject {
        Err(error) => SubjectStep::Finish(AdminFlowError::Runtime(store_failure(&error))),
        Ok(None) => SubjectStep::Retry(RetryCode::BillingSubjectNotLinked),
        Ok(Some(subject)) => SubjectStep::Linked(subject),
    }
}

/// A feature that was granted for a subscription, and the grant.
pub struct EntitlementBinding {
    pub feature: String,
    pub grant_id: String,
}

/// A grant to be put.
pub struct PutGrantRequest {
    pub expires_at: Option<String>,
    pub feature: String,
    pub limit: Option<String>,
    pub scope_id: String,
    pub scope_kind: String,
    pub subject: String,
}

/// One step of a convergence.
pub enum EntitlementStep {
    /// Revoke this grant, then delete the binding of its feature.
    Revoke(EntitlementBinding),
    /// Put this grant, then bind its feature to it.
    Put(PutGrantRequest),
}

/// The price of a subscription, where it is configured and the status gives access.
pub open spec fn granted_price(prices: Seq<PriceMapping>, price_id: Seq<char>, status: Seq<char>) -> Option<
    PriceMapping,
> {
    if gives_access(status) {
        price_with_id(prices, price_id)
    } else {
        None
    }
}

/// The entitlements that a granted price asks for.
pub open spec fn desired(price: Option<PriceMapping>) -> Seq<EntitlementMapping> {
    match price {
        Some(price) => price.entitlements@,
        None => Seq::empty(),
    }
}

/// Whether a list of entitlements has a feature.
pub open spec fn has_feature(entitlements: Seq<EntitlementMapping>, feature: Seq<char>) -> bool {
    exists|i: int| 0 <= i < entitlements.len() && (#[trigger] entitlements[i]).feature@ == feature
}

/// The revocations of a convergence: every binding whose feature is not desired, in order.
pub open spec fn revocations(
    bindings: Seq<EntitlementBinding>,
    entitlements: Seq<EntitlementMapping>,
) -> Seq<EntitlementStep>
    decreases bindings.len(),
{
    if bindings.len() == 0 {
        Seq::empty()
    } else {
        let earlier = revocations(bindings.drop_last(), entitlements);
        if has_feature(entitlements, bindings.last().feature@) {
            earlier
        } else {
            earlier.push(EntitlementStep::Revoke(bindings.last()))
        }
    }
}

/// The written end of a period, where it has one.
pub open spec fn period_text(current_period_end: Option<Instant>) -> Option<Seq<char>> {
    match current_period_end {
        Some(instant) => match rfc3339_text(instant) {
            Ok(text) => Some(text),
            Err(_) => None,
        },
        None => None,
    }
}

/// Whether a step puts the grant of an entitlement for a subject, until the end of the period.
pub open spec fn puts(
    step: EntitlementStep,
    entitlement: EntitlementMapping,
    subject: BillingSubject,
    current_period_end: Option<Instant>,
) -> bool {
    step matches EntitlementStep::Put(grant) && {
        &&& opt_text(grant.expires_at) == period_text(current_period_end)
        &&& grant.feature == entitlement.feature
        &&& grant.limit == entitlement.limit
        &&& grant.scope_id == subject.scope_id
        &&& grant.scope_kind == subject.scope_kind
        &&& grant.subject == subject.subject
    }
}

/// Whether a list of steps converges the bindings of a subject: first the revocations, then one
/// grant for every desired entitlement, in order.
pub open spec fn is_plan(
    steps: Seq<EntitlementStep>,
    bindings: Seq<EntitlementBinding>,
    entitlements: Seq<EntitlementMapping>,
    subject: BillingSubject,
    current_period_end: Option<Instant>,
) -> bool {
    let revoked = revocations(bindings, entitlements);
    &&& steps.len() == revoked.len() + entitlements.len()
    &&& steps.take(revoked.len() as int) == revoked
    &&& forall|i: int|
        0 <= i < entitlements.len() ==> puts(
            #[trigger] steps[revoked.len() + i],
            entitlements[i],
            subject,
            current_period_end,
        )
}

fn wants_feature(entitlements: &Vec<EntitlementMapping>, feature: &str) -> (r: bool)
    ensures
        r == has_feature(entitlements@, feature@),
{
    let mut i: usize = 0;
    while i < entitlements.len()
        invariant
            i <= entitlements@.len(),
            forall|j: int| 0 <= j < i ==> (#[trigger] entitlements@[j]).feature@ != feature@,
        decreases entitlements@.len() - i,
    {
        if same(entitlements[i].feature.as_str(), feature) {
            return true;
        }
        i += 1;
    }
    false
}

fn write_period(current_period_end: &Option<Instant>) -> (r: Option<String>)
    ensures
        opt_text(r) == period_text(*current_period_end),
{
    match current_period_end {
        Some(instant) => match format_rfc3339(instant) {
            Ok(text) => Some(text),
            Err(_) => None,
        },
        None => None,
    }
}

fn plan_revocations(bindings: Vec<EntitlementBinding>, entitlements: &Vec<EntitlementMapping>) -> (r:
    Vec<EntitlementStep>)
    ensures
        r@ == revocations(bindings@, entitlements@),
{
    let ghost all = bindings@;
    let mut steps: Vec<EntitlementStep> = Vec::new();
    for binding in it: bindings
        invariant
            it.seq() == all,
            steps@ == revocations(all.take(it.index()), entitlements@),
    {
        assert(all.take(it.index() + 1).drop_last() == all.take(it.index()));
        if !wants_feature(entitlements, binding.feature.as_str()) {
            steps.push(EntitlementStep::Revoke(binding));
        }
    }
    assert(all.take(all.len() as int) == all);
    steps
}

/// Plans the convergence of a subject's bindings towards the entitlements of a granted price.
pub fn plan_convergence(
    bindings: Vec<EntitlementBinding>,
    entitlements: &Vec<EntitlementMapping>,
    subject: &BillingSubject,
    current_period_end: &Option<Instant>,
) -> (r: Vec<EntitlementStep>)
    ensures
        is_plan(r@, bindings@, entitlements@, *subject, *current_period_end),
{
    let ghost revoked = revocations(bindings@, entitlements@);
    let mut steps = plan_revocations(bindings, entitlements);
    let expires_at = write_period(current_period_end);
    let mut i: usize = 0;
    assert(steps@.take(revoked.len() as int) == revoked);
    while i < entitlements.len()
        invariant
            i <= entitlements@.len(),
            opt_text(expires_at) == period_text(*current_period_end),
            steps@.len() == revoked.len() + i,
            steps@.take(revoked.len() as int) == revoked,
            forall|j: int|
                0 <= j < i ==> puts(
                    #[trigger] steps@[revoked.len() + j],
                    entitlements@[j],
                    *subject,
                    *current_period_end,
                ),
        decreases entitlements@.len() - i,
    {
        let ghost before = steps@;
        steps.push(
            EntitlementStep::Put(
                PutGrantRequest {
                    expires_at: clone_text(&expires_at),
                    feature: entitlements[i].feature.clone(),
                    limit: clone_text(&entitlements[i].limit),
                    scope_id: subject.scope_id.clone(),
                    scope_kind: subject.scope_kind.clone(),
                    subject: subject.subject.clone(),
                },
            ),
        );
        assert(steps@.take(revoked.len() as int) == before.take(revoked.len() as int));
        assert forall|j: int| 0 <= j < i + 1 implies puts(
            #[trigger] steps@[revoked.len() + j],
            entitlements@[j],
            *subject,
            *current_period_end,
        ) by {
            if j < i {
                assert(steps@[revoked.len() + j] == before[revoked.len() + j]);
            }
        }
        i += 1;
    }
    steps
}

/// The stored entitlement state of a projection: `failed` for a price that is not configured, else
/// `granted` or `revoked` as the status gives access or not.
pub open spec fn entitlement_text(price: Option<PriceMapping>, status: Seq<char>) -> Seq<char> {
    if price is None {
        "failed"@
    } else if gives_access(status) {
        "granted"@
    } else {
        "revoked"@
    }
}

/// What a reconciliation does: the steps towards the entitlements, and the state to be stored once
/// they are done.
pub struct ReconciliationPlan {
    pub steps: Vec<EntitlementStep>,
    pub state: CanonicalState,
}

/// Whether a state is that of a subscription whose price is, or is not, configured.
pub open spec fn is_state_of(
    state: CanonicalState,
    canonical: CanonicalSubscription,
    price: Option<PriceMapping>,
) -> bool {
    &&& state.subscription_id == canonical.subscription_id
    &&& state.customer_id == canonical.customer_id
    &&& state.price_alias == match price {
        Some(price) => Some(price.alias),
        None => None,
    }
    &&& state.status == canonical.status
    &&& state.cancel_at_period_end == canonical.cancel_at_period_end
    &&& state.current_period_end == canonical.current_period_end
    &&& state.entitlement_state@ == entitlement_text(price, canonical.status@)
}

/// Whether a plan reconciles a subject with the current state of its subscription.
pub open spec fn reconciles(
    prices: Seq<PriceMapping>,
    canonical: CanonicalSubscription,
    subject: BillingSubject,
    bindings: Seq<EntitlementBinding>,
    plan: ReconciliationPlan,
) -> bool {
    &&& is_plan(
        plan.steps@,
        bindings,
        desired(granted_price(prices, canonical.price_id@, canonical.status@)),
        subject,
        canonical.current_period_end,
    )
    &&& is_state_of(plan.state, canonical, price_with_id(prices, canonical.price_id@))
}

/// Plans the reconciliation of a subject with the current state of its subscription.
pub fn plan_reconciliation(
    config: &StripeSubscriptionConfig,
    canonical: CanonicalSubscription,
    subject: &BillingSubject,
    bindings: Vec<EntitlementBinding>,
) -> (r: ReconciliationPlan)
    ensures
        reconciles(config.prices@, canonical, *subject, bindings@, r),
{
    let nothing: Vec<EntitlementMapping> = Vec::new();
    let access = access_given(canonical.status.as_str());
    let (entitlements, price_alias, entitlement_state) = match config.price_by_id(
        canonical.price_id.as_str(),
    ) {
        Some(price) => if access {
            (&price.entitlements, Some(price.alias.clone()), "granted")
        } else {
            (&nothing, Some(price.alias.clone()), "revoked")
        },
        None => (&nothing, None, "failed"),
    };
    assert(entitlements@ == desired(
        granted_price(config.prices@, canonical.price_id@, canonical.status@),
    ));
    let steps = plan_convergence(bindings, entitlements, subject, &canonical.current_period_end);
    let state = CanonicalState {
        subscription_id: canonical.subscription_id,
        customer_id: canonical.customer_id,
        price_alias,
        status: canonical.status,
        cancel_at_period_end: canonical.cancel_at_period_end,
        current_period_end: canonical.current_period_end,
        entitlement_state: entitlement_state.to_owned(),
    };
    ReconciliationPlan { steps, state }
}

/// How the Entitlements capability answered a revocation.
#[derive(Clone, Copy, Debug, PartialEq, Eq, Structural)]
pub enum RevokeAnswer {
    Revoked,
    NotFound,
    Rejected,
    Unavailable,
}

/// How the Entitlements capability answered a grant.
pub enum PutAnswer {
    /// The grant stands under this identifier.
    Granted(String),
    Rejected,
    Unavailable,
}

/// A change to the stored bindings of a subscription.
pub enum BindingChange {
    /// Delete the binding of a feature.
    Delete { feature: String },
    /// Bind a feature to a grant.
    Bind { feature: String, grant_id: String, revision: i64 },
}

/// The change that the answer to a revocation asks for, or the code with which the work is handed
/// back.
pub open spec fn change_of_revoke(binding: EntitlementBinding, answer: RevokeAnswer) -> Result<
    BindingChange,
    RetryCode,
> {
    match answer {
        RevokeAnswer::Revoked | RevokeAnswer::NotFound => Ok(
            BindingChange::Delete { feature: binding.feature },
        ),
        RevokeAnswer::Rejected => Err(RetryCode::EntitlementRevokeRejected),
        RevokeAnswer::Unavailable => Err(RetryCode::EntitlementRevokeUnavailable),
    }
}

/// Takes the answer to a revocation: a grant that is gone needs no binding, whether it was revoked
/// now or before.
pub fn revoke_answered(binding: EntitlementBinding, answer: RevokeAnswer) -> (r: Result<
    BindingChange,
    RetryCode,
>)
    ensures
        r == change_of_revoke(binding, answer),
{
    match answer {
        RevokeAnswer::Revoked | RevokeAnswer::NotFound => Ok(
            BindingChange::Delete { feature: binding.feature },
        ),
        RevokeAnswer::Rejected => Err(RetryCode::EntitlementRevokeRejected),
        RevokeAnswer::Unavailable => Err(RetryCode::EntitlementRevokeUnavailable),
    }
}

/// The revision that a binding is made for: the one after the subject's, as far as there is one.
pub open spec fn next_revision(revision: i64) -> i64 {
    if revision == i64::MAX {
        revision
    } else {
        (revision + 1) as i64
    }
}

/// The change that the answer to a grant asks for, or the code with which the work is handed back.
pub open spec fn change_of_put(grant: PutGrantRequest, answer: PutAnswer, revision: i64) -> Result<
    BindingChange,
    RetryCode,
> {
    match answer {
        PutAnswer::Granted(grant_id) => Ok(
            BindingChange::Bind {
                feature: grant.feature,
                grant_id,
                revision: next_revision(revision),
            },
        ),
        PutAnswer::Rejected => Err(RetryCode::EntitlementPutRejected),
        PutAnswer::Unavailable => Err(RetryCode::EntitlementPutUnavailable),
    }
}

/// Takes the answer to a grant.
pub fn put_answered(grant: PutGrantRequest, answer: PutAnswer, revision: i64) -> (r: Result<
    BindingChange,
    RetryCode,
>)
    ensures
        r == change_of_put(grant, answer, revision),
{
    match answer {
        PutAnswer::Granted(grant_id) => {
            let next: i64 = if revision == i64::MAX {
                revision
            } else {
                revision + 1
            };
            Ok(BindingChange::Bind { feature: grant.feature, grant_id, revision: next })
        },
        PutAnswer::Rejected => Err(RetryCode::EntitlementPutRejected),
        PutAnswer::Unavailable => Err(RetryCode::EntitlementPutUnavailable),
    }
}

/// The outcome of storing a binding, or the code with which the work is handed back.
pub open spec fn stored_binding(stored: Result<(), StoreError>) -> Result<(), RetryCode> {
    match stored {
        Ok(_) => Ok(()),
        Err(_) => Err(RetryCode::EntitlementBindingStoreFailed),
    }
}

/// Takes the outcome of storing a binding.
pub fn binding_stored(stored: Result<(), StoreError>) -> (r: Result<(), RetryCode>)
    ensures
        r == stored_binding(stored),
{
    match stored {
        Ok(_) => Ok(()),
        Err(_) => Err(RetryCode::EntitlementBindingStoreFailed),
    }
}

/// What a running reconciliation does next.
pub enum NextStep {
    /// Perform this step; the others are still to come.
    Perform { step: EntitlementStep, remaining: Vec<EntitlementStep> },
    /// Every step is done: settle the reconciliation.
    Settle,
    /// A step failed: hand the work back.
    Retry(RetryCode),
}

/// What a [`NextStep`] says, with the steps to come as a sequence.
pub enum NextModel {
    Perform { step: EntitlementStep, remaining: Seq<EntitlementStep> },
    Settle,
    Retry(RetryCode),
}

impl View for NextStep {
    type V = NextModel;

    open spec fn view(&self) -> NextModel {
        match *self {
            NextStep::Perform { step, remaining } => NextModel::Perform {
                step,
                remaining: remaining@,
            },
            NextStep::Settle => NextModel::Settle,
            NextStep::Retry(code) => NextModel::Retry(code),
        }
    }
}

/// What a running reconciliation does next, given the steps to come and how the last one went.
pub open spec fn next_of(remaining: Seq<EntitlementStep>, last: Result<(), RetryCode>) -> NextModel {
    match last {
        Err(code) => NextModel::Retry(code),
        Ok(_) => if remaining.len() == 0 {
            NextModel::Settle
        } else {
            NextModel::Perform { step: remaining[0], remaining: remaining.skip(1) }
        },
    }
}

/// Decides what a running reconciliation does next, given how the last step went: it is settled
/// only once every step has succeeded, and handed back at the first that has not.
pub fn next_step(remaining: Vec<EntitlementStep>, last: Result<(), RetryCode>) -> (r: NextStep)
    ensures
        r@ == next_of(remaining@, last),
{
    if let Err(code) = last {
        return NextStep::Retry(code);
    }
    if remaining.len() == 0 {
        return NextStep::Settle;
    }
    let mut rest = remaining;
    let step = rest.remove(0);
    assert(rest@ == remaining@.skip(1));
    NextStep::Perform { step, remaining: rest }
}

/// Whether a run ends by settling: `last` is how its last step went, and `answers` holds how those
/// to come will go.
pub open spec fn run_settles(
    remaining: Seq<EntitlementStep>,
    last: Result<(), RetryCode>,
    answers: Seq<Result<(), RetryCode>>,
) -> bool
    decreases remaining.len(),
{
    match next_of(remaining, last) {
        NextModel::Settle => true,
        NextModel::Retry(_) => false,
        NextModel::Perform { remaining: rest, .. } => answers.len() > 0 && run_settles(
            rest,
            answers[0],
            answers.skip(1),
        ),
    }
}

/// A run that settles has performed every step, each with success.
pub proof fn law_settling_needs_every_step(
    steps: Seq<EntitlementStep>,
    answers: Seq<Result<(), RetryCode>>,
)
    ensures
        run_settles(steps, Ok(()), answers) == (answers.len() >= steps.len() && forall|i: int|
            0 <= i < steps.len() ==> #[trigger] answers[i] is Ok),
    decreases steps.len(),
{
    if steps.len() > 0 && answers.len() > 0 {
        let rest = steps.skip(1);
        let later = answers.skip(1);
        assert(run_settles(steps, Ok(()), answers) == run_settles(rest, answers[0], later));
        if answers[0] is Ok {
            law_settling_needs_every_step(rest, later);
            assert(next_of(rest, answers[0]) == next_of(rest, Ok(())));
            if run_settles(steps, Ok(()), answers) {
                assert forall|i: int| 0 <= i < steps.len() implies #[trigger] answers[i] is Ok by {
                    if i > 0 {
                        assert(later[i - 1] == answers[i]);
                    }
                }
            } else if answers.len() >= steps.len() && forall|i: int|
                0 <= i < steps.len() ==> #[trigger] answers[i] is Ok {
                assert forall|i: int| 0 <= i < rest.len() implies #[trigger] later[i] is Ok by {
                    assert(answers[i + 1] is Ok);
                }
            }
        } else {
            assert(next_of(rest, answers[0]) is Retry);
        }
    }
}

/// Whether an answer is that of work that was handed back, or could not be.
pub open spec fn answers_retry(
    subscription_id: String,
    handed_back: Result<bool, StoreError>,
    answer: Result<ReconcileNextResponse, AdminFlowError>,
) -> bool {
    match handed_back {
        Err(error) => answer matches Err(AdminFlowError::Runtime(failure)) && failure.detail@
            == store_error_text(error),
        Ok(false) => answer == Err::<ReconcileNextResponse, AdminFlowError>(
            AdminFlowError::Reconcile(ReconcileNextError::InvalidState),
        ),
        Ok(true) => answer == Ok::<ReconcileNextResponse, AdminFlowError>(
            ReconcileNextResponse {
                revision: None,
                status: ReconcileNextResponseStatus::RetryPending,
                subscription_id: Some(subscription_id),
            },
        ),
    }
}

/// Answers once the work was handed back, or could not be: a lost lease is an error, never a
/// success.
pub fn retry_result(subscription_id: String, handed_back: Result<bool, StoreError>) -> (r: Result<
    ReconcileNextResponse,
    AdminFlowError,
>)
    ensures
        answers_retry(subscription_id, handed_back, r),
{
    match handed_back {
        Err(error) => Err(AdminFlowError::Runtime(store_failure(&error))),
        Ok(false) => Err(AdminFlowError::Reconcile(ReconcileNextError::InvalidState)),
        Ok(true) => Ok(
            ReconcileNextResponse {
                revision: None,
                status: ReconcileNextResponseStatus::RetryPending,
                subscription_id: Some(subscription_id),
            },
        ),
    }
}

/// Whether an answer is that of a reconciliation that was settled, or could not be.
pub open spec fn answers_convergence(
    subscription_id: String,
    convergence: Result<Convergence, StoreError>,
    answer: Result<ReconcileNextResponse, AdminFlowError>,
) -> bool {
    match convergence {
        Err(error) => answer matches Err(AdminFlowError::Runtime(failure)) && failure.detail@
            == store_error_text(error),
        Ok(Convergence::Refused) => answer == Err::<ReconcileNextResponse, AdminFlowError>(
            AdminFlowError::Reconcile(ReconcileNextError::InvalidState),
        ),
        Ok(Convergence::OutOfRange) => answer matches Err(AdminFlowError::Runtime(failure))
            && failure.detail@ == "Stripe Subscription PostgreSQL operation failed: "@
            + OUT_OF_RANGE@,
        Ok(Convergence::Converged(revision)) => answer == Ok::<
            ReconcileNextResponse,
            AdminFlowError,
        >(
            ReconcileNextResponse {
                revision: Some(revision),
                status: ReconcileNextResponseStatus::Converged,
                subscription_id: Some(subscription_id),
            },
        ),
    }
}

/// Answers once the reconciliation was settled, or could not be: only a settled row is reported as
/// converged.
pub fn reconciliation_converged(
    subscription_id: String,
    convergence: Result<Convergence, StoreError>,
) -> (r: Result<ReconcileNextResponse, AdminFlowError>)
    ensures
        answers_convergence(subscription_id, convergence, r),
{
    match convergence {
        Err(error) => Err(AdminFlowError::Runtime(store_failure(&error))),
        Ok(Convergence::Refused) => Err(
            AdminFlowError::Reconcile(ReconcileNextError::InvalidState),
        ),
        Ok(Convergence::OutOfRange) => Err(
            AdminFlowError::Runtime(store_failure(&out_of_range())),
        ),
        Ok(Convergence::Converged(revision)) => Ok(
            ReconcileNextResponse {
                revision: Some(revision),
                status: ReconcileNextResponseStatus::Converged,
                subscription_id: Some(subscription_id),
            },
        ),
    }
}

/// The bindings of a subscription as a map from features to grants.
pub open spec fn binding_map(bindings: Seq<EntitlementBinding>) -> Map<Seq<char>, Seq<char>>
    decreases bindings.len(),
{
    if bindings.len() == 0 {
        Map::empty()
    } else {
        binding_map(bindings.drop_last()).insert(
            bindings.last().feature@,
            bindings.last().grant_id@,
        )
    }
}

/// The bindings after a change to them.
pub open spec fn changed_bindings(
    bindings: Map<Seq<char>, Seq<char>>,
    change: BindingChange,
) -> Map<Seq<char>, Seq<char>> {
    match change {
        BindingChange::Delete { feature } => bindings.remove(feature@),
        BindingChange::Bind { feature, grant_id, .. } => bindings.insert(feature@, grant_id@),
    }
}

/// The change that a step asks for once it was answered with success, a grant with this
/// identifier.
pub open spec fn change_of_step(step: EntitlementStep, grant_id: String, revision: i64) -> BindingChange {
    match step {
        EntitlementStep::Revoke(binding) => change_of_revoke(binding, RevokeAnswer::Revoked)->Ok_0,
        EntitlementStep::Put(grant) => change_of_put(
            grant,
            PutAnswer::Granted(grant_id),
            revision,
        )->Ok_0,
    }
}

/// The bindings after the first `n` steps, each answered with success; `grants` holds the
/// identifier that each step's grant got.
pub open spec fn bindings_after(
    bindings: Map<Seq<char>, Seq<char>>,
    steps: Seq<EntitlementStep>,
    grants: Seq<String>,
    revision: i64,
    n: int,
) -> Map<Seq<char>, Seq<char>>
    decreases n,
{
    if n <= 0 {
        bindings
    } else {
        changed_bindings(
            bindings_after(bindings, steps, grants, revision, n - 1),
            change_of_step(steps[n - 1], grants[n - 1], revision),
        )
    }
}

proof fn lemma_binding_map(bindings: Seq<EntitlementBinding>, feature: Seq<char>)
    ensures
        binding_map(bindings).dom().contains(feature) == exists|i: int|
            0 <= i < bindings.len() && (#[trigger] bindings[i]).feature@ == feature,
    decreases bindings.len(),
{
    if bindings.len() > 0 {
        let shorter = bindings.drop_last();
        lemma_binding_map(shorter, feature);
        if binding_map(shorter).dom().contains(feature) {
            let i = choose|i: int|
                0 <= i < shorter.len() && (#[trigger] shorter[i]).feature@ == feature;
            assert(bindings[i].feature@ == feature);
        }
        if bindings.last().feature@ == feature {
            assert(bindings[bindings.len() - 1].feature@ == feature);
        }
        assert forall|i: int|
            0 <= i < bindings.len() && (#[trigger] bindings[i]).feature@ == feature implies binding_map(
            bindings,
        ).dom().contains(feature) by {
            if i < shorter.len() {
                assert(shorter[i].feature@ == feature);
            }
        }
    }
}

/// The revocations are exactly those of the bindings whose feature is not desired.
proof fn lemma_revocations(
    bindings: Seq<EntitlementBinding>,
    entitlements: Seq<EntitlementMapping>,
)
    ensures
        forall|i: int|
            0 <= i < revocations(bindings, entitlements).len() ==> {
                &&& #[trigger] revocations(bindings, entitlements)[i] is Revoke
                &&& !has_feature(
                    entitlements,
                    revocations(bindings, entitlements)[i]->Revoke_0.feature@,
                )
            },
        forall|i: int|
            0 <= i < bindings.len() && !has_feature(
                entitlements,
                (#[trigger] bindings[i]).feature@,
            ) ==> exists|j: int|
                0 <= j < revocations(bindings, entitlements).len() && #[trigger] revocations(
                    bindings,
                    entitlements,
                )[j] == EntitlementStep::Revoke(bindings[i]),
        revocations(bindings, entitlements).len() <= bindings.len(),
    decreases bindings.len(),
{
    if bindings.len() > 0 {
        let shorter = bindings.drop_last();
        lemma_revocations(shorter, entitlements);
        let earlier = revocations(shorter, entitlements);
        let all = revocations(bindings, entitlements);
        assert forall|i: int|
            0 <= i < bindings.len() && !has_feature(
                entitlements,
                (#[trigger] bindings[i]).feature@,
            ) implies exists|j: int|
            0 <= j < all.len() && #[trigger] all[j] == EntitlementStep::Revoke(bindings[i]) by {
            if i < shorter.len() {
                assert(shorter[i] == bindings[i]);
                let j = choose|j: int|
                    0 <= j < earlier.len() && #[trigger] earlier[j] == EntitlementStep::Revoke(
                        shorter[i],
                    );
                assert(all[j] == EntitlementStep::Revoke(bindings[i]));
            } else {
                assert(all[all.len() - 1] == EntitlementStep::Revoke(bindings[i]));
            }
        }
    }
}

proof fn lemma_after_revocations(
    bindings: Map<Seq<char>, Seq<char>>,
    steps: Seq<EntitlementStep>,
    grants: Seq<String>,
    revision: i64,
    n: int,
    feature: Seq<char>,
)
    requires
        0 <= n <= steps.len(),
        forall|i: int| 0 <= i < n ==> #[trigger] steps[i] is Revoke,
    ensures
        bindings_after(bindings, steps, grants, revision, n).dom().contains(feature) == (
        bindings.dom().contains(feature) && forall|i: int|
            0 <= i < n ==> (#[trigger] steps[i])->Revoke_0.feature@ != feature),
    decreases n,
{
    if n > 0 {
        lemma_after_revocations(bindings, steps, grants, revision, n - 1, feature);
        assert(steps[n - 1] is Revoke);
    }
}

/// Carrying out a plan, every step with success, leaves exactly the desired features bound: what
/// the price grants is there, and everything else is gone.
pub proof fn law_convergence_leaves_exactly_the_desired_features(
    bindings: Seq<EntitlementBinding>,
    entitlements: Seq<EntitlementMapping>,
    subject: BillingSubject,
    current_period_end: Option<Instant>,
    steps: Seq<EntitlementStep>,
    grants: Seq<String>,
    revision: i64,
    feature: Seq<char>,
)
    requires
        is_plan(steps, bindings, entitlements, subject, current_period_end),
    ensures
        bindings_after(binding_map(bindings), steps, grants, revision, steps.len() as int).dom().contains(
            feature,
        ) == has_feature(entitlements, feature),
{
    let revoked = revocations(bindings, entitlements);
    let r = revoked.len() as int;
    lemma_revocations(bindings, entitlements);
    lemma_binding_map(bindings, feature);
    assert forall|i: int| 0 <= i < r implies #[trigger] steps[i] == revoked[i] by {
        assert(steps.take(r)[i] == revoked[i]);
    }
    lemma_after_revocations(binding_map(bindings), steps, grants, revision, r, feature);
    let middle = bindings_after(binding_map(bindings), steps, grants, revision, r);
    if middle.dom().contains(feature) && !has_feature(entitlements, feature) {
        let i = choose|i: int| 0 <= i < bindings.len() && (#[trigger] bindings[i]).feature@ == feature;
        let j = choose|j: int|
            0 <= j < revoked.len() && #[trigger] revoked[j] == EntitlementStep::Revoke(bindings[i]);
        assert(steps[j]->Revoke_0.feature@ == feature);
    }
    lemma_after_puts(
        binding_map(bindings),
        entitlements,
        subject,
        current_period_end,
        steps,
        grants,
        revision,
        r,
        entitlements.len() as int,
        feature,
    );
}

proof fn lemma_after_puts(
    bindings: Map<Seq<char>, Seq<char>>,
    entitlements: Seq<EntitlementMapping>,
    subject: BillingSubject,
    current_period_end: Option<Instant>,
    steps: Seq<EntitlementStep>,
    grants: Seq<String>,
    revision: i64,
    r: int,
    k: int,
    feature: Seq<char>,
)
    requires
        0 <= r,
        0 <= k <= entitlements.len(),
        steps.len() == r + entitlements.len(),
        forall|i: int|
            0 <= i < entitlements.len() ==> puts(
                #[trigger] steps[r + i],
                entitlements[i],
                subject,
                current_period_end,
            ),
    ensures
        bindings_after(bindings, steps, grants, revision, r + k).dom().contains(feature) == (bindings_after(
            bindings,
            steps,
            grants,
            revision,
            r,
        ).dom().contains(feature) || exists|i: int|
            0 <= i < k && (#[trigger] entitlements[i]).feature@ == feature),
    decreases k,
{
    if k > 0 {
        lemma_after_puts(
            bindings,
            entitlements,
            subject,
            current_period_end,
            steps,
            grants,
            revision,
            r,
            k - 1,
            feature,
        );
        assert(puts(steps[r + (k - 1)], entitlements[k - 1], subject, current_period_end));
        assert(bindings_after(bindings, steps, grants, revision, r + k) == bindings_after(
            bindings,
            steps,
            grants,
            revision,
            r + k - 1,
        ).insert(entitlements[k - 1].feature@, grants[r + k - 1]@));
        if bindings_after(bindings, steps, grants, revision, r + k).dom().contains(feature)
            && entitlements[k - 1].feature@ == feature {
            assert(0 <= k - 1 < k && entitlements[k - 1].feature@ == feature);
        }
    }
}

/// Converging again what has converged revokes nothing: where every binding is desired, the plan
/// only puts the desired grants again.
pub proof fn law_convergence_is_repeatable(
    bindings: Seq<EntitlementBinding>,
    entitlements: Seq<EntitlementMapping>,
)
    requires
        forall|i: int|
            0 <= i < bindings.len() ==> has_feature(entitlements, (#[trigger] bindings[i]).feature@),
    ensures
        revocations(bindings, entitlements).len() == 0,
    decreases bindings.len(),
{
    if bindings.len() > 0 {
        let shorter = bindings.drop_last();
        assert forall|i: int| 0 <= i < shorter.len() implies has_feature(
            entitlements,
            (#[trigger] shorter[i]).feature@,
        ) by {
            assert(bindings[i] == shorter[i]);
        }
        assert(has_feature(entitlements, bindings[bindings.len() - 1].feature@));
        law_convergence_is_repeatable(shorter, entitlements);
    }
}

/// Without access, or with a price that is not configured, nothing is granted and every binding is
/// revoked; a price that is not configured is stored as a failed projection.
pub proof fn law_no_access_revokes_everything(
    prices: Seq<PriceMapping>,
    price_id: Seq<char>,
    status: Seq<char>,
    bindings: Seq<EntitlementBinding>,
)
    requires
        !gives_access(status) || price_with_id(prices, price_id) is None,
    ensures
        desired(granted_price(prices, price_id, status)).len() == 0,
        revocations(bindings, desired(granted_price(prices, price_id, status))).len()
            == bindings.len(),
        price_with_id(prices, price_id) is None ==> entitlement_text(
            price_with_id(prices, price_id),
            status,
        ) == "failed"@,
    decreases bindings.len(),
{
    if bindings.len() > 0 {
        law_no_access_revokes_everything(prices, price_id, status, bindings.drop_last());
    }
}

/// With access and a configured price, every entitlement of the price is granted.
pub proof fn law_access_grants_the_configured_features(
    prices: Seq<PriceMapping>,
    price_id: Seq<char>,
    status: Seq<char>,
)
    requires
        gives_access(status),
        price_with_id(prices, price_id) is Some,
    ensures
        desired(granted_price(prices, price_id, status)) == price_with_id(
            prices,
            price_id,
        )->0.entitlements@,
        entitlement_text(price_with_id(prices, price_id), status) == "granted"@,
{
}

/// Every grant of a plan goes to the billing subject itself: its scope and its subject are those of
/// the subject, its feature and its limit are those of one desired entitlement, and it lasts until
/// the written end of the period.
pub proof fn law_grants_go_to_the_subject(
    steps: Seq<EntitlementStep>,
    bindings: Seq<EntitlementBinding>,
    entitlements: Seq<EntitlementMapping>,
    subject: BillingSubject,
    current_period_end: Option<Instant>,
    i: int,
)
    requires
        is_plan(steps, bindings, entitlements, subject, current_period_end),
        0 <= i < steps.len(),
        steps[i] is Put,
    ensures
        steps[i]->Put_0.scope_kind@ == subject.scope_kind@,
        steps[i]->Put_0.scope_id@ == subject.scope_id@,
        steps[i]->Put_0.subject@ == subject.subject@,
        exists|k: int|
            0 <= k < entitlements.len() && steps[i]->Put_0.feature@ == (
            #[trigger] entitlements[k]).feature@ && opt_text(steps[i]->Put_0.limit) == opt_text(
                entitlements[k].limit,
            ),
        current_period_end is None ==> steps[i]->Put_0.expires_at is None,
        current_period_end is Some && rfc3339_text(current_period_end->0) is Ok ==> opt_text(
            steps[i]->Put_0.expires_at,
        ) == Some(rfc3339_text(current_period_end->0)->Ok_0),
        current_period_end is Some && rfc3339_text(current_period_end->0) is Err
            ==> steps[i]->Put_0.expires_at is None,
{
    let revoked = revocations(bindings, entitlements);
    lemma_revocations(bindings, entitlements);
    if i < revoked.len() {
        assert(steps.take(revoked.len() as int)[i] == revoked[i]);
    } else {
        let k = i - revoked.len();
        assert(puts(steps[revoked.len() + k], entitlements[k], subject, current_period_end));
    }
}

/// Subjects that differ get grants that differ: of two plans from the same bindings towards the
/// same entitlements, the grants differ in the subject wherever the subjects do, and in the scope
/// wherever the scopes do, and in nothing else.
pub proof fn law_subjects_get_grants_of_their_own(
    steps: Seq<EntitlementStep>,
    other_steps: Seq<EntitlementStep>,
    bindings: Seq<EntitlementBinding>,
    entitlements: Seq<EntitlementMapping>,
    subject: BillingSubject,
    other: BillingSubject,
    current_period_end: Option<Instant>,
    i: int,
)
    requires
        is_plan(steps, bindings, entitlements, subject, current_period_end),
        is_plan(other_steps, bindings, entitlements, other, current_period_end),
        0 <= i < steps.len(),
    ensures
        steps.len() == other_steps.len(),
        steps[i] is Put == other_steps[i] is Put,
        steps[i] is Put ==> {
            let grant = steps[i]->Put_0;
            let other_grant = other_steps[i]->Put_0;
            &&& (grant.subject@ == other_grant.subject@) == (subject.subject@ == other.subject@)
            &&& (grant.scope_id@ == other_grant.scope_id@) == (subject.scope_id@ == other.scope_id@)
            &&& (grant.scope_kind@ == other_grant.scope_kind@) == (subject.scope_kind@
                == other.scope_kind@)
            &&& grant.feature@ == other_grant.feature@
            &&& opt_text(grant.limit) == opt_text(other_grant.limit)
            &&& opt_text(grant.expires_at) == opt_text(other_grant.expires_at)
        },
{
    let revoked = revocations(bindings, entitlements);
    lemma_revocations(bindings, entitlements);
    if i < revoked.len() {
        assert(steps.take(revoked.len() as int)[i] == revoked[i]);
        assert(other_steps.take(revoked.len() as int)[i] == revoked[i]);
    } else {
        let k = i - revoked.len();
        assert(puts(steps[revoked.len() + k], entitlements[k], subject, current_period_end));
        assert(puts(other_steps[revoked.len() + k], entitlements[k], other, current_period_end));
    }
}

proof fn lemma_revocations_are_bindings(
    bindings: Seq<EntitlementBinding>,
    entitlements: Seq<EntitlementMapping>,
    i: int,
)
    requires
        0 <= i < revocations(bindings, entitlements).len(),
    ensures
        revocations(bindings, entitlements)[i] is Revoke,
        bindings.contains(revocations(bindings, entitlements)[i]->Revoke_0),
    decreases bindings.len(),
{
    if bindings.len() > 0 {
        let shorter = bindings.drop_last();
        let earlier = revocations(shorter, entitlements);
        if i < earlier.len() {
            lemma_revocations_are_bindings(shorter, entitlements, i);
            let j = choose|j: int| 0 <= j < shorter.len() && shorter[j] == earlier[i]->Revoke_0;
            assert(bindings[j] == earlier[i]->Revoke_0);
        } else {
            assert(bindings[bindings.len() - 1] == bindings.last());
        }
    }
}

/// A plan revokes before it grants. It revokes a binding exactly where no desired entitlement has
/// the binding's feature, and it ends with one grant for each desired entitlement, in order.
pub proof fn law_plans_revoke_then_grant(
    steps: Seq<EntitlementStep>,
    bindings: Seq<EntitlementBinding>,
    entitlements: Seq<EntitlementMapping>,
    subject: BillingSubject,
    current_period_end: Option<Instant>,
    i: int,
    b: int,
)
    requires
        is_plan(steps, bindings, entitlements, subject, current_period_end),
        0 <= i < steps.len(),
        0 <= b < bindings.len(),
    ensures
        steps.len() >= entitlements.len(),
        steps[i] is Put == (i >= steps.len() - entitlements.len()),
        steps[i] is Put ==> steps[i]->Put_0.feature@ == entitlements[i - (steps.len()
            - entitlements.len())].feature@ && opt_text(steps[i]->Put_0.limit) == opt_text(
            entitlements[i - (steps.len() - entitlements.len())].limit,
        ),
        steps[i] is Revoke ==> bindings.contains(steps[i]->Revoke_0) && forall|k: int|
            0 <= k < entitlements.len() ==> (#[trigger] entitlements[k]).feature@
                != steps[i]->Revoke_0.feature@,
        (forall|k: int|
            0 <= k < entitlements.len() ==> (#[trigger] entitlements[k]).feature@
                != bindings[b].feature@) ==> steps.contains(EntitlementStep::Revoke(bindings[b])),
{
    let revoked = revocations(bindings, entitlements);
    lemma_revocations(bindings, entitlements);
    if i < revoked.len() {
        assert(steps.take(revoked.len() as int)[i] == revoked[i]);
        lemma_revocations_are_bindings(bindings, entitlements, i);
        assert(!has_feature(entitlements, revoked[i]->Revoke_0.feature@));
    } else {
        let k = i - revoked.len();
        assert(puts(steps[revoked.len() + k], entitlements[k], subject, current_period_end));
    }
    if !has_feature(entitlements, bindings[b].feature@) {
        let j = choose|j: int|
            0 <= j < revoked.len() && #[trigger] revoked[j] == EntitlementStep::Revoke(bindings[b]);
        assert(steps.take(revoked.len() as int)[j] == steps[j]);
    }
}

/// A subscription that is active or on trial, at a configured price, is granted what that price
/// maps to, entitlement by entitlement, and is stored as `granted` under the price's alias.
pub proof fn law_configured_access_is_granted(
    prices: Seq<PriceMapping>,
    k: int,
    canonical: CanonicalSubscription,
    subject: BillingSubject,
    bindings: Seq<EntitlementBinding>,
    plan: ReconciliationPlan,
    e: int,
)
    requires
        reconciles(prices, canonical, subject, bindings, plan),
        0 <= k < prices.len(),
        prices[k].price_id@ == canonical.price_id@,
        forall|j: int| 0 <= j < k ==> (#[trigger] prices[j]).price_id@ != canonical.price_id@,
        canonical.status@ == "active"@ || canonical.status@ == "trialing"@,
        0 <= e < prices[k].entitlements@.len(),
    ensures
        plan.state.entitlement_state@ == "granted"@,
        opt_text(plan.state.price_alias) == Some(prices[k].alias@),
        plan.steps@.len() >= prices[k].entitlements@.len(),
        ({
            let step = plan.steps@[plan.steps@.len() - prices[k].entitlements@.len() + e];
            &&& step is Put
            &&& step->Put_0.feature@ == prices[k].entitlements@[e].feature@
            &&& opt_text(step->Put_0.limit) == opt_text(prices[k].entitlements@[e].limit)
            &&& step->Put_0.subject@ == subject.subject@
            &&& step->Put_0.scope_id@ == subject.scope_id@
            &&& step->Put_0.scope_kind@ == subject.scope_kind@
        }),
{
    law_first_price_is_found(prices, k);
    let entitlements = prices[k].entitlements@;
    let revoked = revocations(bindings, entitlements);
    assert(puts(
        plan.steps@[revoked.len() + e],
        entitlements[e],
        subject,
        canonical.current_period_end,
    ));
    assert(plan.steps@.len() - entitlements.len() + e == revoked.len() + e);
}

/// A subscription that gives no access, or whose price is not configured, is granted nothing and
/// loses every binding; it is stored as `revoked` under the price's alias in the first case, and as
/// `failed` without an alias in the second.
pub proof fn law_without_access_nothing_is_granted(
    prices: Seq<PriceMapping>,
    canonical: CanonicalSubscription,
    subject: BillingSubject,
    bindings: Seq<EntitlementBinding>,
    plan: ReconciliationPlan,
    i: int,
    b: int,
)
    requires
        reconciles(prices, canonical, subject, bindings, plan),
        canonical.status@ != "active"@ && canonical.status@ != "trialing"@ || forall|j: int|
            0 <= j < prices.len() ==> (#[trigger] prices[j]).price_id@ != canonical.price_id@,
    ensures
        0 <= i < plan.steps@.len() ==> plan.steps@[i] is Revoke,
        plan.steps@.len() == bindings.len(),
        0 <= b < bindings.len() ==> plan.steps@.contains(EntitlementStep::Revoke(bindings[b])),
        (forall|j: int|
            0 <= j < prices.len() ==> (#[trigger] prices[j]).price_id@ != canonical.price_id@)
            ==> plan.state.entitlement_state@ == "failed"@ && plan.state.price_alias is None,
        (exists|j: int|
            0 <= j < prices.len() && (#[trigger] prices[j]).price_id@ == canonical.price_id@)
            ==> plan.state.entitlement_state@ == "revoked"@ && plan.state.price_alias is Some,
{
    law_price_id_lookup_is_exact(prices, canonical.price_id@);
    law_no_access_revokes_everything(prices, canonical.price_id@, canonical.status@, bindings);
    let nothing = desired(granted_price(prices, canonical.price_id@, canonical.status@));
    if 0 <= i < plan.steps@.len() {
        lemma_revocations_are_bindings(bindings, nothing, i);
        assert(plan.steps@.take(bindings.len() as int)[i] == plan.steps@[i]);
    }
    if 0 <= b < bindings.len() {
        lemma_revocations(bindings, nothing);
        let revoked = revocations(bindings, nothing);
        assert(!has_feature(nothing, bindings[b].feature@));
        let j = choose|j: int|
            0 <= j < revoked.len() && #[trigger] revoked[j] == EntitlementStep::Revoke(bindings[b]);
        assert(plan.steps@.take(revoked.len() as int)[j] == plan.steps@[j]);
    }
}

/// What is stored of a subscription is what Stripe answered of it.
pub proof fn law_states_are_stored_as_answered(
    prices: Seq<PriceMapping>,
    claim: ReconciliationClaim,
    body_bytes: usize,
    wire: StripeSubscriptionWire,
    canonical: CanonicalSubscription,
    subject: BillingSubject,
    bindings: Seq<EntitlementBinding>,
    plan: ReconciliationPlan,
)
    requires
        reads_subscription(claim, body_bytes, Some(wire), Ok(canonical)),
        reconciles(prices, canonical, subject, bindings, plan),
    ensures
        body_bytes <= 1024 * 1024,
        plan.state.subscription_id@ == wire.id@,
        plan.state.customer_id@ == wire.customer@,
        plan.state.customer_id@ == claim.customer_id@,
        plan.state.cancel_at_period_end == wire.cancel_at_period_end,
        plan.state.status@ == wire.status@ || plan.state.status@ == "unknown"@,
        wire.status@ == "active"@ || wire.status@ == "trialing"@ ==> plan.state.status@
            == wire.status@,
        plan.state.current_period_end == canonical.current_period_end,
{
    law_subscriptions_are_projected_as_answered(wire, canonical);
}

/// From Stripe's answer to what a product sees: an active subscription at a configured price is
/// shown, once it was reconciled, as active and granted, with the price's alias and with the
/// subscription and the customer that Stripe answered, at the next revision.
pub proof fn law_active_subscriptions_are_shown_as_granted(
    prices: Seq<PriceMapping>,
    k: int,
    claim: ReconciliationClaim,
    body_bytes: usize,
    wire: StripeSubscriptionWire,
    canonical: CanonicalSubscription,
    subject: BillingSubject,
    bindings: Seq<EntitlementBinding>,
    plan: ReconciliationPlan,
    answer: Result<GetSubscriptionResponse, SubscriptionFlowError>,
)
    requires
        reads_subscription(claim, body_bytes, Some(wire), Ok(canonical)),
        reconciles(prices, canonical, subject, bindings, plan),
        0 <= k < prices.len(),
        prices[k].price_id@ == wire.items@[0].price_id@,
        forall|j: int| 0 <= j < k ==> (#[trigger] prices[j]).price_id@ != prices[k].price_id@,
        wire.status@ == "active"@,
        subject.customer_id@ == wire.customer@,
        subject.revision < i64::MAX,
        answers_get(Ok(Some(after_projection(subject, plan.state))), answer),
        answer is Ok,
    ensures
        answer->Ok_0.entitlement_state == GetSubscriptionResponseEntitlementState::Granted,
        answer->Ok_0.status == GetSubscriptionResponseStatus::Active,
        opt_text(answer->Ok_0.price_alias) == Some(prices[k].alias@),
        opt_text(answer->Ok_0.subscription_id) == Some(wire.id@),
        answer->Ok_0.customer_id@ == wire.customer@,
        answer->Ok_0.cancel_at_period_end == wire.cancel_at_period_end,
        answer->Ok_0.revision == subject.revision + 1,
        answer->Ok_0.scope_kind@ == subject.scope_kind@,
        answer->Ok_0.scope_id@ == subject.scope_id@,
        answer->Ok_0.subject@ == subject.subject@,
{
    law_subscriptions_are_projected_as_answered(wire, canonical);
    law_first_price_is_found(prices, k);
    let after = after_projection(subject, plan.state);
    law_entitlement_states_are_shown_by_name(after, answer);
    law_statuses_are_shown_by_name(after, answer);
    law_subjects_are_shown_as_stored(after, answer);
}

/// The stored texts of the codes with which work is handed back.
pub proof fn law_retry_codes_are_named()
    ensures
        retry_text(RetryCode::StripeFetchFailed) == "stripe_fetch_failed"@,
        retry_text(RetryCode::StripeFetchRejected) == "stripe_fetch_rejected"@,
        retry_text(RetryCode::StripeSubscriptionInvalid) == "stripe_subscription_invalid"@,
        retry_text(RetryCode::StripeCustomerMismatch) == "stripe_customer_mismatch"@,
        retry_text(RetryCode::BillingSubjectNotLinked) == "billing_subject_not_linked"@,
        retry_text(RetryCode::EntitlementRevokeRejected) == "entitlement_revoke_rejected"@,
        retry_text(RetryCode::EntitlementRevokeUnavailable) == "entitlement_revoke_unavailable"@,
        retry_text(RetryCode::EntitlementPutRejected) == "entitlement_put_rejected"@,
        retry_text(RetryCode::EntitlementPutUnavailable) == "entitlement_put_unavailable"@,
        retry_text(RetryCode::EntitlementBindingStoreFailed) == "entitlement_binding_store_failed"@,
{
}

/// Only a worker of the policy's own list runs reconciliations, and under its own name.
pub proof fn law_only_workers_reconcile(
    config: StripeSubscriptionConfig,
    caller: Seq<char>,
    worker: Result<String, AdminFlowError>,
)
    ensures
        begins_reconcile(config, None, worker) ==> worker == Err::<String, AdminFlowError>(
            AdminFlowError::Reconcile(ReconcileNextError::Forbidden),
        ),
        begins_reconcile(config, Some(caller), worker) ==> {
            let allowed = exists|i: int|
                0 <= i < config.worker_instances@.len() && (#[trigger] config.worker_instances@[i])@
                    == caller;
            &&& worker is Ok == allowed
            &&& worker is Ok ==> worker->Ok_0@ == caller
            &&& worker is Err ==> worker->Err_0 == AdminFlowError::Reconcile(
                ReconcileNextError::Forbidden,
            )
        },
{
    law_lists_are_exact(config.worker_instances@, caller);
}

/// A claim is followed up, and where there is nothing to claim the answer says that nothing was
/// done.
pub proof fn law_claims_are_followed_up(claim: ReconciliationClaim, error: StoreError, step: ClaimedStep)
    ensures
        follows_claim(Ok(Some(claim)), step) ==> step == ClaimedStep::Fetch(claim),
        follows_claim(Ok(None), step) ==> {
            &&& step matches ClaimedStep::Finish(Ok(answer)) && {
                &&& answer.status == ReconcileNextResponseStatus::Idle
                &&& answer.subscription_id is None
                &&& answer.revision is None
            }
        },
        follows_claim(Err(error), step) ==> (step matches ClaimedStep::Finish(
            Err(AdminFlowError::Runtime(failure)),
        ) && failure.detail@ == store_error_text(error)),
{
}

/// A subscription is read from the body of a successful answer alone; without an answer the fetch
/// failed, and any other answer rejected it.
pub proof fn law_subscriptions_are_read_from_successful_answers(reply: HttpReply)
    ensures
        fetched(None) == Err::<Vec<u8>, RetryCode>(RetryCode::StripeFetchFailed),
        200 <= reply.status <= 299 ==> fetched(Some(reply)) == Ok::<Vec<u8>, RetryCode>(reply.body),
        !(200 <= reply.status <= 299) ==> fetched(Some(reply)) == Err::<Vec<u8>, RetryCode>(
            RetryCode::StripeFetchRejected,
        ),
{
}

/// A claimed subscription is taken from an answer exactly where the answer is not too long, holds
/// one subscription with one price, and is about the claimed customer.
pub proof fn law_answers_must_fit_the_claim(
    claim: ReconciliationClaim,
    body_bytes: usize,
    wire: StripeSubscriptionWire,
    read: Result<CanonicalSubscription, RetryCode>,
)
    ensures
        reads_subscription(claim, body_bytes, None, read) ==> read == Err::<
            CanonicalSubscription,
            RetryCode,
        >(RetryCode::StripeSubscriptionInvalid),
        reads_subscription(claim, body_bytes, Some(wire), read) ==> {
            let readable = body_bytes <= 1024 * 1024 && wire.items@.len() == 1 && is_stripe_id(
                wire.id@,
                "sub_"@,
            ) && is_stripe_id(wire.customer@, "cus_"@) && is_stripe_id(
                wire.items@[0].price_id@,
                "price_"@,
            );
            &&& !readable ==> read == Err::<CanonicalSubscription, RetryCode>(
                RetryCode::StripeSubscriptionInvalid,
            )
            &&& readable && wire.customer@ != claim.customer_id@ ==> read == Err::<
                CanonicalSubscription,
                RetryCode,
            >(RetryCode::StripeCustomerMismatch)
            &&& readable && wire.customer@ == claim.customer_id@ ==> read is Ok
                && read->Ok_0.subscription_id == wire.id && read->Ok_0.customer_id == wire.customer
                && read->Ok_0.price_id == wire.items@[0].price_id
        },
{
    law_subscriptions_have_one_price(wire);
}

/// Whatever subject is picked has the subscription or the customer. One with another subscription
/// is picked only where no subject of the customer is without one and none has this one; one with
/// this subscription only where none of the customer's is without one.
pub proof fn law_picked_subjects_own_the_subscription(
    subjects: Seq<BillingSubject>,
    subscription_id: Seq<char>,
    customer_id: Seq<char>,
    picked: Option<BillingSubject>,
    j: int,
)
    requires
        picks(subjects, subscription_id, customer_id, picked),
        0 <= j < subjects.len(),
    ensures
        picked is Some ==> subjects.contains(picked->0) && (opt_text(picked->0.subscription_id)
            == Some(subscription_id) || picked->0.customer_id@ == customer_id),
        picked is None ==> opt_text(subjects[j].subscription_id) != Some(subscription_id)
            && subjects[j].customer_id@ != customer_id,
        picked is Some && subjects[j].customer_id@ == customer_id
            && subjects[j].subscription_id is None ==> picked->0.subscription_id is None,
        picked is Some && opt_text(subjects[j].subscription_id) == Some(subscription_id)
            ==> picked->0.subscription_id is None || opt_text(picked->0.subscription_id) == Some(
            subscription_id,
        ),
{
    if picked is Some {
        let i = choose|i: int| #[trigger]
            is_candidate(subjects, subscription_id, customer_id, i) && picked->0 == subjects[i];
        assert(subjects[i] == picked->0);
        assert(may_own(subjects[j], subscription_id, customer_id) ==> place(
            subjects[i],
            subscription_id,
        ) <= place(subjects[j], subscription_id));
    }
}

/// Of subjects in the same place the first is picked.
pub proof fn law_the_first_subject_is_picked(
    subjects: Seq<BillingSubject>,
    subscription_id: Seq<char>,
    customer_id: Seq<char>,
    picked: Option<BillingSubject>,
    i: int,
)
    requires
        picks(subjects, subscription_id, customer_id, picked),
        0 <= i < subjects.len(),
        subjects[i].customer_id@ == customer_id,
        subjects[i].subscription_id is None,
        forall|j: int|
            0 <= j < i ==> (#[trigger] subjects[j]).customer_id@ != customer_id
                || subjects[j].subscription_id is Some,
    ensures
        picked == Some(subjects[i]),
{
    assert(may_own(subjects[i], subscription_id, customer_id));
    let c = choose|c: int| #[trigger]
        is_candidate(subjects, subscription_id, customer_id, c) && picked->0 == subjects[c];
    assert(place(subjects[i], subscription_id) == 0);
    assert(place(subjects[c], subscription_id) == 0);
    assert(c <= i);
    if c < i {
        assert(subjects[c].customer_id@ != customer_id || subjects[c].subscription_id is Some);
    }
}

/// A linked subject is reconciled, and a subscription without one is handed back.
pub proof fn law_unlinked_subscriptions_are_handed_back(
    subject: BillingSubject,
    error: StoreError,
    step: SubjectStep,
)
    ensures
        follows_lookup(Ok(Some(subject)), step) ==> step == SubjectStep::Linked(subject),
        follows_lookup(Ok(None), step) ==> step == SubjectStep::Retry(
            RetryCode::BillingSubjectNotLinked,
        ),
        follows_lookup(Err(error), step) ==> (step matches SubjectStep::Finish(
            AdminFlowError::Runtime(failure),
        ) && failure.detail@ == store_error_text(error)),
{
}

/// A revoked grant leaves no binding, whether it was revoked now or before, and a put grant is
/// bound under its own feature at the next revision; every other answer hands the work back with a
/// code of its own.
pub proof fn law_answers_change_bindings(
    binding: EntitlementBinding,
    grant: PutGrantRequest,
    grant_id: String,
    revision: i64,
)
    ensures
        change_of_revoke(binding, RevokeAnswer::Revoked) matches Ok(BindingChange::Delete { feature })
            && feature@ == binding.feature@,
        change_of_revoke(binding, RevokeAnswer::NotFound) == change_of_revoke(
            binding,
            RevokeAnswer::Revoked,
        ),
        change_of_revoke(binding, RevokeAnswer::Rejected) == Err::<BindingChange, RetryCode>(
            RetryCode::EntitlementRevokeRejected,
        ),
        change_of_revoke(binding, RevokeAnswer::Unavailable) == Err::<BindingChange, RetryCode>(
            RetryCode::EntitlementRevokeUnavailable,
        ),
        change_of_put(grant, PutAnswer::Granted(grant_id), revision) matches Ok(
            BindingChange::Bind { feature, grant_id: bound, revision: next },
        ) && feature@ == grant.feature@ && bound@ == grant_id@ && (revision < i64::MAX ==> next
            == revision + 1) && (revision == i64::MAX ==> next == revision),
        change_of_put(grant, PutAnswer::Rejected, revision) == Err::<BindingChange, RetryCode>(
            RetryCode::EntitlementPutRejected,
        ),
        change_of_put(grant, PutAnswer::Unavailable, revision) == Err::<BindingChange, RetryCode>(
            RetryCode::EntitlementPutUnavailable,
        ),
{
}

/// A binding that could not be stored hands the work back.
pub proof fn law_bindings_must_be_stored(error: StoreError)
    ensures
        stored_binding(Ok(())) is Ok,
        stored_binding(Err(error)) == Err::<(), RetryCode>(
            RetryCode::EntitlementBindingStoreFailed,
        ),
{
}

/// Steps are performed one by one and in order: the next one and those after it are those that
/// were to come. After a failure nothing more is performed, and the work is handed back with that
/// failure's code.
pub proof fn law_steps_are_performed_in_order(
    remaining: Seq<EntitlementStep>,
    code: RetryCode,
)
    ensures
        remaining.len() > 0 ==> (next_of(remaining, Ok(())) matches NextModel::Perform {
            step,
            remaining: rest,
        } && seq![step] + rest == remaining),
        remaining.len() == 0 ==> next_of(remaining, Ok(())) == NextModel::Settle,
        next_of(remaining, Err(code)) == NextModel::Retry(code),
{
    if remaining.len() > 0 {
        assert(seq![remaining[0]] + remaining.skip(1) == remaining);
    }
}

/// Work that was handed back is reported as pending, for its subscription and without a revision;
/// a lost lease is refused.
pub proof fn law_retries_are_reported(
    subscription_id: String,
    error: StoreError,
    answer: Result<ReconcileNextResponse, AdminFlowError>,
)
    ensures
        answers_retry(subscription_id, Ok(true), answer) ==> {
            &&& answer is Ok
            &&& answer->Ok_0.status == ReconcileNextResponseStatus::RetryPending
            &&& opt_text(answer->Ok_0.subscription_id) == Some(subscription_id@)
            &&& answer->Ok_0.revision is None
        },
        answers_retry(subscription_id, Ok(false), answer) ==> answer == Err::<
            ReconcileNextResponse,
            AdminFlowError,
        >(AdminFlowError::Reconcile(ReconcileNextError::InvalidState)),
        answers_retry(subscription_id, Err(error), answer) ==> (answer matches Err(
            AdminFlowError::Runtime(failure),
        ) && failure.detail@ == store_error_text(error)),
{
}

/// A reconciliation is reported as converged exactly where it was settled, for its subscription and
/// with the subject's new revision.
pub proof fn law_only_settled_work_is_reported_as_converged(
    subscription_id: String,
    convergence: Result<Convergence, StoreError>,
    answer: Result<ReconcileNextResponse, AdminFlowError>,
)
    requires
        answers_convergence(subscription_id, convergence, answer),
    ensures
        answer is Ok == (convergence matches Ok(Convergence::Converged(_))),
        answer is Ok ==> {
            &&& answer->Ok_0.status == ReconcileNextResponseStatus::Converged
            &&& opt_text(answer->Ok_0.subscription_id) == Some(subscription_id@)
            &&& convergence == Ok::<Convergence, StoreError>(
                Convergence::Converged(answer->Ok_0.revision->0),
            )
            &&& answer->Ok_0.revision is Some
        },
        convergence == Ok::<Convergence, StoreError>(Convergence::Refused) ==> answer == Err::<
            ReconcileNextResponse,
            AdminFlowError,
        >(AdminFlowError::Reconcile(ReconcileNextError::InvalidState)),
        convergence is Err ==> (answer matches Err(AdminFlowError::Runtime(failure))
            && failure.detail@ == store_error_text(convergence->Err_0)),
        convergence == Ok::<Convergence, StoreError>(Convergence::OutOfRange) ==> (
        answer matches Err(AdminFlowError::Runtime(failure)) && failure.detail@
            == "Stripe Subscription PostgreSQL operation failed: "@
            + "error returned from database: bigint out of range"@),
{
}

} // verus!
