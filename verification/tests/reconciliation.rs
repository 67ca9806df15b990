use stripe_subscription::clock::Instant;
use stripe_subscription::config::{EntitlementMapping, PriceMapping, StripeSubscriptionConfig};
use stripe_subscription::contract::{
    AdminFlowError, ReconcileNextError, ReconcileNextResponseStatus,
};
use stripe_subscription::lease::{
    claim_reconciliation, converge_reconciliation, enqueue, lease_hash, new_lease_hash,
    next_claimable, CanonicalState, Convergence, ReconciliationClaim, ReconciliationRow, ReconciliationState, RowChange,
};
use stripe_subscription::receipts::{
    delivery_step, link_checkout_subject, record_webhook, webhook_row, DeliveryStep,
    WebhookRecordOutcome,
};
use stripe_subscription::reconcile::{
    begin_reconcile, binding_stored, next_step, plan_reconciliation, put_answered,
    reconciliation_candidate, reconciliation_claimed, reconciliation_converged,
    reconciliation_subject, retry_result,
    revoke_answered, subscription_fetched, subscription_read, BindingChange, ClaimedStep,
    EntitlementBinding, EntitlementStep, NextStep, PutAnswer, PutGrantRequest, RetryCode,
    RevokeAnswer, SubjectStep,
};
use stripe_subscription::store::StoreError;
use stripe_subscription::stripe::{
    CanonicalSubscription, HttpReply, StripeItem, StripeSubscriptionWire,
};
use stripe_subscription::subscription::BillingSubject;
use stripe_subscription::webhook::{CheckoutSubject, ReconciliationTarget, VerifiedEvent};

fn config() -> StripeSubscriptionConfig {
    StripeSubscriptionConfig::new(
        "stripe_billing",
        "stripe/database-url",
        "stripe/api-key",
        "stripe/webhook-secret",
        "stripe/receipt-key",
        "https://api.stripe.com",
        false,
        300,
        262_144,
        30,
        vec!["https://app.example.test".to_owned()],
        vec![PriceMapping {
            alias: "pro".to_owned(),
            price_id: "price_1".to_owned(),
            entitlements: vec![
                EntitlementMapping { feature: "projects".to_owned(), limit: Some("5".to_owned()) },
                EntitlementMapping { feature: "seats".to_owned(), limit: None },
            ],
        }],
        vec!["billing-ui".to_owned()],
        vec!["stripe-ingress".to_owned()],
        vec!["stripe-worker".to_owned()],
        vec!["billing-operator".to_owned()],
    )
    .unwrap()
}

fn target() -> ReconciliationTarget {
    ReconciliationTarget {
        subscription_id: "sub_1".to_owned(),
        customer_id: "cus_1".to_owned(),
        checkout_subject: None,
    }
}

fn checkout_subject() -> CheckoutSubject {
    CheckoutSubject {
        scope_kind: "organization".to_owned(),
        scope_id: "org_1".to_owned(),
        subject: "org_1".to_owned(),
        price_alias: "pro".to_owned(),
    }
}

fn subject() -> BillingSubject {
    BillingSubject {
        scope_kind: "organization".to_owned(),
        scope_id: "org_1".to_owned(),
        subject: "org_1".to_owned(),
        customer_id: "cus_1".to_owned(),
        subscription_id: Some("sub_1".to_owned()),
        price_alias: None,
        subscription_status: "incomplete".to_owned(),
        cancel_at_period_end: false,
        current_period_end: None,
        entitlement_state: "pending".to_owned(),
        revision: 4,
    }
}

fn canonical(status: &str, price_id: &str) -> CanonicalSubscription {
    CanonicalSubscription {
        subscription_id: "sub_1".to_owned(),
        customer_id: "cus_1".to_owned(),
        status: status.to_owned(),
        cancel_at_period_end: true,
        current_period_end: Some(Instant { unix_seconds: 1_800_000_000, nanosecond: 0 }),
        price_id: price_id.to_owned(),
    }
}

fn binding(feature: &str) -> EntitlementBinding {
    EntitlementBinding { feature: feature.to_owned(), grant_id: format!("grant-{feature}") }
}

fn event(target: Option<ReconciliationTarget>) -> VerifiedEvent {
    VerifiedEvent {
        event_id: "evt_1".to_owned(),
        event_type: "customer.subscription.updated".to_owned(),
        created_at: 1_000,
        livemode: false,
        target,
    }
}

#[test]
fn deliveries_are_recorded_once() {
    let row = webhook_row(&event(Some(target())), vec![1; 32]);
    assert_eq!(row.outcome, "accepted");
    assert_eq!(row.customer_id.as_deref(), Some("cus_1"));
    assert_eq!(record_webhook(&row, None).unwrap(), WebhookRecordOutcome::Created);
    let again = webhook_row(&event(Some(target())), vec![1; 32]);
    assert_eq!(record_webhook(&again, Some(&row)).unwrap(), WebhookRecordOutcome::Duplicate);

    let other = webhook_row(&event(Some(target())), vec![2; 32]);
    assert_eq!(
        record_webhook(&other, Some(&row)).unwrap_err().message(),
        "Stripe Subscription storage invariant failed: Stripe event `evt_1` was replayed with different content"
    );
    let ignored = webhook_row(&event(None), vec![1; 32]);
    assert_eq!(ignored.outcome, "ignored");
    assert_eq!(ignored.subscription_id, None);
    assert!(record_webhook(&ignored, Some(&row)).is_err());
}

#[test]
fn a_checkout_links_its_subject() {
    let linked = link_checkout_subject(None, &target(), &checkout_subject()).unwrap();
    assert_eq!(linked.subscription_status, "incomplete");
    assert_eq!(linked.entitlement_state, "pending");
    assert_eq!(linked.revision, 1);
    assert_eq!(linked.price_alias.as_deref(), Some("pro"));

    let mut existing = subject();
    existing.subscription_status = "active".to_owned();
    existing.entitlement_state = "granted".to_owned();
    existing.customer_id = "cus_0".to_owned();
    let linked = link_checkout_subject(Some(existing), &target(), &checkout_subject()).unwrap();
    assert_eq!(linked.customer_id, "cus_1");
    assert_eq!(linked.subscription_status, "active");
    assert_eq!(linked.entitlement_state, "pending");
    assert_eq!(linked.revision, 5);

    let mut full = subject();
    full.revision = i64::MAX;
    assert!(link_checkout_subject(Some(full), &target(), &checkout_subject()).is_none());
}

#[test]
fn leases_are_exclusive_until_they_expire() {
    let mut row = enqueue(None, &target(), 5);
    assert_eq!(row.state, ReconciliationState::Pending);
    assert_eq!((row.attempts, row.lease_generation, row.updated_at), (0, 0, 5));
    assert_eq!(
        row.claim("worker-1".to_owned(), vec![1; 32], 30, 10),
        RowChange::Changed
    );
    assert_eq!(row.state, ReconciliationState::Running);
    assert_eq!((row.attempts, row.lease_generation), (1, 1));
    assert_eq!(row.lease_owner.as_deref(), Some("worker-1"));
    assert_eq!(row.lease_expires_at, Some(30_000_010));
    assert_eq!(
        row.claim("worker-2".to_owned(), vec![2; 32], 30, 30_000_009),
        RowChange::Unchanged
    );
    assert!(row.owned(&[1; 32], 30_000_009));
    assert!(!row.owned(&[1; 32], 30_000_010));
    assert_eq!(
        row.claim("worker-2".to_owned(), vec![2; 32], 30, 30_000_010),
        RowChange::Changed
    );
    assert!(!row.owned(&[1; 32], 30_000_011));
    assert!(!row.retry(&[1; 32], "late".to_owned(), 30_000_011));
    assert!(row.retry(&[2; 32], "stripe_fetch_failed".to_owned(), 99_000_000));
    assert_eq!(row.state, ReconciliationState::Pending);
    assert_eq!(row.last_failure_code.as_deref(), Some("stripe_fetch_failed"));
    assert_eq!(row.lease_token_hash, None);

    let mut full = enqueue(None, &target(), 5);
    full.attempts = i64::MAX;
    assert_eq!(full.claim("w".to_owned(), vec![], 30, 10), RowChange::OutOfRange);
    assert_eq!(full.state, ReconciliationState::Pending);
    let mut late = enqueue(None, &target(), 5);
    assert_eq!(late.claim("w".to_owned(), vec![], 30, i64::MAX), RowChange::OutOfRange);
}

fn state(status: &str) -> CanonicalState {
    CanonicalState {
        subscription_id: "sub_1".to_owned(),
        customer_id: "cus_1".to_owned(),
        price_alias: Some("pro".to_owned()),
        status: status.to_owned(),
        cancel_at_period_end: true,
        current_period_end: None,
        entitlement_state: "granted".to_owned(),
    }
}

fn running() -> ReconciliationRow {
    let mut row = enqueue(None, &target(), 5);
    assert_eq!(row.claim("worker-1".to_owned(), vec![1; 32], 30, 10), RowChange::Changed);
    row
}

#[test]
fn only_the_lease_holder_settles() {
    let mut row = running();
    let mut other = subject();
    other.customer_id = "cus_9".to_owned();
    other.subscription_id = None;
    other.revision = 8;
    let mut subjects = vec![other, subject()];
    assert_eq!(
        converge_reconciliation(&mut row, &mut subjects, &[9; 32], &state("active"), 20),
        Convergence::Refused
    );
    assert_eq!(subjects[1].revision, 4);
    assert_eq!(
        converge_reconciliation(&mut row, &mut subjects, &[1; 32], &state("active"), 30_000_010),
        Convergence::Refused
    );
    assert_eq!(
        converge_reconciliation(&mut row, &mut subjects, &[1; 32], &state("active"), 20),
        Convergence::Converged(5)
    );
    assert_eq!(row.state, ReconciliationState::Converged);
    assert_eq!(row.lease_token_hash, None);
    assert_eq!(subjects[0].revision, 8);
    assert_eq!(subjects[1].revision, 5);
    assert_eq!(subjects[1].subscription_status, "active");
    assert_eq!(subjects[1].entitlement_state, "granted");
    assert!(subjects[1].cancel_at_period_end);
    assert_eq!(row.claim("w".to_owned(), vec![], 30, i64::MAX - 1), RowChange::Unchanged);

    let mut row = running();
    assert_eq!(
        converge_reconciliation(&mut row, &mut vec![], &[1; 32], &state("active"), 20),
        Convergence::Refused
    );
    let mut full = subject();
    full.revision = i64::MAX;
    let mut subjects = vec![subject(), full];
    assert_eq!(
        converge_reconciliation(&mut row, &mut subjects, &[1; 32], &state("active"), 20),
        Convergence::OutOfRange
    );
    assert_eq!(subjects[0].revision, 4);
    assert_eq!(row.state, ReconciliationState::Running);
}

#[test]
fn a_new_event_fences_running_work() {
    let row = running();
    let mut fenced = enqueue(Some(row), &target(), 15);
    assert_eq!(fenced.attempts, 1);
    let mut subjects = vec![subject()];
    assert_eq!(
        converge_reconciliation(&mut fenced, &mut subjects, &[1; 32], &state("active"), 20),
        Convergence::Refused
    );
    assert!(!fenced.retry(&[1; 32], "x".to_owned(), 20));
    assert_eq!(fenced.claim("w".to_owned(), vec![2; 32], 30, 20), RowChange::Changed);
}

#[test]
fn lease_tokens_are_hashed() {
    assert_abc_digest(lease_hash(Ok(b"abc".to_vec())).unwrap());
    assert_eq!(lease_hash(Err("no entropy".to_owned())).unwrap_err().detail, "no entropy");
    let first = new_lease_hash().unwrap();
    assert_eq!(first.len(), 32);
    assert_ne!(first, new_lease_hash().unwrap());
}

fn assert_abc_digest(digest: Vec<u8>) {
    assert_eq!(
        digest.iter().map(|byte| format!("{byte:02x}")).collect::<String>(),
        "ba7816bf8f01cfea414140de5dae2223b00361a396177a9cb410ff61f20015ad"
    );
}

#[test]
fn workers_are_authorized_and_may_find_nothing() {
    assert_eq!(begin_reconcile(&config(), Some("stripe-worker")).unwrap(), "stripe-worker");
    for caller in [None, Some("billing-ui")] {
        assert!(matches!(
            begin_reconcile(&config(), caller),
            Err(AdminFlowError::Reconcile(ReconcileNextError::Forbidden))
        ));
    }
    match reconciliation_claimed(Ok(None)) {
        ClaimedStep::Finish(Ok(response)) => {
            assert_eq!(response.status, ReconcileNextResponseStatus::Idle);
            assert_eq!(response.revision, None);
            assert_eq!(response.subscription_id, None);
        }
        _ => panic!("expected an idle answer"),
    }
    assert!(matches!(
        reconciliation_claimed(Err(StoreError::Database("d".to_owned()))),
        ClaimedStep::Finish(Err(AdminFlowError::Runtime(_)))
    ));
    assert!(matches!(
        reconciliation_claimed(Ok(Some(claim()))),
        ClaimedStep::Fetch(claim) if claim.subscription_id == "sub_1"
    ));
}

fn claim() -> ReconciliationClaim {
    ReconciliationClaim {
        subscription_id: "sub_1".to_owned(),
        customer_id: "cus_1".to_owned(),
        token_hash: vec![1; 32],
    }
}

fn wire(customer: &str) -> StripeSubscriptionWire {
    StripeSubscriptionWire {
        id: "sub_1".to_owned(),
        customer: customer.to_owned(),
        status: "active".to_owned(),
        cancel_at_period_end: false,
        current_period_end: None,
        items: vec![StripeItem { price_id: "price_1".to_owned(), current_period_end: None }],
    }
}

#[test]
fn failures_have_their_codes() {
    assert_eq!(subscription_fetched(None), Err(RetryCode::StripeFetchFailed));
    assert_eq!(
        subscription_fetched(Some(HttpReply { status: 404, body: vec![] })),
        Err(RetryCode::StripeFetchRejected)
    );
    assert_eq!(
        subscription_fetched(Some(HttpReply { status: 200, body: vec![7] })),
        Ok(vec![7])
    );
    assert!(matches!(
        subscription_read(&claim(), 10, None),
        Err(RetryCode::StripeSubscriptionInvalid)
    ));
    assert!(matches!(
        subscription_read(&claim(), 10, Some(wire("cus_2"))),
        Err(RetryCode::StripeCustomerMismatch)
    ));
    assert!(subscription_read(&claim(), 10, Some(wire("cus_1"))).is_ok());
    assert!(matches!(
        reconciliation_subject(Ok(None)),
        SubjectStep::Retry(RetryCode::BillingSubjectNotLinked)
    ));
    assert!(matches!(
        reconciliation_subject(Ok(Some(subject()))),
        SubjectStep::Linked(_)
    ));
    for (code, text) in [
        (RetryCode::StripeFetchFailed, "stripe_fetch_failed"),
        (RetryCode::StripeFetchRejected, "stripe_fetch_rejected"),
        (RetryCode::StripeSubscriptionInvalid, "stripe_subscription_invalid"),
        (RetryCode::StripeCustomerMismatch, "stripe_customer_mismatch"),
        (RetryCode::BillingSubjectNotLinked, "billing_subject_not_linked"),
        (RetryCode::EntitlementRevokeRejected, "entitlement_revoke_rejected"),
        (RetryCode::EntitlementRevokeUnavailable, "entitlement_revoke_unavailable"),
        (RetryCode::EntitlementPutRejected, "entitlement_put_rejected"),
        (RetryCode::EntitlementPutUnavailable, "entitlement_put_unavailable"),
        (RetryCode::EntitlementBindingStoreFailed, "entitlement_binding_store_failed"),
    ] {
        assert_eq!(code.as_str(), text);
    }
}

fn shape(steps: &[EntitlementStep]) -> Vec<String> {
    steps
        .iter()
        .map(|step| match step {
            EntitlementStep::Revoke(binding) => format!("-{}", binding.feature),
            EntitlementStep::Put(grant) => format!("+{}", grant.feature),
        })
        .collect()
}

#[test]
fn access_grants_the_configured_features_and_revokes_the_rest() {
    let bindings = || vec![binding("legacy"), binding("seats")];
    let plan = plan_reconciliation(&config(), canonical("active", "price_1"), &subject(), bindings());
    assert_eq!(shape(&plan.steps), vec!["-legacy", "+projects", "+seats"]);
    match &plan.steps[1] {
        EntitlementStep::Put(grant) => {
            assert_eq!(grant.limit.as_deref(), Some("5"));
            assert_eq!(grant.expires_at.as_deref(), Some("2027-01-15T08:00:00Z"));
            assert_eq!(grant.scope_kind, "organization");
            assert_eq!(grant.scope_id, "org_1");
            assert_eq!(grant.subject, "org_1");
        }
        EntitlementStep::Revoke(_) => panic!("expected a grant"),
    }
    assert_eq!(plan.state.entitlement_state, "granted");
    assert_eq!(plan.state.price_alias.as_deref(), Some("pro"));

    let plan =
        plan_reconciliation(&config(), canonical("trialing", "price_1"), &subject(), vec![]);
    assert_eq!(shape(&plan.steps), vec!["+projects", "+seats"]);

    let plan =
        plan_reconciliation(&config(), canonical("past_due", "price_1"), &subject(), bindings());
    assert_eq!(shape(&plan.steps), vec!["-legacy", "-seats"]);
    assert_eq!(plan.state.entitlement_state, "revoked");
    assert_eq!(plan.state.price_alias.as_deref(), Some("pro"));

    let plan =
        plan_reconciliation(&config(), canonical("active", "price_9"), &subject(), bindings());
    assert_eq!(shape(&plan.steps), vec!["-legacy", "-seats"]);
    assert_eq!(plan.state.entitlement_state, "failed");
    assert_eq!(plan.state.price_alias, None);
    assert!(plan.state.cancel_at_period_end);
}

fn grant() -> PutGrantRequest {
    PutGrantRequest {
        expires_at: None,
        feature: "seats".to_owned(),
        limit: None,
        scope_id: "org_1".to_owned(),
        scope_kind: "organization".to_owned(),
        subject: "org_1".to_owned(),
    }
}

#[test]
fn answers_change_bindings_or_hand_the_work_back() {
    for answer in [RevokeAnswer::Revoked, RevokeAnswer::NotFound] {
        assert!(matches!(
            revoke_answered(binding("legacy"), answer),
            Ok(BindingChange::Delete { feature }) if feature == "legacy"
        ));
    }
    assert!(matches!(
        revoke_answered(binding("legacy"), RevokeAnswer::Rejected),
        Err(RetryCode::EntitlementRevokeRejected)
    ));
    assert!(matches!(
        revoke_answered(binding("legacy"), RevokeAnswer::Unavailable),
        Err(RetryCode::EntitlementRevokeUnavailable)
    ));
    assert!(matches!(
        put_answered(grant(), PutAnswer::Granted("g1".to_owned()), 4),
        Ok(BindingChange::Bind { feature, grant_id, revision: 5 })
            if feature == "seats" && grant_id == "g1"
    ));
    assert!(matches!(
        put_answered(grant(), PutAnswer::Granted("g1".to_owned()), i64::MAX),
        Ok(BindingChange::Bind { revision: i64::MAX, .. })
    ));
    assert!(matches!(
        put_answered(grant(), PutAnswer::Rejected, 4),
        Err(RetryCode::EntitlementPutRejected)
    ));
    assert!(matches!(
        put_answered(grant(), PutAnswer::Unavailable, 4),
        Err(RetryCode::EntitlementPutUnavailable)
    ));
    assert_eq!(binding_stored(Ok(())), Ok(()));
    assert_eq!(
        binding_stored(Err(StoreError::Database("d".to_owned()))),
        Err(RetryCode::EntitlementBindingStoreFailed)
    );
}

#[test]
fn a_run_settles_only_after_every_step() {
    let plan = plan_reconciliation(
        &config(),
        canonical("active", "price_1"),
        &subject(),
        vec![binding("legacy")],
    );
    let mut remaining = plan.steps;
    let mut performed = Vec::new();
    loop {
        match next_step(remaining, Ok(())) {
            NextStep::Perform { step, remaining: rest } => {
                performed.push(step);
                remaining = rest;
            }
            NextStep::Settle => break,
            NextStep::Retry(_) => panic!("nothing failed"),
        }
    }
    assert_eq!(shape(&performed), vec!["-legacy", "+projects", "+seats"]);
    assert!(matches!(
        next_step(performed, Err(RetryCode::EntitlementPutUnavailable)),
        NextStep::Retry(RetryCode::EntitlementPutUnavailable)
    ));
}

#[test]
fn only_a_settled_row_is_reported_as_converged() {
    let response =
        reconciliation_converged("sub_1".to_owned(), Ok(Convergence::Converged(9))).unwrap_ok();
    assert_eq!(response.status, ReconcileNextResponseStatus::Converged);
    assert_eq!(response.revision, Some(9));
    assert_eq!(response.subscription_id.as_deref(), Some("sub_1"));
    assert!(matches!(
        reconciliation_converged("sub_1".to_owned(), Ok(Convergence::Refused)),
        Err(AdminFlowError::Reconcile(ReconcileNextError::InvalidState))
    ));
    assert!(matches!(
        reconciliation_converged("sub_1".to_owned(), Ok(Convergence::OutOfRange)),
        Err(AdminFlowError::Runtime(failure)) if failure.detail
            == "Stripe Subscription PostgreSQL operation failed: error returned from database: bigint out of range"
    ));
    let response = retry_result("sub_1".to_owned(), Ok(true)).unwrap_ok();
    assert_eq!(response.status, ReconcileNextResponseStatus::RetryPending);
    assert_eq!(response.revision, None);
    assert!(matches!(
        retry_result("sub_1".to_owned(), Ok(false)),
        Err(AdminFlowError::Reconcile(ReconcileNextError::InvalidState))
    ));
}

trait UnwrapOk<T> {
    fn unwrap_ok(self) -> T;
}

impl<T, E> UnwrapOk<T> for Result<T, E> {
    fn unwrap_ok(self) -> T {
        match self {
            Ok(value) => value,
            Err(_) => panic!("expected success"),
        }
    }
}

#[test]
fn reconciliation_states_read_back() {
    for state in [
        ReconciliationState::Pending,
        ReconciliationState::Running,
        ReconciliationState::Converged,
    ] {
        assert_eq!(ReconciliationState::parse(state.as_str()).unwrap(), state);
    }
    assert_eq!(ReconciliationState::Running.as_str(), "running");
    assert_eq!(
        ReconciliationState::parse("done").unwrap_err().message(),
        "Stripe Subscription storage invariant failed: unknown persisted Stripe reconciliation state `done`"
    );
}

fn waiting(subscription_id: &str, since: i64) -> ReconciliationRow {
    let mut row = enqueue(None, &target(), since);
    row.subscription_id = subscription_id.to_owned();
    row
}

#[test]
fn the_longest_waiting_row_is_claimed() {
    let mut rows = vec![
        waiting("sub_a", 30),
        waiting("sub_b", 10),
        waiting("sub_c", 20),
        waiting("sub_d", 20),
    ];
    assert_eq!(rows[1].claim("w".to_owned(), vec![1], 1, 10), RowChange::Changed);
    rows[1].updated_at = 5;
    assert_eq!(next_claimable(&rows, 100), Some(2));
    assert_eq!(next_claimable(&rows, 1_000_010), Some(1));
    assert_eq!(next_claimable(&vec![], 0), None);

    let claim = claim_reconciliation(&mut rows, "worker".to_owned(), vec![7; 32], 30, 100)
        .unwrap()
        .unwrap();
    assert_eq!(claim.subscription_id, "sub_c");
    assert_eq!(claim.customer_id, "cus_1");
    assert_eq!(claim.token_hash, vec![7; 32]);
    assert_eq!(rows[2].state, ReconciliationState::Running);
    assert_eq!(rows[2].lease_owner.as_deref(), Some("worker"));
    assert_eq!(rows[2].lease_expires_at, Some(30_000_100));
    assert_eq!(rows[2].attempts, 1);
    assert_eq!(rows[0].state, ReconciliationState::Pending);
    assert_eq!(rows[3].attempts, 0);

    rows[3].attempts = i64::MAX;
    assert_eq!(
        claim_reconciliation(&mut rows, "worker".to_owned(), vec![8], 30, 100)
            .err()
            .unwrap()
            .message(),
        "Stripe Subscription PostgreSQL operation failed: error returned from database: bigint out of range"
    );
    assert_eq!(rows[3].state, ReconciliationState::Pending);
    let mut none: Vec<ReconciliationRow> = vec![running()];
    none[0].lease_expires_at = Some(i64::MAX);
    assert!(claim_reconciliation(&mut none, "worker".to_owned(), vec![8], 30, 100)
        .unwrap_ok()
        .is_none());
}

#[test]
fn subjects_are_picked_by_their_subscription() {
    let named = |name: &str, subscription: Option<&str>, customer: &str| {
        let mut one = subject();
        one.subject = name.to_owned();
        one.subscription_id = subscription.map(str::to_owned);
        one.customer_id = customer.to_owned();
        one
    };
    let all = || {
        vec![
            named("another", Some("sub_8"), "cus_1"),
            named("unrelated", None, "cus_9"),
            named("own", Some("sub_1"), "cus_2"),
            named("waiting", None, "cus_1"),
            named("waiting too", None, "cus_1"),
        ]
    };
    let picked = |subscription: &str, customer: &str| {
        reconciliation_candidate(all(), subscription, customer).map(|one| one.subject)
    };
    assert_eq!(picked("sub_1", "cus_1").as_deref(), Some("waiting"));
    assert_eq!(picked("sub_1", "cus_2").as_deref(), Some("own"));
    assert_eq!(picked("sub_8", "cus_2").as_deref(), Some("another"));
    assert_eq!(picked("sub_7", "cus_2").as_deref(), Some("own"));
    assert_eq!(picked("sub_7", "cus_9").as_deref(), Some("unrelated"));
    assert_eq!(picked("sub_7", "cus_7"), None);
    let mut without_waiting = all();
    without_waiting.truncate(3);
    assert_eq!(
        reconciliation_candidate(without_waiting, "sub_1", "cus_1").map(|one| one.subject),
        Some("own".to_owned())
    );
}

#[test]
fn only_first_deliveries_with_a_target_enqueue() {
    let mut linked = target();
    linked.checkout_subject = Some(checkout_subject());
    let created = WebhookRecordOutcome::Created;
    let duplicate = WebhookRecordOutcome::Duplicate;
    assert_eq!(delivery_step(created, &None), DeliveryStep::Nothing);
    assert_eq!(
        delivery_step(created, &Some(target())),
        DeliveryStep::Enqueue { link: false }
    );
    assert_eq!(delivery_step(duplicate, &Some(target())), DeliveryStep::Nothing);
    assert_eq!(delivery_step(duplicate, &Some(linked)), DeliveryStep::Nothing);
    let mut linked = target();
    linked.checkout_subject = Some(checkout_subject());
    assert_eq!(
        delivery_step(created, &Some(linked)),
        DeliveryStep::Enqueue { link: true }
    );
}
