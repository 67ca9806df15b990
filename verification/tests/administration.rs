use hmac::{Hmac, Mac};
use sha2::{Digest, Sha256};
use stripe_subscription::admin::{
    accept_event, accept_resolution, accept_resolution_with_nonce, begin_ingest, begin_inspect,
    begin_resolve, fail_resolution, ingest_delivery, ingest_response, inspect_decoded,
    inspect_loaded, resolve_changed, resolve_decided, resolve_decoded, resolve_loaded,
    validate_resolution, webhook_domain, Finding, InspectStep, ResolveStep,
};
use stripe_subscription::clock::Instant;
use stripe_subscription::config::{EntitlementMapping, PriceMapping, StripeSubscriptionConfig};
use stripe_subscription::contract::{
    AdminFlowError, GetSubscriptionError, GetSubscriptionRequest,
    GetSubscriptionResponseEntitlementState, GetSubscriptionResponseStatus, IngestWebhookError,
    IngestWebhookRequest, IngestWebhookResponseOutcome, InspectEffectError, InspectEffectRequest,
    InspectEffectResponseOperation, InspectEffectResponseStatus, ResolveUnknownEffectError,
    ResolveUnknownEffectRequest, ResolveUnknownEffectRequestResolution,
    ResolveUnknownEffectResponseStatus,
};
use stripe_subscription::effects::{
    EffectChange, EffectOperation, EffectRecord, EffectRow, EffectStatus,
};
use stripe_subscription::hex::encode_hex;
use stripe_subscription::receipt::{EffectReceipt, ReceiptCipher};
use stripe_subscription::receipts::WebhookRecordOutcome;
use stripe_subscription::store::StoreError;
use stripe_subscription::subscription::{
    begin_get_subscription, finish_get_subscription, subscription_response, BillingSubject,
    SubscriptionFlowError,
};
use stripe_subscription::webhook::{
    CheckoutSubject, ReconciliationTarget, VerifiedEvent, WebhookError,
};

const EFFECT_ID: &str = "stripe_effect_0123456789abcdef0123456789abcdef";
const SECRET: &[u8] = b"whsec_test";

fn config() -> StripeSubscriptionConfig {
    StripeSubscriptionConfig::new(
        "stripe_billing",
        "stripe/database-url",
        "stripe/api-key",
        "stripe/webhook-secret",
        "stripe/receipt-key",
        "https://api.stripe.com",
        false,
        300,
        262_144,
        30,
        vec!["https://app.example.test".to_owned()],
        vec![PriceMapping {
            alias: "pro".to_owned(),
            price_id: "price_1".to_owned(),
            entitlements: vec![EntitlementMapping {
                feature: "projects".to_owned(),
                limit: None,
            }],
        }],
        vec!["billing-ui".to_owned()],
        vec!["stripe-ingress".to_owned()],
        vec!["stripe-worker".to_owned()],
        vec!["billing-operator".to_owned()],
    )
    .unwrap()
}

fn cipher() -> ReceiptCipher {
    ReceiptCipher::derive(b"secret")
}

fn record(status: EffectStatus) -> EffectRecord {
    EffectRecord {
        effect_id: EFFECT_ID.to_owned(),
        operation: EffectOperation::Checkout,
        request_hash: vec![7; 32],
        status,
        stripe_object_id: None,
        response_nonce: None,
        response_ciphertext: None,
        failure_code: None,
    }
}

fn accepted_record(plaintext: &[u8]) -> EffectRecord {
    let sealed = cipher().encrypt(plaintext, EFFECT_ID.as_bytes()).unwrap();
    let mut record = record(EffectStatus::Accepted);
    record.stripe_object_id = Some("cs_1".to_owned());
    record.response_nonce = Some(sealed.nonce);
    record.response_ciphertext = Some(sealed.ciphertext);
    record
}

fn receipt() -> EffectReceipt {
    EffectReceipt {
        url: "https://checkout.stripe.com/c/1".to_owned(),
        expires_at: Some("2027-01-15T08:00:00Z".to_owned()),
    }
}

fn accepting() -> ResolveUnknownEffectRequest {
    ResolveUnknownEffectRequest {
        effect_id: EFFECT_ID.to_owned(),
        expires_at: Some("2027-01-15T08:00:00Z".to_owned()),
        failure_code: None,
        resolution: ResolveUnknownEffectRequestResolution::Accepted,
        stripe_object_id: Some("cs_1".to_owned()),
        url: Some("https://checkout.stripe.com/c/1".to_owned()),
    }
}

fn failing() -> ResolveUnknownEffectRequest {
    ResolveUnknownEffectRequest {
        effect_id: EFFECT_ID.to_owned(),
        expires_at: None,
        failure_code: Some("operator_confirmed".to_owned()),
        resolution: ResolveUnknownEffectRequestResolution::KnownFailure,
        stripe_object_id: None,
        url: None,
    }
}

fn event(target: Option<ReconciliationTarget>) -> VerifiedEvent {
    VerifiedEvent {
        event_id: "evt_1".to_owned(),
        event_type: "checkout.session.completed".to_owned(),
        created_at: 1_000,
        livemode: false,
        target,
    }
}

fn target(alias: &str) -> ReconciliationTarget {
    ReconciliationTarget {
        subscription_id: "sub_1".to_owned(),
        customer_id: "cus_1".to_owned(),
        checkout_subject: Some(CheckoutSubject {
            scope_kind: "organization".to_owned(),
            scope_id: "org_1".to_owned(),
            subject: "org_1".to_owned(),
            price_alias: alias.to_owned(),
        }),
    }
}

#[test]
fn only_ingress_delivers_webhooks() {
    assert!(begin_ingest(&config(), Some("stripe-ingress")).is_ok());
    assert!(matches!(
        begin_ingest(&config(), Some("billing-operator")),
        Err(AdminFlowError::Webhook(IngestWebhookError::Forbidden))
    ));
    for (error, refusal) in [
        (WebhookError::BodyTooLarge, IngestWebhookError::BodyTooLarge),
        (WebhookError::InvalidSignature, IngestWebhookError::InvalidSignature),
        (WebhookError::ModeMismatch, IngestWebhookError::InvalidSignature),
        (WebhookError::StaleSignature, IngestWebhookError::StaleSignature),
        (WebhookError::InvalidEvent, IngestWebhookError::InvalidEvent),
    ] {
        assert_eq!(webhook_domain(error), refusal);
    }
}

#[test]
fn events_with_unusable_targets_are_refused() {
    assert!(accept_event(&config(), Ok(event(None))).is_ok());
    assert!(accept_event(&config(), Ok(event(Some(target("pro"))))).is_ok());
    assert_eq!(
        accept_event(&config(), Ok(event(Some(target("other"))))),
        Err(IngestWebhookError::InvalidEvent)
    );
    let mut broken = target("pro");
    broken.customer_id = "acct_1".to_owned();
    assert_eq!(
        accept_event(&config(), Ok(event(Some(broken)))),
        Err(IngestWebhookError::InvalidEvent)
    );
    let mut broken = target("pro");
    broken.subscription_id = "si_1".to_owned();
    assert_eq!(
        accept_event(&config(), Ok(event(Some(broken)))),
        Err(IngestWebhookError::InvalidEvent)
    );
    assert_eq!(
        accept_event(&config(), Err(WebhookError::ModeMismatch)),
        Err(IngestWebhookError::InvalidSignature)
    );
}

#[test]
fn a_delivery_is_verified_and_fingerprinted() {
    let body = r#"{"id":"evt_1","type":"customer.subscription.updated","created":1000,"livemode":false,"data":{"object":{"id":"sub_1","customer":"cus_1"}}}"#;
    let mut mac = Hmac::<Sha256>::new_from_slice(SECRET).unwrap();
    mac.update(format!("1000.{body}").as_bytes());
    let header = format!("t=1000,v1={}", encode_hex(&mac.finalize().into_bytes()));
    let request = IngestWebhookRequest {
        raw_body: body.to_owned(),
        signature_header: header,
    };
    let now = Instant { unix_seconds: 1_100, nanosecond: 5 };
    let start = match ingest_delivery(&config(), SECRET, &request, now) {
        Ok(start) => start,
        Err(_) => panic!("expected an accepted delivery"),
    };
    assert_eq!(start.event.event_id, "evt_1");
    assert_eq!(start.row.payload_sha256, Sha256::digest(body.as_bytes()).to_vec());
    assert_eq!(start.row.outcome, "accepted");
    assert!(matches!(
        ingest_delivery(&config(), b"other", &request, now),
        Err(AdminFlowError::Webhook(IngestWebhookError::InvalidSignature))
    ));
    let late = Instant { unix_seconds: 1_301, nanosecond: 0 };
    assert!(matches!(
        ingest_delivery(&config(), SECRET, &request, late),
        Err(AdminFlowError::Webhook(IngestWebhookError::StaleSignature))
    ));
}

#[test]
fn deliveries_are_answered_with_their_receipt() {
    for (target, outcome, answer, enqueued) in [
        (Some(target("pro")), WebhookRecordOutcome::Created, IngestWebhookResponseOutcome::Accepted, true),
        (None, WebhookRecordOutcome::Created, IngestWebhookResponseOutcome::Ignored, false),
        (Some(target("pro")), WebhookRecordOutcome::Duplicate, IngestWebhookResponseOutcome::Duplicate, false),
        (None, WebhookRecordOutcome::Duplicate, IngestWebhookResponseOutcome::Duplicate, false),
    ] {
        let response = match ingest_response(event(target), Ok(outcome)) {
            Ok(response) => response,
            Err(_) => panic!("expected a receipt"),
        };
        assert_eq!(response.event_id, "evt_1");
        assert_eq!(response.event_type, "checkout.session.completed");
        assert_eq!(response.outcome, answer);
        assert_eq!(response.reconciliation_enqueued, enqueued);
    }
    assert!(matches!(
        ingest_response(event(None), Err(StoreError::Invariant("x".to_owned()))),
        Err(AdminFlowError::Runtime(_))
    ));
}

#[test]
fn operators_inspect_effects() {
    let request = InspectEffectRequest { effect_id: EFFECT_ID.to_owned() };
    assert!(begin_inspect(&config(), Some("billing-operator"), &request).is_ok());
    assert!(matches!(
        begin_inspect(&config(), Some("billing-ui"), &request),
        Err(AdminFlowError::Inspect(InspectEffectError::Forbidden))
    ));
    let broken = InspectEffectRequest { effect_id: "effect".to_owned() };
    assert!(matches!(
        begin_inspect(&config(), Some("billing-operator"), &broken),
        Err(AdminFlowError::Inspect(InspectEffectError::InvalidEffect))
    ));
    assert!(matches!(
        inspect_loaded(&cipher(), Ok(None)),
        InspectStep::Finish(Err(AdminFlowError::Inspect(InspectEffectError::NotFound)))
    ));
    for (status, shown) in [
        (EffectStatus::Prepared, InspectEffectResponseStatus::Prepared),
        (EffectStatus::InFlight, InspectEffectResponseStatus::InFlight),
        (EffectStatus::KnownFailure, InspectEffectResponseStatus::KnownFailure),
        (EffectStatus::EffectUnknown, InspectEffectResponseStatus::EffectUnknown),
    ] {
        match inspect_loaded(&cipher(), Ok(Some(record(status)))) {
            InspectStep::Finish(Ok(response)) => {
                assert_eq!(response.status, shown);
                assert_eq!(response.operation, InspectEffectResponseOperation::Checkout);
                assert_eq!(response.url, None);
            }
            _ => panic!("expected an answer"),
        }
    }
    match inspect_loaded(&cipher(), Ok(Some(accepted_record(b"plain")))) {
        InspectStep::DecodeReceipt { record, plaintext } => {
            assert_eq!(plaintext, b"plain".to_vec());
            let response = match inspect_decoded(record, Ok(receipt())) {
                Ok(response) => response,
                Err(_) => panic!("expected an answer"),
            };
            assert_eq!(response.status, InspectEffectResponseStatus::Accepted);
            assert_eq!(response.url.as_deref(), Some("https://checkout.stripe.com/c/1"));
            assert_eq!(response.expires_at.as_deref(), Some("2027-01-15T08:00:00Z"));
            assert_eq!(response.stripe_object_id.as_deref(), Some("cs_1"));
        }
        InspectStep::Finish(_) => panic!("expected a receipt"),
    }
    assert!(matches!(
        inspect_decoded(record(EffectStatus::Accepted), Err("bad".to_owned())),
        Err(AdminFlowError::Runtime(failure)) if failure.detail == "bad"
    ));
}

#[test]
fn findings_are_complete_or_refused() {
    let unknown = record(EffectStatus::EffectUnknown);
    match validate_resolution(&unknown, &accepting()) {
        Ok(Finding::Accepted { stripe_object_id, receipt }) => {
            assert_eq!(stripe_object_id, "cs_1");
            assert_eq!(receipt.url, "https://checkout.stripe.com/c/1");
        }
        _ => panic!("expected an acceptance"),
    }
    match validate_resolution(&unknown, &failing()) {
        Ok(Finding::KnownFailure { failure_code }) => {
            assert_eq!(failure_code, "operator_confirmed")
        }
        _ => panic!("expected a failure"),
    }
    let mut broken = Vec::new();
    for mutate in [
        (|request: &mut ResolveUnknownEffectRequest| request.stripe_object_id = None)
            as fn(&mut ResolveUnknownEffectRequest),
        |request| request.stripe_object_id = Some("bps_1".to_owned()),
        |request| request.url = None,
        |request| request.url = Some("https://billing.stripe.com/p/1".to_owned()),
        |request| request.failure_code = Some("x".to_owned()),
        |request| request.expires_at = Some("tomorrow".to_owned()),
    ] {
        let mut request = accepting();
        mutate(&mut request);
        broken.push(request);
    }
    for mutate in [
        (|request: &mut ResolveUnknownEffectRequest| request.failure_code = None)
            as fn(&mut ResolveUnknownEffectRequest),
        |request| request.failure_code = Some("has space".to_owned()),
        |request| request.stripe_object_id = Some("cs_1".to_owned()),
        |request| request.url = Some("https://checkout.stripe.com/c/1".to_owned()),
        |request| request.expires_at = Some("2027-01-15T08:00:00Z".to_owned()),
    ] {
        let mut request = failing();
        mutate(&mut request);
        broken.push(request);
    }
    for request in broken {
        assert!(matches!(
            validate_resolution(&unknown, &request),
            Err(ResolveUnknownEffectError::InvalidResolution)
        ));
    }
}

#[test]
fn only_operators_resolve_and_only_unknown_effects() {
    assert!(begin_resolve(&config(), Some("billing-operator"), &failing()).is_ok());
    assert!(matches!(
        begin_resolve(&config(), Some("stripe-worker"), &failing()),
        Err(AdminFlowError::Resolve(ResolveUnknownEffectError::Forbidden))
    ));
    let mut broken = failing();
    broken.effect_id = "x".to_owned();
    assert!(matches!(
        begin_resolve(&config(), Some("billing-operator"), &broken),
        Err(AdminFlowError::Resolve(ResolveUnknownEffectError::InvalidResolution))
    ));
    assert!(matches!(
        resolve_loaded(Ok(None)),
        Err(AdminFlowError::Resolve(ResolveUnknownEffectError::NotFound))
    ));
    assert!(resolve_loaded(Ok(Some(record(EffectStatus::Prepared)))).is_ok());

    for status in [EffectStatus::Prepared, EffectStatus::InFlight, EffectStatus::Accepted] {
        assert!(matches!(
            resolve_decided(
                &cipher(),
                record(status),
                &failing(),
                fail_resolution("operator_confirmed".to_owned())
            ),
            ResolveStep::Finish(Err(AdminFlowError::Resolve(
                ResolveUnknownEffectError::NotUnknown
            )))
        ));
    }
    assert!(matches!(
        resolve_decided(
            &cipher(),
            record(EffectStatus::EffectUnknown),
            &failing(),
            fail_resolution("operator_confirmed".to_owned())
        ),
        ResolveStep::Apply(EffectChange::Resolve(_))
    ));
    assert!(matches!(
        resolve_changed(&failing(), Ok(false)),
        Err(AdminFlowError::Resolve(ResolveUnknownEffectError::NotUnknown))
    ));
    match resolve_changed(&failing(), Ok(true)) {
        Ok(response) => {
            assert!(response.changed);
            assert_eq!(response.effect_id, EFFECT_ID);
            assert_eq!(response.status, ResolveUnknownEffectResponseStatus::KnownFailure);
        }
        Err(_) => panic!("expected an answer"),
    }
}

#[test]
fn resolutions_are_repeatable() {
    let mut row = EffectRow {
        record: record(EffectStatus::EffectUnknown),
        updated_at: 0,
        completed_at: None,
    };
    assert!(row.apply(
        EffectChange::Resolve(fail_resolution("operator_confirmed".to_owned())),
        9
    ));
    assert_eq!(row.record.status, EffectStatus::KnownFailure);
    let again = fail_resolution("operator_confirmed".to_owned());
    match resolve_decided(&cipher(), row.record, &failing(), again) {
        ResolveStep::Finish(Ok(response)) => assert!(!response.changed),
        _ => panic!("expected an unchanged answer"),
    }
    let mut other = record(EffectStatus::KnownFailure);
    other.failure_code = Some("something_else".to_owned());
    assert!(matches!(
        resolve_decided(
            &cipher(),
            other,
            &failing(),
            fail_resolution("operator_confirmed".to_owned())
        ),
        ResolveStep::Finish(Err(AdminFlowError::Resolve(
            ResolveUnknownEffectError::InvalidResolution
        )))
    ));

    let resolution =
        accept_resolution(&cipher(), EFFECT_ID, "cs_1".to_owned(), Ok(b"plain".to_vec())).unwrap();
    let mut row = EffectRow {
        record: record(EffectStatus::EffectUnknown),
        updated_at: 0,
        completed_at: None,
    };
    assert!(row.apply(EffectChange::Resolve(resolution), 9));
    let again = accept_resolution_with_nonce(
        &cipher(),
        EFFECT_ID,
        "cs_1".to_owned(),
        Ok(b"plain".to_vec()),
        Ok(vec![4; 12]),
    )
    .unwrap();
    match resolve_decided(&cipher(), row.record, &accepting(), again) {
        ResolveStep::DecodeReceipt { record, plaintext } => {
            assert_eq!(plaintext, b"plain".to_vec());
            match resolve_decoded(&record, &accepting(), Ok(receipt())) {
                Ok(response) => assert!(!response.changed),
                Err(_) => panic!("expected an unchanged answer"),
            }
            let mut contradiction = accepting();
            contradiction.expires_at = None;
            assert!(resolve_decoded(&record, &contradiction, Ok(receipt())).is_err());
            assert!(resolve_decoded(&record, &accepting(), Err("bad".to_owned())).is_err());
        }
        _ => panic!("expected a receipt"),
    }
    assert!(accept_resolution(&cipher(), EFFECT_ID, "cs_1".to_owned(), Err("bad".to_owned()))
        .is_err());
}

fn subject() -> BillingSubject {
    BillingSubject {
        scope_kind: "organization".to_owned(),
        scope_id: "org_1".to_owned(),
        subject: "org_1".to_owned(),
        customer_id: "cus_1".to_owned(),
        subscription_id: Some("sub_1".to_owned()),
        price_alias: Some("pro".to_owned()),
        subscription_status: "past_due".to_owned(),
        cancel_at_period_end: true,
        current_period_end: Some(Instant { unix_seconds: 0, nanosecond: 500_000_000 }),
        entitlement_state: "revoked".to_owned(),
        revision: 6,
    }
}

#[test]
fn projected_subscriptions_are_shown() {
    let request = GetSubscriptionRequest {
        scope_id: "org_1".to_owned(),
        scope_kind: "organization".to_owned(),
        subject: "org_1".to_owned(),
    };
    assert!(begin_get_subscription(&config(), Some("billing-ui"), &request).is_ok());
    assert!(matches!(
        begin_get_subscription(&config(), None, &request),
        Err(SubscriptionFlowError::Domain(GetSubscriptionError::Forbidden))
    ));
    let broken = GetSubscriptionRequest { subject: String::new(), ..request };
    assert!(matches!(
        begin_get_subscription(&config(), Some("billing-ui"), &broken),
        Err(SubscriptionFlowError::Domain(GetSubscriptionError::InvalidRequest))
    ));
    assert!(matches!(
        finish_get_subscription(Ok(None)),
        Err(SubscriptionFlowError::Domain(GetSubscriptionError::NotFound))
    ));
    let response = match finish_get_subscription(Ok(Some(subject()))) {
        Ok(response) => response,
        Err(_) => panic!("expected a subscription"),
    };
    assert_eq!(response.status, GetSubscriptionResponseStatus::PastDue);
    assert_eq!(
        response.entitlement_state,
        GetSubscriptionResponseEntitlementState::Revoked
    );
    assert_eq!(response.current_period_end.as_deref(), Some("1970-01-01T00:00:00.5Z"));
    assert_eq!(response.revision, 6);
    assert!(response.cancel_at_period_end);

    for (text, status) in [
        ("none", GetSubscriptionResponseStatus::Absent),
        ("incomplete", GetSubscriptionResponseStatus::Incomplete),
        ("incomplete_expired", GetSubscriptionResponseStatus::IncompleteExpired),
        ("trialing", GetSubscriptionResponseStatus::Trialing),
        ("active", GetSubscriptionResponseStatus::Active),
        ("canceled", GetSubscriptionResponseStatus::Canceled),
        ("unpaid", GetSubscriptionResponseStatus::Unpaid),
        ("paused", GetSubscriptionResponseStatus::Paused),
        ("unknown", GetSubscriptionResponseStatus::Unknown),
    ] {
        let mut shown = subject();
        shown.subscription_status = text.to_owned();
        assert_eq!(subscription_response(shown).ok().unwrap().status, status);
    }
    let mut broken = subject();
    broken.subscription_status = "gone".to_owned();
    assert_eq!(
        subscription_response(broken).err().unwrap().detail,
        "invalid stored subscription status `gone`"
    );
    let mut broken = subject();
    broken.entitlement_state = "lost".to_owned();
    assert_eq!(
        subscription_response(broken).err().unwrap().detail,
        "invalid stored entitlement state `lost`"
    );
    let mut broken = subject();
    broken.current_period_end = Some(Instant { unix_seconds: -62_167_219_201, nanosecond: 0 });
    assert!(subscription_response(broken).is_err());
}
