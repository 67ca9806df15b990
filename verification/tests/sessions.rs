use sha2::Digest;
use stripe_subscription::checkout::{
    begin_checkout, checkout_accepted, checkout_claimed, checkout_existing, checkout_failed,
    checkout_replayed, checkout_subject_loaded, CheckoutDispatch, CheckoutFlowError, CheckoutStep,
};
use stripe_subscription::clock::Instant;
use stripe_subscription::config::{EntitlementMapping, PriceMapping, StripeSubscriptionConfig};
use stripe_subscription::contract::{
    CreateCheckoutSessionError, CreateCheckoutSessionRequest, CreateCheckoutSessionResponseStatus,
    CreatePortalSessionError, CreatePortalSessionRequest, CreatePortalSessionResponseStatus,
};
use stripe_subscription::effects::{
    EffectChange, EffectClaim, EffectOperation, EffectRecord, EffectStatus,
};
use stripe_subscription::portal::{
    begin_portal, portal_accepted, portal_claimed, portal_failed, portal_replayed, portal_request,
    portal_subject_loaded, PortalFlowError, PortalStep,
};
use stripe_subscription::receipt::{decrypt_receipt, EffectReceipt, ReceiptCipher};
use stripe_subscription::request::{
    name_effect, stable_effect_id, valid_effect_id, valid_idempotency_key, valid_subject_request,
};
use stripe_subscription::session::{
    accept_change, accept_with_nonce, fail_change, session_read, session_replied, ReplyStep,
    SessionStep, ALREADY_SUBSCRIBED, STRIPE_REJECTED,
};
use stripe_subscription::store::StoreError;
use stripe_subscription::stripe::{
    checkout_form, classify_http, fetch_request, parse_canonical_subscription, parse_session,
    portal_form, stripe_headers, valid_session_url, CanonicalSubscription, ClassifiedResponse,
    HttpReply, StripeItem, StripeSession, StripeSubscriptionWire,
};
use stripe_subscription::subscription::BillingSubject;

fn config() -> StripeSubscriptionConfig {
    StripeSubscriptionConfig::new(
        "stripe_billing",
        "stripe/database-url",
        "stripe/api-key",
        "stripe/webhook-secret",
        "stripe/receipt-key",
        "https://api.stripe.com",
        false,
        300,
        262_144,
        30,
        vec!["https://app.example.test".to_owned()],
        vec![PriceMapping {
            alias: "pro".to_owned(),
            price_id: "price_test123".to_owned(),
            entitlements: vec![EntitlementMapping {
                feature: "projects.unlimited".to_owned(),
                limit: None,
            }],
        }],
        vec!["billing-ui".to_owned()],
        vec!["stripe-ingress".to_owned()],
        vec!["stripe-worker".to_owned()],
        vec!["billing-operator".to_owned()],
    )
    .unwrap()
}

fn checkout_request() -> CreateCheckoutSessionRequest {
    CreateCheckoutSessionRequest {
        cancel_url: "https://app.example.test/cancel".to_owned(),
        idempotency_key: "checkout-1".to_owned(),
        price_alias: "pro".to_owned(),
        scope_id: "org_1".to_owned(),
        scope_kind: "organization".to_owned(),
        subject: "org_1".to_owned(),
        success_url: "https://app.example.test/success".to_owned(),
    }
}

fn portal_session_request() -> CreatePortalSessionRequest {
    CreatePortalSessionRequest {
        idempotency_key: "portal-1".to_owned(),
        return_url: "https://app.example.test/back".to_owned(),
        scope_id: "org_1".to_owned(),
        scope_kind: "organization".to_owned(),
        subject: "org_1".to_owned(),
    }
}

fn record(status: EffectStatus) -> EffectRecord {
    EffectRecord {
        effect_id: "stripe_effect_0123456789abcdef0123456789abcdef".to_owned(),
        operation: EffectOperation::Checkout,
        request_hash: vec![7; 32],
        status,
        stripe_object_id: None,
        response_nonce: None,
        response_ciphertext: None,
        failure_code: None,
    }
}

fn subject(status: &str) -> BillingSubject {
    BillingSubject {
        scope_kind: "organization".to_owned(),
        scope_id: "org_1".to_owned(),
        subject: "org_1".to_owned(),
        customer_id: "cus_1".to_owned(),
        subscription_id: Some("sub_1".to_owned()),
        price_alias: Some("pro".to_owned()),
        subscription_status: status.to_owned(),
        cancel_at_period_end: false,
        current_period_end: None,
        entitlement_state: "pending".to_owned(),
        revision: 3,
    }
}

fn reply(status: i64, body: &[u8]) -> Option<HttpReply> {
    Some(HttpReply { status, body: body.to_vec() })
}

fn encode(receipt: &EffectReceipt) -> Vec<u8> {
    let mut object = serde_json::Map::new();
    object.insert("url".to_owned(), serde_json::Value::String(receipt.url.clone()));
    object.insert(
        "expires_at".to_owned(),
        match &receipt.expires_at {
            Some(text) => serde_json::Value::String(text.clone()),
            None => serde_json::Value::Null,
        },
    );
    serde_json::to_vec(&object).unwrap()
}

fn decode(bytes: &[u8]) -> EffectReceipt {
    let value: serde_json::Value = serde_json::from_slice(bytes).unwrap();
    EffectReceipt {
        url: value["url"].as_str().unwrap().to_owned(),
        expires_at: value["expires_at"].as_str().map(str::to_owned),
    }
}

#[test]
fn checkout_form_carries_both_session_and_subscription_metadata() {
    let request = checkout_request();
    let form = checkout_form(&request, "price_1");
    let values = url::form_urlencoded::parse(form.as_bytes()).collect::<Vec<_>>();
    assert!(values.contains(&("mode".into(), "subscription".into())));
    assert!(values.contains(&("metadata[lenso_subject]".into(), "org_1".into())));
    assert!(values.contains(&(
        "subscription_data[metadata][lenso_subject]".into(),
        "org_1".into()
    )));
}

#[test]
fn receipt_encryption_binds_ciphertext_to_effect() {
    let cipher = ReceiptCipher::derive(b"a sufficiently long test encryption secret");
    let receipt = EffectReceipt {
        url: "https://checkout.stripe.com/c/pay/cs_test".to_owned(),
        expires_at: None,
    };
    let sealed = cipher.encrypt(&encode(&receipt), b"effect-a").unwrap();
    let decoded = decode(&cipher.decrypt(&sealed.nonce, &sealed.ciphertext, b"effect-a").unwrap());
    assert_eq!(decoded.url, receipt.url);
    assert!(cipher
        .decrypt(&sealed.nonce, &sealed.ciphertext, b"effect-b")
        .is_err());
}

#[test]
fn subscription_parser_requires_one_price_and_known_ids() {
    let value = br#"{"id":"sub_1","customer":"cus_1","status":"active","cancel_at_period_end":false,"current_period_end":2000000000,"items":{"data":[{"price":{"id":"price_1"},"current_period_end":2000000000}]}}"#;
    let parsed = read_subscription(value).unwrap();
    assert_eq!(parsed.price_id, "price_1");
    assert_eq!(parsed.status, "active");
}

fn wire(value: &serde_json::Value) -> StripeSubscriptionWire {
    StripeSubscriptionWire {
        id: value["id"].as_str().unwrap().to_owned(),
        customer: value["customer"].as_str().unwrap().to_owned(),
        status: value["status"].as_str().unwrap().to_owned(),
        cancel_at_period_end: value["cancel_at_period_end"].as_bool().unwrap_or_default(),
        current_period_end: value["current_period_end"].as_i64(),
        items: value["items"]["data"]
            .as_array()
            .unwrap()
            .iter()
            .map(|item| StripeItem {
                price_id: item["price"]["id"].as_str().unwrap().to_owned(),
                current_period_end: item["current_period_end"].as_i64(),
            })
            .collect(),
    }
}

fn read_subscription(bytes: &[u8]) -> Option<CanonicalSubscription> {
    let value: serde_json::Value = serde_json::from_slice(bytes).unwrap();
    parse_canonical_subscription(bytes.len(), Some(wire(&value)))
}

#[test]
fn canonical_subscriptions_fail_closed() {
    let valid = br#"{"id":"sub_1","customer":"cus_1","status":"brand_new","items":{"data":[{"price":{"id":"price_1"},"current_period_end":5}]}}"#;
    let parsed = read_subscription(valid).unwrap();
    assert_eq!(parsed.status, "unknown");
    assert!(!parsed.cancel_at_period_end);
    assert_eq!(parsed.subscription_id, "sub_1");
    assert_eq!(parsed.customer_id, "cus_1");
    assert_eq!(
        parsed.current_period_end,
        Some(Instant { unix_seconds: 5, nanosecond: 0 })
    );
    for status in [
        "incomplete",
        "incomplete_expired",
        "trialing",
        "active",
        "past_due",
        "canceled",
        "unpaid",
        "paused",
    ] {
        let mut value = wire(&serde_json::from_slice(valid).unwrap());
        value.status = status.to_owned();
        assert_eq!(parse_canonical_subscription(0, Some(value)).unwrap().status, status);
    }
    let mut value = wire(&serde_json::from_slice(valid).unwrap());
    value.current_period_end = Some(253_402_300_800);
    assert_eq!(parse_canonical_subscription(0, Some(value)).unwrap().current_period_end, None);

    let mut value = wire(&serde_json::from_slice(valid).unwrap());
    value.items.clear();
    assert!(parse_canonical_subscription(0, Some(value)).is_none());
    let mut value = wire(&serde_json::from_slice(valid).unwrap());
    value.customer = "acct_1".to_owned();
    assert!(parse_canonical_subscription(0, Some(value)).is_none());
    let value = wire(&serde_json::from_slice(valid).unwrap());
    assert!(parse_canonical_subscription(1_048_577, Some(value)).is_none());
    assert!(parse_canonical_subscription(0, None).is_none());
}

#[test]
fn forms_are_encoded_exactly() {
    assert_eq!(
        portal_form("cus_1", "https://app.example.test/b?x=1&y=2"),
        "customer=cus_1&return_url=https%3A%2F%2Fapp.example.test%2Fb%3Fx%3D1%26y%3D2"
    );
    assert_eq!(
        checkout_form(&checkout_request(), "price_1"),
        "mode=subscription&line_items%5B0%5D%5Bprice%5D=price_1&line_items%5B0%5D%5Bquantity%5D=1\
&success_url=https%3A%2F%2Fapp.example.test%2Fsuccess&cancel_url=https%3A%2F%2Fapp.example.test%2Fcancel\
&client_reference_id=org_1&metadata%5Blenso_scope_kind%5D=organization&metadata%5Blenso_scope_id%5D=org_1\
&metadata%5Blenso_subject%5D=org_1&metadata%5Blenso_price_alias%5D=pro\
&subscription_data%5Bmetadata%5D%5Blenso_scope_kind%5D=organization\
&subscription_data%5Bmetadata%5D%5Blenso_scope_id%5D=org_1\
&subscription_data%5Bmetadata%5D%5Blenso_subject%5D=org_1\
&subscription_data%5Bmetadata%5D%5Blenso_price_alias%5D=pro"
    );
}

#[test]
fn headers_name_the_key_and_the_version() {
    let headers = stripe_headers("sk_test", Some("key-1"), true);
    let expected = [
        ("Authorization", "Bearer sk_test"),
        ("Stripe-Version", "2026-02-25.clover"),
        ("Content-Type", "application/x-www-form-urlencoded"),
        ("Idempotency-Key", "key-1"),
    ];
    assert_eq!(headers.len(), expected.len());
    for (header, (name, value)) in headers.iter().zip(expected) {
        assert_eq!((header.0.as_str(), header.1.as_str()), (name, value));
    }
    assert_eq!(stripe_headers("sk_test", None, false).len(), 2);

    let fetch = fetch_request("https://api.stripe.com", "sk_test", "sub_1").unwrap();
    assert_eq!(fetch.method, "GET");
    assert_eq!(fetch.url, "https://api.stripe.com/v1/subscriptions/sub_1");
    assert!(fetch.body.is_empty());
    assert!(fetch_request("nonsense", "sk_test", "sub_1").is_none());
}

#[test]
fn answers_are_classified() {
    assert!(matches!(
        classify_http(reply(200, b"x")),
        Some(ClassifiedResponse::Success(body)) if body == b"x".to_vec()
    ));
    for status in [400, 401, 402, 403, 404, 422, 499] {
        assert!(matches!(
            classify_http(reply(status, b"")),
            Some(ClassifiedResponse::KnownFailure)
        ));
    }
    for status in [100, 199, 300, 302, 399, 408, 409, 425, 429, 500, 503, -1] {
        assert!(classify_http(reply(status, b"")).is_none());
    }
    assert!(classify_http(None).is_none());
    assert!(classify_http(Some(HttpReply { status: 200, body: vec![0; 1_048_577] })).is_none());
    assert!(matches!(
        classify_http(Some(HttpReply { status: 404, body: vec![0; 1_048_577] })),
        Some(ClassifiedResponse::KnownFailure)
    ));
    assert!(matches!(session_replied(reply(204, b"")), ReplyStep::Read(_)));
    assert!(matches!(session_replied(reply(404, b"")), ReplyStep::Refuse));
    assert!(matches!(session_replied(None), ReplyStep::MarkUnknown));
}

#[test]
fn sessions_are_checked_against_their_operation() {
    assert!(valid_session_url("https://checkout.stripe.com/c/1", EffectOperation::Checkout));
    assert!(!valid_session_url("https://checkout.stripe.com/c/1", EffectOperation::Portal));
    assert!(!valid_session_url("http://checkout.stripe.com/c/1", EffectOperation::Checkout));
    assert!(!valid_session_url("https://u@checkout.stripe.com/", EffectOperation::Checkout));
    assert!(!valid_session_url("https://:p@checkout.stripe.com/", EffectOperation::Checkout));
    assert!(!valid_session_url("https://stripe.example/", EffectOperation::Checkout));
    assert!(!valid_session_url("x", EffectOperation::Checkout));

    let session = |id: &str, url: &str, expires_at| {
        Some(StripeSession { id: id.to_owned(), url: url.to_owned(), expires_at })
    };
    let parsed = parse_session(
        session("cs_1", "https://checkout.stripe.com/c/1", Some(1_800_000_000)),
        EffectOperation::Checkout,
    )
    .unwrap();
    assert_eq!(parsed.id, "cs_1");
    assert_eq!(parsed.url, "https://checkout.stripe.com/c/1");
    assert_eq!(parsed.expires_at.as_deref(), Some("2027-01-15T08:00:00Z"));
    let parsed = parse_session(
        session("bps_1", "https://billing.stripe.com/p/1", Some(i64::MAX)),
        EffectOperation::Portal,
    )
    .unwrap();
    assert_eq!(parsed.expires_at, None);
    assert!(parse_session(
        session("bps_1", "https://checkout.stripe.com/c/1", None),
        EffectOperation::Checkout
    )
    .is_none());
    assert!(matches!(
        session_read(None, EffectOperation::Checkout),
        SessionStep::MarkUnknown
    ));
}

#[test]
fn sealing_follows_the_cipher() {
    let cipher = ReceiptCipher::derive(b"secret");
    let sealed = cipher.seal(Ok(vec![9; 12]), b"plain", b"aad").unwrap();
    assert_eq!(sealed.nonce, vec![9; 12]);
    assert_eq!(sealed.ciphertext.len(), 5 + 16);
    assert_ne!(&sealed.ciphertext[..5], b"plain");
    assert_eq!(cipher.decrypt(&[9; 12], &sealed.ciphertext, b"aad").unwrap(), b"plain".to_vec());
    assert_eq!(
        cipher.seal(Err("no entropy".to_owned()), b"plain", b"aad").unwrap_err_detail(),
        "no entropy"
    );
    assert_eq!(
        cipher.decrypt(&[9; 11], &sealed.ciphertext, b"aad").unwrap_err().detail,
        "Stripe receipt nonce is invalid"
    );
    assert_eq!(
        cipher.decrypt(&[9; 12], b"short", b"aad").unwrap_err().detail,
        "Stripe receipt decryption failed"
    );
    let first = cipher.encrypt(b"plain", b"aad").unwrap();
    let second = cipher.encrypt(b"plain", b"aad").unwrap();
    assert_ne!(first.nonce, second.nonce);

    let mut cipher = cipher;
    cipher.wipe();
    assert_eq!(
        cipher.decrypt(&[9; 12], &sealed.ciphertext, b"aad").unwrap_err().detail,
        "invalid Stripe receipt encryption key"
    );
    assert_eq!(
        cipher.encrypt(b"plain", b"aad").unwrap_err_detail(),
        "invalid Stripe receipt encryption key"
    );
}

trait Detail {
    fn unwrap_err_detail(self) -> String;
}

impl<T> Detail for Result<T, stripe_subscription::contract::RuntimeFailure> {
    fn unwrap_err_detail(self) -> String {
        match self {
            Ok(_) => panic!("expected a failure"),
            Err(failure) => failure.detail,
        }
    }
}

#[test]
fn identities_are_stable() {
    let id = stable_effect_id("billing-ui", EffectOperation::Checkout, "key-1");
    assert_eq!(id, format!("stripe_effect_{}", digest_half("billing-ui\0checkout\0key-1")));
    assert!(valid_effect_id(&id));
    assert_ne!(id, stable_effect_id("billing-ui", EffectOperation::Portal, "key-1"));
    assert_ne!(id, stable_effect_id("billing-ui", EffectOperation::Checkout, "key-2"));
    assert!(valid_effect_id("stripe_effect_0123456789ABCDEF0123456789abcdef"));
    assert!(!valid_effect_id("stripe_effect_0123456789abcdef0123456789abcde"));
    assert!(!valid_effect_id("stripe_effect_0123456789abcdef0123456789abcdeg"));
    assert!(!valid_effect_id("effect_0123456789abcdef0123456789abcdef"));

    assert!(valid_idempotency_key("a key with spaces"));
    assert!(!valid_idempotency_key(""));
    assert!(!valid_idempotency_key("tab\tkey"));
    assert!(!valid_idempotency_key("\u{85}"));
    assert!(valid_idempotency_key(&"k".repeat(255)));
    assert!(!valid_idempotency_key(&"\u{e9}".repeat(128)));
    assert!(valid_subject_request("organization", "org_1", "org_1"));
    assert!(!valid_subject_request("organization", "", "org_1"));
}

fn digest_half(text: &str) -> String {
    let digest = sha2::Sha256::digest(text.as_bytes());
    digest[..16].iter().map(|byte| format!("{byte:02x}")).collect()
}

#[test]
fn checkout_requests_are_refused_in_order() {
    let config = config();
    let start = begin_checkout(&config, Some("billing-ui"), &checkout_request()).unwrap_start();
    assert_eq!(start.price_id, "price_test123");
    assert_eq!(start.effect.caller_instance, "billing-ui");
    assert_eq!(
        start.effect.effect_id,
        stable_effect_id("billing-ui", EffectOperation::Checkout, "checkout-1")
    );
    assert_eq!(start.effect.price_alias.as_deref(), Some("pro"));
    let json = r#"{"cancel_url":"https://app.example.test/cancel","idempotency_key":"checkout-1","price_alias":"pro","scope_id":"org_1","scope_kind":"organization","subject":"org_1","success_url":"https://app.example.test/success"}"#;
    assert_eq!(start.effect.request_hash, sha2::Sha256::digest(json.as_bytes()).to_vec());

    let refusal = |caller: Option<&str>, request: &CreateCheckoutSessionRequest| {
        match begin_checkout(&config, caller, request) {
            Err(CheckoutFlowError::Domain(error)) => error,
            _ => panic!("expected a refusal"),
        }
    };
    let mut broken = checkout_request();
    broken.price_alias = "other".to_owned();
    assert_eq!(refusal(Some("billing-ui"), &broken), CreateCheckoutSessionError::PriceNotFound);
    broken.cancel_url = "https://evil.example.test/".to_owned();
    assert_eq!(refusal(Some("billing-ui"), &broken), CreateCheckoutSessionError::InvalidRequest);
    assert_eq!(refusal(Some("stripe-worker"), &broken), CreateCheckoutSessionError::Forbidden);
    assert_eq!(refusal(None, &broken), CreateCheckoutSessionError::Forbidden);
    let mut broken = checkout_request();
    broken.success_url = "https://evil.example.test/".to_owned();
    assert_eq!(refusal(Some("billing-ui"), &broken), CreateCheckoutSessionError::InvalidRequest);
    let mut broken = checkout_request();
    broken.idempotency_key.clear();
    assert_eq!(refusal(Some("billing-ui"), &broken), CreateCheckoutSessionError::InvalidRequest);
}

trait Start<T> {
    fn unwrap_start(self) -> T;
}

impl<T, E> Start<T> for Result<T, E> {
    fn unwrap_start(self) -> T {
        match self {
            Ok(value) => value,
            Err(_) => panic!("expected success"),
        }
    }
}

#[test]
fn claims_decide_what_a_checkout_does() {
    let cipher = ReceiptCipher::derive(b"secret");
    assert!(matches!(
        checkout_claimed(&cipher, Ok(EffectClaim::Conflict)),
        CheckoutStep::Finish(Err(CheckoutFlowError::Domain(
            CreateCheckoutSessionError::IdempotencyConflict
        )))
    ));
    assert!(matches!(
        checkout_claimed(&cipher, Ok(EffectClaim::Dispatch(record(EffectStatus::InFlight)))),
        CheckoutStep::LoadSubject(_)
    ));
    match checkout_claimed(&cipher, Err(StoreError::Database("down".to_owned()))) {
        CheckoutStep::Finish(Err(CheckoutFlowError::Runtime(failure))) => assert_eq!(
            failure.detail,
            "Stripe Subscription PostgreSQL operation failed: down"
        ),
        _ => panic!("expected a failure"),
    }
    for status in [EffectStatus::Prepared, EffectStatus::InFlight, EffectStatus::EffectUnknown] {
        match checkout_claimed(&cipher, Ok(EffectClaim::Existing(record(status)))) {
            CheckoutStep::Finish(Ok(response)) => {
                assert_eq!(response.status, CreateCheckoutSessionResponseStatus::EffectUnknown);
                assert_eq!(response.url, None);
            }
            _ => panic!("expected an unknown outcome"),
        }
    }
    let mut failed = record(EffectStatus::KnownFailure);
    failed.failure_code = Some(ALREADY_SUBSCRIBED.to_owned());
    assert!(matches!(
        checkout_existing(&cipher, failed),
        CheckoutStep::Finish(Err(CheckoutFlowError::Domain(
            CreateCheckoutSessionError::AlreadySubscribed
        )))
    ));
    assert!(matches!(
        checkout_existing(&cipher, record(EffectStatus::KnownFailure)),
        CheckoutStep::Finish(Err(CheckoutFlowError::Domain(
            CreateCheckoutSessionError::InvalidRequest
        )))
    ));
    for (nonce, ciphertext, message) in [
        (None, None, "accepted Stripe effect has no receipt nonce"),
        (Some(vec![0; 12]), None, "accepted Stripe effect has no encrypted receipt"),
        (Some(vec![0; 12]), Some(vec![0; 40]), "Stripe receipt decryption failed"),
    ] {
        let mut accepted = record(EffectStatus::Accepted);
        accepted.response_nonce = nonce;
        accepted.response_ciphertext = ciphertext;
        assert_eq!(decrypt_receipt(&cipher, &accepted).unwrap_err_detail(), message);
        match checkout_existing(&cipher, accepted) {
            CheckoutStep::Finish(Err(CheckoutFlowError::Runtime(failure))) => {
                assert_eq!(failure.detail, message)
            }
            _ => panic!("expected a failure"),
        }
    }
}

#[test]
fn an_accepted_checkout_is_answered_alike_ever_after() {
    let cipher = ReceiptCipher::derive(b"secret");
    let effect_id = record(EffectStatus::InFlight).effect_id;
    let session = StripeSession {
        id: "cs_1".to_owned(),
        url: "https://checkout.stripe.com/c/1".to_owned(),
        expires_at: Some(1_800_000_000),
    };
    let (session_id, receipt) = match session_read(Some(session), EffectOperation::Checkout) {
        SessionStep::Accept { session_id, receipt } => (session_id, receipt),
        SessionStep::MarkUnknown => panic!("expected a session"),
    };
    let change =
        accept_change(&cipher, &effect_id, session_id.clone(), Ok(encode(&receipt))).unwrap_start();
    let mut row = stripe_subscription::effects::EffectRow {
        record: record(EffectStatus::InFlight),
        updated_at: 10,
        completed_at: None,
    };
    assert!(row.apply(change, 20));
    let first = checkout_accepted(effect_id.clone(), session_id, receipt, Ok(true)).unwrap_start();
    assert_eq!(first.status, CreateCheckoutSessionResponseStatus::Accepted);
    let again = match checkout_existing(&cipher, row.record) {
        CheckoutStep::DecodeReceipt { record, plaintext } => {
            checkout_replayed(record, Ok(decode(&plaintext))).unwrap_start()
        }
        _ => panic!("expected a receipt"),
    };
    assert_eq!(again.effect_id, first.effect_id);
    assert_eq!(again.session_id, first.session_id);
    assert_eq!(again.url, first.url);
    assert_eq!(again.expires_at, first.expires_at);
    assert_eq!(again.status, first.status);

    assert!(matches!(
        checkout_replayed(record(EffectStatus::Accepted), Err("bad".to_owned())),
        Err(CheckoutFlowError::Runtime(failure)) if failure.detail == "bad"
    ));
    let lost = checkout_accepted(
        effect_id.clone(),
        "cs_1".to_owned(),
        EffectReceipt { url: "u".to_owned(), expires_at: None },
        Ok(false),
    )
    .unwrap_start();
    assert_eq!(lost.status, CreateCheckoutSessionResponseStatus::EffectUnknown);
    assert_eq!(lost.url, None);
    assert!(accept_change(&cipher, &effect_id, "cs_1".to_owned(), Err("bad".to_owned())).is_err());
    assert!(matches!(
        accept_with_nonce(
            &cipher,
            &effect_id,
            "cs_1".to_owned(),
            Ok(b"{}".to_vec()),
            Ok(vec![1; 12])
        ),
        Ok(EffectChange::Accept { .. })
    ));
    assert!(matches!(
        fail_change(STRIPE_REJECTED),
        EffectChange::Fail { failure_code } if failure_code == "stripe_rejected"
    ));
}

#[test]
fn a_dispatched_checkout_checks_the_subject_first() {
    let request = checkout_request();
    let dispatch = |subject| {
        checkout_subject_loaded(
            "https://api.stripe.com",
            "sk_test",
            &request,
            "price_1",
            "stripe_effect_1",
            subject,
        )
    };
    for status in ["trialing", "active"] {
        assert!(matches!(
            dispatch(Ok(Some(subject(status)))),
            CheckoutDispatch::AlreadySubscribed
        ));
    }
    for loaded in [None, Some(subject("canceled"))] {
        match dispatch(Ok(loaded)) {
            CheckoutDispatch::Send(sent) => {
                assert_eq!(sent.method, "POST");
                assert_eq!(sent.url, "https://api.stripe.com/v1/checkout/sessions");
                assert_eq!(sent.body, checkout_form(&request, "price_1"));
                assert_eq!(sent.headers[3].1, "stripe_effect_1");
            }
            _ => panic!("expected a request"),
        }
    }
    assert!(matches!(
        dispatch(Err(StoreError::Invariant("x".to_owned()))),
        CheckoutDispatch::Finish(CheckoutFlowError::Runtime(failure))
            if failure.detail == "Stripe Subscription storage invariant failed: x"
    ));
    assert!(matches!(
        checkout_failed(ALREADY_SUBSCRIBED, Ok(false)),
        CheckoutFlowError::Domain(CreateCheckoutSessionError::AlreadySubscribed)
    ));
    assert!(matches!(
        checkout_failed(STRIPE_REJECTED, Ok(true)),
        CheckoutFlowError::Domain(CreateCheckoutSessionError::InvalidRequest)
    ));
    assert!(matches!(
        checkout_failed(STRIPE_REJECTED, Err(StoreError::Database("d".to_owned()))),
        CheckoutFlowError::Runtime(_)
    ));
}

#[test]
fn portal_sessions_follow_their_subject() {
    let config = config();
    let request = portal_session_request();
    assert!(begin_portal(&config, Some("billing-ui"), &request).is_ok());
    assert!(matches!(
        begin_portal(&config, Some("stripe-ingress"), &request),
        Err(PortalFlowError::Domain(CreatePortalSessionError::Forbidden))
    ));
    let mut broken = portal_session_request();
    broken.return_url = "https://evil.example.test/".to_owned();
    assert!(matches!(
        begin_portal(&config, Some("billing-ui"), &broken),
        Err(PortalFlowError::Domain(CreatePortalSessionError::InvalidRequest))
    ));
    assert!(matches!(
        portal_subject_loaded("billing-ui", &request, Ok(None)),
        Err(PortalFlowError::Domain(CreatePortalSessionError::CustomerNotFound))
    ));
    let start =
        portal_subject_loaded("billing-ui", &request, Ok(Some(subject("active")))).unwrap_start();
    assert_eq!(start.customer_id, "cus_1");
    assert_eq!(start.effect.price_alias, None);
    assert_eq!(
        start.effect.effect_id,
        stable_effect_id("billing-ui", EffectOperation::Portal, "portal-1")
    );
    let json = r#"{"idempotency_key":"portal-1","return_url":"https://app.example.test/back","scope_id":"org_1","scope_kind":"organization","subject":"org_1"}"#;
    assert_eq!(start.effect.request_hash, sha2::Sha256::digest(json.as_bytes()).to_vec());

    let sent = portal_request(
        "https://api.stripe.com",
        "sk_test",
        &request,
        "cus_1",
        "stripe_effect_1",
    )
    .unwrap();
    assert_eq!(sent.url, "https://api.stripe.com/v1/billing_portal/sessions");
    assert_eq!(sent.body, portal_form("cus_1", "https://app.example.test/back"));
}

#[test]
fn portal_outcomes_are_durable() {
    let cipher = ReceiptCipher::derive(b"secret");
    assert!(matches!(
        portal_claimed(&cipher, Ok(EffectClaim::Conflict)),
        PortalStep::Finish(Err(PortalFlowError::Domain(
            CreatePortalSessionError::IdempotencyConflict
        )))
    ));
    assert!(matches!(
        portal_claimed(&cipher, Ok(EffectClaim::Dispatch(record(EffectStatus::InFlight)))),
        PortalStep::Dispatch(_)
    ));
    assert!(matches!(
        portal_claimed(&cipher, Ok(EffectClaim::Existing(record(EffectStatus::KnownFailure)))),
        PortalStep::Finish(Err(PortalFlowError::Domain(
            CreatePortalSessionError::InvalidRequest
        )))
    ));
    match portal_claimed(&cipher, Ok(EffectClaim::Existing(record(EffectStatus::InFlight)))) {
        PortalStep::Finish(Ok(response)) => {
            assert_eq!(response.status, CreatePortalSessionResponseStatus::EffectUnknown)
        }
        _ => panic!("expected an unknown outcome"),
    }
    let mut accepted = record(EffectStatus::Accepted);
    let sealed = cipher.encrypt(b"receipt", accepted.effect_id.as_bytes()).unwrap();
    accepted.stripe_object_id = Some("bps_1".to_owned());
    accepted.response_nonce = Some(sealed.nonce);
    accepted.response_ciphertext = Some(sealed.ciphertext);
    match portal_claimed(&cipher, Ok(EffectClaim::Existing(accepted))) {
        PortalStep::DecodeReceipt { record, plaintext } => {
            assert_eq!(plaintext, b"receipt".to_vec());
            let response = portal_replayed(
                record,
                Ok(EffectReceipt { url: "u".to_owned(), expires_at: None }),
            )
            .unwrap_start();
            assert_eq!(response.session_id.as_deref(), Some("bps_1"));
            assert_eq!(response.url.as_deref(), Some("u"));
            assert_eq!(response.status, CreatePortalSessionResponseStatus::Accepted);
        }
        _ => panic!("expected a receipt"),
    }
    assert!(matches!(
        portal_failed(Ok(true)),
        PortalFlowError::Domain(CreatePortalSessionError::InvalidRequest)
    ));
    let lost = portal_accepted(
        "e".to_owned(),
        "bps_1".to_owned(),
        EffectReceipt { url: "u".to_owned(), expires_at: None },
        Ok(false),
    )
    .unwrap_start();
    assert_eq!(lost.status, CreatePortalSessionResponseStatus::EffectUnknown);
}

#[test]
fn effect_names_show_half_a_digest() {
    let mut digest = vec![0xab; 16];
    digest.extend([0xff; 16]);
    let name = name_effect(&digest);
    assert_eq!(name, "stripe_effect_abababababababababababababababab");
    assert!(valid_effect_id(&name));
}
