use hmac::{Hmac, Mac};
use sha2::Sha256;
use stripe_subscription::clock::Instant;
use stripe_subscription::hex::{decode_hex, encode_hex, hex_nibble};
use stripe_subscription::webhook::{
    parse_signature_header, verify_and_parse, CheckoutSubject, ReconciliationTarget, VerifiedEvent,
    WebhookError,
};

const SECRET: &[u8] = b"whsec_test_secret_at_least_32_bytes";

fn at(unix_seconds: i64) -> Instant {
    Instant { unix_seconds, nanosecond: 0 }
}

fn signature(timestamp: i64, body: &str) -> String {
    let mut mac = Hmac::<Sha256>::new_from_slice(SECRET).unwrap();
    mac.update(format!("{timestamp}.{body}").as_bytes());
    let bytes = mac.finalize().into_bytes();
    let hex = encode_hex(&bytes);
    format!("t={timestamp},v1={hex}")
}

fn deliver(body: &str) -> Result<VerifiedEvent, WebhookError> {
    verify_and_parse(SECRET, body, &signature(1_000, body), at(1_000), 300, 1_048_576, false)
}

fn target(body: &str) -> Option<ReconciliationTarget> {
    deliver(body).unwrap().target
}

#[test]
fn verifies_exact_body_and_extracts_checkout_subject() {
    let body = r#"{"id":"evt_1","type":"checkout.session.completed","created":1000,"livemode":false,"data":{"object":{"customer":"cus_1","subscription":"sub_1","metadata":{"lenso_scope_kind":"organization","lenso_scope_id":"org_1","lenso_subject":"org_1","lenso_price_alias":"pro"}}}}"#;
    let event = verify_and_parse(
        SECRET,
        body,
        &signature(1_000, body),
        at(1_010),
        300,
        1_048_576,
        false,
    )
    .unwrap();
    assert_eq!(event.event_id, "evt_1");
    assert_eq!(
        event.target,
        Some(ReconciliationTarget {
            subscription_id: "sub_1".to_owned(),
            customer_id: "cus_1".to_owned(),
            checkout_subject: Some(CheckoutSubject {
                scope_kind: "organization".to_owned(),
                scope_id: "org_1".to_owned(),
                subject: "org_1".to_owned(),
                price_alias: "pro".to_owned(),
            }),
        })
    );
}

#[test]
fn rejects_mutation_stale_headers_and_mode_confusion() {
    let body = r#"{"id":"evt_1","type":"customer.subscription.updated","created":1000,"livemode":false,"data":{"object":{"id":"sub_1","customer":"cus_1"}}}"#;
    let header = signature(1_000, body);
    let now = at(1_010);
    assert_eq!(
        verify_and_parse(
            SECRET,
            &format!("{body} "),
            &header,
            now,
            300,
            1_048_576,
            false
        ),
        Err(WebhookError::InvalidSignature)
    );
    assert_eq!(
        verify_and_parse(SECRET, body, &header, now, 5, 1_048_576, false),
        Err(WebhookError::StaleSignature)
    );
    assert_eq!(
        verify_and_parse(SECRET, body, &header, now, 300, 1_048_576, true),
        Err(WebhookError::ModeMismatch)
    );
}

#[test]
fn accepts_any_valid_v1_during_secret_rotation_and_ignores_unknown_events() {
    let body = r#"{"id":"evt_2","type":"customer.created","created":1000,"livemode":false,"data":{"object":{"id":"cus_1"}}}"#;
    let valid = signature(1_000, body);
    let valid_digest = valid.split("v1=").nth(1).unwrap();
    let header = format!("t=1000,v1={},v1={valid_digest},v0=legacy", "00".repeat(32));
    let event = verify_and_parse(
        SECRET,
        body,
        &header,
        at(1_000),
        300,
        1_048_576,
        false,
    )
    .unwrap();
    assert_eq!(event.target, None);
}

#[test]
fn the_body_limit_counts_bytes_and_comes_first() {
    let body = "{\"id\":\"\u{e9}\"}";
    assert_eq!(body.len(), 11);
    assert_eq!(
        verify_and_parse(SECRET, body, "nonsense", at(0), 300, 10, false),
        Err(WebhookError::BodyTooLarge)
    );
    assert_eq!(
        verify_and_parse(SECRET, body, "nonsense", at(0), 300, 11, false),
        Err(WebhookError::InvalidSignature)
    );
}

#[test]
fn the_tolerance_is_inclusive_on_both_sides() {
    let body = r#"{"id":"evt_3","type":"x","created":1,"livemode":false,"data":{"object":{}}}"#;
    let header = signature(1_000, body);
    for (now, fresh) in [(700, true), (699, false), (1_300, true), (1_301, false)] {
        let outcome = verify_and_parse(SECRET, body, &header, at(now), 300, 1_024, false);
        assert_eq!(outcome.is_ok(), fresh);
        if !fresh {
            assert_eq!(outcome, Err(WebhookError::StaleSignature));
        }
    }
    assert!(verify_and_parse(SECRET, body, &header, at(1_300), -300, 1_024, false).is_ok());
    assert_eq!(
        verify_and_parse(SECRET, body, &header, at(i64::MIN), 300, 1_024, false),
        Err(WebhookError::StaleSignature)
    );
}

#[test]
fn signature_headers_are_read_field_by_field() {
    let signature = parse_signature_header(" t=12 , v1=ab,v0=x,v1=,v1=c=d ").ok().unwrap();
    assert_eq!(signature.timestamp, 12);
    assert_eq!(signature.v1, vec!["ab".to_owned(), "c=d".to_owned()]);
    for header in [
        "",
        "t=12",
        "v1=ab",
        "t=12,v1=",
        "t=12,t=12,v1=ab",
        "t=-1,v1=ab",
        "t=x,v1=ab",
        "t=9223372036854775808,v1=ab",
        "t=12,junk,v1=ab",
        "t=12,v1=ab,",
    ] {
        assert!(matches!(
            parse_signature_header(header),
            Err(WebhookError::InvalidSignature)
        ));
    }
}

#[test]
fn hexadecimal_digests_read_back() {
    let digest: Vec<u8> = (0..32).map(|i| i * 8 + 7).collect();
    assert_eq!(encode_hex(&[0x00, 0x9f, 0xa0, 0xff]), "009fa0ff");
    assert_eq!(decode_hex(&encode_hex(&digest)), Ok(digest.clone()));
    assert_eq!(decode_hex(&encode_hex(&digest).to_uppercase()), Ok(digest));
    assert_eq!(decode_hex("00"), Err(WebhookError::InvalidSignature));
    assert_eq!(decode_hex(&"0g".repeat(32)), Err(WebhookError::InvalidSignature));
    assert_eq!(decode_hex(&"\u{e9}".repeat(32)), Err(WebhookError::InvalidSignature));
    assert_eq!(hex_nibble(b'F'), Ok(15));
    assert_eq!(hex_nibble(b'g'), Err(WebhookError::InvalidSignature));
}

#[test]
fn malformed_events_are_refused() {
    let cases = [
        "not json",
        "[]",
        r#"{"type":"x","created":1,"livemode":false,"data":{"object":{}}}"#,
        r#"{"id":"","type":"x","created":1,"livemode":false,"data":{"object":{}}}"#,
        r#"{"id":"e","created":1,"livemode":false,"data":{"object":{}}}"#,
        r#"{"id":"e","type":"x","created":1.5,"livemode":false,"data":{"object":{}}}"#,
        r#"{"id":"e","type":"x","created":1,"livemode":"no","data":{"object":{}}}"#,
        r#"{"id":"e","type":"x","created":1,"livemode":false,"data":{}}"#,
        r#"{"id":"e","type":"customer.subscription.updated","created":1,"livemode":false,"data":{"object":{"id":"sub_1"}}}"#,
        r#"{"id":"e","type":"checkout.session.completed","created":1,"livemode":false,"data":{"object":{"customer":"cus_1","subscription":"sub_1"}}}"#,
    ];
    for body in cases {
        assert_eq!(deliver(body), Err(WebhookError::InvalidEvent));
    }
    let long = format!(
        r#"{{"id":"{}","type":"x","created":1,"livemode":false,"data":{{"object":{{}}}}}}"#,
        "a".repeat(513)
    );
    assert_eq!(deliver(&long), Err(WebhookError::InvalidEvent));
}

#[test]
fn subscriptions_and_invoices_name_their_target() {
    let expected = Some(ReconciliationTarget {
        subscription_id: "sub_1".to_owned(),
        customer_id: "cus_1".to_owned(),
        checkout_subject: None,
    });
    assert_eq!(
        target(r#"{"id":"e","type":"customer.subscription.deleted","created":1,"livemode":false,"data":{"object":{"id":"sub_1","customer":"cus_1"}}}"#),
        expected
    );
    assert_eq!(
        target(r#"{"id":"e","type":"invoice.paid","created":1,"livemode":false,"data":{"object":{"subscription":"sub_1","customer":"cus_1"}}}"#),
        expected
    );
    assert_eq!(
        target(r#"{"id":"e","type":"invoice.payment_failed","created":1,"livemode":false,"data":{"object":{"subscription":null,"parent":{"subscription_details":{"subscription":"sub_1"}},"customer":"cus_1"}}}"#),
        expected
    );
    assert_eq!(
        target(r#"{"id":"e","type":"invoice.payment_action_required","created":1,"livemode":false,"data":{"object":{"customer":"cus_1"}}}"#),
        None
    );
    assert_eq!(
        target(r#"{"id":"e","type":"invoice.created","created":1,"livemode":false,"data":{"object":{"subscription":"sub_1","customer":"cus_1"}}}"#),
        None
    );
}

#[test]
fn every_refusal_has_its_message() {
    assert_eq!(
        WebhookError::BodyTooLarge.message(),
        "webhook body exceeds the configured limit"
    );
    assert_eq!(
        WebhookError::InvalidSignature.message(),
        "Stripe-Signature header is invalid"
    );
    assert_eq!(
        WebhookError::StaleSignature.message(),
        "Stripe-Signature timestamp is outside the configured tolerance"
    );
    assert_eq!(
        WebhookError::InvalidEvent.message(),
        "Stripe event payload is invalid"
    );
    assert_eq!(
        WebhookError::ModeMismatch.message(),
        "Stripe event live mode does not match this Plugin Instance"
    );
}
