use stripe_subscription::contract::{
    CreateCheckoutSessionResponse, CreateCheckoutSessionResponseStatus, IngestWebhookRequest,
};
use stripe_subscription::receipt::ReceiptCipher;

#[test]
fn webhook_material_is_redacted_from_debug_evidence() {
    let request = IngestWebhookRequest {
        raw_body: "{\"id\":\"evt_secret\"}".to_owned(),
        signature_header: "t=1,v1=secret".to_owned(),
    };
    let debug = request.debug_evidence();
    assert!(debug.contains("<redacted>"));
    assert!(!debug.contains("evt_secret"));
    assert!(!debug.contains("v1=secret"));
}

#[test]
fn checkout_redirect_url_is_redacted_from_debug_evidence() {
    let response = CreateCheckoutSessionResponse {
        effect_id: "effect_1".to_owned(),
        expires_at: None,
        session_id: Some("cs_test_1".to_owned()),
        status: CreateCheckoutSessionResponseStatus::Accepted,
        url: Some("https://checkout.stripe.com/secret".to_owned()),
    };
    let debug = response.debug_evidence();
    assert!(debug.contains("<redacted>"));
    assert!(!debug.contains("checkout.stripe.com/secret"));
}

#[test]
fn evidence_has_the_derived_form() {
    let response = CreateCheckoutSessionResponse {
        effect_id: "effect \"1\"".to_owned(),
        expires_at: Some("2027-01-01T00:00:00Z".to_owned()),
        session_id: None,
        status: CreateCheckoutSessionResponseStatus::EffectUnknown,
        url: None,
    };
    assert_eq!(
        response.debug_evidence(),
        "CreateCheckoutSessionResponse { effect_id: \"effect \\\"1\\\"\", expires_at: Some(\"2027-01-01T00:00:00Z\"), session_id: None, status: EffectUnknown, url: \"<redacted>\" }"
    );
    assert_eq!(
        ReceiptCipher::derive(b"secret").debug_evidence(),
        "ReceiptCipher(<redacted>)"
    );
}
