use sha2::Digest;
use stripe_subscription::clock::Instant;
use stripe_subscription::contract::{
    PublishMeterEventError, PublishMeterEventRequest, PublishMeterEventResponseOutcome,
};
use stripe_subscription::effects::EffectStatus;
use stripe_subscription::meter::{
    begin_meter, existing_response, meter_accepted, meter_claimed, meter_customer_loaded,
    meter_event_form, meter_failed, meter_replied, meter_request, meter_unknown,
    parse_meter_reference, valid_meter_request, valid_quantity, validate_request, within_window,
    MeterFlowError, MeterMapping, MeterPolicy, MeterReplyStep, MeterStep, StripeMeterEvent,
};
use stripe_subscription::meter_effects::{
    MeterChange, MeterEffectClaim, MeterEffectRecord, MeterEffectRow,
};
use stripe_subscription::store::StoreError;
use stripe_subscription::stripe::HttpReply;
use stripe_subscription::text::{decimal, parse_i64};
use time::{format_description::well_known::Rfc3339, Duration, OffsetDateTime};

fn instant(value: OffsetDateTime) -> Instant {
    Instant { unix_seconds: value.unix_timestamp(), nanosecond: value.nanosecond() }
}

fn request(now: OffsetDateTime) -> PublishMeterEventRequest {
    PublishMeterEventRequest {
        delivery_id: "usage_delivery_0123456789abcdef".to_owned(),
        meter: "api.requests".to_owned(),
        occurred_at: now.format(&Rfc3339).unwrap(),
        quantity: "42".to_owned(),
        scope_id: "org_1".to_owned(),
        scope_kind: "organization".to_owned(),
        subject: "org_1".to_owned(),
    }
}

fn start_of_2027() -> OffsetDateTime {
    OffsetDateTime::from_unix_timestamp(1_800_000_000).unwrap()
}

#[test]
fn request_window_and_integer_shape_fail_closed() {
    let now = OffsetDateTime::from_unix_timestamp(1_800_000_000).unwrap();
    assert!(validate_request(&request(now), &instant(now)).is_some());

    let mut stale = request(now - Duration::days(35) - Duration::seconds(1));
    assert!(validate_request(&stale, &instant(now)).is_none());
    stale.occurred_at = (now + Duration::minutes(5) + Duration::seconds(1))
        .format(&Rfc3339)
        .unwrap();
    assert!(validate_request(&stale, &instant(now)).is_none());

    let mut fractional = request(now);
    fractional.quantity = "1.5".to_owned();
    assert!(validate_request(&fractional, &instant(now)).is_none());
}

#[test]
fn stripe_form_uses_customer_value_identifier_and_timestamp() {
    let now = OffsetDateTime::from_unix_timestamp(1_800_000_000).unwrap();
    let request = request(now);
    let form = meter_event_form(&request, "api_requests", "cus_123", now.unix_timestamp());
    let pairs = url::form_urlencoded::parse(form.as_bytes()).collect::<Vec<_>>();
    assert!(pairs.contains(&("event_name".into(), "api_requests".into())));
    assert!(pairs.contains(&("payload[stripe_customer_id]".into(), "cus_123".into())));
    assert!(pairs.contains(&("payload[value]".into(), "42".into())));
    assert!(pairs.contains(&("identifier".into(), request.delivery_id.as_str().into())));
    assert!(pairs.contains(&("timestamp".into(), "1800000000".into())));
}

fn meter_event(body: &[u8]) -> Option<StripeMeterEvent> {
    let value: serde_json::Value = serde_json::from_slice(body).unwrap();
    value["identifier"].as_str().map(|identifier| StripeMeterEvent {
        identifier: identifier.to_owned(),
    })
}

#[test]
fn success_response_must_echo_the_delivery_identifier() {
    let body = br#"{"identifier":"delivery-1","object":"billing.meter_event"}"#;
    assert_eq!(
        parse_meter_reference(meter_event(body), "delivery-1").as_deref(),
        Some("delivery-1")
    );
    assert!(parse_meter_reference(meter_event(body), "delivery-2").is_none());
    assert!(parse_meter_reference(None, "delivery-1").is_none());
}

#[test]
fn the_window_is_inclusive_to_the_nanosecond() {
    let now = start_of_2027();
    let at = |time: OffsetDateTime| {
        let mut event = request(now);
        event.occurred_at = time.format(&Rfc3339).unwrap();
        validate_request(&event, &instant(now))
    };
    let oldest = now - Duration::days(35);
    let newest = now + Duration::minutes(5);
    assert_eq!(at(oldest), Some(instant(oldest)));
    assert_eq!(at(newest), Some(instant(newest)));
    assert!(at(oldest - Duration::nanoseconds(1)).is_none());
    assert!(at(newest + Duration::nanoseconds(1)).is_none());

    let mut offset = request(now);
    offset.occurred_at = "2027-01-15T10:00:00+02:00".to_owned();
    assert_eq!(validate_request(&offset, &instant(now)), Some(instant(now)));
    offset.occurred_at = "yesterday".to_owned();
    assert!(validate_request(&offset, &instant(now)).is_none());
}

#[test]
fn usage_events_are_well_formed() {
    let now = start_of_2027();
    for quantity in ["0", "7", "10", &"9".repeat(100)] {
        assert!(valid_quantity(quantity));
    }
    for quantity in ["", "00", "01", "-1", "+1", "1e3", "\u{663}", &"9".repeat(101)] {
        assert!(!valid_quantity(quantity));
    }
    let mut long = request(now);
    long.delivery_id = "d".repeat(100);
    assert!(validate_request(&long, &instant(now)).is_some());
    long.delivery_id = "d".repeat(101);
    assert!(validate_request(&long, &instant(now)).is_none());
    let mut unnamed = request(now);
    unnamed.meter = String::new();
    assert!(validate_request(&unnamed, &instant(now)).is_none());
}

fn policy() -> MeterPolicy {
    MeterPolicy {
        meter_instances: vec!["usage".to_owned()],
        meters: vec![MeterMapping {
            alias: "api.requests".to_owned(),
            event_name: "api_requests".to_owned(),
        }],
    }
}

#[test]
fn usage_events_are_refused_in_order() {
    let now = start_of_2027();
    let start = match begin_meter(&policy(), Some("usage"), &request(now), &instant(now)) {
        Ok(start) => start,
        Err(_) => panic!("expected a start"),
    };
    assert_eq!(start.event_name, "api_requests");
    assert_eq!(start.occurred_at, instant(now));
    let refusal = |caller: Option<&str>, event: &PublishMeterEventRequest| {
        match begin_meter(&policy(), caller, event, &instant(now)) {
            Err(MeterFlowError::Domain(error)) => error,
            _ => panic!("expected a refusal"),
        }
    };
    let mut other = request(now);
    other.meter = "other".to_owned();
    assert_eq!(refusal(Some("usage"), &other), PublishMeterEventError::MeterNotConfigured);
    other.quantity = "x".to_owned();
    assert_eq!(refusal(Some("usage"), &other), PublishMeterEventError::InvalidEvent);
    assert_eq!(refusal(Some("billing-ui"), &other), PublishMeterEventError::Forbidden);
    assert_eq!(refusal(None, &other), PublishMeterEventError::Forbidden);

    let ready =
        match meter_customer_loaded(start, &request(now), Ok(Some("cus_1".to_owned()))) {
            Ok(ready) => ready,
            Err(_) => panic!("expected an effect"),
        };
    assert_eq!(ready.customer_id, "cus_1");
    assert_eq!(ready.effect.caller_instance, "usage");
    assert_eq!(ready.effect.stripe_event_name, "api_requests");
    let json = r#"{"delivery_id":"usage_delivery_0123456789abcdef","meter":"api.requests","occurred_at":"2027-01-15T08:00:00Z","quantity":"42","scope_id":"org_1","scope_kind":"organization","subject":"org_1"}"#;
    assert_eq!(ready.effect.request_hash, sha2::Sha256::digest(json.as_bytes()).to_vec());

    let start = match begin_meter(&policy(), Some("usage"), &request(now), &instant(now)) {
        Ok(start) => start,
        Err(_) => panic!("expected a start"),
    };
    assert!(matches!(
        meter_customer_loaded(start, &request(now), Ok(None)),
        Err(MeterFlowError::Domain(PublishMeterEventError::AccountNotFound))
    ));
}

fn record(status: EffectStatus) -> MeterEffectRecord {
    MeterEffectRecord {
        delivery_id: "delivery-1".to_owned(),
        caller_instance: "usage".to_owned(),
        request_hash: vec![1; 32],
        status,
        provider_reference: None,
        failure_code: None,
    }
}

#[test]
fn recorded_events_are_replayed() {
    let mut accepted = record(EffectStatus::Accepted);
    accepted.provider_reference = Some("delivery-1".to_owned());
    match existing_response(accepted) {
        Ok(response) => {
            assert!(response.accepted);
            assert_eq!(response.outcome, PublishMeterEventResponseOutcome::Replayed);
            assert_eq!(response.provider_reference, "delivery-1");
        }
        Err(_) => panic!("expected a replay"),
    }
    assert!(matches!(
        existing_response(record(EffectStatus::Accepted)),
        Err(MeterFlowError::Runtime(failure))
            if failure.detail == "accepted Stripe meter effect has no provider reference"
    ));
    let mut rejected = record(EffectStatus::KnownFailure);
    rejected.failure_code = Some("stripe_rejected".to_owned());
    assert!(matches!(
        existing_response(rejected),
        Err(MeterFlowError::Domain(PublishMeterEventError::InvalidEvent))
    ));
    assert!(matches!(
        existing_response(record(EffectStatus::KnownFailure)),
        Err(MeterFlowError::Runtime(failure))
            if failure.detail == "known Stripe meter failure has an invalid failure code"
    ));
    for status in [EffectStatus::Prepared, EffectStatus::InFlight, EffectStatus::EffectUnknown] {
        assert!(matches!(
            existing_response(record(status)),
            Err(MeterFlowError::Domain(PublishMeterEventError::EffectUnknown))
        ));
    }
    assert!(matches!(
        meter_claimed(Ok(MeterEffectClaim::Conflict)),
        MeterStep::Finish(Err(MeterFlowError::Domain(
            PublishMeterEventError::IdempotencyConflict
        )))
    ));
    assert!(matches!(
        meter_claimed(Ok(MeterEffectClaim::Dispatch(record(EffectStatus::InFlight)))),
        MeterStep::Dispatch(_)
    ));
    assert!(matches!(
        meter_claimed(Err(StoreError::Database("d".to_owned()))),
        MeterStep::Finish(Err(MeterFlowError::Runtime(_)))
    ));
}

#[test]
fn answers_to_usage_events_are_durable_or_unknown() {
    let now = start_of_2027();
    let sent = meter_request(
        "https://api.stripe.com",
        "sk_test",
        &request(now),
        "api_requests",
        "cus_1",
        &instant(now),
    )
    .unwrap();
    assert_eq!(sent.url, "https://api.stripe.com/v1/billing/meter_events");
    assert_eq!(
        sent.body,
        "event_name=api_requests&payload%5Bstripe_customer_id%5D=cus_1&payload%5Bvalue%5D=42&identifier=usage_delivery_0123456789abcdef&timestamp=1800000000"
    );
    assert_eq!(sent.headers[3].1, "usage_delivery_0123456789abcdef");

    let reply = |status| Some(HttpReply { status, body: vec![1] });
    assert!(matches!(meter_replied(reply(200)), MeterReplyStep::Read(_)));
    assert!(matches!(meter_replied(reply(400)), MeterReplyStep::Refuse));
    assert!(matches!(meter_replied(reply(429)), MeterReplyStep::MarkUnknown));
    assert!(matches!(meter_replied(None), MeterReplyStep::MarkUnknown));
    assert!(matches!(
        meter_failed(Ok(true)),
        MeterFlowError::Domain(PublishMeterEventError::InvalidEvent)
    ));
    assert!(matches!(
        meter_failed(Ok(false)),
        MeterFlowError::Domain(PublishMeterEventError::EffectUnknown)
    ));
    assert!(matches!(
        meter_unknown(),
        MeterFlowError::Domain(PublishMeterEventError::EffectUnknown)
    ));
    match meter_accepted("r".to_owned(), Ok(true)) {
        Ok(response) => {
            assert_eq!(response.outcome, PublishMeterEventResponseOutcome::Accepted)
        }
        Err(_) => panic!("expected an acceptance"),
    }
    assert!(matches!(
        meter_accepted("r".to_owned(), Ok(false)),
        Err(MeterFlowError::Domain(PublishMeterEventError::EffectUnknown))
    ));
}

#[test]
fn integers_read_back() {
    for value in [0, 7, 10, -1, i64::MIN, i64::MAX, 1_800_000_000] {
        assert_eq!(decimal(value), value.to_string());
        assert_eq!(parse_i64(&decimal(value)), Some(value));
    }
    for text in ["", "-", "+", "1 ", "0x1", "9223372036854775808", "-9223372036854775809"] {
        assert_eq!(parse_i64(text), text.parse::<i64>().ok());
        assert_eq!(parse_i64(text), None);
    }
    assert_eq!(parse_i64("+007"), Some(7));
}

#[test]
fn replays_name_the_delivery() {
    let mut row = MeterEffectRow {
        record: record(EffectStatus::InFlight),
        updated_at: 1,
        completed_at: None,
    };
    let delivery_id = row.record.delivery_id.clone();
    let event = StripeMeterEvent {
        identifier: delivery_id.clone(),
    };
    let provider_reference = parse_meter_reference(Some(event), &delivery_id).unwrap();
    assert!(row.apply(MeterChange::Accept { provider_reference }, 2));
    let replay = existing_response(row.record).unwrap();
    assert!(replay.accepted);
    assert_eq!(replay.outcome, PublishMeterEventResponseOutcome::Replayed);
    assert_eq!(replay.provider_reference, delivery_id);
}

#[test]
fn the_shape_of_a_usage_event_is_checked() {
    assert!(valid_meter_request(&request(start_of_2027())));
    let mut long = request(start_of_2027());
    long.delivery_id = "d".repeat(101);
    assert!(!valid_meter_request(&long));
    let mut padded = request(start_of_2027());
    padded.quantity = "042".to_owned();
    assert!(!valid_meter_request(&padded));
}

#[test]
fn the_window_is_exact_at_both_ends() {
    let now = Instant { unix_seconds: 10_000_000, nanosecond: 5 };
    let at = |unix_seconds: i64, nanosecond: u32| {
        within_window(&Instant { unix_seconds, nanosecond }, &now)
    };
    assert!(at(10_000_000 - 3_024_000, 5));
    assert!(!at(10_000_000 - 3_024_000, 4));
    assert!(at(10_000_300, 5));
    assert!(!at(10_000_300, 6));

    let last = Instant { unix_seconds: 253_402_300_799, nanosecond: 0 };
    let mut unreadable = request(start_of_2027());
    assert_eq!(validate_request(&unreadable, &last), None);
    unreadable.occurred_at = "yesterday".to_owned();
    assert_eq!(validate_request(&unreadable, &last), None);
    assert!(within_window(&last, &last));
}
