use stripe_subscription::clock::Instant;
use stripe_subscription::effects::{
    claim_begun, claim_loaded, claim_recovered, claim_reloaded, decode_effect,
    recover_stranded_effects, ClaimStep, EffectChange, EffectClaim, EffectOperation, EffectRecord,
    EffectRow, EffectStatus, ManualResolution, NewEffect, StoredEffect,
};
use stripe_subscription::meter_effects::{
    decode_meter_effect, meter_claim_begun, meter_claim_loaded, meter_claim_recovered,
    meter_claim_reloaded, recover_stranded_meter_effects, MeterChange, MeterClaimStep,
    MeterEffectClaim, MeterEffectRecord, MeterEffectRow, NewMeterEffect, StoredMeterEffect,
};
use stripe_subscription::store::StoreError;

const ALL: [EffectStatus; 5] = [
    EffectStatus::Prepared,
    EffectStatus::InFlight,
    EffectStatus::Accepted,
    EffectStatus::KnownFailure,
    EffectStatus::EffectUnknown,
];

fn record(status: EffectStatus) -> EffectRecord {
    EffectRecord {
        effect_id: "effect_1".to_owned(),
        operation: EffectOperation::Checkout,
        request_hash: vec![1; 32],
        status,
        stripe_object_id: None,
        response_nonce: None,
        response_ciphertext: None,
        failure_code: None,
    }
}

fn row(status: EffectStatus) -> EffectRow {
    EffectRow { record: record(status), updated_at: 1_000_000, completed_at: None }
}

fn new_effect(hash: u8) -> NewEffect {
    NewEffect {
        effect_id: "effect_1".to_owned(),
        caller_instance: "billing-ui".to_owned(),
        operation: EffectOperation::Checkout,
        idempotency_key: "key-1".to_owned(),
        request_hash: vec![hash; 32],
        scope_kind: "organization".to_owned(),
        scope_id: "org_1".to_owned(),
        subject: "org_1".to_owned(),
        price_alias: None,
    }
}

fn accept() -> EffectChange {
    EffectChange::Accept {
        stripe_object_id: "cs_1".to_owned(),
        nonce: vec![2; 12],
        ciphertext: vec![3; 20],
    }
}

fn settle(target_status: EffectStatus) -> EffectChange {
    EffectChange::Resolve(ManualResolution {
        target_status,
        stripe_object_id: None,
        nonce: None,
        ciphertext: None,
        failure_code: Some("operator".to_owned()),
    })
}

#[test]
fn stored_names_read_back() {
    for status in ALL {
        assert_eq!(EffectStatus::parse(status.as_str()).ok(), Some(status));
    }
    for operation in [EffectOperation::Checkout, EffectOperation::Portal] {
        assert_eq!(EffectOperation::parse(operation.as_str()).ok(), Some(operation));
    }
    assert_eq!(EffectStatus::InFlight.as_str(), "in_flight");
    assert!(matches!(
        EffectStatus::parse("sent"),
        Err(StoreError::Invariant(message))
            if message == "unknown persisted Stripe effect status `sent`"
    ));
    assert!(matches!(
        EffectOperation::parse("refund"),
        Err(StoreError::Invariant(message))
            if message == "unknown persisted Stripe effect operation `refund`"
    ));
}

fn stored(operation: &str, status: &str) -> StoredEffect {
    StoredEffect {
        effect_id: "effect_1".to_owned(),
        operation: operation.to_owned(),
        request_hash: vec![1; 32],
        status: status.to_owned(),
        stripe_object_id: Some("cs_1".to_owned()),
        response_nonce: None,
        response_ciphertext: None,
        failure_code: None,
    }
}

#[test]
fn stored_effects_are_decoded_or_refused() {
    let record = decode_effect(stored("portal", "accepted")).unwrap();
    assert_eq!(record.operation, EffectOperation::Portal);
    assert_eq!(record.status, EffectStatus::Accepted);
    assert_eq!(record.stripe_object_id.as_deref(), Some("cs_1"));
    assert_eq!(
        decode_effect(stored("x", "y")).err().unwrap().message(),
        "Stripe Subscription storage invariant failed: unknown persisted Stripe effect operation `x`"
    );
    assert_eq!(
        decode_effect(stored("portal", "y")).err().unwrap().message(),
        "Stripe Subscription storage invariant failed: unknown persisted Stripe effect status `y`"
    );
}

#[test]
fn each_change_applies_from_its_own_status_alone() {
    for status in ALL {
        let mut begun = row(status);
        assert_eq!(begun.apply(EffectChange::BeginDispatch, 5), status == EffectStatus::Prepared);
        let mut accepted = row(status);
        assert_eq!(accepted.apply(accept(), 5), status == EffectStatus::InFlight);
        let mut failed = row(status);
        assert_eq!(
            failed.apply(EffectChange::Fail { failure_code: "x".to_owned() }, 5),
            status == EffectStatus::InFlight
        );
        let mut unknown = row(status);
        assert_eq!(
            unknown.apply(EffectChange::MarkUnknown, 5),
            status == EffectStatus::InFlight
        );
        let mut settled = row(status);
        assert_eq!(
            settled.apply(settle(EffectStatus::KnownFailure), 5),
            status == EffectStatus::EffectUnknown
        );
        if status != EffectStatus::Prepared {
            assert_eq!(begun.record.status, status);
            assert_eq!(begun.updated_at, 1_000_000);
        }
    }
}

#[test]
fn an_acceptance_stores_the_receipt() {
    let mut effect = row(EffectStatus::Prepared);
    assert!(effect.apply(EffectChange::BeginDispatch, 2_000_000));
    assert_eq!(effect.record.status, EffectStatus::InFlight);
    assert_eq!(effect.completed_at, None);
    assert!(effect.apply(accept(), 3_000_000));
    assert_eq!(effect.record.status, EffectStatus::Accepted);
    assert_eq!(effect.record.stripe_object_id.as_deref(), Some("cs_1"));
    assert_eq!(effect.record.response_nonce, Some(vec![2; 12]));
    assert_eq!(effect.record.response_ciphertext, Some(vec![3; 20]));
    assert_eq!((effect.updated_at, effect.completed_at), (3_000_000, Some(3_000_000)));
    assert!(!effect.apply(EffectChange::MarkUnknown, 4_000_000));
    assert!(!effect.apply(settle(EffectStatus::KnownFailure), 4_000_000));
    assert!(!effect.apply(EffectChange::BeginDispatch, 4_000_000));
    assert_eq!(effect.updated_at, 3_000_000);
}

#[test]
fn recovery_waits_for_the_window() {
    let mut early = row(EffectStatus::InFlight);
    assert!(!early.apply(EffectChange::Recover { uncertainty_seconds: 60 }, 60_999_999));
    assert_eq!(early.record.status, EffectStatus::InFlight);
    assert!(early.apply(EffectChange::Recover { uncertainty_seconds: 60 }, 61_000_000));
    assert_eq!(early.record.status, EffectStatus::EffectUnknown);
    let mut never = row(EffectStatus::InFlight);
    assert!(!never.apply(EffectChange::Recover { uncertainty_seconds: i64::MAX }, i64::MAX));

    let mut rows = vec![
        row(EffectStatus::InFlight),
        row(EffectStatus::Prepared),
        EffectRow { updated_at: 50_000_000, ..row(EffectStatus::InFlight) },
        row(EffectStatus::InFlight),
    ];
    assert_eq!(recover_stranded_effects(&mut rows, 60, 100_000_000), 2);
    let statuses: Vec<EffectStatus> = rows.iter().map(|row| row.record.status).collect();
    assert_eq!(
        statuses,
        vec![
            EffectStatus::EffectUnknown,
            EffectStatus::Prepared,
            EffectStatus::InFlight,
            EffectStatus::EffectUnknown
        ]
    );
}

#[test]
fn claims_dispatch_once_and_then_replay() {
    assert!(matches!(
        claim_loaded(&new_effect(9), true, record(EffectStatus::Prepared)),
        ClaimStep::Done(EffectClaim::Conflict)
    ));
    assert!(matches!(
        claim_loaded(&new_effect(1), true, record(EffectStatus::Prepared)),
        ClaimStep::Begin(_)
    ));
    assert!(matches!(
        claim_loaded(&new_effect(1), false, record(EffectStatus::Prepared)),
        ClaimStep::Begin(_)
    ));
    assert!(matches!(
        claim_loaded(&new_effect(1), true, record(EffectStatus::InFlight)),
        ClaimStep::Begin(_)
    ));
    assert!(matches!(
        claim_loaded(&new_effect(1), false, record(EffectStatus::InFlight)),
        ClaimStep::Recover(_)
    ));
    for status in [
        EffectStatus::Accepted,
        EffectStatus::KnownFailure,
        EffectStatus::EffectUnknown,
    ] {
        assert!(matches!(
            claim_loaded(&new_effect(1), false, record(status)),
            ClaimStep::Done(EffectClaim::Existing(existing)) if existing.status == status
        ));
    }
    assert!(matches!(
        claim_recovered(record(EffectStatus::InFlight), true),
        ClaimStep::Done(EffectClaim::Existing(existing))
            if existing.status == EffectStatus::EffectUnknown
    ));
    assert!(matches!(
        claim_recovered(record(EffectStatus::InFlight), false),
        ClaimStep::Done(EffectClaim::Existing(existing))
            if existing.status == EffectStatus::InFlight
    ));
    assert!(matches!(
        claim_begun(record(EffectStatus::Prepared), true),
        ClaimStep::Done(EffectClaim::Dispatch(begun)) if begun.status == EffectStatus::InFlight
    ));
    assert!(matches!(
        claim_begun(record(EffectStatus::Prepared), false),
        ClaimStep::Reload(effect_id) if effect_id == "effect_1"
    ));
    assert!(matches!(
        claim_reloaded(Some(record(EffectStatus::InFlight))),
        Ok(EffectClaim::Existing(_))
    ));
    assert!(matches!(
        claim_reloaded(None),
        Err(StoreError::Invariant(message)) if message == "Stripe effect disappeared"
    ));
}

fn meter_record(status: EffectStatus) -> MeterEffectRecord {
    MeterEffectRecord {
        delivery_id: "delivery-1".to_owned(),
        caller_instance: "usage".to_owned(),
        request_hash: vec![1; 32],
        status,
        provider_reference: None,
        failure_code: None,
    }
}

fn meter_row(status: EffectStatus) -> MeterEffectRow {
    MeterEffectRow { record: meter_record(status), updated_at: 1_000_000, completed_at: None }
}

fn new_meter_effect(caller: &str, hash: u8) -> NewMeterEffect {
    NewMeterEffect {
        delivery_id: "delivery-1".to_owned(),
        caller_instance: caller.to_owned(),
        request_hash: vec![hash; 32],
        scope_kind: "organization".to_owned(),
        scope_id: "org_1".to_owned(),
        subject: "org_1".to_owned(),
        meter_alias: "api.requests".to_owned(),
        stripe_event_name: "api_requests".to_owned(),
        quantity: "42".to_owned(),
        occurred_at: Instant { unix_seconds: 0, nanosecond: 0 },
    }
}

#[test]
fn meter_effects_move_forward() {
    let mut effect = meter_row(EffectStatus::Prepared);
    assert!(effect.apply(MeterChange::BeginDispatch, 2));
    assert!(!effect.apply(MeterChange::BeginDispatch, 3));
    assert!(effect.apply(MeterChange::Fail { failure_code: "stripe_rejected".to_owned() }, 4));
    assert_eq!(effect.record.status, EffectStatus::KnownFailure);
    assert_eq!(effect.record.failure_code.as_deref(), Some("stripe_rejected"));
    assert_eq!(effect.record.provider_reference, None);
    assert_eq!((effect.updated_at, effect.completed_at), (4, Some(4)));
    assert!(!effect.apply(MeterChange::Accept { provider_reference: "x".to_owned() }, 5));

    let mut effect = meter_row(EffectStatus::InFlight);
    assert!(effect.apply(MeterChange::Accept { provider_reference: "r".to_owned() }, 5));
    assert_eq!(effect.record.status, EffectStatus::Accepted);
    assert_eq!(effect.record.provider_reference.as_deref(), Some("r"));
    let mut effect = meter_row(EffectStatus::InFlight);
    assert!(effect.apply(MeterChange::MarkUnknown, 5));
    assert!(!effect.apply(MeterChange::MarkUnknown, 6));

    let mut rows = vec![meter_row(EffectStatus::InFlight), meter_row(EffectStatus::Accepted)];
    assert_eq!(recover_stranded_meter_effects(&mut rows, 10, 10_999_999), 0);
    assert_eq!(recover_stranded_meter_effects(&mut rows, 10, 11_000_000), 1);
    assert_eq!(rows[0].record.status, EffectStatus::EffectUnknown);
    assert_eq!(rows[1].record.status, EffectStatus::Accepted);
}

#[test]
fn meter_claims_are_bound_to_caller_and_request() {
    for effect in [new_meter_effect("other", 1), new_meter_effect("usage", 2)] {
        assert!(matches!(
            meter_claim_loaded(&effect, false, meter_record(EffectStatus::Accepted)),
            MeterClaimStep::Done(MeterEffectClaim::Conflict)
        ));
    }
    let effect = new_meter_effect("usage", 1);
    assert!(matches!(
        meter_claim_loaded(&effect, false, meter_record(EffectStatus::Accepted)),
        MeterClaimStep::Done(MeterEffectClaim::Existing(_))
    ));
    assert!(matches!(
        meter_claim_loaded(&effect, false, meter_record(EffectStatus::InFlight)),
        MeterClaimStep::Recover(_)
    ));
    assert!(matches!(
        meter_claim_loaded(&effect, true, meter_record(EffectStatus::Prepared)),
        MeterClaimStep::Begin(_)
    ));
    assert!(matches!(
        meter_claim_recovered(meter_record(EffectStatus::InFlight), true),
        MeterClaimStep::Done(MeterEffectClaim::Existing(existing))
            if existing.status == EffectStatus::EffectUnknown
    ));
    assert!(matches!(
        meter_claim_begun(meter_record(EffectStatus::Prepared), true),
        MeterClaimStep::Done(MeterEffectClaim::Dispatch(_))
    ));
    assert!(matches!(
        meter_claim_begun(meter_record(EffectStatus::Prepared), false),
        MeterClaimStep::Reload(delivery_id) if delivery_id == "delivery-1"
    ));
    assert!(matches!(
        meter_claim_reloaded(None),
        Err(StoreError::Invariant(message)) if message == "Stripe meter effect disappeared"
    ));
    let stored = StoredMeterEffect {
        delivery_id: "delivery-1".to_owned(),
        caller_instance: "usage".to_owned(),
        request_hash: vec![1; 32],
        status: "lost".to_owned(),
        provider_reference: None,
        failure_code: None,
    };
    assert_eq!(
        decode_meter_effect(stored).err().unwrap().message(),
        "Stripe Subscription storage invariant failed: unknown persisted Stripe effect status `lost`"
    );
}
