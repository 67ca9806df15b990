//! The durable receipts of webhook deliveries, and what a delivery enqueues.

use vstd::prelude::*;

use crate::store::{quoted, quoted_text, StoreError};
use crate::subscription::BillingSubject;
use crate::text::{opt_text, same, same_bytes, same_option};
use crate::webhook::{CheckoutSubject, ReconciliationTarget, VerifiedEvent};

verus! {

/// The receipt of a webhook delivery: one row for each Stripe event.
pub struct WebhookRow {
    pub event_id: String,
    pub event_type: String,
    pub stripe_created: i64,
    pub livemode: bool,
    pub payload_sha256: Vec<u8>,
    pub customer_id: Option<String>,
    pub subscription_id: Option<String>,
    pub outcome: String,
}

/// Whether a delivery was recorded now or before.
#[derive(Clone, Copy, Debug, PartialEq, Eq, Structural)]
pub enum WebhookRecordOutcome {
    Created,
    Duplicate,
}

/// The stored outcome of an event: `accepted` where it has something to reconcile.
pub open spec fn outcome_text(event: VerifiedEvent) -> Seq<char> {
    if event.target is Some {
        "accepted"@
    } else {
        "ignored"@
    }
}

/// The customer of an event.
pub open spec fn event_customer(event: VerifiedEvent) -> Option<String> {
    match event.target {
        Some(target) => Some(target.customer_id),
        None => None,
    }
}

/// The subscription of an event.
pub open spec fn event_subscription(event: VerifiedEvent) -> Option<String> {
    match event.target {
        Some(target) => Some(target.subscription_id),
        None => None,
    }
}

/// Whether a row is the receipt of an event with this payload digest.
pub open spec fn is_receipt(row: WebhookRow, event: VerifiedEvent, payload_sha256: Seq<u8>) -> bool {
    &&& row.event_id == event.event_id
    &&& row.event_type == event.event_type
    &&& row.stripe_created == event.created_at
    &&& row.livemode == event.livemode
    &&& row.payload_sha256@ == payload_sha256
    &&& row.customer_id == event_customer(event)
    &&& row.subscription_id == event_subscription(event)
    &&& row.outcome@ == outcome_text(event)
}

/// Makes the receipt of an event.
pub fn webhook_row(event: &VerifiedEvent, payload_sha256: Vec<u8>) -> (r: WebhookRow)
    ensures
        is_receipt(r, *event, payload_sha256@),
{
    let (customer_id, subscription_id, outcome) = match &event.target {
        Some(target) => (
            Some(target.customer_id.clone()),
            Some(target.subscription_id.clone()),
            "accepted",
        ),
        None => (None, None, "ignored"),
    };
    WebhookRow {
        event_id: event.event_id.clone(),
        event_type: event.event_type.clone(),
        stripe_created: event.created_at,
        livemode: event.livemode,
        payload_sha256,
        customer_id,
        subscription_id,
        outcome: outcome.to_owned(),
    }
}

/// Whether two receipts of one event say the same.
pub open spec fn agrees(stored: WebhookRow, row: WebhookRow) -> bool {
    &&& stored.event_type@ == row.event_type@
    &&& stored.stripe_created == row.stripe_created
    &&& stored.livemode == row.livemode
    &&& stored.payload_sha256@ == row.payload_sha256@
    &&& opt_text(stored.customer_id) == opt_text(row.customer_id)
    &&& opt_text(stored.subscription_id) == opt_text(row.subscription_id)
    &&& stored.outcome@ == row.outcome@
}

/// The message that refuses an event that comes again with other content.
pub open spec fn replay_error(event_id: Seq<char>) -> Seq<char> {
    quoted_text("Stripe event"@, event_id) + " was replayed with different content"@
}

/// Whether this is what a delivery is, given the receipt that stood before it, if there was one.
pub open spec fn records(
    row: WebhookRow,
    stored: Option<WebhookRow>,
    outcome: Result<WebhookRecordOutcome, StoreError>,
) -> bool {
    match stored {
        None => outcome == Ok::<WebhookRecordOutcome, StoreError>(WebhookRecordOutcome::Created),
        Some(stored) => if agrees(stored, row) {
            outcome == Ok::<WebhookRecordOutcome, StoreError>(WebhookRecordOutcome::Duplicate)
        } else {
            outcome matches Err(StoreError::Invariant(message)) && message@ == replay_error(
                row.event_id@,
            )
        },
    }
}

/// Decides what a delivery is, given the receipt that stood before it, if there was one: recorded
/// now, recorded before with the same content, or a contradiction.
pub fn record_webhook(row: &WebhookRow, stored: Option<&WebhookRow>) -> (r: Result<
    WebhookRecordOutcome,
    StoreError,
>)
    ensures
        records(
            *row,
            match stored {
                Some(stored) => Some(*stored),
                None => None,
            },
            r,
        ),
{
    let stored = match stored {
        Some(stored) => stored,
        None => return Ok(WebhookRecordOutcome::Created),
    };
    if same(stored.event_type.as_str(), row.event_type.as_str()) && stored.stripe_created
        == row.stripe_created && stored.livemode == row.livemode && same_bytes(
        stored.payload_sha256.as_slice(),
        row.payload_sha256.as_slice(),
    ) && same_option(&stored.customer_id, &row.customer_id) && same_option(
        &stored.subscription_id,
        &row.subscription_id,
    ) && same(stored.outcome.as_str(), row.outcome.as_str()) {
        Ok(WebhookRecordOutcome::Duplicate)
    } else {
        let mut message = quoted("Stripe event", row.event_id.as_str());
        message.append(" was replayed with different content");
        Err(StoreError::Invariant(message))
    }
}

/// Delivering an event again with the same body finds the receipt of the first delivery.
pub proof fn law_redelivery_is_a_duplicate(
    event: VerifiedEvent,
    payload_sha256: Seq<u8>,
    first: WebhookRow,
    second: WebhookRow,
)
    requires
        is_receipt(first, event, payload_sha256),
        is_receipt(second, event, payload_sha256),
    ensures
        agrees(first, second),
{
}

/// What a recorded delivery asks for.
#[derive(Clone, Copy, Debug, PartialEq, Eq, Structural)]
pub enum DeliveryStep {
    /// Nothing: it came before, or it has nothing to reconcile.
    Nothing,
    /// Enqueue its reconciliation, once its checkout subject is linked where `link` says so.
    Enqueue { link: bool },
}

/// What a delivery with this outcome and target asks for.
pub open spec fn delivery_step_of(
    outcome: WebhookRecordOutcome,
    target: Option<ReconciliationTarget>,
) -> DeliveryStep {
    if outcome == WebhookRecordOutcome::Duplicate || target is None {
        DeliveryStep::Nothing
    } else {
        DeliveryStep::Enqueue { link: target->0.checkout_subject is Some }
    }
}

/// Decides what a recorded delivery asks for.
pub fn delivery_step(outcome: WebhookRecordOutcome, target: &Option<ReconciliationTarget>) -> (r:
    DeliveryStep)
    ensures
        r == delivery_step_of(outcome, *target),
{
    match (outcome, target) {
        (WebhookRecordOutcome::Created, Some(target)) => DeliveryStep::Enqueue {
            link: target.checkout_subject.is_some(),
        },
        _ => DeliveryStep::Nothing,
    }
}

/// Whether a subject is newly linked to a checkout's customer and subscription.
pub open spec fn is_new_link(
    linked: BillingSubject,
    target: ReconciliationTarget,
    subject: CheckoutSubject,
) -> bool {
    &&& linked.scope_kind == subject.scope_kind
    &&& linked.scope_id == subject.scope_id
    &&& linked.subject == subject.subject
    &&& linked.customer_id == target.customer_id
    &&& linked.subscription_id == Some(target.subscription_id)
    &&& linked.price_alias == Some(subject.price_alias)
    &&& linked.subscription_status@ == "incomplete"@
    &&& linked.cancel_at_period_end == false
    &&& linked.current_period_end is None
    &&& linked.entitlement_state@ == "pending"@
    &&& linked.revision == 1
}

/// Whether a subject is linked anew: customer, subscription and price change, the entitlements
/// are to be projected again, and nothing else moves but the revision.
pub open spec fn is_relink(
    before: BillingSubject,
    linked: BillingSubject,
    target: ReconciliationTarget,
    subject: CheckoutSubject,
) -> bool {
    &&& linked.scope_kind == before.scope_kind
    &&& linked.scope_id == before.scope_id
    &&& linked.subject == before.subject
    &&& linked.customer_id == target.customer_id
    &&& linked.subscription_id == Some(target.subscription_id)
    &&& linked.price_alias == Some(subject.price_alias)
    &&& linked.subscription_status == before.subscription_status
    &&& linked.cancel_at_period_end == before.cancel_at_period_end
    &&& linked.current_period_end == before.current_period_end
    &&& linked.entitlement_state@ == "pending"@
    &&& linked.revision == before.revision + 1
}

/// Whether the subject of a completed checkout is linked to its customer and subscription, if its
/// revision can grow.
pub open spec fn links(
    existing: Option<BillingSubject>,
    target: ReconciliationTarget,
    subject: CheckoutSubject,
    linked: Option<BillingSubject>,
) -> bool {
    match existing {
        None => linked is Some && is_new_link(linked->0, target, subject),
        Some(before) => if before.revision == i64::MAX {
            linked is None
        } else {
            linked is Some && is_relink(before, linked->0, target, subject)
        },
    }
}

/// Links the subject of a completed checkout to its customer and subscription; `None` where the
/// revision cannot grow.
pub fn link_checkout_subject(
    existing: Option<BillingSubject>,
    target: &ReconciliationTarget,
    subject: &CheckoutSubject,
) -> (r: Option<BillingSubject>)
    ensures
        links(existing, *target, *subject, r),
{
    match existing {
        None => Some(
            BillingSubject {
                scope_kind: subject.scope_kind.clone(),
                scope_id: subject.scope_id.clone(),
                subject: subject.subject.clone(),
                customer_id: target.customer_id.clone(),
                subscription_id: Some(target.subscription_id.clone()),
                price_alias: Some(subject.price_alias.clone()),
                subscription_status: "incomplete".to_owned(),
                cancel_at_period_end: false,
                current_period_end: None,
                entitlement_state: "pending".to_owned(),
                revision: 1,
            },
        ),
        Some(before) => {
            if before.revision == i64::MAX {
                return None;
            }
            Some(
                BillingSubject {
                    scope_kind: before.scope_kind,
                    scope_id: before.scope_id,
                    subject: before.subject,
                    customer_id: target.customer_id.clone(),
                    subscription_id: Some(target.subscription_id.clone()),
                    price_alias: Some(subject.price_alias.clone()),
                    subscription_status: before.subscription_status,
                    cancel_at_period_end: before.cancel_at_period_end,
                    current_period_end: before.current_period_end,
                    entitlement_state: "pending".to_owned(),
                    revision: before.revision + 1,
                },
            )
        },
    }
}

/// The receipt of a delivery holds what the event says and the digest of the body, and tells an
/// event that has something to reconcile, with its customer and its subscription, from one that is
/// ignored.
pub proof fn law_receipts_hold_the_event(
    row: WebhookRow,
    event: VerifiedEvent,
    payload_sha256: Seq<u8>,
)
    requires
        is_receipt(row, event, payload_sha256),
    ensures
        row.event_id@ == event.event_id@,
        row.event_type@ == event.event_type@,
        row.stripe_created == event.created_at,
        row.livemode == event.livemode,
        row.payload_sha256@ == payload_sha256,
        event.target is Some ==> row.outcome@ == "accepted"@ && opt_text(row.customer_id) == Some(
            event.target->0.customer_id@,
        ) && opt_text(row.subscription_id) == Some(event.target->0.subscription_id@),
        event.target is None ==> row.outcome@ == "ignored"@ && row.customer_id is None
            && row.subscription_id is None,
{
}

/// A delivery is new exactly where no receipt stood, and a duplicate exactly where one stood that
/// says the same in every column; one that says anything else is refused.
pub proof fn law_redeliveries_must_say_the_same(
    row: WebhookRow,
    stored: Option<WebhookRow>,
    outcome: Result<WebhookRecordOutcome, StoreError>,
)
    requires
        records(row, stored, outcome),
    ensures
        (outcome == Ok::<WebhookRecordOutcome, StoreError>(WebhookRecordOutcome::Created))
            == stored is None,
        (outcome == Ok::<WebhookRecordOutcome, StoreError>(WebhookRecordOutcome::Duplicate)) == (
        stored is Some && stored->0.event_type@ == row.event_type@ && stored->0.stripe_created
            == row.stripe_created && stored->0.livemode == row.livemode
            && stored->0.payload_sha256@ == row.payload_sha256@ && opt_text(stored->0.customer_id)
            == opt_text(row.customer_id) && opt_text(stored->0.subscription_id) == opt_text(
            row.subscription_id,
        ) && stored->0.outcome@ == row.outcome@),
        outcome is Err ==> (outcome matches Err(StoreError::Invariant(message)) && message@
            == "Stripe event `"@ + row.event_id@ + "` was replayed with different content"@),
{
    reveal_strlit("Stripe event");
    reveal_strlit(" `");
    reveal_strlit("Stripe event `");
    reveal_strlit("`");
    reveal_strlit(" was replayed with different content");
    reveal_strlit("` was replayed with different content");
    assert("Stripe event"@ + " `"@ == "Stripe event `"@);
    assert("`"@ + " was replayed with different content"@
        == "` was replayed with different content"@);
    assert(replay_error(row.event_id@) == "Stripe event `"@ + row.event_id@
        + "` was replayed with different content"@);
}

/// Only a new delivery with something to reconcile asks for a reconciliation, and for a link exactly
/// where it names the subject of a checkout.
pub proof fn law_new_deliveries_are_enqueued(
    outcome: WebhookRecordOutcome,
    target: Option<ReconciliationTarget>,
)
    ensures
        delivery_step_of(outcome, target) == DeliveryStep::Nothing || outcome
            == WebhookRecordOutcome::Created && target is Some,
        outcome == WebhookRecordOutcome::Created && target is Some ==> delivery_step_of(
            outcome,
            target,
        ) == (DeliveryStep::Enqueue { link: target->0.checkout_subject is Some }),
{
}

/// A completed checkout links its own subject to its customer, its subscription and its price. A new
/// subject waits for its first reconciliation at revision one; one that was known keeps its
/// identity and what was projected, takes the next revision, and waits as well.
pub proof fn law_checkouts_link_their_subject(
    existing: Option<BillingSubject>,
    target: ReconciliationTarget,
    subject: CheckoutSubject,
    linked: BillingSubject,
)
    requires
        links(existing, target, subject, Some(linked)),
    ensures
        linked.customer_id@ == target.customer_id@,
        opt_text(linked.subscription_id) == Some(target.subscription_id@),
        opt_text(linked.price_alias) == Some(subject.price_alias@),
        linked.entitlement_state@ == "pending"@,
        existing is None ==> {
            &&& linked.scope_kind@ == subject.scope_kind@
            &&& linked.scope_id@ == subject.scope_id@
            &&& linked.subject@ == subject.subject@
            &&& linked.subscription_status@ == "incomplete"@
            &&& !linked.cancel_at_period_end
            &&& linked.current_period_end is None
            &&& linked.revision == 1
        },
        existing is Some ==> {
            &&& linked.scope_kind@ == existing->0.scope_kind@
            &&& linked.scope_id@ == existing->0.scope_id@
            &&& linked.subject@ == existing->0.subject@
            &&& linked.subscription_status@ == existing->0.subscription_status@
            &&& linked.cancel_at_period_end == existing->0.cancel_at_period_end
            &&& linked.current_period_end == existing->0.current_period_end
            &&& linked.revision == existing->0.revision + 1
        },
{
}

/// Every checkout subject is linked, unless its revision is the last there is.
pub proof fn law_links_fail_only_at_the_last_revision(
    existing: Option<BillingSubject>,
    target: ReconciliationTarget,
    subject: CheckoutSubject,
    linked: Option<BillingSubject>,
)
    requires
        links(existing, target, subject, linked),
    ensures
        linked is None == (existing is Some && existing->0.revision == i64::MAX),
{
}

} // verus!
