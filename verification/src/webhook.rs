//! Verification and reading of Stripe webhook deliveries.

use vstd::prelude::*;
use vstd::utf8::encode_utf8;

use crate::clock::Instant;
use crate::crypto::{hmac_sha256, hmac_verifies};
use crate::hex::{decode_hex, digest_bytes, hex_text, law_digest_reads_back};
use crate::json::{
    at, descend, get, law_paths_descend_name_by_name, names, parse_json, parsed_json, Json,
};
use crate::text::{
    byte_count, byte_len, decimal, decimal_text, find_char, index_of_char, integer_text,
    is_white_space, law_first_occurrence, law_integers_are_bounded, law_naturals_are_digits,
    law_splitting_is_at_separators, law_trimming_takes_outer_white_space, parse_i64, same, split,
    split_text, starts_with, texts, trim, trim_text,
};

verus! {

/// Why a delivery was refused.
#[derive(Clone, Copy, Debug, PartialEq, Eq, Structural)]
pub enum WebhookError {
    /// The body exceeds the configured limit.
    BodyTooLarge,
    /// The `Stripe-Signature` header is malformed or holds no valid signature.
    InvalidSignature,
    /// The signature's timestamp is outside the configured tolerance.
    StaleSignature,
    /// The payload is no usable Stripe event.
    InvalidEvent,
    /// The event's live mode is not the one of this instance.
    ModeMismatch,
}

/// The message of a refusal.
pub open spec fn webhook_error_text(error: WebhookError) -> Seq<char> {
    match error {
        WebhookError::BodyTooLarge => "webhook body exceeds the configured limit"@,
        WebhookError::InvalidSignature => "Stripe-Signature header is invalid"@,
        WebhookError::StaleSignature => {
            "Stripe-Signature timestamp is outside the configured tolerance"@
        },
        WebhookError::InvalidEvent => "Stripe event payload is invalid"@,
        WebhookError::ModeMismatch => {
            "Stripe event live mode does not match this Plugin Instance"@
        },
    }
}

impl WebhookError {
    /// The message of a refusal.
    pub fn message(self) -> (r: &'static str)
        ensures
            r@ == webhook_error_text(self),
    {
        match self {
            WebhookError::BodyTooLarge => "webhook body exceeds the configured limit",
            WebhookError::InvalidSignature => "Stripe-Signature header is invalid",
            WebhookError::StaleSignature => {
                "Stripe-Signature timestamp is outside the configured tolerance"
            },
            WebhookError::InvalidEvent => "Stripe event payload is invalid",
            WebhookError::ModeMismatch => {
                "Stripe event live mode does not match this Plugin Instance"
            },
        }
    }
}

/// An event whose signature was verified.
#[derive(Clone, Debug, PartialEq, Eq)]
pub struct VerifiedEvent {
    pub event_id: String,
    pub event_type: String,
    pub created_at: i64,
    pub livemode: bool,
    /// What the event asks to be reconciled.
    pub target: Option<ReconciliationTarget>,
}

/// The subscription that an event asks to be reconciled.
#[derive(Clone, Debug, PartialEq, Eq)]
pub struct ReconciliationTarget {
    pub subscription_id: String,
    pub customer_id: String,
    /// The subject of a completed checkout.
    pub checkout_subject: Option<CheckoutSubject>,
}

/// The subject that a checkout was made for, as its metadata names it.
#[derive(Clone, Debug, PartialEq, Eq)]
pub struct CheckoutSubject {
    pub scope_kind: String,
    pub scope_id: String,
    pub subject: String,
    pub price_alias: String,
}

/// The timestamp and the `v1` candidates of a `Stripe-Signature` header.
pub struct StripeSignature {
    pub timestamp: i64,
    pub v1: Vec<String>,
}

/// The timestamp and the candidate texts of a [`StripeSignature`].
pub struct SignatureModel {
    pub timestamp: int,
    pub v1: Seq<Seq<char>>,
}

impl View for StripeSignature {
    type V = SignatureModel;

    open spec fn view(&self) -> SignatureModel {
        SignatureModel { timestamp: self.timestamp as int, v1: texts(self.v1@) }
    }
}

/// The comma-separated fields of a header, trimmed.
pub open spec fn header_fields(header: Seq<char>) -> Seq<Seq<char>> {
    split_text(header, ',').map_values(|field: Seq<char>| trim_text(field))
}

/// Whether a field holds a `=`.
pub open spec fn has_value(field: Seq<char>) -> bool {
    index_of_char(field, '=') < field.len()
}

/// What stands before the first `=` of a field.
pub open spec fn field_name(field: Seq<char>) -> Seq<char> {
    field.take(index_of_char(field, '='))
}

/// What stands behind the first `=` of a field.
pub open spec fn field_value(field: Seq<char>) -> Seq<char> {
    field.skip(index_of_char(field, '=') + 1)
}

/// Whether a field gives the timestamp.
pub open spec fn is_timestamp(field: Seq<char>) -> bool {
    field_name(field) == "t"@
}

/// Whether a field gives a candidate signature.
pub open spec fn is_candidate(field: Seq<char>) -> bool {
    field_name(field) == "v1"@ && field_value(field).len() > 0
}

/// The timestamps that the fields give.
pub open spec fn timestamps(fields: Seq<Seq<char>>) -> Seq<Seq<char>> {
    fields.filter(|field: Seq<char>| is_timestamp(field)).map_values(
        |field: Seq<char>| field_value(field),
    )
}

/// The candidate signatures that the fields give, in order.
pub open spec fn candidates(fields: Seq<Seq<char>>) -> Seq<Seq<char>> {
    fields.filter(|field: Seq<char>| is_candidate(field)).map_values(
        |field: Seq<char>| field_value(field),
    )
}

/// The signature that a header carries: every field has a value, exactly one gives a timestamp,
/// which is a non-negative integer, and at least one gives a candidate.
pub open spec fn signature_of(header: Seq<char>) -> Option<SignatureModel> {
    let fields = header_fields(header);
    let times = timestamps(fields);
    if (forall|i: int| 0 <= i < fields.len() ==> has_value(#[trigger] fields[i])) && times.len() == 1
        && integer_text(times[0]) is Some && integer_text(times[0])->0 >= 0 && candidates(
        fields,
    ).len() > 0 {
        Some(SignatureModel { timestamp: integer_text(times[0])->0, v1: candidates(fields) })
    } else {
        None
    }
}

proof fn lemma_push_field(fields: Seq<Seq<char>>, field: Seq<char>)
    ensures
        timestamps(fields.push(field)) == if is_timestamp(field) {
            timestamps(fields).push(field_value(field))
        } else {
            timestamps(fields)
        },
        candidates(fields.push(field)) == if is_candidate(field) {
            candidates(fields).push(field_value(field))
        } else {
            candidates(fields)
        },
{
    reveal(Seq::filter);
    assert(fields.push(field).drop_last() == fields);
    let time = |f: Seq<char>| is_timestamp(f);
    let candidate = |f: Seq<char>| is_candidate(f);
    let value = |f: Seq<char>| field_value(f);
    assert(fields.filter(time).push(field).map_values(value) == fields.filter(time).map_values(
        value,
    ).push(field_value(field)));
    assert(fields.filter(candidate).push(field).map_values(value) == fields.filter(
        candidate,
    ).map_values(value).push(field_value(field)));
}

/// Reads a `Stripe-Signature` header.
pub fn parse_signature_header(value: &str) -> (r: Result<StripeSignature, WebhookError>)
    ensures
        match signature_of(value@) {
            Some(signature) => r is Ok && r->Ok_0@ == signature,
            None => r == Err::<StripeSignature, WebhookError>(WebhookError::InvalidSignature),
        },
{
    let fields = split(value, ',');
    let ghost trimmed_fields = header_fields(value@);
    let mut timestamp: Option<i64> = None;
    let mut v1: Vec<String> = Vec::new();
    let mut i: usize = 0;
    proof {
        reveal(Seq::filter);
        assert(timestamps(trimmed_fields.take(0)) == Seq::<Seq<char>>::empty());
        assert(candidates(trimmed_fields.take(0)) == Seq::<Seq<char>>::empty());
        assert(texts(v1@) == Seq::<Seq<char>>::empty());
    }
    while i < fields.len()
        invariant
            i <= fields@.len(),
            texts(fields@) == split_text(value@, ','),
            trimmed_fields == header_fields(value@),
            trimmed_fields.len() == fields@.len(),
            forall|j: int| 0 <= j < i ==> has_value(#[trigger] trimmed_fields[j]),
            texts(v1@) == candidates(trimmed_fields.take(i as int)),
            match timestamp {
                Some(time) => timestamps(trimmed_fields.take(i as int)).len() == 1 && integer_text(
                    timestamps(trimmed_fields.take(i as int))[0],
                ) == Some(time as int),
                None => timestamps(trimmed_fields.take(i as int)).len() == 0,
            },
        decreases fields@.len() - i,
    {
        let field = trim(fields[i].as_str());
        assert(texts(fields@)[i as int] == fields@[i as int]@);
        assert(field@ == trimmed_fields[i as int]);
        let position = match find_char(field, '=') {
            Some(position) => position,
            None => {
                assert(!has_value(trimmed_fields[i as int]));
                return Err(WebhookError::InvalidSignature);
            },
        };
        let length: usize = field.unicode_len();
        let name = field.substring_char(0, position);
        let field_text = field.substring_char(position + 1, length);
        assert(name@ == field_name(field@));
        assert(field_text@ == field_value(field@));
        proof {
            assert(trimmed_fields.take(i + 1) == trimmed_fields.take(i as int).push(field@));
            lemma_push_field(trimmed_fields.take(i as int), field@);
            reveal_strlit("t");
            reveal_strlit("v1");
        }
        if same(name, "t") {
            if timestamp.is_some() {
                proof {
                    lemma_more_timestamps(trimmed_fields, i + 1);
                }
                return Err(WebhookError::InvalidSignature);
            }
            match parse_i64(field_text) {
                Some(time) => {
                    timestamp = Some(time);
                },
                None => {
                    proof {
                        lemma_more_timestamps(trimmed_fields, i + 1);
                        assert(timestamps(trimmed_fields.take(i + 1))[0] == field_text@);
                        assert(timestamps(trimmed_fields)[0] == field_text@);
                    }
                    return Err(WebhookError::InvalidSignature);
                },
            }
            assert("t"@.len() != "v1"@.len());
        } else if same(name, "v1") && !field_text.is_empty() {
            let ghost earlier = v1@;
            v1.push(field_text.to_owned());
            assert(texts(v1@) == texts(earlier).push(field_text@));
        }
        i += 1;
    }
    assert(trimmed_fields.take(i as int) == trimmed_fields);
    match timestamp {
        Some(time) => {
            if time < 0 || v1.len() == 0 {
                return Err(WebhookError::InvalidSignature);
            }
            Ok(StripeSignature { timestamp: time, v1 })
        },
        None => Err(WebhookError::InvalidSignature),
    }
}

/// What a `v1` signature is made of: the timestamp, a dot and the body.
pub open spec fn signed_payload(timestamp: int, body: Seq<char>) -> Seq<char> {
    decimal_text(timestamp).push('.') + body
}

/// Whether a candidate is the HMAC-SHA256 of the signed payload, in hexadecimal.
pub open spec fn candidate_verifies(
    secret: Seq<u8>,
    timestamp: int,
    body: Seq<char>,
    candidate: Seq<char>,
) -> bool {
    digest_bytes(candidate) == Some(
        hmac_sha256(secret, encode_utf8(signed_payload(timestamp, body))),
    )
}

/// Whether one of the candidates of a signature verifies.
pub open spec fn signature_verifies(
    secret: Seq<u8>,
    signature: SignatureModel,
    body: Seq<char>,
) -> bool {
    exists|i: int|
        0 <= i < signature.v1.len() && candidate_verifies(
            secret,
            signature.timestamp,
            body,
            #[trigger] signature.v1[i],
        )
}

/// Decides whether one of the candidates of a signature verifies.
pub fn verify_signature(secret: &[u8], signature: &StripeSignature, raw_body: &str) -> (r: bool)
    ensures
        r == signature_verifies(secret@, signature@, raw_body@),
{
    let mut signed = decimal(signature.timestamp);
    signed.push('.');
    signed.append(raw_body);
    assert(signed@ == signed_payload(signature.timestamp as int, raw_body@));
    let mut i: usize = 0;
    while i < signature.v1.len()
        invariant
            i <= signature.v1@.len(),
            signed@ == signed_payload(signature.timestamp as int, raw_body@),
            forall|j: int|
                0 <= j < i ==> !candidate_verifies(
                    secret@,
                    signature.timestamp as int,
                    raw_body@,
                    #[trigger] signature@.v1[j],
                ),
        decreases signature.v1@.len() - i,
    {
        assert(signature@.v1[i as int] == signature.v1@[i as int]@);
        if let Ok(candidate) = decode_hex(signature.v1[i].as_str()) {
            if hmac_verifies(secret, signed.as_str().as_bytes(), candidate.as_slice()) {
                return true;
            }
        }
        i += 1;
    }
    false
}

/// The distance of two timestamps.
pub open spec fn distance(a: int, b: int) -> int {
    if a < b {
        b - a
    } else {
        a - b
    }
}

/// A text that an event may carry: not empty, and at most 512 bytes.
pub open spec fn usable_text(value: Option<Json>) -> Option<String> {
    match value {
        Some(Json::Text(text)) => if text@.len() > 0 && byte_len(text@) <= 512 {
            Some(text)
        } else {
            None
        },
        _ => None,
    }
}

/// The usable text that a path leads to.
pub open spec fn text_at(value: Json, path: Seq<&str>) -> Option<String> {
    usable_text(at(value, names(path)))
}

/// Reads a text that must be there.
pub fn required_string(value: &Json, path: &[&str]) -> (r: Result<String, WebhookError>)
    ensures
        match text_at(*value, path@) {
            Some(text) => r == Ok::<String, WebhookError>(text),
            None => r == Err::<String, WebhookError>(WebhookError::InvalidEvent),
        },
{
    match descend(value, path) {
        Some(Json::Text(text)) => if !text.as_str().is_empty() && byte_count(text.as_str()) <= 512 {
            Ok(text.clone())
        } else {
            Err(WebhookError::InvalidEvent)
        },
        _ => Err(WebhookError::InvalidEvent),
    }
}

/// Reads a text at the first of two paths that has one.
pub fn optional_string(value: &Json, path: &[&str], fallback: Option<&[&str]>) -> (r: Option<String>)
    ensures
        r == match text_at(*value, path@) {
            Some(text) => Some(text),
            None => match fallback {
                Some(fallback) => text_at(*value, fallback@),
                None => None,
            },
        },
{
    match required_string(value, path) {
        Ok(text) => Some(text),
        Err(_) => match fallback {
            Some(fallback) => match required_string(value, fallback) {
                Ok(text) => Some(text),
                Err(_) => None,
            },
            None => None,
        },
    }
}

/// The member of an event that its type speaks about.
pub open spec fn event_object(payload: Json) -> Option<Json> {
    at(payload, names(seq!["data", "object"]))
}

/// The subject that the metadata of a checkout names.
pub open spec fn checkout_subject_of(object: Json) -> Option<CheckoutSubject> {
    match (
        text_at(object, seq!["metadata", "lenso_scope_kind"]),
        text_at(object, seq!["metadata", "lenso_scope_id"]),
        text_at(object, seq!["metadata", "lenso_subject"]),
        text_at(object, seq!["metadata", "lenso_price_alias"]),
    ) {
        (Some(scope_kind), Some(scope_id), Some(subject), Some(price_alias)) => Some(
            CheckoutSubject { scope_kind, scope_id, subject, price_alias },
        ),
        _ => None,
    }
}

/// Whether the type is that of a change to a subscription.
pub open spec fn is_subscription_event(event_type: Seq<char>) -> bool {
    "customer.subscription."@.is_prefix_of(event_type)
}

/// Whether the type is that of an invoice that moves a subscription.
pub open spec fn is_invoice_event(event_type: Seq<char>) -> bool {
    ||| event_type == "invoice.paid"@
    ||| event_type == "invoice.payment_failed"@
    ||| event_type == "invoice.payment_action_required"@
}

/// The subscription that an invoice belongs to.
pub open spec fn invoice_subscription(object: Json) -> Option<String> {
    match text_at(object, seq!["subscription"]) {
        Some(text) => Some(text),
        None => text_at(object, seq!["parent", "subscription_details", "subscription"]),
    }
}

/// What an event of this type asks to be reconciled: `None` where the event is malformed,
/// `Some(None)` where it asks for nothing.
pub open spec fn target_of(event_type: Seq<char>, payload: Json) -> Option<
    Option<ReconciliationTarget>,
> {
    match event_object(payload) {
        None => None,
        Some(object) => if is_subscription_event(event_type) {
            match (text_at(object, seq!["id"]), text_at(object, seq!["customer"])) {
                (Some(subscription_id), Some(customer_id)) => Some(
                    Some(
                        ReconciliationTarget {
                            subscription_id,
                            customer_id,
                            checkout_subject: None,
                        },
                    ),
                ),
                _ => None,
            }
        } else if event_type == "checkout.session.completed"@ {
            match (
                text_at(object, seq!["subscription"]),
                text_at(object, seq!["customer"]),
                checkout_subject_of(object),
            ) {
                (Some(subscription_id), Some(customer_id), Some(subject)) => Some(
                    Some(
                        ReconciliationTarget {
                            subscription_id,
                            customer_id,
                            checkout_subject: Some(subject),
                        },
                    ),
                ),
                _ => None,
            }
        } else if is_invoice_event(event_type) {
            match (invoice_subscription(object), text_at(object, seq!["customer"])) {
                (Some(subscription_id), Some(customer_id)) => Some(
                    Some(
                        ReconciliationTarget {
                            subscription_id,
                            customer_id,
                            checkout_subject: None,
                        },
                    ),
                ),
                _ => Some(None),
            }
        } else {
            Some(None)
        },
    }
}

fn read_checkout_subject(object: &Json) -> (r: Result<CheckoutSubject, WebhookError>)
    ensures
        match checkout_subject_of(*object) {
            Some(subject) => r == Ok::<CheckoutSubject, WebhookError>(subject),
            None => r == Err::<CheckoutSubject, WebhookError>(WebhookError::InvalidEvent),
        },
{
    let kind_path = ["metadata", "lenso_scope_kind"];
    let id_path = ["metadata", "lenso_scope_id"];
    let subject_path = ["metadata", "lenso_subject"];
    let alias_path = ["metadata", "lenso_price_alias"];
    assert(kind_path@ == seq!["metadata", "lenso_scope_kind"]);
    assert(id_path@ == seq!["metadata", "lenso_scope_id"]);
    assert(subject_path@ == seq!["metadata", "lenso_subject"]);
    assert(alias_path@ == seq!["metadata", "lenso_price_alias"]);
    Ok(
        CheckoutSubject {
            scope_kind: required_string(object, &kind_path)?,
            scope_id: required_string(object, &id_path)?,
            subject: required_string(object, &subject_path)?,
            price_alias: required_string(object, &alias_path)?,
        },
    )
}

/// Finds what an event asks to be reconciled.
pub fn reconciliation_target(event_type: &str, payload: &Json) -> (r: Result<
    Option<ReconciliationTarget>,
    WebhookError,
>)
    ensures
        match target_of(event_type@, *payload) {
            Some(target) => r == Ok::<Option<ReconciliationTarget>, WebhookError>(target),
            None => r == Err::<Option<ReconciliationTarget>, WebhookError>(
                WebhookError::InvalidEvent,
            ),
        },
{
    let object_path = ["data", "object"];
    let id_path = ["id"];
    let customer_path = ["customer"];
    let subscription_path = ["subscription"];
    let nested_path = ["parent", "subscription_details", "subscription"];
    assert(object_path@ == seq!["data", "object"]);
    assert(id_path@ == seq!["id"]);
    assert(customer_path@ == seq!["customer"]);
    assert(subscription_path@ == seq!["subscription"]);
    assert(nested_path@ == seq!["parent", "subscription_details", "subscription"]);
    let object = match descend(payload, &object_path) {
        Some(object) => object,
        None => return Err(WebhookError::InvalidEvent),
    };
    if starts_with(event_type, "customer.subscription.") {
        return Ok(
            Some(
                ReconciliationTarget {
                    subscription_id: required_string(object, &id_path)?,
                    customer_id: required_string(object, &customer_path)?,
                    checkout_subject: None,
                },
            ),
        );
    }
    if same(event_type, "checkout.session.completed") {
        return Ok(
            Some(
                ReconciliationTarget {
                    subscription_id: required_string(object, &subscription_path)?,
                    customer_id: required_string(object, &customer_path)?,
                    checkout_subject: Some(read_checkout_subject(object)?),
                },
            ),
        );
    }
    if same(event_type, "invoice.paid") || same(event_type, "invoice.payment_failed") || same(
        event_type,
        "invoice.payment_action_required",
    ) {
        let subscription_id = optional_string(object, &subscription_path, Some(&nested_path));
        let customer_id = optional_string(object, &customer_path, None);
        return match (subscription_id, customer_id) {
            (Some(subscription_id), Some(customer_id)) => Ok(
                Some(
                    ReconciliationTarget { subscription_id, customer_id, checkout_subject: None },
                ),
            ),
            _ => Ok(None),
        };
    }
    Ok(None)
}

/// The event that a verified payload holds.
pub open spec fn event_of(payload: Option<Json>, expected_livemode: bool) -> Result<
    VerifiedEvent,
    WebhookError,
> {
    match payload {
        None => Err(WebhookError::InvalidEvent),
        Some(payload) => match (
            text_at(payload, seq!["id"]),
            text_at(payload, seq!["type"]),
            at(payload, names(seq!["created"])),
            at(payload, names(seq!["livemode"])),
        ) {
            (
                Some(event_id),
                Some(event_type),
                Some(Json::Number(Some(created_at))),
                Some(Json::Bool(livemode)),
            ) => if livemode != expected_livemode {
                Err(WebhookError::ModeMismatch)
            } else {
                match target_of(event_type@, payload) {
                    Some(target) => Ok(
                        VerifiedEvent { event_id, event_type, created_at, livemode, target },
                    ),
                    None => Err(WebhookError::InvalidEvent),
                }
            },
            _ => Err(WebhookError::InvalidEvent),
        },
    }
}

/// Reads the event that a verified payload holds.
pub fn read_event(payload: &Option<Json>, expected_livemode: bool) -> (r: Result<
    VerifiedEvent,
    WebhookError,
>)
    ensures
        r == event_of(*payload, expected_livemode),
{
    let id_path = ["id"];
    let type_path = ["type"];
    let created_path = ["created"];
    let livemode_path = ["livemode"];
    assert(id_path@ == seq!["id"]);
    assert(type_path@ == seq!["type"]);
    assert(created_path@ == seq!["created"]);
    assert(livemode_path@ == seq!["livemode"]);
    let payload = match payload {
        Some(payload) => payload,
        None => return Err(WebhookError::InvalidEvent),
    };
    let event_id = required_string(payload, &id_path)?;
    let event_type = required_string(payload, &type_path)?;
    let created_at = match descend(payload, &created_path) {
        Some(Json::Number(Some(created_at))) => *created_at,
        _ => return Err(WebhookError::InvalidEvent),
    };
    let livemode = match descend(payload, &livemode_path) {
        Some(Json::Bool(livemode)) => *livemode,
        _ => return Err(WebhookError::InvalidEvent),
    };
    if livemode != expected_livemode {
        return Err(WebhookError::ModeMismatch);
    }
    let target = reconciliation_target(event_type.as_str(), payload)?;
    Ok(VerifiedEvent { event_id, event_type, created_at, livemode, target })
}

/// The outcome of a delivery: the body is within its limit, the header carries a signature, its
/// timestamp is close enough, one of its candidates verifies, and the body holds an event of the
/// expected mode.
pub open spec fn delivery_outcome(
    secret: Seq<u8>,
    body: Seq<char>,
    header: Seq<char>,
    now: Instant,
    tolerance_seconds: i64,
    max_body_bytes: usize,
    expected_livemode: bool,
) -> Result<VerifiedEvent, WebhookError> {
    if byte_len(body) > max_body_bytes {
        Err(WebhookError::BodyTooLarge)
    } else {
        match signature_of(header) {
            None => Err(WebhookError::InvalidSignature),
            Some(signature) => if distance(now.unix_seconds as int, signature.timestamp) > distance(
                tolerance_seconds as int,
                0,
            ) {
                Err(WebhookError::StaleSignature)
            } else if !signature_verifies(secret, signature, body) {
                Err(WebhookError::InvalidSignature)
            } else {
                event_of(parsed_json(body), expected_livemode)
            },
        }
    }
}

fn difference(a: i64, b: i64) -> (r: i128)
    ensures
        r == distance(a as int, b as int),
{
    if a < b {
        b as i128 - a as i128
    } else {
        a as i128 - b as i128
    }
}

/// Verifies a delivery and reads its event.
pub fn verify_and_parse(
    secret: &[u8],
    raw_body: &str,
    signature_header: &str,
    now: Instant,
    tolerance_seconds: i64,
    max_body_bytes: usize,
    expected_livemode: bool,
) -> (r: Result<VerifiedEvent, WebhookError>)
    ensures
        r == delivery_outcome(
            secret@,
            raw_body@,
            signature_header@,
            now,
            tolerance_seconds,
            max_body_bytes,
            expected_livemode,
        ),
{
    if byte_count(raw_body) > max_body_bytes {
        return Err(WebhookError::BodyTooLarge);
    }
    let signature = match parse_signature_header(signature_header) {
        Ok(signature) => signature,
        Err(error) => return Err(error),
    };
    if difference(now.unix_seconds, signature.timestamp) > difference(tolerance_seconds, 0) {
        return Err(WebhookError::StaleSignature);
    }
    if !verify_signature(secret, &signature, raw_body) {
        return Err(WebhookError::InvalidSignature);
    }
    read_event(&parse_json(raw_body), expected_livemode)
}

/// The timestamps of a prefix of the fields begin those of all fields.
proof fn lemma_more_timestamps(fields: Seq<Seq<char>>, n: int)
    requires
        0 <= n <= fields.len(),
    ensures
        timestamps(fields.take(n)).is_prefix_of(timestamps(fields)),
    decreases fields.len() - n,
{
    if n < fields.len() {
        lemma_more_timestamps(fields, n + 1);
        assert(fields.take(n + 1) == fields.take(n).push(fields[n]));
        lemma_push_field(fields.take(n), fields[n]);
        assert forall|i: int| 0 <= i < timestamps(fields.take(n)).len() implies #[trigger] timestamps(
            fields.take(n),
        )[i] == timestamps(fields)[i] by {
            assert(timestamps(fields.take(n + 1))[i] == timestamps(fields.take(n))[i]);
        }
    } else {
        assert(fields.take(n) == fields);
    }
}

/// An accepted delivery is authentic: its body is within the limit, its timestamp within the
/// tolerance, one of its candidates is the HMAC of exactly this timestamp and body, and its event
/// is of the expected mode.
pub proof fn law_accepted_deliveries_are_authentic(
    secret: Seq<u8>,
    body: Seq<char>,
    header: Seq<char>,
    now: Instant,
    tolerance_seconds: i64,
    max_body_bytes: usize,
    expected_livemode: bool,
)
    requires
        delivery_outcome(
            secret,
            body,
            header,
            now,
            tolerance_seconds,
            max_body_bytes,
            expected_livemode,
        ) is Ok,
    ensures
        byte_len(body) <= max_body_bytes,
        signature_of(header) is Some,
        distance(now.unix_seconds as int, signature_of(header)->0.timestamp) <= distance(
            tolerance_seconds as int,
            0,
        ),
        signature_verifies(secret, signature_of(header)->0, body),
        delivery_outcome(
            secret,
            body,
            header,
            now,
            tolerance_seconds,
            max_body_bytes,
            expected_livemode,
        )->Ok_0.livemode == expected_livemode,
{
}

/// One valid candidate is enough, whatever the others are, so that a secret can be rotated: 64
/// digits that write the HMAC of the signed payload.
pub proof fn law_one_valid_candidate_is_enough(
    secret: Seq<u8>,
    signature: SignatureModel,
    body: Seq<char>,
    i: int,
)
    requires
        0 <= i < signature.v1.len(),
        signature.v1[i] == hex_text(
            hmac_sha256(secret, encode_utf8(signed_payload(signature.timestamp, body))),
        ),
        signature.v1[i].len() == 64,
    ensures
        signature_verifies(secret, signature, body),
{
    law_digest_reads_back(
        hmac_sha256(secret, encode_utf8(signed_payload(signature.timestamp, body))),
    );
    assert(candidate_verifies(secret, signature.timestamp, body, signature.v1[i]));
}

/// An event of any other type than those that move a subscription asks for nothing.
pub proof fn law_other_events_ask_for_nothing(event_type: Seq<char>, payload: Json)
    requires
        event_object(payload) is Some,
        !is_subscription_event(event_type),
        event_type != "checkout.session.completed"@,
        !is_invoice_event(event_type),
    ensures
        target_of(event_type, payload) == Some(None::<ReconciliationTarget>),
{
}

/// The usable text of a member: not empty, and at most 512 bytes.
pub open spec fn member_text(object: Json, name: Seq<char>) -> Option<String> {
    usable_text(get(object, name))
}

/// A text that an event carries is usable exactly where it is not empty and takes at most 512
/// bytes; what is no text is not.
pub proof fn law_usable_texts_are_short(text: String, other: Json)
    ensures
        (usable_text(Some(Json::Text(text))) == Some(text)) == (0 < text@.len() && byte_len(text@)
            <= 512),
        usable_text(Some(Json::Text(text))) is Some ==> usable_text(Some(Json::Text(text)))->0
            == text,
        !(other is Text) ==> usable_text(Some(other)) is None,
        usable_text(None) is None,
{
}

/// Every event whose type begins with `customer.subscription.`, whatever follows, asks for the
/// subscription that it is about: the object's own identifier, with its customer.
pub proof fn law_subscription_events_ask_for_their_subscription(
    suffix: Seq<char>,
    payload: Json,
    data: Json,
    object: Json,
    subscription_id: String,
    customer_id: String,
)
    requires
        get(payload, "data"@) == Some(data),
        get(data, "object"@) == Some(object),
        get(object, "id"@) == Some(Json::Text(subscription_id)),
        get(object, "customer"@) == Some(Json::Text(customer_id)),
        0 < subscription_id@.len(),
        byte_len(subscription_id@) <= 512,
        0 < customer_id@.len(),
        byte_len(customer_id@) <= 512,
    ensures
        target_of("customer.subscription."@ + suffix, payload) == Some(
            Some(
                ReconciliationTarget { subscription_id, customer_id, checkout_subject: None },
            ),
        ),
{
    let event_type = "customer.subscription."@ + suffix;
    assert("customer.subscription."@.is_prefix_of(event_type));
    law_paths_descend_name_by_name(payload, "data", "object", "");
    law_paths_descend_name_by_name(object, "id", "", "");
    law_paths_descend_name_by_name(object, "customer", "", "");
}

/// A completed checkout asks for its subscription, with its customer and with the subject that its
/// metadata names, each part under its own name.
pub proof fn law_completed_checkouts_link_their_subject(
    payload: Json,
    data: Json,
    object: Json,
    metadata: Json,
    subscription_id: String,
    customer_id: String,
    subject: CheckoutSubject,
)
    requires
        get(payload, "data"@) == Some(data),
        get(data, "object"@) == Some(object),
        get(object, "metadata"@) == Some(metadata),
        member_text(object, "subscription"@) == Some(subscription_id),
        member_text(object, "customer"@) == Some(customer_id),
        member_text(metadata, "lenso_scope_kind"@) == Some(subject.scope_kind),
        member_text(metadata, "lenso_scope_id"@) == Some(subject.scope_id),
        member_text(metadata, "lenso_subject"@) == Some(subject.subject),
        member_text(metadata, "lenso_price_alias"@) == Some(subject.price_alias),
    ensures
        target_of("checkout.session.completed"@, payload) == Some(
            Some(
                ReconciliationTarget {
                    subscription_id,
                    customer_id,
                    checkout_subject: Some(subject),
                },
            ),
        ),
{
    lemma_event_types();
    law_paths_descend_name_by_name(payload, "data", "object", "");
    law_paths_descend_name_by_name(object, "subscription", "", "");
    law_paths_descend_name_by_name(object, "customer", "", "");
    law_paths_descend_name_by_name(object, "metadata", "lenso_scope_kind", "");
    law_paths_descend_name_by_name(object, "metadata", "lenso_scope_id", "");
    law_paths_descend_name_by_name(object, "metadata", "lenso_subject", "");
    law_paths_descend_name_by_name(object, "metadata", "lenso_price_alias", "");
}

/// A paid invoice, a failed payment and a payment that needs an action ask alike for the invoice's
/// subscription, where it and the customer are named, and otherwise for nothing.
pub proof fn law_invoices_ask_for_their_subscription(
    event_type: Seq<char>,
    payload: Json,
    data: Json,
    object: Json,
    customer_id: String,
    subscription_id: String,
)
    requires
        event_type == "invoice.paid"@ || event_type == "invoice.payment_failed"@ || event_type
            == "invoice.payment_action_required"@,
        get(payload, "data"@) == Some(data),
        get(data, "object"@) == Some(object),
        member_text(object, "customer"@) == Some(customer_id),
    ensures
        member_text(object, "subscription"@) == Some(subscription_id) ==> target_of(
            event_type,
            payload,
        ) == Some(
            Some(ReconciliationTarget { subscription_id, customer_id, checkout_subject: None }),
        ),
        member_text(object, "subscription"@) is None && get(object, "parent"@) is None
            ==> target_of(event_type, payload) == Some(None::<ReconciliationTarget>),
        forall|parent: Json, details: Json|
            member_text(object, "subscription"@) is None && get(object, "parent"@) == Some(parent)
                && get(parent, "subscription_details"@) == Some(details) && #[trigger] member_text(
                details,
                "subscription"@,
            ) == Some(subscription_id) && #[trigger] get(parent, "subscription_details"@) is Some
                ==> target_of(event_type, payload) == Some(
                Some(ReconciliationTarget { subscription_id, customer_id, checkout_subject: None }),
            ),
{
    lemma_event_types();
    law_paths_descend_name_by_name(payload, "data", "object", "");
    law_paths_descend_name_by_name(object, "subscription", "", "");
    law_paths_descend_name_by_name(object, "customer", "", "");
    law_paths_descend_name_by_name(object, "parent", "subscription_details", "subscription");
}

proof fn lemma_event_types()
    ensures
        !"customer.subscription."@.is_prefix_of("checkout.session.completed"@),
        !"customer.subscription."@.is_prefix_of("invoice.paid"@),
        !"customer.subscription."@.is_prefix_of("invoice.payment_failed"@),
        !"customer.subscription."@.is_prefix_of("invoice.payment_action_required"@),
        "checkout.session.completed"@ != "invoice.paid"@,
        "checkout.session.completed"@ != "invoice.payment_failed"@,
        "checkout.session.completed"@ != "invoice.payment_action_required"@,
{
    reveal_strlit("customer.subscription.");
    reveal_strlit("checkout.session.completed");
    reveal_strlit("invoice.paid");
    reveal_strlit("invoice.payment_failed");
    reveal_strlit("invoice.payment_action_required");
    assert("customer.subscription."@[0] == 'c' && "customer.subscription."@[1] == 'u');
    assert("checkout.session.completed"@[0] == 'c' && "checkout.session.completed"@[1] == 'h');
    assert("invoice.paid"@[0] == 'i');
    assert("invoice.payment_failed"@[0] == 'i');
    assert("invoice.payment_action_required"@[0] == 'i');
    if "customer.subscription."@.is_prefix_of("checkout.session.completed"@) {
        assert("checkout.session.completed"@.subrange(0, "customer.subscription."@.len() as int)[1]
            == 'h');
    }
    if "customer.subscription."@.is_prefix_of("invoice.paid"@) {
        assert("invoice.paid"@.subrange(0, "customer.subscription."@.len() as int)[0] == 'i');
    }
    if "customer.subscription."@.is_prefix_of("invoice.payment_failed"@) {
        assert("invoice.payment_failed"@.subrange(0, "customer.subscription."@.len() as int)[0]
            == 'i');
    }
    if "customer.subscription."@.is_prefix_of("invoice.payment_action_required"@) {
        assert("invoice.payment_action_required"@.subrange(
            0,
            "customer.subscription."@.len() as int,
        )[0] == 'i');
    }
}

/// Only a change to a subscription, a completed checkout and three kinds of invoice ask for a
/// reconciliation, and only a completed checkout links a subject.
pub proof fn law_no_other_event_asks_for_a_reconciliation(event_type: Seq<char>, payload: Json)
    ensures
        target_of(event_type, payload) matches Some(Some(target)) ==> {
            ||| "customer.subscription."@.is_prefix_of(event_type)
            ||| event_type == "checkout.session.completed"@
            ||| event_type == "invoice.paid"@
            ||| event_type == "invoice.payment_failed"@
            ||| event_type == "invoice.payment_action_required"@
        },
        target_of(event_type, payload) matches Some(Some(target)) ==> (
        target.checkout_subject is Some) == (event_type == "checkout.session.completed"@),
{
    lemma_event_types();
}

/// An event that was read has the identifier, the type, the time and the mode that its payload
/// gives, and the target that its type and its payload ask for.
pub proof fn law_events_are_read_as_they_are(
    payload: Json,
    event_id: String,
    event_type: String,
    created_at: i64,
    livemode: bool,
)
    requires
        member_text(payload, "id"@) == Some(event_id),
        member_text(payload, "type"@) == Some(event_type),
        get(payload, "created"@) == Some(Json::Number(Some(created_at))),
        get(payload, "livemode"@) == Some(Json::Bool(livemode)),
    ensures
        event_of(Some(payload), !livemode) == Err::<VerifiedEvent, WebhookError>(
            WebhookError::ModeMismatch,
        ),
        match target_of(event_type@, payload) {
            Some(target) => {
                let read = event_of(Some(payload), livemode);
                &&& read is Ok
                &&& read->Ok_0.event_id == event_id
                &&& read->Ok_0.event_type == event_type
                &&& read->Ok_0.created_at == created_at
                &&& read->Ok_0.livemode == livemode
                &&& read->Ok_0.target == target
            },
            None => event_of(Some(payload), livemode) == Err::<VerifiedEvent, WebhookError>(
                WebhookError::InvalidEvent,
            ),
        },
{
    law_paths_descend_name_by_name(payload, "id", "", "");
    law_paths_descend_name_by_name(payload, "type", "", "");
    law_paths_descend_name_by_name(payload, "created", "", "");
    law_paths_descend_name_by_name(payload, "livemode", "", "");
}

/// A payload that lacks its identifier, its type, its time or its mode is no event.
pub proof fn law_incomplete_payloads_are_no_events(payload: Json, expected_livemode: bool)
    requires
        member_text(payload, "id"@) is None || member_text(payload, "type"@) is None || !(get(
            payload,
            "created"@,
        ) matches Some(Json::Number(Some(_)))) || !(get(payload, "livemode"@) matches Some(
            Json::Bool(_),
        )),
    ensures
        event_of(Some(payload), expected_livemode) == Err::<VerifiedEvent, WebhookError>(
            WebhookError::InvalidEvent,
        ),
        event_of(None, expected_livemode) == Err::<VerifiedEvent, WebhookError>(
            WebhookError::InvalidEvent,
        ),
{
    law_paths_descend_name_by_name(payload, "id", "", "");
    law_paths_descend_name_by_name(payload, "type", "", "");
    law_paths_descend_name_by_name(payload, "created", "", "");
    law_paths_descend_name_by_name(payload, "livemode", "", "");
}

/// A delivery within the size limit, under a signature whose time is near enough and one of whose
/// candidates writes the HMAC of `time.body`, is read; where one of these fails, the refusal says
/// which, the first of them first.
pub proof fn law_deliveries_are_judged_in_order(
    secret: Seq<u8>,
    body: Seq<char>,
    header: Seq<char>,
    now: Instant,
    tolerance_seconds: i64,
    max_body_bytes: usize,
    expected_livemode: bool,
)
    requires
        tolerance_seconds >= 0,
    ensures
        ({
            let outcome = delivery_outcome(
                secret,
                body,
                header,
                now,
                tolerance_seconds,
                max_body_bytes,
                expected_livemode,
            );
            let signature = signature_of(header)->0;
            let message = encode_utf8(decimal_text(signature.timestamp) + "."@ + body);
            let near = -tolerance_seconds <= now.unix_seconds - signature.timestamp
                <= tolerance_seconds;
            let authentic = exists|i: int|
                0 <= i < signature.v1.len() && digest_bytes(#[trigger] signature.v1[i]) == Some(
                    hmac_sha256(secret, message),
                );
            &&& (outcome == Err::<VerifiedEvent, WebhookError>(WebhookError::BodyTooLarge)) == (
            encode_utf8(body).len() > max_body_bytes)
            &&& encode_utf8(body).len() <= max_body_bytes ==> {
                &&& signature_of(header) is None ==> outcome == Err::<VerifiedEvent, WebhookError>(
                    WebhookError::InvalidSignature,
                )
                &&& signature_of(header) is Some && !near ==> outcome == Err::<
                    VerifiedEvent,
                    WebhookError,
                >(WebhookError::StaleSignature)
                &&& signature_of(header) is Some && near && !authentic ==> outcome == Err::<
                    VerifiedEvent,
                    WebhookError,
                >(WebhookError::InvalidSignature)
                &&& signature_of(header) is Some && near && authentic ==> outcome == event_of(
                    parsed_json(body),
                    expected_livemode,
                )
            }
        }),
{
    reveal_strlit(".");
    let signature = signature_of(header)->0;
    assert(decimal_text(signature.timestamp) + "."@ + body == signed_payload(
        signature.timestamp,
        body,
    ));
    let message = encode_utf8(decimal_text(signature.timestamp) + "."@ + body);
    if exists|i: int|
        0 <= i < signature.v1.len() && digest_bytes(#[trigger] signature.v1[i]) == Some(
            hmac_sha256(secret, message),
        ) {
        let i = choose|i: int|
            0 <= i < signature.v1.len() && digest_bytes(#[trigger] signature.v1[i]) == Some(
                hmac_sha256(secret, message),
            );
        assert(candidate_verifies(secret, signature.timestamp, body, signature.v1[i]));
    }
    if signature_verifies(secret, signature, body) {
        let i = choose|i: int|
            0 <= i < signature.v1.len() && candidate_verifies(
                secret,
                signature.timestamp,
                body,
                #[trigger] signature.v1[i],
            );
        assert(digest_bytes(signature.v1[i]) == Some(hmac_sha256(secret, message)));
    }
}

/// A header as it is written: a time, and one `v1` field for each candidate.
pub open spec fn header_text(timestamp: int, candidates: Seq<Seq<char>>) -> Seq<char>
    decreases candidates.len(),
{
    if candidates.len() == 0 {
        "t="@ + decimal_text(timestamp)
    } else {
        header_text(timestamp, candidates.drop_last()) + ",v1="@ + candidates.last()
    }
}

/// Whether a text can stand as the value of a header field: it is not empty, holds no comma and
/// does not end in white space.
pub open spec fn is_field_value(text: Seq<char>) -> bool {
    text.len() > 0 && !text.contains(',') && !is_white_space(text.last())
}

proof fn lemma_field(name: Seq<char>, value: Seq<char>)
    requires
        name.len() > 0,
        !name.contains('='),
        !name.contains(','),
        !is_white_space(name[0]),
        is_field_value(value),
    ensures
        ({
            let field = name.push('=') + value;
            &&& split_text(field, ',') == seq![field]
            &&& trim_text(field) == field
            &&& has_value(field)
            &&& field_name(field) == name
            &&& field_value(field) == value
        }),
{
    let field = name.push('=') + value;
    law_splitting_is_at_separators(field, Seq::empty(), ',');
    assert(!field.contains(',')) by {
        if field.contains(',') {
            let i = choose|i: int| 0 <= i < field.len() && field[i] == ',';
            if i < name.len() {
                assert(name[i] == ',');
            } else if i > name.len() {
                assert(value[i - name.len() - 1] == ',');
            }
        }
    }
    law_trimming_takes_outer_white_space(Seq::empty(), field, Seq::empty());
    assert(Seq::<char>::empty() + field + Seq::<char>::empty() == field);
    law_first_occurrence(name, '=', value);
    assert(field.take(name.len() as int) == name);
    assert(field.skip(name.len() as int + 1) == value);
}

proof fn lemma_one_more_field(header: Seq<char>, name: Seq<char>, value: Seq<char>)
    requires
        name.len() > 0,
        !name.contains('='),
        !name.contains(','),
        !is_white_space(name[0]),
        is_field_value(value),
    ensures
        header_fields(header.push(',') + (name.push('=') + value)) == header_fields(header).push(
            name.push('=') + value,
        ),
{
    let field = name.push('=') + value;
    lemma_field(name, value);
    law_splitting_is_at_separators(header, field, ',');
    assert(header_fields(header.push(',') + field) == header_fields(header).push(field));
}

proof fn lemma_written_header(timestamp: int, candidate_texts: Seq<Seq<char>>)
    requires
        0 <= timestamp,
        forall|i: int|
            0 <= i < candidate_texts.len() ==> is_field_value(#[trigger] candidate_texts[i]),
    ensures
        ({
            let fields = header_fields(header_text(timestamp, candidate_texts));
            &&& forall|i: int| 0 <= i < fields.len() ==> has_value(#[trigger] fields[i])
            &&& timestamps(fields) == seq![decimal_text(timestamp)]
            &&& candidates(fields) == candidate_texts
        }),
    decreases candidate_texts.len(),
{
    reveal_strlit("t");
    reveal_strlit("t=");
    reveal_strlit("v1");
    reveal_strlit(",v1=");
    assert("t"@ == seq!['t'] && "t="@ == seq!['t', '='] && "v1"@ == seq!['v', '1']);
    assert("v1"@.len() == 2 && "t"@.len() == 1 && "t"@ != "v1"@);
    assert("v1"@[0] == 'v' && "v1"@[1] == '1');
    assert(!"v1"@.contains('=') && !"v1"@.contains(','));
    assert(!"t"@.contains('=') && !"t"@.contains(','));
    if candidate_texts.len() == 0 {
        let digits = decimal_text(timestamp);
        law_naturals_are_digits(timestamp as nat);
        assert(!digits.contains(',')) by {
            if digits.contains(',') {
                let i = choose|i: int| 0 <= i < digits.len() && digits[i] == ',';
                assert('0' as int <= digits[i] as int);
            }
        }
        assert('0' as int <= digits[digits.len() - 1] as int);
        assert(!is_white_space(digits.last())) by {
            assert('0' as int <= digits[digits.len() - 1] as int <= '9' as int);
        }
        let field = "t"@.push('=') + digits;
        assert("t="@ + digits == field);
        lemma_field("t"@, digits);
        assert(header_fields(field) == seq![field]);
        assert(seq![field] == Seq::<Seq<char>>::empty().push(field));
        lemma_push_field(Seq::empty(), field);
        reveal(Seq::filter);
        assert(timestamps(Seq::empty()) == Seq::<Seq<char>>::empty());
        assert(candidates(Seq::empty()) == Seq::<Seq<char>>::empty());
        assert(timestamps(seq![field]) == seq![digits]);
        assert(candidates(seq![field]) == candidate_texts);
    } else {
        let value = candidate_texts.last();
        let earlier = candidate_texts.drop_last();
        assert(is_field_value(candidate_texts[candidate_texts.len() - 1]));
        assert forall|i: int| 0 <= i < earlier.len() implies is_field_value(#[trigger] earlier[i]) by {
            assert(earlier[i] == candidate_texts[i]);
        }
        lemma_written_header(timestamp, earlier);
        let header = header_text(timestamp, earlier);
        let field = "v1"@.push('=') + value;
        assert(header_text(timestamp, candidate_texts) == header.push(',') + field);
        lemma_field("v1"@, value);
        lemma_one_more_field(header, "v1"@, value);
        lemma_push_field(header_fields(header), field);
        assert(earlier.push(value) == candidate_texts);
    }
}

/// A header that is written is read: its time, and its candidates in order, whatever they are.
pub proof fn law_written_headers_are_read(timestamp: int, candidate_texts: Seq<Seq<char>>)
    requires
        0 <= timestamp <= i64::MAX,
        candidate_texts.len() > 0,
        forall|i: int|
            0 <= i < candidate_texts.len() ==> is_field_value(#[trigger] candidate_texts[i]),
    ensures
        signature_of(header_text(timestamp, candidate_texts)) == Some(
            SignatureModel { timestamp, v1: candidate_texts },
        ),
{
    lemma_written_header(timestamp, candidate_texts);
    law_integers_are_bounded(timestamp);
}

/// A field of any other name changes nothing about a header that carries a signature, and a second
/// time makes it carry none.
pub proof fn law_other_fields_are_ignored(header: Seq<char>, name: Seq<char>, value: Seq<char>)
    requires
        signature_of(header) is Some,
        name.len() > 0,
        !name.contains('='),
        !name.contains(','),
        !is_white_space(name[0]),
        is_field_value(value),
    ensures
        name != "t"@ && name != "v1"@ ==> signature_of(header + ","@ + name + "="@ + value)
            == signature_of(header),
        name == "t"@ ==> signature_of(header + ","@ + name + "="@ + value) is None,
        name == "v1"@ ==> signature_of(header + ","@ + name + "="@ + value) == Some(
            SignatureModel {
                timestamp: signature_of(header)->0.timestamp,
                v1: signature_of(header)->0.v1.push(value),
            },
        ),
{
    reveal_strlit(",");
    reveal_strlit("=");
    reveal_strlit("t");
    reveal_strlit("v1");
    assert("t"@.len() == 1 && "v1"@.len() == 2);
    let field = name.push('=') + value;
    let longer = header + ","@ + name + "="@ + value;
    assert(longer == header.push(',') + field);
    lemma_field(name, value);
    lemma_one_more_field(header, name, value);
    lemma_push_field(header_fields(header), field);
    let fields = header_fields(header);
    let more = header_fields(longer);
    assert(more == fields.push(field));
    assert forall|i: int| 0 <= i < more.len() implies has_value(#[trigger] more[i]) by {
        if i < fields.len() {
            assert(more[i] == fields[i]);
        }
    }
    if name == "t"@ {
        assert(timestamps(more).len() == 2);
    }
}

/// The messages of refused deliveries.
pub proof fn law_refusals_are_worded()
    ensures
        webhook_error_text(WebhookError::BodyTooLarge)
            == "webhook body exceeds the configured limit"@,
        webhook_error_text(WebhookError::InvalidSignature) == "Stripe-Signature header is invalid"@,
        webhook_error_text(WebhookError::StaleSignature)
            == "Stripe-Signature timestamp is outside the configured tolerance"@,
        webhook_error_text(WebhookError::InvalidEvent) == "Stripe event payload is invalid"@,
        webhook_error_text(WebhookError::ModeMismatch)
            == "Stripe event live mode does not match this Plugin Instance"@,
{
}

} // verus!
