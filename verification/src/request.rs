//! What identifies and validates a request.

use vstd::prelude::*;
use vstd::utf8::{encode_utf8, encode_utf8_decode_utf8};

use crate::config::{is_name, valid_name};
use crate::contract::{
    failure, CreateCheckoutSessionRequest, CreatePortalSessionRequest, PublishMeterEventRequest,
    RuntimeFailure,
};
use crate::crypto::{sha256, sha256_digest};
use crate::effects::{operation_text, EffectOperation};
use crate::hex::{encode_hex, hex_text, is_hex, nibble_value};
use crate::json::{object_json, pair_texts, write_object};
use crate::text::{byte_count, byte_len, chars_of, code_point, control, is_control, starts_with};

verus! {

/// An idempotency key: one to 255 bytes without control characters.
pub open spec fn is_idempotency_key(text: Seq<char>) -> bool {
    text.len() > 0 && byte_len(text) <= 255 && forall|i: int|
        0 <= i < text.len() ==> !is_control(#[trigger] text[i])
}

/// Decides [`is_idempotency_key`].
pub fn valid_idempotency_key(value: &str) -> (r: bool)
    ensures
        r == is_idempotency_key(value@),
{
    if value.is_empty() || byte_count(value) > 255 {
        return false;
    }
    let chars = chars_of(value);
    let mut i: usize = 0;
    while i < chars.len()
        invariant
            i <= chars@.len(),
            chars@ == value@,
            forall|j: int| 0 <= j < i ==> !is_control(#[trigger] value@[j]),
        decreases chars@.len() - i,
    {
        if control(chars[i]) {
            assert(is_control(value@[i as int]));
            return false;
        }
        i += 1;
    }
    true
}

/// What every effect identifier begins with.
pub open spec fn effect_prefix() -> Seq<char> {
    "stripe_effect_"@
}

/// An effect identifier: the prefix and 32 hexadecimal digits.
pub open spec fn is_effect_id(text: Seq<char>) -> bool {
    &&& effect_prefix().is_prefix_of(text)
    &&& text.len() == effect_prefix().len() + 32
    &&& forall|i: int| effect_prefix().len() <= i < text.len() ==> is_hex(#[trigger] text[i])
}

fn hex_digit(c: char) -> (r: bool)
    ensures
        r == is_hex(c),
{
    let code: u32 = code_point(c);
    (48 <= code && code <= 57) || (97 <= code && code <= 102) || (65 <= code && code <= 70)
}

/// Decides [`is_effect_id`].
pub fn valid_effect_id(value: &str) -> (r: bool)
    ensures
        r == is_effect_id(value@),
{
    proof {
        reveal_strlit("stripe_effect_");
        assert(effect_prefix().len() == 14);
    }
    let chars = chars_of(value);
    if !starts_with(value, "stripe_effect_") || chars.len() != 46 {
        return false;
    }
    let mut i: usize = 14;
    while i < chars.len()
        invariant
            14 <= i <= chars@.len(),
            chars@ == value@,
            effect_prefix().len() == 14,
            forall|j: int| 14 <= j < i ==> is_hex(#[trigger] value@[j]),
        decreases chars@.len() - i,
    {
        if !hex_digit(chars[i]) {
            assert(!is_hex(value@[i as int]));
            return false;
        }
        i += 1;
    }
    true
}

/// Whether the three texts name a subject.
pub open spec fn is_subject(scope_kind: Seq<char>, scope_id: Seq<char>, subject: Seq<char>) -> bool {
    is_name(scope_kind) && is_name(scope_id) && is_name(subject)
}

/// Decides [`is_subject`].
pub fn valid_subject_request(scope_kind: &str, scope_id: &str, subject: &str) -> (r: bool)
    ensures
        r == is_subject(scope_kind@, scope_id@, subject@),
{
    valid_name(scope_kind) && valid_name(scope_id) && valid_name(subject)
}

/// What the identifier of an effect is made of: the caller, the operation and the key, separated
/// by zero bytes.
pub open spec fn effect_identity(
    caller: Seq<char>,
    operation: EffectOperation,
    key: Seq<char>,
) -> Seq<u8> {
    encode_utf8(caller) + seq![0u8] + encode_utf8(operation_text(operation)) + seq![0u8]
        + encode_utf8(key)
}

/// The identifier that a digest gives: the prefix and its first 16 bytes in hexadecimal.
pub open spec fn digest_name(digest: Seq<u8>) -> Seq<char> {
    effect_prefix() + hex_text(digest.take(16))
}

/// The identifier of the effect of a caller's operation under a key.
pub open spec fn effect_id_of(caller: Seq<char>, operation: EffectOperation, key: Seq<char>) -> Seq<
    char,
> {
    digest_name(sha256_digest(effect_identity(caller, operation, key)))
}

fn push_bytes(out: &mut Vec<u8>, bytes: &[u8])
    ensures
        final(out)@ == old(out)@ + bytes@,
{
    let mut i: usize = 0;
    while i < bytes.len()
        invariant
            i <= bytes@.len(),
            out@ == old(out)@ + bytes@.take(i as int),
        decreases bytes@.len() - i,
    {
        out.push(bytes[i]);
        assert(bytes@.take(i + 1) == bytes@.take(i as int).push(bytes@[i as int]));
        i += 1;
    }
    assert(bytes@.take(i as int) == bytes@);
}

/// Writes the identifier that a digest gives.
pub fn name_effect(digest: &[u8]) -> (r: String)
    requires
        digest@.len() >= 16,
    ensures
        r@ == digest_name(digest@),
        is_effect_id(r@),
{
    let mut half: Vec<u8> = Vec::new();
    let mut i: usize = 0;
    while i < 16
        invariant
            i <= 16,
            digest@.len() >= 16,
            half@ == digest@.take(i as int),
        decreases 16 - i,
    {
        half.push(digest[i]);
        assert(digest@.take(i + 1) == digest@.take(i as int).push(digest@[i as int]));
        i += 1;
    }
    let mut id = "stripe_effect_".to_owned();
    id.append(encode_hex(half.as_slice()).as_str());
    proof {
        reveal_strlit("stripe_effect_");
        let tail = hex_text(half@);
        assert forall|j: int| effect_prefix().len() <= j < id@.len() implies is_hex(
            #[trigger] id@[j],
        ) by {
            assert(id@[j] == tail[j - 14]);
            assert(nibble_value(tail[j - 14] as int) is Some);
        }
    }
    id
}

/// Derives the identifier of an effect: the same caller, operation and key always give the same.
pub fn stable_effect_id(caller: &str, operation: EffectOperation, key: &str) -> (r: String)
    ensures
        r@ == effect_id_of(caller@, operation, key@),
        is_effect_id(r@),
{
    let mut identity: Vec<u8> = Vec::new();
    push_bytes(&mut identity, caller.as_bytes());
    identity.push(0);
    push_bytes(&mut identity, operation.as_str().as_bytes());
    identity.push(0);
    push_bytes(&mut identity, key.as_bytes());
    assert(identity@ == effect_identity(caller@, operation, key@));
    name_effect(sha256(identity.as_slice()).as_slice())
}

/// The members of a Checkout Session request, by name.
pub open spec fn checkout_members(request: CreateCheckoutSessionRequest) -> Seq<
    (Seq<char>, Seq<char>),
> {
    seq![
        ("cancel_url"@, request.cancel_url@),
        ("idempotency_key"@, request.idempotency_key@),
        ("price_alias"@, request.price_alias@),
        ("scope_id"@, request.scope_id@),
        ("scope_kind"@, request.scope_kind@),
        ("subject"@, request.subject@),
        ("success_url"@, request.success_url@),
    ]
}

/// The members of a Customer Portal request, by name.
pub open spec fn portal_members(request: CreatePortalSessionRequest) -> Seq<(Seq<char>, Seq<char>)> {
    seq![
        ("idempotency_key"@, request.idempotency_key@),
        ("return_url"@, request.return_url@),
        ("scope_id"@, request.scope_id@),
        ("scope_kind"@, request.scope_kind@),
        ("subject"@, request.subject@),
    ]
}

/// The members of a usage event, by name.
pub open spec fn meter_members(request: PublishMeterEventRequest) -> Seq<(Seq<char>, Seq<char>)> {
    seq![
        ("delivery_id"@, request.delivery_id@),
        ("meter"@, request.meter@),
        ("occurred_at"@, request.occurred_at@),
        ("quantity"@, request.quantity@),
        ("scope_id"@, request.scope_id@),
        ("scope_kind"@, request.scope_kind@),
        ("subject"@, request.subject@),
    ]
}

/// The fingerprint of a request: the SHA-256 digest of its JSON form.
pub open spec fn fingerprint(members: Seq<(Seq<char>, Seq<char>)>) -> Seq<u8> {
    sha256_digest(object_json(members))
}

fn push_member(members: &mut Vec<(String, String)>, name: &str, value: &str)
    ensures
        pair_texts(final(members)@) == pair_texts(old(members)@).push((name@, value@)),
{
    members.push((name.to_owned(), value.to_owned()));
    assert(pair_texts(members@) == pair_texts(old(members)@).push((name@, value@)));
}

/// Fingerprints a request by its members.
pub fn request_hash(members: Vec<(String, String)>) -> (r: Result<Vec<u8>, RuntimeFailure>)
    ensures
        r is Ok,
        r->Ok_0@ == fingerprint(pair_texts(members@)),
        r->Ok_0@.len() == 32,
{
    match write_object(members) {
        Ok(bytes) => Ok(sha256(bytes.as_slice())),
        Err(detail) => Err(failure(detail)),
    }
}

/// Lists the members of a Checkout Session request.
pub fn list_checkout_members(request: &CreateCheckoutSessionRequest) -> (r: Vec<(String, String)>)
    ensures
        pair_texts(r@) == checkout_members(*request),
{
    let mut members: Vec<(String, String)> = Vec::new();
    push_member(&mut members, "cancel_url", request.cancel_url.as_str());
    push_member(&mut members, "idempotency_key", request.idempotency_key.as_str());
    push_member(&mut members, "price_alias", request.price_alias.as_str());
    push_member(&mut members, "scope_id", request.scope_id.as_str());
    push_member(&mut members, "scope_kind", request.scope_kind.as_str());
    push_member(&mut members, "subject", request.subject.as_str());
    push_member(&mut members, "success_url", request.success_url.as_str());
    members
}

/// Lists the members of a Customer Portal request.
pub fn list_portal_members(request: &CreatePortalSessionRequest) -> (r: Vec<(String, String)>)
    ensures
        pair_texts(r@) == portal_members(*request),
{
    let mut members: Vec<(String, String)> = Vec::new();
    push_member(&mut members, "idempotency_key", request.idempotency_key.as_str());
    push_member(&mut members, "return_url", request.return_url.as_str());
    push_member(&mut members, "scope_id", request.scope_id.as_str());
    push_member(&mut members, "scope_kind", request.scope_kind.as_str());
    push_member(&mut members, "subject", request.subject.as_str());
    members
}

/// Lists the members of a usage event.
pub fn list_meter_members(request: &PublishMeterEventRequest) -> (r: Vec<(String, String)>)
    ensures
        pair_texts(r@) == meter_members(*request),
{
    let mut members: Vec<(String, String)> = Vec::new();
    push_member(&mut members, "delivery_id", request.delivery_id.as_str());
    push_member(&mut members, "meter", request.meter.as_str());
    push_member(&mut members, "occurred_at", request.occurred_at.as_str());
    push_member(&mut members, "quantity", request.quantity.as_str());
    push_member(&mut members, "scope_id", request.scope_id.as_str());
    push_member(&mut members, "scope_kind", request.scope_kind.as_str());
    push_member(&mut members, "subject", request.subject.as_str());
    members
}

/// An idempotency key may grow by any character that is no control character, as long as it takes
/// at most 255 bytes.
pub proof fn law_idempotency_keys(text: Seq<char>, c: char)
    ensures
        !is_idempotency_key(Seq::empty()),
        is_idempotency_key(text) ==> encode_utf8(text).len() <= 255,
        is_idempotency_key(text) && encode_utf8(text.push(c)).len() <= 255 ==> is_idempotency_key(
            text.push(c),
        ) == ((c as int) > 0x1f && !(0x7f <= c as int <= 0x9f)),
        encode_utf8(seq![c]).len() <= 255 ==> is_idempotency_key(seq![c]) == ((c as int) > 0x1f && !(
        0x7f <= c as int <= 0x9f)),
{
    let longer = text.push(c);
    assert(longer[text.len() as int] == c);
    assert(seq![c][0] == c);
    if is_idempotency_key(text) {
        assert forall|i: int| 0 <= i < text.len() implies !is_control(#[trigger] longer[i]) by {
            assert(longer[i] == text[i]);
        }
    }
}

/// An effect identifier is `stripe_effect_` and thirty-two hexadecimal digits, of either case.
pub proof fn law_effect_identifiers(digits: Seq<char>, text: Seq<char>)
    ensures
        is_effect_id("stripe_effect_"@ + digits) == (digits.len() == 32 && forall|i: int|
            0 <= i < digits.len() ==> ('0' as int <= #[trigger] digits[i] as int <= '9' as int || 'a'
                as int <= digits[i] as int <= 'f' as int || 'A' as int <= digits[i] as int <= 'F'
                as int)),
        is_effect_id(text) ==> text.len() == 46 && "stripe_effect_"@.is_prefix_of(text),
{
    reveal_strlit("stripe_effect_");
    let prefix = "stripe_effect_"@;
    let whole = prefix + digits;
    assert(prefix.len() == 14);
    assert(whole.subrange(0, 14) == prefix);
    assert forall|i: int| 0 <= i < digits.len() implies whole[14 + i] == #[trigger] digits[i] by {}
    if digits.len() == 32 && forall|i: int|
        0 <= i < digits.len() ==> is_hex(#[trigger] digits[i]) {
        assert forall|i: int| 14 <= i < whole.len() implies is_hex(#[trigger] whole[i]) by {
            assert(whole[i] == digits[i - 14]);
        }
    }
    if is_effect_id(whole) {
        assert forall|i: int| 0 <= i < digits.len() implies is_hex(#[trigger] digits[i]) by {
            assert(is_hex(whole[14 + i]));
        }
    }
}

/// The identifier of an effect is `stripe_effect_` and the first sixteen bytes, in hexadecimal, of
/// the digest of the caller, the operation's name and the key, with a zero byte between them.
pub proof fn law_effects_are_named_by_their_digest(caller: Seq<char>, key: Seq<char>)
    ensures
        effect_id_of(caller, EffectOperation::Checkout, key) == "stripe_effect_"@ + hex_text(
            sha256_digest(
                encode_utf8(caller) + seq![0u8] + encode_utf8("checkout"@) + seq![0u8] + encode_utf8(
                    key,
                ),
            ).take(16),
        ),
        effect_id_of(caller, EffectOperation::Portal, key) == "stripe_effect_"@ + hex_text(
            sha256_digest(
                encode_utf8(caller) + seq![0u8] + encode_utf8("portal"@) + seq![0u8] + encode_utf8(
                    key,
                ),
            ).take(16),
        ),
{
}

/// What an effect's identifier is made of tells keys apart: under one caller and one operation,
/// another key is another identity.
pub proof fn law_keys_tell_effects_apart(
    caller: Seq<char>,
    operation: EffectOperation,
    key: Seq<char>,
    other: Seq<char>,
)
    requires
        key != other,
    ensures
        effect_identity(caller, operation, key) != effect_identity(caller, operation, other),
{
    let head = encode_utf8(caller) + seq![0u8] + encode_utf8(operation_text(operation)) + seq![0u8];
    if effect_identity(caller, operation, key) == effect_identity(caller, operation, other) {
        let a = effect_identity(caller, operation, key);
        let b = effect_identity(caller, operation, other);
        assert(a.skip(head.len() as int) == encode_utf8(key));
        assert(b.skip(head.len() as int) == encode_utf8(other));
        encode_utf8_decode_utf8(key);
        encode_utf8_decode_utf8(other);
    }
}

/// The fingerprint of a Checkout Session request is taken of all that it says, each under its own
/// name; requests that differ anywhere differ in what is fingerprinted.
pub proof fn law_checkout_fingerprints_cover_the_request(
    request: CreateCheckoutSessionRequest,
    other: CreateCheckoutSessionRequest,
)
    ensures
        ({
            let members = checkout_members(request);
            &&& members.len() == 7
            &&& members.contains(("cancel_url"@, request.cancel_url@))
            &&& members.contains(("idempotency_key"@, request.idempotency_key@))
            &&& members.contains(("price_alias"@, request.price_alias@))
            &&& members.contains(("scope_id"@, request.scope_id@))
            &&& members.contains(("scope_kind"@, request.scope_kind@))
            &&& members.contains(("subject"@, request.subject@))
            &&& members.contains(("success_url"@, request.success_url@))
        }),
        checkout_members(request) == checkout_members(other) ==> {
            &&& request.cancel_url@ == other.cancel_url@
            &&& request.idempotency_key@ == other.idempotency_key@
            &&& request.price_alias@ == other.price_alias@
            &&& request.scope_id@ == other.scope_id@
            &&& request.scope_kind@ == other.scope_kind@
            &&& request.subject@ == other.subject@
            &&& request.success_url@ == other.success_url@
        },
{
    let a = checkout_members(request);
    let b = checkout_members(other);
    assert(a[0] == ("cancel_url"@, request.cancel_url@) && b[0] == (
        "cancel_url"@,
        other.cancel_url@,
    ));
    assert(a[1] == ("idempotency_key"@, request.idempotency_key@) && b[1] == (
        "idempotency_key"@,
        other.idempotency_key@,
    ));
    assert(a[2] == ("price_alias"@, request.price_alias@) && b[2] == (
        "price_alias"@,
        other.price_alias@,
    ));
    assert(a[3] == ("scope_id"@, request.scope_id@) && b[3] == ("scope_id"@, other.scope_id@));
    assert(a[4] == ("scope_kind"@, request.scope_kind@) && b[4] == (
        "scope_kind"@,
        other.scope_kind@,
    ));
    assert(a[5] == ("subject"@, request.subject@) && b[5] == ("subject"@, other.subject@));
    assert(a[6] == ("success_url"@, request.success_url@) && b[6] == (
        "success_url"@,
        other.success_url@,
    ));
}

/// The fingerprint of a Customer Portal request is taken of all that it says, each under its own
/// name.
pub proof fn law_portal_fingerprints_cover_the_request(
    request: CreatePortalSessionRequest,
    other: CreatePortalSessionRequest,
)
    ensures
        ({
            let members = portal_members(request);
            &&& members.len() == 5
            &&& members.contains(("idempotency_key"@, request.idempotency_key@))
            &&& members.contains(("return_url"@, request.return_url@))
            &&& members.contains(("scope_id"@, request.scope_id@))
            &&& members.contains(("scope_kind"@, request.scope_kind@))
            &&& members.contains(("subject"@, request.subject@))
        }),
        portal_members(request) == portal_members(other) ==> {
            &&& request.idempotency_key@ == other.idempotency_key@
            &&& request.return_url@ == other.return_url@
            &&& request.scope_id@ == other.scope_id@
            &&& request.scope_kind@ == other.scope_kind@
            &&& request.subject@ == other.subject@
        },
{
    let a = portal_members(request);
    let b = portal_members(other);
    assert(a[0] == ("idempotency_key"@, request.idempotency_key@) && b[0] == (
        "idempotency_key"@,
        other.idempotency_key@,
    ));
    assert(a[1] == ("return_url"@, request.return_url@) && b[1] == (
        "return_url"@,
        other.return_url@,
    ));
    assert(a[2] == ("scope_id"@, request.scope_id@) && b[2] == ("scope_id"@, other.scope_id@));
    assert(a[3] == ("scope_kind"@, request.scope_kind@) && b[3] == (
        "scope_kind"@,
        other.scope_kind@,
    ));
    assert(a[4] == ("subject"@, request.subject@) && b[4] == ("subject"@, other.subject@));
}

/// The fingerprint of a usage event is taken of all that it says, each under its own name.
pub proof fn law_meter_fingerprints_cover_the_event(
    request: PublishMeterEventRequest,
    other: PublishMeterEventRequest,
)
    ensures
        ({
            let members = meter_members(request);
            &&& members.len() == 7
            &&& members.contains(("delivery_id"@, request.delivery_id@))
            &&& members.contains(("meter"@, request.meter@))
            &&& members.contains(("occurred_at"@, request.occurred_at@))
            &&& members.contains(("quantity"@, request.quantity@))
            &&& members.contains(("scope_id"@, request.scope_id@))
            &&& members.contains(("scope_kind"@, request.scope_kind@))
            &&& members.contains(("subject"@, request.subject@))
        }),
        meter_members(request) == meter_members(other) ==> {
            &&& request.delivery_id@ == other.delivery_id@
            &&& request.meter@ == other.meter@
            &&& request.occurred_at@ == other.occurred_at@
            &&& request.quantity@ == other.quantity@
            &&& request.scope_id@ == other.scope_id@
            &&& request.scope_kind@ == other.scope_kind@
            &&& request.subject@ == other.subject@
        },
{
    let a = meter_members(request);
    let b = meter_members(other);
    assert(a[0] == ("delivery_id"@, request.delivery_id@) && b[0] == (
        "delivery_id"@,
        other.delivery_id@,
    ));
    assert(a[1] == ("meter"@, request.meter@) && b[1] == ("meter"@, other.meter@));
    assert(a[2] == ("occurred_at"@, request.occurred_at@) && b[2] == (
        "occurred_at"@,
        other.occurred_at@,
    ));
    assert(a[3] == ("quantity"@, request.quantity@) && b[3] == ("quantity"@, other.quantity@));
    assert(a[4] == ("scope_id"@, request.scope_id@) && b[4] == ("scope_id"@, other.scope_id@));
    assert(a[5] == ("scope_kind"@, request.scope_kind@) && b[5] == (
        "scope_kind"@,
        other.scope_kind@,
    ));
    assert(a[6] == ("subject"@, request.subject@) && b[6] == ("subject"@, other.subject@));
}

} // verus!
