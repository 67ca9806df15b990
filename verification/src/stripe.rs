//! Requests to Stripe and what its answers mean.

use vstd::prelude::*;

use crate::clock::{format_rfc3339, from_unix_timestamp, rfc3339_text, unix_instant, Instant};
use crate::config::{is_stripe_id, valid_stripe_id, STRIPE_API_VERSION};
use crate::contract::CreateCheckoutSessionRequest;
use crate::effects::EffectOperation;
use crate::json::pair_texts;
use crate::text::{decimal, decimal_text, opt_str, opt_text, same};
use crate::web::{
    encode_form, form_text, join_url, joined_url, opt_url, parse_url, parsed_url, UrlModel, UrlParts,
};

verus! {

/// The largest answer that is read.
pub const MAX_STRIPE_RESPONSE_BYTES: usize = 1048576;

/// An answer over HTTP.
pub struct HttpReply {
    pub status: i64,
    pub body: Vec<u8>,
}

/// What an answer to a creating request means, where it is known.
pub enum ClassifiedResponse {
    /// Stripe performed the request.
    Success(Vec<u8>),
    /// Stripe refused the request for good.
    KnownFailure,
}

/// Whether a status code reports success.
pub open spec fn is_success(status: int) -> bool {
    200 <= status < 300
}

/// Whether a status code refuses a request for good: a client error that is neither a timeout, a
/// conflict, nor a request to come back later.
pub open spec fn is_refusal(status: int) -> bool {
    400 <= status < 500 && status != 408 && status != 409 && status != 425 && status != 429
}

/// The meaning of an answer, if one came: unknown where none came, where it is too large, and
/// where its status leaves open whether the request was performed.
pub open spec fn classified(reply: Option<HttpReply>) -> Option<ClassifiedResponse> {
    match reply {
        Some(reply) => if is_success(reply.status as int) && reply.body@.len()
            <= MAX_STRIPE_RESPONSE_BYTES {
            Some(ClassifiedResponse::Success(reply.body))
        } else if is_refusal(reply.status as int) {
            Some(ClassifiedResponse::KnownFailure)
        } else {
            None
        },
        None => None,
    }
}

/// Finds the meaning of an answer.
pub fn classify_http(reply: Option<HttpReply>) -> (r: Option<ClassifiedResponse>)
    ensures
        r == classified(reply),
{
    match reply {
        Some(reply) => {
            if 200 <= reply.status && reply.status < 300 && reply.body.len()
                <= MAX_STRIPE_RESPONSE_BYTES {
                Some(ClassifiedResponse::Success(reply.body))
            } else if 400 <= reply.status && reply.status < 500 && reply.status != 408
                && reply.status != 409 && reply.status != 425 && reply.status != 429 {
                Some(ClassifiedResponse::KnownFailure)
            } else {
                None
            }
        },
        None => None,
    }
}

/// A request to Stripe.
pub struct StripeRequest {
    pub method: String,
    pub url: String,
    pub headers: Vec<(String, String)>,
    pub body: String,
}

/// The headers of a request to Stripe.
pub open spec fn headers_of(
    api_key: Seq<char>,
    idempotency_key: Option<Seq<char>>,
    form_body: bool,
) -> Seq<(Seq<char>, Seq<char>)> {
    seq![
        ("Authorization"@, "Bearer "@ + api_key),
        ("Stripe-Version"@, STRIPE_API_VERSION@),
    ] + if form_body {
        seq![("Content-Type"@, "application/x-www-form-urlencoded"@)]
    } else {
        Seq::empty()
    } + match idempotency_key {
        Some(key) => seq![("Idempotency-Key"@, key)],
        None => Seq::empty(),
    }
}

fn pair(name: &str, value: &str) -> (r: (String, String))
    ensures
        r.0@ == name@,
        r.1@ == value@,
{
    (name.to_owned(), value.to_owned())
}

fn push_pair(pairs: &mut Vec<(String, String)>, name: &str, value: &str)
    ensures
        pair_texts(final(pairs)@) == pair_texts(old(pairs)@).push((name@, value@)),
{
    pairs.push(pair(name, value));
    assert(pair_texts(pairs@) == pair_texts(old(pairs)@).push((name@, value@)));
}

/// Writes the headers of a request to Stripe.
pub fn stripe_headers(api_key: &str, idempotency_key: Option<&str>, form_body: bool) -> (r: Vec<
    (String, String),
>)
    ensures
        pair_texts(r@) == headers_of(api_key@, opt_str(idempotency_key), form_body),
{
    let mut headers: Vec<(String, String)> = Vec::new();
    let mut bearer = "Bearer ".to_owned();
    bearer.append(api_key);
    push_pair(&mut headers, "Authorization", bearer.as_str());
    push_pair(&mut headers, "Stripe-Version", STRIPE_API_VERSION);
    if form_body {
        push_pair(&mut headers, "Content-Type", "application/x-www-form-urlencoded");
    }
    if let Some(key) = idempotency_key {
        push_pair(&mut headers, "Idempotency-Key", key);
    }
    headers
}

/// Whether a request posts this form to this path, under this key.
pub open spec fn posts(
    request: StripeRequest,
    api_base: Seq<char>,
    api_key: Seq<char>,
    path: Seq<char>,
    body: Seq<char>,
    idempotency_key: Seq<char>,
) -> bool {
    &&& request.method@ == "POST"@
    &&& joined_url(api_base, path) == Some(request.url@)
    &&& pair_texts(request.headers@) == headers_of(api_key, Some(idempotency_key), true)
    &&& request.body@ == body
}

/// Writes a request that posts a form; `None` where base and path do not join.
pub fn stripe_post(
    api_base: &str,
    api_key: &str,
    path: &str,
    body: String,
    idempotency_key: &str,
) -> (r: Option<StripeRequest>)
    ensures
        r is Some == joined_url(api_base@, path@) is Some,
        r is Some ==> posts(r->0, api_base@, api_key@, path@, body@, idempotency_key@),
{
    match join_url(api_base, path) {
        Some(url) => Some(
            StripeRequest {
                method: "POST".to_owned(),
                url,
                headers: stripe_headers(api_key, Some(idempotency_key), true),
                body,
            },
        ),
        None => None,
    }
}

/// Where Stripe keeps a subscription.
pub open spec fn subscription_path(subscription_id: Seq<char>) -> Seq<char> {
    "v1/subscriptions/"@ + subscription_id
}

/// Whether this is the request that fetches a subscription, if the API base takes the path.
pub open spec fn fetches(
    api_base: Seq<char>,
    api_key: Seq<char>,
    subscription_id: Seq<char>,
    sent: Option<StripeRequest>,
) -> bool {
    &&& sent is Some == joined_url(api_base, subscription_path(subscription_id)) is Some
    &&& sent is Some ==> {
        &&& sent->0.method@ == "GET"@
        &&& joined_url(api_base, subscription_path(subscription_id)) == Some(sent->0.url@)
        &&& pair_texts(sent->0.headers@) == headers_of(api_key, None, false)
        &&& sent->0.body@.len() == 0
    }
}

/// Writes the request that fetches a subscription; `None` where base and path do not join.
pub fn fetch_request(api_base: &str, api_key: &str, subscription_id: &str) -> (r: Option<
    StripeRequest,
>)
    ensures
        fetches(api_base@, api_key@, subscription_id@, r),
{
    let mut path = "v1/subscriptions/".to_owned();
    path.append(subscription_id);
    match join_url(api_base, path.as_str()) {
        Some(url) => Some(
            StripeRequest {
                method: "GET".to_owned(),
                url,
                headers: stripe_headers(api_key, None, false),
                body: String::new(),
            },
        ),
        None => None,
    }
}

/// The fields of a subscription-mode Checkout Session. The metadata stands twice, on the session
/// and on the subscription that it creates.
pub open spec fn checkout_fields(request: CreateCheckoutSessionRequest, price_id: Seq<char>) -> Seq<
    (Seq<char>, Seq<char>),
> {
    seq![
        ("mode"@, "subscription"@),
        ("line_items[0][price]"@, price_id),
        ("line_items[0][quantity]"@, "1"@),
        ("success_url"@, request.success_url@),
        ("cancel_url"@, request.cancel_url@),
        ("client_reference_id"@, request.subject@),
        ("metadata[lenso_scope_kind]"@, request.scope_kind@),
        ("metadata[lenso_scope_id]"@, request.scope_id@),
        ("metadata[lenso_subject]"@, request.subject@),
        ("metadata[lenso_price_alias]"@, request.price_alias@),
        ("subscription_data[metadata][lenso_scope_kind]"@, request.scope_kind@),
        ("subscription_data[metadata][lenso_scope_id]"@, request.scope_id@),
        ("subscription_data[metadata][lenso_subject]"@, request.subject@),
        ("subscription_data[metadata][lenso_price_alias]"@, request.price_alias@),
    ]
}

/// Writes the form that creates a Checkout Session.
pub fn checkout_form(request: &CreateCheckoutSessionRequest, price_id: &str) -> (r: String)
    ensures
        r@ == form_text(checkout_fields(*request, price_id@)),
{
    let mut pairs: Vec<(String, String)> = Vec::new();
    push_pair(&mut pairs, "mode", "subscription");
    push_pair(&mut pairs, "line_items[0][price]", price_id);
    push_pair(&mut pairs, "line_items[0][quantity]", "1");
    push_pair(&mut pairs, "success_url", request.success_url.as_str());
    push_pair(&mut pairs, "cancel_url", request.cancel_url.as_str());
    push_pair(&mut pairs, "client_reference_id", request.subject.as_str());
    push_pair(&mut pairs, "metadata[lenso_scope_kind]", request.scope_kind.as_str());
    push_pair(&mut pairs, "metadata[lenso_scope_id]", request.scope_id.as_str());
    push_pair(&mut pairs, "metadata[lenso_subject]", request.subject.as_str());
    push_pair(&mut pairs, "metadata[lenso_price_alias]", request.price_alias.as_str());
    push_pair(
        &mut pairs,
        "subscription_data[metadata][lenso_scope_kind]",
        request.scope_kind.as_str(),
    );
    push_pair(
        &mut pairs,
        "subscription_data[metadata][lenso_scope_id]",
        request.scope_id.as_str(),
    );
    push_pair(
        &mut pairs,
        "subscription_data[metadata][lenso_subject]",
        request.subject.as_str(),
    );
    push_pair(
        &mut pairs,
        "subscription_data[metadata][lenso_price_alias]",
        request.price_alias.as_str(),
    );
    assert(pair_texts(pairs@) == checkout_fields(*request, price_id@));
    encode_form(&pairs)
}

/// The fields of a Customer Portal session.
pub open spec fn portal_fields(customer_id: Seq<char>, return_url: Seq<char>) -> Seq<
    (Seq<char>, Seq<char>),
> {
    seq![("customer"@, customer_id), ("return_url"@, return_url)]
}

/// Writes the form that creates a Customer Portal session.
pub fn portal_form(customer_id: &str, return_url: &str) -> (r: String)
    ensures
        r@ == form_text(portal_fields(customer_id@, return_url@)),
{
    let mut pairs: Vec<(String, String)> = Vec::new();
    push_pair(&mut pairs, "customer", customer_id);
    push_pair(&mut pairs, "return_url", return_url);
    assert(pair_texts(pairs@) == portal_fields(customer_id@, return_url@));
    encode_form(&pairs)
}

/// The fields of a usage event.
pub open spec fn meter_fields(
    quantity: Seq<char>,
    delivery_id: Seq<char>,
    event_name: Seq<char>,
    customer_id: Seq<char>,
    occurred_at: int,
) -> Seq<(Seq<char>, Seq<char>)> {
    seq![
        ("event_name"@, event_name),
        ("payload[stripe_customer_id]"@, customer_id),
        ("payload[value]"@, quantity),
        ("identifier"@, delivery_id),
        ("timestamp"@, decimal_text(occurred_at)),
    ]
}

/// Writes the form that publishes a usage event.
pub fn meter_form(
    quantity: &str,
    delivery_id: &str,
    event_name: &str,
    customer_id: &str,
    occurred_at: i64,
) -> (r: String)
    ensures
        r@ == form_text(
            meter_fields(quantity@, delivery_id@, event_name@, customer_id@, occurred_at as int),
        ),
{
    let mut pairs: Vec<(String, String)> = Vec::new();
    push_pair(&mut pairs, "event_name", event_name);
    push_pair(&mut pairs, "payload[stripe_customer_id]", customer_id);
    push_pair(&mut pairs, "payload[value]", quantity);
    push_pair(&mut pairs, "identifier", delivery_id);
    push_pair(&mut pairs, "timestamp", decimal(occurred_at).as_str());
    assert(pair_texts(pairs@) == meter_fields(
        quantity@,
        delivery_id@,
        event_name@,
        customer_id@,
        occurred_at as int,
    ));
    encode_form(&pairs)
}

/// A session as Stripe answers it.
pub struct StripeSession {
    pub id: String,
    pub url: String,
    pub expires_at: Option<i64>,
}

/// A session that was checked.
pub struct ParsedSession {
    pub id: String,
    pub url: String,
    pub expires_at: Option<String>,
}

/// The prefix of the identifiers of an operation's sessions.
pub open spec fn session_prefix(operation: EffectOperation) -> Seq<char> {
    match operation {
        EffectOperation::Checkout => "cs_"@,
        EffectOperation::Portal => "bps_"@,
    }
}

/// The host of an operation's sessions.
pub open spec fn session_host(operation: EffectOperation) -> Seq<char> {
    match operation {
        EffectOperation::Checkout => "checkout.stripe.com"@,
        EffectOperation::Portal => "billing.stripe.com"@,
    }
}

/// Whether a URL, if there is one, leads to an operation's sessions: over HTTPS, without
/// credentials, at the operation's host.
pub open spec fn leads_to_session(url: Option<UrlModel>, operation: EffectOperation) -> bool {
    match url {
        Some(url) => url.scheme == "https"@ && url.username.len() == 0 && url.password is None
            && url.host == Some(session_host(operation)),
        None => false,
    }
}

/// Whether a text is the URL of one of an operation's sessions.
pub open spec fn is_session_url(text: Seq<char>, operation: EffectOperation) -> bool {
    leads_to_session(parsed_url(text), operation)
}

/// Decides [`leads_to_session`].
pub fn check_session_url(url: &Option<UrlParts>, operation: EffectOperation) -> (r: bool)
    ensures
        r == leads_to_session(opt_url(*url), operation),
{
    let url = match url {
        Some(url) => url,
        None => return false,
    };
    let host = match operation {
        EffectOperation::Checkout => "checkout.stripe.com",
        EffectOperation::Portal => "billing.stripe.com",
    };
    let at_host = match &url.host {
        Some(actual) => same(actual.as_str(), host),
        None => false,
    };
    same(url.scheme.as_str(), "https") && url.username.as_str().is_empty() && url.password.is_none()
        && at_host
}

/// Decides [`is_session_url`].
pub fn valid_session_url(value: &str, operation: EffectOperation) -> (r: bool)
    ensures
        r == is_session_url(value@, operation),
{
    check_session_url(&parse_url(value), operation)
}

/// Decides whether a text is the identifier of an operation's session.
pub fn valid_session_id(value: &str, operation: EffectOperation) -> (r: bool)
    ensures
        r == is_stripe_id(value@, session_prefix(operation)),
{
    match operation {
        EffectOperation::Checkout => valid_stripe_id(value, "cs_"),
        EffectOperation::Portal => valid_stripe_id(value, "bps_"),
    }
}

/// The written expiry of a session; `None` where Stripe gives none or one that has no written
/// form.
pub open spec fn expiry_text(expires_at: Option<i64>) -> Option<Seq<char>> {
    match expires_at {
        Some(seconds) => match unix_instant(seconds as int) {
            Some(instant) => match rfc3339_text(instant) {
                Ok(text) => Some(text),
                Err(_) => None,
            },
            None => None,
        },
        None => None,
    }
}

fn write_expiry(expires_at: Option<i64>) -> (r: Option<String>)
    ensures
        opt_text(r) == expiry_text(expires_at),
{
    match expires_at {
        Some(seconds) => match from_unix_timestamp(seconds) {
            Some(instant) => match format_rfc3339(&instant) {
                Ok(text) => Some(text),
                Err(_) => None,
            },
            None => None,
        },
        None => None,
    }
}

/// Whether a session is one of the operation: its identifier and its URL are.
pub open spec fn is_session(session: StripeSession, operation: EffectOperation) -> bool {
    is_stripe_id(session.id@, session_prefix(operation)) && is_session_url(session.url@, operation)
}

/// Checks a session, if the answer held one.
pub fn parse_session(session: Option<StripeSession>, operation: EffectOperation) -> (r: Option<
    ParsedSession,
>)
    ensures
        r is Some == (session is Some && is_session(session->0, operation)),
        r is Some ==> r->0.id == session->0.id && r->0.url == session->0.url && opt_text(
            r->0.expires_at,
        ) == expiry_text(session->0.expires_at),
{
    let session = match session {
        Some(session) => session,
        None => return None,
    };
    if !valid_session_id(session.id.as_str(), operation) || !valid_session_url(
        session.url.as_str(),
        operation,
    ) {
        return None;
    }
    let expires_at = write_expiry(session.expires_at);
    Some(ParsedSession { id: session.id, url: session.url, expires_at })
}

/// A subscription as Stripe answers it.
pub struct StripeSubscriptionWire {
    pub id: String,
    pub customer: String,
    pub status: String,
    pub cancel_at_period_end: bool,
    pub current_period_end: Option<i64>,
    pub items: Vec<StripeItem>,
}

/// An item of a subscription as Stripe answers it.
pub struct StripeItem {
    pub price_id: String,
    pub current_period_end: Option<i64>,
}

/// The current state of a subscription.
pub struct CanonicalSubscription {
    pub subscription_id: String,
    pub customer_id: String,
    pub status: String,
    pub cancel_at_period_end: bool,
    pub current_period_end: Option<Instant>,
    pub price_id: String,
}

/// Whether a status is one of those that the projection knows.
pub open spec fn is_known_status(text: Seq<char>) -> bool {
    ||| text == "incomplete"@
    ||| text == "incomplete_expired"@
    ||| text == "trialing"@
    ||| text == "active"@
    ||| text == "past_due"@
    ||| text == "canceled"@
    ||| text == "unpaid"@
    ||| text == "paused"@
}

/// The projected form of a status.
pub open spec fn canonical_status(text: Seq<char>) -> Seq<char> {
    if is_known_status(text) {
        text
    } else {
        "unknown"@
    }
}

fn known_status(value: &str) -> (r: bool)
    ensures
        r == is_known_status(value@),
{
    same(value, "incomplete") || same(value, "incomplete_expired") || same(value, "trialing")
        || same(value, "active") || same(value, "past_due") || same(value, "canceled") || same(
        value,
        "unpaid",
    ) || same(value, "paused")
}

/// Whether a subscription can be projected: known kinds of identifiers, and exactly one price.
pub open spec fn is_subscription(wire: StripeSubscriptionWire) -> bool {
    &&& is_stripe_id(wire.id@, "sub_"@)
    &&& is_stripe_id(wire.customer@, "cus_"@)
    &&& wire.items@.len() == 1
    &&& is_stripe_id(wire.items@[0].price_id@, "price_"@)
}

/// The end of the current period, of the subscription or else of its item.
pub open spec fn period_end(wire: StripeSubscriptionWire) -> Option<Instant> {
    match wire.current_period_end {
        Some(seconds) => unix_instant(seconds as int),
        None => match wire.items@[0].current_period_end {
            Some(seconds) => unix_instant(seconds as int),
            None => None,
        },
    }
}

/// Whether `canonical` is the projected form of a subscription.
pub open spec fn projects(wire: StripeSubscriptionWire, canonical: CanonicalSubscription) -> bool {
    &&& canonical.subscription_id == wire.id
    &&& canonical.customer_id == wire.customer
    &&& canonical.status@ == canonical_status(wire.status@)
    &&& canonical.cancel_at_period_end == wire.cancel_at_period_end
    &&& canonical.current_period_end == period_end(wire)
    &&& canonical.price_id == wire.items@[0].price_id
}

/// Reads the current state of a subscription from an answer of this size, if it held one.
pub fn parse_canonical_subscription(body_bytes: usize, wire: Option<StripeSubscriptionWire>) -> (r:
    Option<CanonicalSubscription>)
    ensures
        r is Some == (body_bytes <= MAX_STRIPE_RESPONSE_BYTES && wire is Some && is_subscription(
            wire->0,
        )),
        r is Some ==> projects(wire->0, r->0),
{
    if body_bytes > MAX_STRIPE_RESPONSE_BYTES {
        return None;
    }
    let wire = match wire {
        Some(wire) => wire,
        None => return None,
    };
    if !valid_stripe_id(wire.id.as_str(), "sub_") || !valid_stripe_id(wire.customer.as_str(), "cus_")
        || wire.items.len() != 1 || !valid_stripe_id(wire.items[0].price_id.as_str(), "price_") {
        return None;
    }
    let status = if known_status(wire.status.as_str()) {
        wire.status
    } else {
        "unknown".to_owned()
    };
    let seconds = match wire.current_period_end {
        Some(seconds) => Some(seconds),
        None => wire.items[0].current_period_end,
    };
    let current_period_end = match seconds {
        Some(seconds) => from_unix_timestamp(seconds),
        None => None,
    };
    Some(
        CanonicalSubscription {
            subscription_id: wire.id,
            customer_id: wire.customer,
            status,
            cancel_at_period_end: wire.cancel_at_period_end,
            current_period_end,
            price_id: wire.items[0].price_id.clone(),
        },
    )
}

/// Every Checkout Session is asked for in subscription mode, for one unit of the given price, and
/// carries the subject's identifiers and the price alias, and nothing else, as metadata.
pub proof fn law_checkout_is_a_subscription(
    request: CreateCheckoutSessionRequest,
    price_id: Seq<char>,
)
    ensures
        checkout_fields(request, price_id).contains(("mode"@, "subscription"@)),
        checkout_fields(request, price_id).contains(("line_items[0][price]"@, price_id)),
        checkout_fields(request, price_id).contains(("line_items[0][quantity]"@, "1"@)),
        forall|i: int|
            6 <= i < 14 ==> {
                let value = (#[trigger] checkout_fields(request, price_id)[i]).1;
                value == request.scope_kind@ || value == request.scope_id@ || value
                    == request.subject@ || value == request.price_alias@
            },
        checkout_fields(request, price_id).len() == 14,
        forall|i: int|
            0 <= i < 4 ==> (#[trigger] checkout_fields(request, price_id)[6 + i]).1
                == checkout_fields(request, price_id)[10 + i].1,
{
    let fields = checkout_fields(request, price_id);
    assert(fields[0] == ("mode"@, "subscription"@));
    assert(fields[1] == ("line_items[0][price]"@, price_id));
    assert(fields[2] == ("line_items[0][quantity]"@, "1"@));
}

/// A missing, oversized or ambiguous answer is never taken for an outcome: only a success within
/// the size limit is a success, and only a final refusal is a failure.
pub proof fn law_ambiguous_answers_stay_unknown(reply: Option<HttpReply>)
    ensures
        reply is None ==> classified(reply) is None,
        reply is Some && !(200 <= reply->0.status < 300) && !(400 <= reply->0.status < 500)
            ==> classified(reply) is None,
        reply is Some && reply->0.body@.len() > MAX_STRIPE_RESPONSE_BYTES ==> !(classified(
            reply,
        ) matches Some(ClassifiedResponse::Success(_))),
        reply is Some && (reply->0.status == 408 || reply->0.status == 409 || reply->0.status == 425
            || reply->0.status == 429) ==> classified(reply) is None,
{
}

/// An answer is a success exactly where its status is 200 to 299 and its body takes at most a
/// mebibyte, with the body as it came; a refusal for good exactly where its status is 400 to 499
/// but none of 408, 409, 425 and 429; and otherwise it leaves the outcome open.
pub proof fn law_answers_mean_what_their_status_says(reply: HttpReply)
    ensures
        (200 <= reply.status <= 299 && reply.body@.len() <= 1024 * 1024) == (classified(Some(reply))
            matches Some(ClassifiedResponse::Success(_))),
        classified(Some(reply)) matches Some(ClassifiedResponse::Success(body)) ==> body
            == reply.body,
        (400 <= reply.status <= 499 && !set![408int, 409int, 425int, 429int].contains(
            reply.status as int,
        )) == (classified(Some(reply)) == Some(ClassifiedResponse::KnownFailure)),
        classified(None) is None,
        is_success(reply.status as int) == (200 <= reply.status <= 299),
{
}

/// Every request names the API key and the API version; a form says that it is one, and a request
/// under a key carries the key, once and unchanged.
pub proof fn law_requests_carry_their_headers(
    api_key: Seq<char>,
    idempotency_key: Option<Seq<char>>,
    form_body: bool,
)
    ensures
        ({
            let headers = headers_of(api_key, idempotency_key, form_body);
            &&& headers.contains(("Authorization"@, "Bearer "@ + api_key))
            &&& headers.contains(("Stripe-Version"@, "2026-02-25.clover"@))
            &&& form_body ==> headers.contains(
                ("Content-Type"@, "application/x-www-form-urlencoded"@),
            )
            &&& idempotency_key is Some ==> headers.contains(
                ("Idempotency-Key"@, idempotency_key->0),
            )
            &&& headers.len() == 2 + (if form_body {
                1int
            } else {
                0int
            }) + (if idempotency_key is Some {
                1int
            } else {
                0int
            })
        }),
{
    let headers = headers_of(api_key, idempotency_key, form_body);
    assert(headers[0] == ("Authorization"@, "Bearer "@ + api_key));
    assert(headers[1] == ("Stripe-Version"@, "2026-02-25.clover"@));
    if form_body {
        assert(headers[2] == ("Content-Type"@, "application/x-www-form-urlencoded"@));
    }
    if idempotency_key is Some {
        assert(headers[headers.len() - 1] == ("Idempotency-Key"@, idempotency_key->0));
    }
}

/// A posted form goes to its path below the API base, by `POST`, unchanged, and under its key.
pub proof fn law_posts_go_where_they_are_meant(
    request: StripeRequest,
    api_base: Seq<char>,
    api_key: Seq<char>,
    path: Seq<char>,
    body: Seq<char>,
    idempotency_key: Seq<char>,
)
    requires
        posts(request, api_base, api_key, path, body, idempotency_key),
    ensures
        request.method@ == "POST"@,
        joined_url(api_base, path) == Some(request.url@),
        request.body@ == body,
        pair_texts(request.headers@).contains(("Idempotency-Key"@, idempotency_key)),
        pair_texts(request.headers@).contains(("Authorization"@, "Bearer "@ + api_key)),
        pair_texts(request.headers@).contains(
            ("Content-Type"@, "application/x-www-form-urlencoded"@),
        ),
{
    law_requests_carry_their_headers(api_key, Some(idempotency_key), true);
}

/// The form of a Checkout Session names the two redirects, the subject as reference, and each of
/// the subject's identifiers and the price alias under its own name, on the session and again on
/// the subscription that it creates: under the names by which a completed checkout is read.
pub proof fn law_checkout_forms_name_the_subject(
    request: CreateCheckoutSessionRequest,
    price_id: Seq<char>,
)
    ensures
        ({
            let fields = checkout_fields(request, price_id);
            &&& fields.contains(("success_url"@, request.success_url@))
            &&& fields.contains(("cancel_url"@, request.cancel_url@))
            &&& fields.contains(("client_reference_id"@, request.subject@))
            &&& fields.contains(("metadata[lenso_scope_kind]"@, request.scope_kind@))
            &&& fields.contains(("metadata[lenso_scope_id]"@, request.scope_id@))
            &&& fields.contains(("metadata[lenso_subject]"@, request.subject@))
            &&& fields.contains(("metadata[lenso_price_alias]"@, request.price_alias@))
            &&& fields.contains(
                ("subscription_data[metadata][lenso_scope_kind]"@, request.scope_kind@),
            )
            &&& fields.contains(("subscription_data[metadata][lenso_scope_id]"@, request.scope_id@))
            &&& fields.contains(("subscription_data[metadata][lenso_subject]"@, request.subject@))
            &&& fields.contains(
                ("subscription_data[metadata][lenso_price_alias]"@, request.price_alias@),
            )
            &&& fields.len() == 14
        }),
{
    let fields = checkout_fields(request, price_id);
    assert(fields[3] == ("success_url"@, request.success_url@));
    assert(fields[4] == ("cancel_url"@, request.cancel_url@));
    assert(fields[5] == ("client_reference_id"@, request.subject@));
    assert(fields[6] == ("metadata[lenso_scope_kind]"@, request.scope_kind@));
    assert(fields[7] == ("metadata[lenso_scope_id]"@, request.scope_id@));
    assert(fields[8] == ("metadata[lenso_subject]"@, request.subject@));
    assert(fields[9] == ("metadata[lenso_price_alias]"@, request.price_alias@));
    assert(fields[10] == ("subscription_data[metadata][lenso_scope_kind]"@, request.scope_kind@));
    assert(fields[11] == ("subscription_data[metadata][lenso_scope_id]"@, request.scope_id@));
    assert(fields[12] == ("subscription_data[metadata][lenso_subject]"@, request.subject@));
    assert(fields[13] == ("subscription_data[metadata][lenso_price_alias]"@, request.price_alias@));
}

/// The form of a Portal session names the customer and where to return; that of a usage event the
/// event, the customer, the quantity, the delivery as identifier and the time in decimal.
pub proof fn law_other_forms_name_the_customer(
    customer_id: Seq<char>,
    return_url: Seq<char>,
    quantity: Seq<char>,
    delivery_id: Seq<char>,
    event_name: Seq<char>,
    occurred_at: int,
)
    ensures
        ({
            let fields = portal_fields(customer_id, return_url);
            &&& fields.contains(("customer"@, customer_id))
            &&& fields.contains(("return_url"@, return_url))
            &&& fields.len() == 2
        }),
        ({
            let fields = meter_fields(quantity, delivery_id, event_name, customer_id, occurred_at);
            &&& fields.contains(("event_name"@, event_name))
            &&& fields.contains(("payload[stripe_customer_id]"@, customer_id))
            &&& fields.contains(("payload[value]"@, quantity))
            &&& fields.contains(("identifier"@, delivery_id))
            &&& fields.contains(("timestamp"@, decimal_text(occurred_at)))
            &&& fields.len() == 5
        }),
{
    let portal = portal_fields(customer_id, return_url);
    assert(portal[0] == ("customer"@, customer_id));
    assert(portal[1] == ("return_url"@, return_url));
    let meter = meter_fields(quantity, delivery_id, event_name, customer_id, occurred_at);
    assert(meter[0] == ("event_name"@, event_name));
    assert(meter[1] == ("payload[stripe_customer_id]"@, customer_id));
    assert(meter[2] == ("payload[value]"@, quantity));
    assert(meter[3] == ("identifier"@, delivery_id));
    assert(meter[4] == ("timestamp"@, decimal_text(occurred_at)));
}

/// A session of Stripe's is known by its identifier, `cs_` for a checkout and `bps_` for the
/// portal, and by a URL over HTTPS without credentials at Stripe's own host, one for each.
pub proof fn law_sessions_are_stripes_own(session: StripeSession, operation: EffectOperation)
    ensures
        is_session(session, operation) == {
            &&& parsed_url(session.url@) is Some
            &&& parsed_url(session.url@)->0.scheme == "https"@
            &&& parsed_url(session.url@)->0.username.len() == 0
            &&& parsed_url(session.url@)->0.password is None
            &&& parsed_url(session.url@)->0.host == Some(
                if operation == EffectOperation::Checkout {
                    "checkout.stripe.com"@
                } else {
                    "billing.stripe.com"@
                },
            )
            &&& is_stripe_id(
                session.id@,
                if operation == EffectOperation::Checkout {
                    "cs_"@
                } else {
                    "bps_"@
                },
            )
        },
{
}

/// The written expiry of a session is that of the second that Stripe gives.
pub proof fn law_expiries_are_written_to_the_second(seconds: i64)
    ensures
        expiry_text(None) is None,
        -377705116800 <= seconds <= 253402300799 ==> {
            let written = rfc3339_text(Instant { unix_seconds: seconds, nanosecond: 0 });
            &&& written is Ok ==> expiry_text(Some(seconds)) == Some(written->Ok_0)
            &&& written is Err ==> expiry_text(Some(seconds)) is None
        },
        !(-377705116800 <= seconds <= 253402300799) ==> expiry_text(Some(seconds)) is None,
{
}

/// A subscription is projected as Stripe answers it: its identifiers, its price and whether it
/// ends with the period stand as they are, a status that the projection does not know stands as
/// `unknown`, and the period ends as the subscription says or, where it does not, its item.
pub proof fn law_subscriptions_are_projected_as_answered(
    wire: StripeSubscriptionWire,
    canonical: CanonicalSubscription,
)
    requires
        projects(wire, canonical),
    ensures
        canonical.subscription_id == wire.id,
        canonical.customer_id == wire.customer,
        canonical.price_id == wire.items@[0].price_id,
        canonical.cancel_at_period_end == wire.cancel_at_period_end,
        canonical.status@ == wire.status@ || canonical.status@ == "unknown"@,
        wire.status@ == "active"@ || wire.status@ == "trialing"@ || wire.status@ == "past_due"@
            || wire.status@ == "canceled"@ || wire.status@ == "unpaid"@ || wire.status@ == "paused"@
            || wire.status@ == "incomplete"@ || wire.status@ == "incomplete_expired"@
            ==> canonical.status@ == wire.status@,
        canonical.status@ == "active"@ ==> wire.status@ == "active"@,
        canonical.status@ == "trialing"@ ==> wire.status@ == "trialing"@,
        ({
            let end = if wire.current_period_end is Some {
                wire.current_period_end
            } else {
                wire.items@[0].current_period_end
            };
            match canonical.current_period_end {
                Some(instant) => end == Some(instant.unix_seconds) && instant.nanosecond == 0,
                None => end is Some ==> !(-377705116800 <= end->0 <= 253402300799),
            }
        }),
{
    reveal_strlit("unknown");
    reveal_strlit("active");
    reveal_strlit("trialing");
    assert("unknown"@.len() == 7 && "active"@.len() == 6 && "trialing"@.len() == 8);
}

/// A subscription that can be projected has one item, and identifiers of the right kinds.
pub proof fn law_subscriptions_have_one_price(wire: StripeSubscriptionWire)
    ensures
        is_subscription(wire) == (wire.items@.len() == 1 && is_stripe_id(wire.id@, "sub_"@)
            && is_stripe_id(wire.customer@, "cus_"@) && is_stripe_id(
            wire.items@[0].price_id@,
            "price_"@,
        )),
{
}

/// A subscription is fetched by its own identifier below Stripe's path for subscriptions, with the
/// API key, without a body and without an idempotency key.
pub proof fn law_subscriptions_are_fetched_by_identifier(
    api_base: Seq<char>,
    api_key: Seq<char>,
    subscription_id: Seq<char>,
    sent: Option<StripeRequest>,
)
    requires
        fetches(api_base, api_key, subscription_id, sent),
    ensures
        sent is Some == joined_url(api_base, "v1/subscriptions/"@ + subscription_id) is Some,
        sent is Some ==> {
            &&& sent->0.method@ == "GET"@
            &&& Some(sent->0.url@) == joined_url(api_base, "v1/subscriptions/"@ + subscription_id)
            &&& pair_texts(sent->0.headers@).contains(("Authorization"@, "Bearer "@ + api_key))
            &&& sent->0.headers@.len() == 2
            &&& sent->0.body@.len() == 0
        },
{
    law_requests_carry_their_headers(api_key, None, false);
    if sent is Some {
        assert(pair_texts(sent->0.headers@).len() == sent->0.headers@.len());
    }
}

} // verus!
