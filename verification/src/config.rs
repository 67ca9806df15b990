//! The immutable policy of one instance: authority, Stripe endpoint and product mapping.

use vstd::prelude::*;

use crate::clock::result_text;
use crate::schema::{check_schema_name, schema_name_error, valid_schema_name};
use crate::text::{
    chars_of, code_point, integer_text, is_alphanumeric, law_splitting_is_at_separators, opt_str,
    opt_text, parse_i64, same, split, split_text, starts_with, texts,
};
use crate::web::{
    https_origin, opt_url, origin_text, parse_url, parsed_url, UrlModel, UrlParts,
};

verus! {

/// The Stripe API version that every request names.
pub const STRIPE_API_VERSION: &'static str = "2026-02-25.clover";

/// One configured Stripe Price and the product facts it grants.
#[derive(Clone, Debug, PartialEq, Eq)]
pub struct PriceMapping {
    pub alias: String,
    pub price_id: String,
    pub entitlements: Vec<EntitlementMapping>,
}

/// One Entitlements feature projection for a paid Price.
#[derive(Clone, Debug, PartialEq, Eq)]
pub struct EntitlementMapping {
    pub feature: String,
    pub limit: Option<String>,
}

/// Immutable authority, Stripe endpoint, and product mapping for one Instance.
#[derive(Clone, Debug, PartialEq, Eq)]
pub struct StripeSubscriptionConfig {
    pub schema: String,
    pub database_url_secret: String,
    pub stripe_api_key_secret: String,
    pub webhook_signing_secret: String,
    pub receipt_encryption_secret: String,
    pub api_base_url: String,
    pub livemode: bool,
    pub signature_tolerance_seconds: i64,
    pub max_webhook_body_bytes: usize,
    pub reconciliation_lease_seconds: i64,
    pub redirect_origins: Vec<String>,
    pub prices: Vec<PriceMapping>,
    pub product_instances: Vec<String>,
    pub webhook_instances: Vec<String>,
    pub worker_instances: Vec<String>,
    pub operator_instances: Vec<String>,
}

/// The texts of an [`EntitlementMapping`].
pub struct EntitlementModel {
    pub feature: Seq<char>,
    pub limit: Option<Seq<char>>,
}

/// The texts of a [`PriceMapping`].
pub struct PriceModel {
    pub alias: Seq<char>,
    pub price_id: Seq<char>,
    pub entitlements: Seq<EntitlementModel>,
}

/// The texts and numbers of a [`StripeSubscriptionConfig`].
pub struct ConfigModel {
    pub schema: Seq<char>,
    pub database_url_secret: Seq<char>,
    pub stripe_api_key_secret: Seq<char>,
    pub webhook_signing_secret: Seq<char>,
    pub receipt_encryption_secret: Seq<char>,
    pub api_base_url: Seq<char>,
    pub livemode: bool,
    pub signature_tolerance_seconds: int,
    pub max_webhook_body_bytes: int,
    pub reconciliation_lease_seconds: int,
    pub redirect_origins: Seq<Seq<char>>,
    pub prices: Seq<PriceModel>,
    pub product_instances: Seq<Seq<char>>,
    pub webhook_instances: Seq<Seq<char>>,
    pub worker_instances: Seq<Seq<char>>,
    pub operator_instances: Seq<Seq<char>>,
}

impl View for EntitlementMapping {
    type V = EntitlementModel;

    open spec fn view(&self) -> EntitlementModel {
        EntitlementModel { feature: self.feature@, limit: opt_text(self.limit) }
    }
}

impl View for PriceMapping {
    type V = PriceModel;

    open spec fn view(&self) -> PriceModel {
        PriceModel {
            alias: self.alias@,
            price_id: self.price_id@,
            entitlements: self.entitlements@.map_values(|entry: EntitlementMapping| entry@),
        }
    }
}

/// The models of a list of prices.
pub open spec fn price_models(prices: Seq<PriceMapping>) -> Seq<PriceModel> {
    prices.map_values(|price: PriceMapping| price@)
}

impl View for StripeSubscriptionConfig {
    type V = ConfigModel;

    open spec fn view(&self) -> ConfigModel {
        ConfigModel {
            schema: self.schema@,
            database_url_secret: self.database_url_secret@,
            stripe_api_key_secret: self.stripe_api_key_secret@,
            webhook_signing_secret: self.webhook_signing_secret@,
            receipt_encryption_secret: self.receipt_encryption_secret@,
            api_base_url: self.api_base_url@,
            livemode: self.livemode,
            signature_tolerance_seconds: self.signature_tolerance_seconds as int,
            max_webhook_body_bytes: self.max_webhook_body_bytes as int,
            reconciliation_lease_seconds: self.reconciliation_lease_seconds as int,
            redirect_origins: texts(self.redirect_origins@),
            prices: price_models(self.prices@),
            product_instances: texts(self.product_instances@),
            webhook_instances: texts(self.webhook_instances@),
            worker_instances: texts(self.worker_instances@),
            operator_instances: texts(self.operator_instances@),
        }
    }
}

/// Whether `c` may stand in a name.
pub open spec fn is_name_char(c: char) -> bool {
    is_alphanumeric(c) || c == '.' || c == '_' || c == '-' || c == ':'
}

/// A name: one to 256 letters, digits and `.`, `_`, `-`, `:`.
pub open spec fn is_name(text: Seq<char>) -> bool {
    1 <= text.len() <= 256 && forall|i: int|
        0 <= i < text.len() ==> is_name_char(#[trigger] text[i])
}

/// Whether `c` may stand in a Stripe identifier.
pub open spec fn is_id_char(c: char) -> bool {
    is_alphanumeric(c) || c == '_'
}

/// A Stripe identifier: at most 256 letters, digits and underscores, with the prefix of its kind.
pub open spec fn is_stripe_id(text: Seq<char>, prefix: Seq<char>) -> bool {
    prefix.is_prefix_of(text) && text.len() <= 256 && forall|i: int|
        0 <= i < text.len() ==> is_id_char(#[trigger] text[i])
}

/// Whether `c` may stand in a secret reference.
pub open spec fn is_reference_char(c: char) -> bool {
    is_alphanumeric(c) || c == '.' || c == '_' || c == '-' || c == '/'
}

/// Whether a segment of a secret reference names something.
pub open spec fn is_segment(segment: Seq<char>) -> bool {
    segment.len() > 0 && segment != "."@ && segment != ".."@
}

/// A secret reference: one to 256 letters, digits and `.`, `_`, `-`, whose segments between
/// slashes are neither empty nor `.` nor `..`.
pub open spec fn is_secret_reference(text: Seq<char>) -> bool {
    &&& 1 <= text.len() <= 256
    &&& forall|i: int| 0 <= i < text.len() ==> is_reference_char(#[trigger] text[i])
    &&& forall|i: int|
        0 <= i < split_text(text, '/').len() ==> is_segment(#[trigger] split_text(text, '/')[i])
}

fn alphanumeric(code: u32) -> (r: bool)
    ensures
        r == (48 <= code <= 57 || 65 <= code <= 90 || 97 <= code <= 122),
{
    (48 <= code && code <= 57) || (65 <= code && code <= 90) || (97 <= code && code <= 122)
}

fn name_char(c: char) -> (r: bool)
    ensures
        r == is_name_char(c),
{
    let code: u32 = code_point(c);
    alphanumeric(code) || code == 46 || code == 95 || code == 45 || code == 58
}

fn id_char(c: char) -> (r: bool)
    ensures
        r == is_id_char(c),
{
    let code: u32 = code_point(c);
    alphanumeric(code) || code == 95
}

fn reference_char(c: char) -> (r: bool)
    ensures
        r == is_reference_char(c),
{
    let code: u32 = code_point(c);
    alphanumeric(code) || code == 46 || code == 95 || code == 45 || code == 47
}

/// Decides [`is_name`].
pub fn valid_name(value: &str) -> (r: bool)
    ensures
        r == is_name(value@),
{
    let chars = chars_of(value);
    if chars.len() < 1 || chars.len() > 256 {
        return false;
    }
    let mut i: usize = 0;
    while i < chars.len()
        invariant
            i <= chars@.len(),
            chars@ == value@,
            forall|j: int| 0 <= j < i ==> is_name_char(#[trigger] value@[j]),
        decreases chars@.len() - i,
    {
        if !name_char(chars[i]) {
            assert(!is_name_char(value@[i as int]));
            return false;
        }
        i += 1;
    }
    true
}

/// Decides [`is_stripe_id`].
pub fn valid_stripe_id(value: &str, prefix: &str) -> (r: bool)
    ensures
        r == is_stripe_id(value@, prefix@),
{
    let chars = chars_of(value);
    if !starts_with(value, prefix) || chars.len() > 256 {
        return false;
    }
    let mut i: usize = 0;
    while i < chars.len()
        invariant
            i <= chars@.len(),
            chars@ == value@,
            forall|j: int| 0 <= j < i ==> is_id_char(#[trigger] value@[j]),
        decreases chars@.len() - i,
    {
        if !id_char(chars[i]) {
            assert(!is_id_char(value@[i as int]));
            return false;
        }
        i += 1;
    }
    true
}

/// Decides [`is_secret_reference`].
pub fn valid_secret_reference(value: &str) -> (r: bool)
    ensures
        r == is_secret_reference(value@),
{
    let chars = chars_of(value);
    if chars.len() < 1 || chars.len() > 256 {
        return false;
    }
    let mut i: usize = 0;
    while i < chars.len()
        invariant
            i <= chars@.len(),
            chars@ == value@,
            forall|j: int| 0 <= j < i ==> is_reference_char(#[trigger] value@[j]),
        decreases chars@.len() - i,
    {
        if !reference_char(chars[i]) {
            assert(!is_reference_char(value@[i as int]));
            return false;
        }
        i += 1;
    }
    let segments = split(value, '/');
    let mut k: usize = 0;
    while k < segments.len()
        invariant
            k <= segments@.len(),
            texts(segments@) == split_text(value@, '/'),
            forall|j: int| 0 <= j < k ==> is_segment(#[trigger] split_text(value@, '/')[j]),
        decreases segments@.len() - k,
    {
        let segment = segments[k].as_str();
        assert(split_text(value@, '/')[k as int] == segment@);
        if segment.is_empty() || same(segment, ".") || same(segment, "..") {
            assert(!is_segment(split_text(value@, '/')[k as int]));
            return false;
        }
        k += 1;
    }
    true
}

/// Whether no two texts are equal.
pub open spec fn distinct(values: Seq<Seq<char>>) -> bool {
    forall|i: int, j: int| 0 <= i < j < values.len() ==> #[trigger] values[i] != #[trigger] values[j]
}

/// Decides [`distinct`].
pub fn all_distinct(values: &Vec<&str>) -> (r: bool)
    ensures
        r == distinct(values@.map_values(|value: &str| value@)),
{
    let ghost model = values@.map_values(|value: &str| value@);
    let mut i: usize = 0;
    while i < values.len()
        invariant
            i <= values@.len(),
            model == values@.map_values(|value: &str| value@),
            forall|a: int, b: int|
                0 <= a < b < model.len() && a < i ==> #[trigger] model[a] != #[trigger] model[b],
        decreases values@.len() - i,
    {
        let mut j: usize = i + 1;
        while j < values.len()
            invariant
                i < j <= values@.len(),
                model == values@.map_values(|value: &str| value@),
                forall|b: int| i < b < j ==> model[i as int] != #[trigger] model[b],
            decreases values@.len() - j,
        {
            if same(values[i], values[j]) {
                assert(model[i as int] == model[j as int]);
                return false;
            }
            j += 1;
        }
        i += 1;
    }
    true
}

/// Appends the texts of `values`.
fn push_texts<'a>(out: &mut Vec<&'a str>, values: &'a Vec<String>)
    ensures
        final(out)@.map_values(|value: &str| value@) == old(out)@.map_values(|value: &str| value@)
            + texts(values@),
{
    let ghost before = out@.map_values(|value: &str| value@);
    let mut i: usize = 0;
    assert(before + texts(values@).take(0) == before);
    while i < values.len()
        invariant
            i <= values@.len(),
            out@.map_values(|value: &str| value@) == before + texts(values@).take(i as int),
        decreases values@.len() - i,
    {
        let ghost earlier = out@;
        out.push(values[i].as_str());
        proof {
            assert(out@.map_values(|value: &str| value@) == earlier.map_values(
                |value: &str| value@,
            ).push(values@[i as int]@));
            assert(texts(values@).take(i + 1) == texts(values@).take(i as int).push(
                values@[i as int]@,
            ));
        }
        i += 1;
    }
    assert(texts(values@).take(i as int) == texts(values@));
}

/// The message that refuses a URL, if there is one, as API base; `None` for one HTTPS origin
/// without credentials.
pub open spec fn base_error(url: Option<UrlModel>) -> Option<Seq<char>> {
    match url {
        None => Some("api_base_url is invalid"@),
        Some(url) => if url.scheme != "https"@ || url.host is None || url.username.len() > 0
            || url.password is Some || url.path != "/"@ || url.query is Some || url.fragment is Some {
            Some("api_base_url must be one HTTPS origin without credentials"@)
        } else {
            None
        },
    }
}

/// The message that refuses a text as API base.
pub open spec fn api_base_error(text: Seq<char>) -> Option<Seq<char>> {
    base_error(parsed_url(text))
}

/// Checks that a URL, if there is one, is one HTTPS origin without credentials.
pub fn check_base(url: &Option<UrlParts>) -> (r: Result<(), String>)
    ensures
        error_text(r) == base_error(opt_url(*url)),
{
    let url = match url {
        Some(url) => url,
        None => return Err("api_base_url is invalid".to_owned()),
    };
    if !same(url.scheme.as_str(), "https") || url.host.is_none() || !url.username.as_str().is_empty()
        || url.password.is_some() || !same(url.path.as_str(), "/") || url.query.is_some()
        || url.fragment.is_some() {
        return Err("api_base_url must be one HTTPS origin without credentials".to_owned());
    }
    Ok(())
}

/// Checks that an API base is one HTTPS origin without credentials.
pub fn fixed_api_base(value: &str) -> (r: Result<(), String>)
    ensures
        error_text(r) == api_base_error(value@),
{
    check_base(&parse_url(value))
}

/// The error text of a check.
pub open spec fn error_text(result: Result<(), String>) -> Option<Seq<char>> {
    match result {
        Ok(_) => None,
        Err(text) => Some(text@),
    }
}

/// The message that refuses a URL, if there is one, as redirect; `None` for an HTTPS URL without
/// credentials.
pub open spec fn redirect_error(url: Option<UrlModel>) -> Option<Seq<char>> {
    match url {
        None => Some("redirect URL is invalid"@),
        Some(url) => if url.scheme != "https"@ || url.host is None || url.username.len() > 0
            || url.password is Some {
            Some("redirect URLs must use HTTPS without credentials"@)
        } else {
            None
        },
    }
}

/// The origin of a redirect URL, or the message that refuses it.
pub open spec fn redirect_origin_of(text: Seq<char>) -> Result<Seq<char>, Seq<char>> {
    match redirect_error(parsed_url(text)) {
        Some(message) => Err(message),
        None => Ok(origin_text(text)),
    }
}

/// Checks that a URL, if there is one, is an HTTPS URL without credentials.
pub fn check_redirect(url: &Option<UrlParts>) -> (r: Result<(), String>)
    ensures
        error_text(r) == redirect_error(opt_url(*url)),
{
    let url = match url {
        Some(url) => url,
        None => return Err("redirect URL is invalid".to_owned()),
    };
    if !same(url.scheme.as_str(), "https") || url.host.is_none() || !url.username.as_str().is_empty()
        || url.password.is_some() {
        return Err("redirect URLs must use HTTPS without credentials".to_owned());
    }
    Ok(())
}

/// Finds the origin of a redirect URL, once it is known to be an HTTPS URL without credentials.
pub fn redirect_origin(value: &str) -> (r: Result<String, String>)
    ensures
        result_text(r) == redirect_origin_of(value@),
{
    if let Err(message) = check_redirect(&parse_url(value)) {
        return Err(message);
    }
    match https_origin(value) {
        Some(origin) => Ok(origin),
        None => Err("redirect URL is invalid".to_owned()),
    }
}

/// The message of the first text that has no redirect origin.
pub open spec fn first_origin_error(values: Seq<Seq<char>>) -> Option<Seq<char>>
    decreases values.len(),
{
    if values.len() == 0 {
        None
    } else {
        match redirect_origin_of(values[0]) {
            Err(message) => Some(message),
            Ok(_) => first_origin_error(values.skip(1)),
        }
    }
}

/// The message that refuses a list of redirect origins: one to 64 distinct origins in canonical
/// form.
pub open spec fn origins_error(values: Seq<Seq<char>>) -> Option<Seq<char>> {
    if values.len() == 0 || values.len() > 64 {
        Some("between one and 64 redirect origins are required"@)
    } else if first_origin_error(values) is Some {
        first_origin_error(values)
    } else if exists|i: int|
        0 <= i < values.len() && redirect_origin_of(#[trigger] values[i]) != Ok::<
            Seq<char>,
            Seq<char>,
        >(values[i]) {
        Some("redirect origins must already use their canonical origin form"@)
    } else if !distinct(values) {
        Some("redirect origins contain duplicates"@)
    } else {
        None
    }
}

fn texts_distinct(values: &Vec<String>) -> (r: bool)
    ensures
        r == distinct(texts(values@)),
{
    let mut all: Vec<&str> = Vec::new();
    assert(all@.map_values(|value: &str| value@) == Seq::<Seq<char>>::empty());
    push_texts(&mut all, values);
    assert(all@.map_values(|value: &str| value@) == texts(values@));
    all_distinct(&all)
}

/// Checks a list of redirect origins.
pub fn validate_origins(values: &Vec<String>) -> (r: Result<(), String>)
    ensures
        error_text(r) == origins_error(texts(values@)),
{
    let ghost model = texts(values@);
    if values.len() == 0 || values.len() > 64 {
        return Err("between one and 64 redirect origins are required".to_owned());
    }
    let mut canonical = true;
    let mut i: usize = 0;
    assert(model.skip(0) == model);
    while i < values.len()
        invariant
            i <= values@.len(),
            model == texts(values@),
            1 <= model.len() <= 64,
            first_origin_error(model) == first_origin_error(model.skip(i as int)),
            forall|j: int| 0 <= j < i ==> redirect_origin_of(#[trigger] model[j]) is Ok,
            canonical == forall|j: int|
                0 <= j < i ==> redirect_origin_of(#[trigger] model[j]) == Ok::<Seq<char>, Seq<char>>(
                    model[j],
                ),
        decreases values@.len() - i,
    {
        assert(model.skip(i as int)[0] == model[i as int]);
        assert(model.skip(i as int).skip(1) == model.skip(i + 1));
        assert(model[i as int] == values@[i as int]@);
        match redirect_origin(values[i].as_str()) {
            Ok(origin) => {
                if !same(origin.as_str(), values[i].as_str()) {
                    canonical = false;
                    assert(redirect_origin_of(model[i as int]) != Ok::<Seq<char>, Seq<char>>(
                        model[i as int],
                    ));
                }
            },
            Err(message) => return Err(message),
        }
        i += 1;
    }
    assert(first_origin_error(model.skip(i as int)) is None);
    if !canonical {
        return Err("redirect origins must already use their canonical origin form".to_owned());
    }
    if !texts_distinct(values) {
        return Err("redirect origins contain duplicates".to_owned());
    }
    Ok(())
}

/// Whether a limit is a positive integer.
pub open spec fn is_limit(text: Seq<char>) -> bool {
    integer_text(text) is Some && integer_text(text)->0 > 0
}

/// Whether an entitlement names a feature and, where it has a limit, a positive one.
pub open spec fn is_entitlement(entry: EntitlementModel) -> bool {
    is_name(entry.feature) && (entry.limit is Some ==> is_limit(entry.limit->0))
}

/// The features that a price grants.
pub open spec fn features(price: PriceModel) -> Seq<Seq<char>> {
    price.entitlements.map_values(|entry: EntitlementModel| entry.feature)
}

/// Whether a price mapping can stand: an alias, a Stripe Price and one to 256 entitlements with
/// distinct features.
pub open spec fn is_price(price: PriceModel) -> bool {
    &&& is_name(price.alias)
    &&& is_stripe_id(price.price_id, "price_"@)
    &&& 1 <= price.entitlements.len() <= 256
    &&& forall|i: int|
        0 <= i < price.entitlements.len() ==> is_entitlement(#[trigger] price.entitlements[i])
    &&& distinct(features(price))
}

/// The aliases of a list of prices.
pub open spec fn aliases(prices: Seq<PriceModel>) -> Seq<Seq<char>> {
    prices.map_values(|price: PriceModel| price.alias)
}

/// The Stripe Price identifiers of a list of prices.
pub open spec fn price_ids(prices: Seq<PriceModel>) -> Seq<Seq<char>> {
    prices.map_values(|price: PriceModel| price.price_id)
}

/// The message that refuses a list of prices.
pub open spec fn prices_error(prices: Seq<PriceModel>) -> Option<Seq<char>> {
    if prices.len() == 0 || prices.len() > 256 {
        Some("between one and 256 price mappings are required"@)
    } else if exists|i: int| 0 <= i < prices.len() && !is_price(#[trigger] prices[i]) {
        Some("price and entitlement mappings are invalid"@)
    } else if !distinct(aliases(prices)) || !distinct(price_ids(prices)) {
        Some("price aliases and Stripe Price IDs must be unique"@)
    } else {
        None
    }
}

fn valid_entitlement(entry: &EntitlementMapping) -> (r: bool)
    ensures
        r == is_entitlement(entry@),
{
    if !valid_name(entry.feature.as_str()) {
        return false;
    }
    match &entry.limit {
        None => true,
        Some(limit) => match parse_i64(limit.as_str()) {
            Some(value) => value > 0,
            None => false,
        },
    }
}

fn valid_price(price: &PriceMapping) -> (r: bool)
    ensures
        r == is_price(price@),
{
    let ghost model = price@;
    if !valid_name(price.alias.as_str()) || !valid_stripe_id(price.price_id.as_str(), "price_")
        || price.entitlements.len() == 0 || price.entitlements.len() > 256 {
        return false;
    }
    let mut names: Vec<&str> = Vec::new();
    let mut i: usize = 0;
    while i < price.entitlements.len()
        invariant
            i <= price.entitlements@.len(),
            model == price@,
            names@.map_values(|value: &str| value@) == features(model).take(i as int),
            forall|j: int| 0 <= j < i ==> is_entitlement(#[trigger] model.entitlements[j]),
        decreases price.entitlements@.len() - i,
    {
        assert(model.entitlements[i as int] == price.entitlements@[i as int]@);
        if !valid_entitlement(&price.entitlements[i]) {
            return false;
        }
        let ghost earlier = names@;
        names.push(price.entitlements[i].feature.as_str());
        proof {
            assert(names@.map_values(|value: &str| value@) == earlier.map_values(
                |value: &str| value@,
            ).push(features(model)[i as int]));
            assert(features(model).take(i + 1) == features(model).take(i as int).push(
                features(model)[i as int],
            ));
        }
        i += 1;
    }
    assert(features(model).take(i as int) == features(model));
    all_distinct(&names)
}

/// Checks a list of prices.
pub fn validate_prices(values: &Vec<PriceMapping>) -> (r: Result<(), String>)
    ensures
        error_text(r) == prices_error(price_models(values@)),
{
    let ghost model = price_models(values@);
    if values.len() == 0 || values.len() > 256 {
        return Err("between one and 256 price mappings are required".to_owned());
    }
    let mut names: Vec<&str> = Vec::new();
    let mut ids: Vec<&str> = Vec::new();
    let mut i: usize = 0;
    while i < values.len()
        invariant
            i <= values@.len(),
            1 <= values@.len() <= 256,
            model == price_models(values@),
            names@.map_values(|value: &str| value@) == aliases(model).take(i as int),
            ids@.map_values(|value: &str| value@) == price_ids(model).take(i as int),
            forall|j: int| 0 <= j < i ==> is_price(#[trigger] model[j]),
        decreases values@.len() - i,
    {
        assert(model[i as int] == values@[i as int]@);
        if !valid_price(&values[i]) {
            return Err("price and entitlement mappings are invalid".to_owned());
        }
        let ghost earlier_names = names@;
        let ghost earlier_ids = ids@;
        names.push(values[i].alias.as_str());
        ids.push(values[i].price_id.as_str());
        proof {
            assert(names@.map_values(|value: &str| value@) == earlier_names.map_values(
                |value: &str| value@,
            ).push(aliases(model)[i as int]));
            assert(ids@.map_values(|value: &str| value@) == earlier_ids.map_values(
                |value: &str| value@,
            ).push(price_ids(model)[i as int]));
            assert(aliases(model).take(i + 1) == aliases(model).take(i as int).push(
                aliases(model)[i as int],
            ));
            assert(price_ids(model).take(i + 1) == price_ids(model).take(i as int).push(
                price_ids(model)[i as int],
            ));
        }
        i += 1;
    }
    assert(aliases(model).take(i as int) == aliases(model));
    assert(price_ids(model).take(i as int) == price_ids(model));
    if !all_distinct(&names) || !all_distinct(&ids) {
        return Err("price aliases and Stripe Price IDs must be unique".to_owned());
    }
    Ok(())
}

/// The message that refuses the caller list of a role: at least one name, and no name twice.
pub open spec fn callers_error(values: Seq<Seq<char>>, role: Seq<char>) -> Option<Seq<char>> {
    if values.len() == 0 || exists|i: int| 0 <= i < values.len() && !is_name(#[trigger] values[i]) {
        Some("at least one valid "@ + role + " caller is required"@)
    } else if !distinct(values) {
        Some(role + " caller list contains duplicates"@)
    } else {
        None
    }
}

fn callers_required(role: &str) -> (r: String)
    ensures
        r@ == "at least one valid "@ + role@ + " caller is required"@,
{
    let mut message = "at least one valid ".to_owned();
    message.append(role);
    message.append(" caller is required");
    message
}

/// Checks the caller list of a role.
pub fn validate_callers(values: &Vec<String>, role: &str) -> (r: Result<(), String>)
    ensures
        error_text(r) == callers_error(texts(values@), role@),
{
    let ghost model = texts(values@);
    if values.len() == 0 {
        return Err(callers_required(role));
    }
    let mut i: usize = 0;
    while i < values.len()
        invariant
            i <= values@.len(),
            1 <= values@.len(),
            model == texts(values@),
            forall|j: int| 0 <= j < i ==> is_name(#[trigger] model[j]),
        decreases values@.len() - i,
    {
        assert(model[i as int] == values@[i as int]@);
        if !valid_name(values[i].as_str()) {
            return Err(callers_required(role));
        }
        i += 1;
    }
    if !texts_distinct(values) {
        let mut message = role.to_owned();
        message.append(" caller list contains duplicates");
        return Err(message);
    }
    Ok(())
}

/// Whether a caller is on a list.
pub open spec fn listed(values: Seq<Seq<char>>, caller: Option<Seq<char>>) -> bool {
    caller is Some && values.contains(caller->0)
}

/// Decides [`listed`].
pub fn allowed(values: &Vec<String>, caller: Option<&str>) -> (r: bool)
    ensures
        r == listed(texts(values@), opt_str(caller)),
{
    let name = match caller {
        Some(name) => name,
        None => return false,
    };
    let mut i: usize = 0;
    while i < values.len()
        invariant
            i <= values@.len(),
            caller == Some(name),
            forall|j: int| 0 <= j < i ==> #[trigger] texts(values@)[j] != name@,
        decreases values@.len() - i,
    {
        assert(texts(values@)[i as int] == values@[i as int]@);
        if same(values[i].as_str(), name) {
            assert(texts(values@).contains(name@));
            return true;
        }
        i += 1;
    }
    false
}

/// The secret references of a policy.
pub open spec fn secrets(config: ConfigModel) -> Seq<Seq<char>> {
    seq![
        config.database_url_secret,
        config.stripe_api_key_secret,
        config.webhook_signing_secret,
        config.receipt_encryption_secret,
    ]
}

/// The callers of all roles.
pub open spec fn all_callers(config: ConfigModel) -> Seq<Seq<char>> {
    config.product_instances + config.webhook_instances + config.worker_instances
        + config.operator_instances
}

/// The message that refuses a policy: the first rule that it breaks.
pub open spec fn config_error(config: ConfigModel) -> Option<Seq<char>> {
    if !valid_schema_name(config.schema) {
        Some("invalid owned PostgreSQL schema: "@ + schema_name_error(config.schema))
    } else if (exists|i: int|
        0 <= i < secrets(config).len() && !is_secret_reference(#[trigger] secrets(config)[i]))
        || !distinct(secrets(config)) {
        Some("all four secret references must be valid and distinct"@)
    } else if api_base_error(config.api_base_url) is Some {
        api_base_error(config.api_base_url)
    } else if !(60 <= config.signature_tolerance_seconds <= 900) {
        Some("signature_tolerance_seconds must be between 60 and 900"@)
    } else if !(1024 <= config.max_webhook_body_bytes <= 1048576) {
        Some("max_webhook_body_bytes must be between 1024 and 1048576"@)
    } else if !(5 <= config.reconciliation_lease_seconds <= 3600) {
        Some("reconciliation_lease_seconds must be between 5 and 3600"@)
    } else if origins_error(config.redirect_origins) is Some {
        origins_error(config.redirect_origins)
    } else if prices_error(config.prices) is Some {
        prices_error(config.prices)
    } else if callers_error(config.product_instances, "product"@) is Some {
        callers_error(config.product_instances, "product"@)
    } else if callers_error(config.webhook_instances, "webhook"@) is Some {
        callers_error(config.webhook_instances, "webhook"@)
    } else if callers_error(config.worker_instances, "worker"@) is Some {
        callers_error(config.worker_instances, "worker"@)
    } else if callers_error(config.operator_instances, "operator"@) is Some {
        callers_error(config.operator_instances, "operator"@)
    } else if !distinct(all_callers(config)) {
        Some("caller role lists must be pairwise disjoint"@)
    } else {
        None
    }
}

/// Whether a policy breaks no rule.
pub open spec fn valid_config(config: ConfigModel) -> bool {
    config_error(config) is None
}

/// The first price with this alias.
pub open spec fn price_with_alias(prices: Seq<PriceMapping>, alias: Seq<char>) -> Option<PriceMapping>
    decreases prices.len(),
{
    if prices.len() == 0 {
        None
    } else if prices[0].alias@ == alias {
        Some(prices[0])
    } else {
        price_with_alias(prices.skip(1), alias)
    }
}

/// The first price with this Stripe Price identifier.
pub open spec fn price_with_id(prices: Seq<PriceMapping>, price_id: Seq<char>) -> Option<PriceMapping>
    decreases prices.len(),
{
    if prices.len() == 0 {
        None
    } else if prices[0].price_id@ == price_id {
        Some(prices[0])
    } else {
        price_with_id(prices.skip(1), price_id)
    }
}

/// Whether a URL may be redirected to: its origin is one of the configured ones.
pub open spec fn redirects(config: ConfigModel, url: Seq<char>) -> bool {
    match redirect_origin_of(url) {
        Ok(origin) => config.redirect_origins.contains(origin),
        Err(_) => false,
    }
}

impl StripeSubscriptionConfig {
    /// Makes a policy; refuses one that breaks a rule, with the message of the first.
    #[allow(clippy::too_many_arguments)]
    pub fn new(
        schema: &str,
        database_url_secret: &str,
        stripe_api_key_secret: &str,
        webhook_signing_secret: &str,
        receipt_encryption_secret: &str,
        api_base_url: &str,
        livemode: bool,
        signature_tolerance_seconds: i64,
        max_webhook_body_bytes: usize,
        reconciliation_lease_seconds: i64,
        redirect_origins: Vec<String>,
        prices: Vec<PriceMapping>,
        product_instances: Vec<String>,
        webhook_instances: Vec<String>,
        worker_instances: Vec<String>,
        operator_instances: Vec<String>,
    ) -> (r: Result<Self, String>)
        ensures
            ({
                let wanted = ConfigModel {
                    schema: schema@,
                    database_url_secret: database_url_secret@,
                    stripe_api_key_secret: stripe_api_key_secret@,
                    webhook_signing_secret: webhook_signing_secret@,
                    receipt_encryption_secret: receipt_encryption_secret@,
                    api_base_url: api_base_url@,
                    livemode,
                    signature_tolerance_seconds: signature_tolerance_seconds as int,
                    max_webhook_body_bytes: max_webhook_body_bytes as int,
                    reconciliation_lease_seconds: reconciliation_lease_seconds as int,
                    redirect_origins: texts(redirect_origins@),
                    prices: price_models(prices@),
                    product_instances: texts(product_instances@),
                    webhook_instances: texts(webhook_instances@),
                    worker_instances: texts(worker_instances@),
                    operator_instances: texts(operator_instances@),
                };
                match config_error(wanted) {
                    None => r is Ok && r->Ok_0@ == wanted,
                    Some(message) => r is Err && r->Err_0@ == message,
                }
            }),
    {
        let config = Self {
            schema: schema.to_owned(),
            database_url_secret: database_url_secret.to_owned(),
            stripe_api_key_secret: stripe_api_key_secret.to_owned(),
            webhook_signing_secret: webhook_signing_secret.to_owned(),
            receipt_encryption_secret: receipt_encryption_secret.to_owned(),
            api_base_url: api_base_url.to_owned(),
            livemode,
            signature_tolerance_seconds,
            max_webhook_body_bytes,
            reconciliation_lease_seconds,
            redirect_origins,
            prices,
            product_instances,
            webhook_instances,
            worker_instances,
            operator_instances,
        };
        match config.validate() {
            Ok(_) => Ok(config),
            Err(message) => Err(message),
        }
    }

    fn secrets_valid(&self) -> (r: bool)
        ensures
            r == ((forall|i: int|
                0 <= i < secrets(self@).len() ==> is_secret_reference(#[trigger] secrets(self@)[i]))
                && distinct(secrets(self@))),
    {
        let mut references: Vec<&str> = Vec::new();
        references.push(self.database_url_secret.as_str());
        references.push(self.stripe_api_key_secret.as_str());
        references.push(self.webhook_signing_secret.as_str());
        references.push(self.receipt_encryption_secret.as_str());
        assert(references@.map_values(|value: &str| value@) == secrets(self@));
        let mut i: usize = 0;
        while i < references.len()
            invariant
                i <= references@.len(),
                references@.map_values(|value: &str| value@) == secrets(self@),
                forall|j: int| 0 <= j < i ==> is_secret_reference(#[trigger] secrets(self@)[j]),
            decreases references@.len() - i,
        {
            assert(secrets(self@)[i as int] == references@[i as int]@);
            if !valid_secret_reference(references[i]) {
                assert(!is_secret_reference(secrets(self@)[i as int]));
                return false;
            }
            i += 1;
        }
        all_distinct(&references)
    }

    fn callers_distinct(&self) -> (r: bool)
        ensures
            r == distinct(all_callers(self@)),
    {
        let mut callers: Vec<&str> = Vec::new();
        push_texts(&mut callers, &self.product_instances);
        push_texts(&mut callers, &self.webhook_instances);
        push_texts(&mut callers, &self.worker_instances);
        push_texts(&mut callers, &self.operator_instances);
        assert(callers@.map_values(|value: &str| value@) == all_callers(self@));
        all_distinct(&callers)
    }

    /// Checks a policy, rule by rule.
    pub fn validate(&self) -> (r: Result<(), String>)
        ensures
            error_text(r) == config_error(self@),
    {
        if let Err(error) = check_schema_name(self.schema.as_str()) {
            let mut message = "invalid owned PostgreSQL schema: ".to_owned();
            message.append(error.as_str());
            return Err(message);
        }
        if !self.secrets_valid() {
            return Err("all four secret references must be valid and distinct".to_owned());
        }
        if let Err(message) = fixed_api_base(self.api_base_url.as_str()) {
            return Err(message);
        }
        if self.signature_tolerance_seconds < 60 || self.signature_tolerance_seconds > 900 {
            return Err("signature_tolerance_seconds must be between 60 and 900".to_owned());
        }
        if self.max_webhook_body_bytes < 1024 || self.max_webhook_body_bytes > 1048576 {
            return Err("max_webhook_body_bytes must be between 1024 and 1048576".to_owned());
        }
        if self.reconciliation_lease_seconds < 5 || self.reconciliation_lease_seconds > 3600 {
            return Err("reconciliation_lease_seconds must be between 5 and 3600".to_owned());
        }
        if let Err(message) = validate_origins(&self.redirect_origins) {
            return Err(message);
        }
        if let Err(message) = validate_prices(&self.prices) {
            return Err(message);
        }
        if let Err(message) = validate_callers(&self.product_instances, "product") {
            return Err(message);
        }
        if let Err(message) = validate_callers(&self.webhook_instances, "webhook") {
            return Err(message);
        }
        if let Err(message) = validate_callers(&self.worker_instances, "worker") {
            return Err(message);
        }
        if let Err(message) = validate_callers(&self.operator_instances, "operator") {
            return Err(message);
        }
        if !self.callers_distinct() {
            return Err("caller role lists must be pairwise disjoint".to_owned());
        }
        Ok(())
    }

    /// Finds a price by its alias.
    pub fn price(&self, alias: &str) -> (r: Option<&PriceMapping>)
        ensures
            r is Some == price_with_alias(self.prices@, alias@) is Some,
            r is Some ==> *r->0 == price_with_alias(self.prices@, alias@)->0,
    {
        let mut i: usize = 0;
        assert(self.prices@.skip(0) == self.prices@);
        while i < self.prices.len()
            invariant
                i <= self.prices@.len(),
                price_with_alias(self.prices@, alias@) == price_with_alias(
                    self.prices@.skip(i as int),
                    alias@,
                ),
            decreases self.prices@.len() - i,
        {
            if same(self.prices[i].alias.as_str(), alias) {
                return Some(&self.prices[i]);
            }
            assert(self.prices@.skip(i as int).skip(1) == self.prices@.skip(i + 1));
            i += 1;
        }
        None
    }

    /// Finds a price by its Stripe Price identifier.
    pub fn price_by_id(&self, price_id: &str) -> (r: Option<&PriceMapping>)
        ensures
            r is Some == price_with_id(self.prices@, price_id@) is Some,
            r is Some ==> *r->0 == price_with_id(self.prices@, price_id@)->0,
    {
        let mut i: usize = 0;
        assert(self.prices@.skip(0) == self.prices@);
        while i < self.prices.len()
            invariant
                i <= self.prices@.len(),
                price_with_id(self.prices@, price_id@) == price_with_id(
                    self.prices@.skip(i as int),
                    price_id@,
                ),
            decreases self.prices@.len() - i,
        {
            if same(self.prices[i].price_id.as_str(), price_id) {
                return Some(&self.prices[i]);
            }
            assert(self.prices@.skip(i as int).skip(1) == self.prices@.skip(i + 1));
            i += 1;
        }
        None
    }

    /// Decides whether a URL may be redirected to.
    pub fn redirect_allowed(&self, value: &str) -> (r: bool)
        ensures
            r == redirects(self@, value@),
    {
        match redirect_origin(value) {
            Ok(origin) => allowed(&self.redirect_origins, Some(origin.as_str())),
            Err(_) => false,
        }
    }

    /// Decides whether a caller acts for the product.
    pub fn product_allowed(&self, caller: Option<&str>) -> (r: bool)
        ensures
            r == listed(self@.product_instances, opt_str(caller)),
    {
        allowed(&self.product_instances, caller)
    }

    /// Decides whether a caller delivers webhooks.
    pub fn webhook_allowed(&self, caller: Option<&str>) -> (r: bool)
        ensures
            r == listed(self@.webhook_instances, opt_str(caller)),
    {
        allowed(&self.webhook_instances, caller)
    }

    /// Decides whether a caller runs reconciliations.
    pub fn worker_allowed(&self, caller: Option<&str>) -> (r: bool)
        ensures
            r == listed(self@.worker_instances, opt_str(caller)),
    {
        allowed(&self.worker_instances, caller)
    }

    /// Decides whether a caller operates the effect ledger.
    pub fn operator_allowed(&self, caller: Option<&str>) -> (r: bool)
        ensures
            r == listed(self@.operator_instances, opt_str(caller)),
    {
        allowed(&self.operator_instances, caller)
    }

    /// The owned schema.
    pub fn schema(&self) -> (r: &str)
        ensures
            r@ == self@.schema,
    {
        self.schema.as_str()
    }

    /// The reference of the database URL.
    pub fn database_url_secret(&self) -> (r: &str)
        ensures
            r@ == self@.database_url_secret,
    {
        self.database_url_secret.as_str()
    }

    /// The reference of the Stripe API key.
    pub fn stripe_api_key_secret(&self) -> (r: &str)
        ensures
            r@ == self@.stripe_api_key_secret,
    {
        self.stripe_api_key_secret.as_str()
    }

    /// The reference of the webhook signing secret.
    pub fn webhook_signing_secret(&self) -> (r: &str)
        ensures
            r@ == self@.webhook_signing_secret,
    {
        self.webhook_signing_secret.as_str()
    }

    /// The reference of the receipt encryption secret.
    pub fn receipt_encryption_secret(&self) -> (r: &str)
        ensures
            r@ == self@.receipt_encryption_secret,
    {
        self.receipt_encryption_secret.as_str()
    }

    /// The base of every Stripe request.
    pub fn api_base(&self) -> (r: &str)
        ensures
            r@ == self@.api_base_url,
    {
        self.api_base_url.as_str()
    }

    /// Whether this instance serves Stripe's live mode.
    pub fn livemode(&self) -> (r: bool)
        ensures
            r == self@.livemode,
    {
        self.livemode
    }

    /// How far a signature's timestamp may be away.
    pub fn signature_tolerance_seconds(&self) -> (r: i64)
        ensures
            r == self@.signature_tolerance_seconds,
    {
        self.signature_tolerance_seconds
    }

    /// How large a webhook body may be.
    pub fn max_webhook_body_bytes(&self) -> (r: usize)
        ensures
            r == self@.max_webhook_body_bytes,
    {
        self.max_webhook_body_bytes
    }

    /// How long a reconciliation lease lasts.
    pub fn reconciliation_lease_seconds(&self) -> (r: i64)
        ensures
            r == self@.reconciliation_lease_seconds,
    {
        self.reconciliation_lease_seconds
    }
}

/// Under a valid policy no caller has two roles.
pub proof fn law_roles_are_disjoint(config: ConfigModel, caller: Seq<char>)
    requires
        valid_config(config),
    ensures
        !(config.product_instances.contains(caller) && config.webhook_instances.contains(caller)),
        !(config.product_instances.contains(caller) && config.worker_instances.contains(caller)),
        !(config.product_instances.contains(caller) && config.operator_instances.contains(caller)),
        !(config.webhook_instances.contains(caller) && config.worker_instances.contains(caller)),
        !(config.webhook_instances.contains(caller) && config.operator_instances.contains(caller)),
        !(config.worker_instances.contains(caller) && config.operator_instances.contains(caller)),
{
    let all = all_callers(config);
    let a = config.product_instances;
    let b = config.webhook_instances;
    let c = config.worker_instances;
    let d = config.operator_instances;
    if a.contains(caller) {
        let i = a.index_of(caller);
        assert(all[i] == caller);
    }
    if b.contains(caller) {
        let i = b.index_of(caller);
        assert(all[a.len() + i] == caller);
    }
    if c.contains(caller) {
        let i = c.index_of(caller);
        assert(all[a.len() + b.len() + i] == caller);
    }
    if d.contains(caller) {
        let i = d.index_of(caller);
        assert(all[a.len() + b.len() + c.len() + i] == caller);
    }
}

/// Under a valid policy the four secrets are four different references.
pub proof fn law_secrets_are_separate(config: ConfigModel)
    requires
        valid_config(config),
    ensures
        config.database_url_secret != config.stripe_api_key_secret,
        config.database_url_secret != config.webhook_signing_secret,
        config.database_url_secret != config.receipt_encryption_secret,
        config.stripe_api_key_secret != config.webhook_signing_secret,
        config.stripe_api_key_secret != config.receipt_encryption_secret,
        config.webhook_signing_secret != config.receipt_encryption_secret,
{
    let all = secrets(config);
    assert(all[0] != all[1] && all[0] != all[2] && all[0] != all[3]);
    assert(all[1] != all[2] && all[1] != all[3] && all[2] != all[3]);
}

/// Under a valid policy every configured origin may itself be redirected to, and a URL may be
/// redirected to only over HTTPS, without credentials, and at a configured origin.
pub proof fn law_redirects_stay_at_configured_origins(config: ConfigModel, url: Seq<char>)
    requires
        valid_config(config),
    ensures
        config.redirect_origins.contains(url) ==> redirects(config, url),
        redirects(config, url) ==> {
            &&& parsed_url(url) is Some
            &&& parsed_url(url)->0.scheme == "https"@
            &&& parsed_url(url)->0.host is Some
            &&& parsed_url(url)->0.username.len() == 0
            &&& parsed_url(url)->0.password is None
            &&& config.redirect_origins.contains(origin_text(url))
        },
{
    if config.redirect_origins.contains(url) {
        let i = config.redirect_origins.index_of(url);
        assert(redirect_origin_of(config.redirect_origins[i]) == Ok::<Seq<char>, Seq<char>>(url));
    }
}

/// Under a valid policy a price is found by its alias and by its Stripe Price identifier, each of
/// which names it alone.
pub proof fn law_prices_are_found(config: StripeSubscriptionConfig, i: int)
    requires
        valid_config(config@),
        0 <= i < config.prices@.len(),
    ensures
        price_with_alias(config.prices@, config.prices@[i].alias@) == Some(config.prices@[i]),
        price_with_id(config.prices@, config.prices@[i].price_id@) == Some(config.prices@[i]),
{
    let models = config@.prices;
    assert forall|j: int, k: int| 0 <= j < k < config.prices@.len() implies #[trigger] config.prices@[j].alias@
        != #[trigger] config.prices@[k].alias@ by {
        assert(aliases(models)[j] != aliases(models)[k]);
    }
    assert forall|j: int, k: int| 0 <= j < k < config.prices@.len() implies #[trigger] config.prices@[j].price_id@
        != #[trigger] config.prices@[k].price_id@ by {
        assert(price_ids(models)[j] != price_ids(models)[k]);
    }
    lemma_alias_found(config.prices@, i);
    lemma_id_found(config.prices@, i);
}

proof fn lemma_alias_found(prices: Seq<PriceMapping>, i: int)
    requires
        0 <= i < prices.len(),
        forall|j: int, k: int|
            0 <= j < k < prices.len() ==> #[trigger] prices[j].alias@ != #[trigger] prices[k].alias@,
    ensures
        price_with_alias(prices, prices[i].alias@) == Some(prices[i]),
    decreases prices.len(),
{
    if i > 0 {
        let rest = prices.skip(1);
        assert(prices[0].alias@ != prices[i].alias@);
        assert forall|j: int, k: int| 0 <= j < k < rest.len() implies #[trigger] rest[j].alias@
            != #[trigger] rest[k].alias@ by {
            assert(prices[j + 1].alias@ != prices[k + 1].alias@);
        }
        lemma_alias_found(rest, i - 1);
    }
}

proof fn lemma_id_found(prices: Seq<PriceMapping>, i: int)
    requires
        0 <= i < prices.len(),
        forall|j: int, k: int|
            0 <= j < k < prices.len() ==> #[trigger] prices[j].price_id@
                != #[trigger] prices[k].price_id@,
    ensures
        price_with_id(prices, prices[i].price_id@) == Some(prices[i]),
    decreases prices.len(),
{
    if i > 0 {
        let rest = prices.skip(1);
        assert(prices[0].price_id@ != prices[i].price_id@);
        assert forall|j: int, k: int| 0 <= j < k < rest.len() implies #[trigger] rest[j].price_id@
            != #[trigger] rest[k].price_id@ by {
            assert(prices[j + 1].price_id@ != prices[k + 1].price_id@);
        }
        lemma_id_found(rest, i - 1);
    }
}

/// A caller is on a list exactly where one of its entries is the caller's name.
pub proof fn law_lists_are_exact(values: Seq<String>, caller: Seq<char>)
    ensures
        listed(texts(values), Some(caller)) == exists|i: int|
            0 <= i < values.len() && (#[trigger] values[i])@ == caller,
        !listed(texts(values), None),
{
    if listed(texts(values), Some(caller)) {
        let i = choose|i: int| 0 <= i < texts(values).len() && texts(values)[i] == caller;
        assert(values[i]@ == caller);
    }
    if exists|i: int| 0 <= i < values.len() && (#[trigger] values[i])@ == caller {
        let i = choose|i: int| 0 <= i < values.len() && (#[trigger] values[i])@ == caller;
        assert(texts(values)[i] == caller);
    }
}

/// A price is found by an alias exactly where one has it, and what is found has it.
pub proof fn law_alias_lookup_is_exact(prices: Seq<PriceMapping>, alias: Seq<char>)
    ensures
        price_with_alias(prices, alias) is Some == exists|i: int|
            0 <= i < prices.len() && (#[trigger] prices[i]).alias@ == alias,
        price_with_alias(prices, alias) is Some ==> price_with_alias(prices, alias)->0.alias@
            == alias && prices.contains(price_with_alias(prices, alias)->0),
    decreases prices.len(),
{
    if prices.len() > 0 && prices[0].alias@ != alias {
        let rest = prices.skip(1);
        law_alias_lookup_is_exact(rest, alias);
        if price_with_alias(rest, alias) is Some {
            let found = price_with_alias(rest, alias)->0;
            let i = choose|i: int| 0 <= i < rest.len() && rest[i] == found;
            assert(prices[i + 1] == found);
        } else {
            assert forall|i: int| 0 <= i < prices.len() implies (#[trigger] prices[i]).alias@
                != alias by {
                if i > 0 {
                    assert(rest[i - 1] == prices[i]);
                }
            }
        }
    } else if prices.len() > 0 {
        assert(prices[0].alias@ == alias);
        assert(prices.contains(prices[0]));
    }
}

/// A price is found by a Stripe Price identifier exactly where one has it, and what is found has
/// it.
pub proof fn law_price_id_lookup_is_exact(prices: Seq<PriceMapping>, price_id: Seq<char>)
    ensures
        price_with_id(prices, price_id) is Some == exists|i: int|
            0 <= i < prices.len() && (#[trigger] prices[i]).price_id@ == price_id,
        price_with_id(prices, price_id) is Some ==> price_with_id(prices, price_id)->0.price_id@
            == price_id && prices.contains(price_with_id(prices, price_id)->0),
    decreases prices.len(),
{
    if prices.len() > 0 && prices[0].price_id@ != price_id {
        let rest = prices.skip(1);
        law_price_id_lookup_is_exact(rest, price_id);
        if price_with_id(rest, price_id) is Some {
            let found = price_with_id(rest, price_id)->0;
            let i = choose|i: int| 0 <= i < rest.len() && rest[i] == found;
            assert(prices[i + 1] == found);
        } else {
            assert forall|i: int| 0 <= i < prices.len() implies (#[trigger] prices[i]).price_id@
                != price_id by {
                if i > 0 {
                    assert(rest[i - 1] == prices[i]);
                }
            }
        }
    } else if prices.len() > 0 {
        assert(prices[0].price_id@ == price_id);
        assert(prices.contains(prices[0]));
    }
}

/// A valid policy stays valid under another tolerance, body limit or lease exactly where that is
/// within its bounds, and in either mode.
pub proof fn law_numbers_have_their_bounds(
    config: ConfigModel,
    tolerance: int,
    body: int,
    lease: int,
    livemode: bool,
)
    requires
        valid_config(config),
    ensures
        valid_config(ConfigModel { signature_tolerance_seconds: tolerance, ..config }) == (60
            <= tolerance <= 900),
        valid_config(ConfigModel { max_webhook_body_bytes: body, ..config }) == (1024 <= body
            <= 1024 * 1024),
        valid_config(ConfigModel { reconciliation_lease_seconds: lease, ..config }) == (5 <= lease
            <= 3600),
        valid_config(ConfigModel { livemode, ..config }),
{
    lemma_same_lists(config, ConfigModel { signature_tolerance_seconds: tolerance, ..config });
    lemma_same_lists(config, ConfigModel { max_webhook_body_bytes: body, ..config });
    lemma_same_lists(config, ConfigModel { reconciliation_lease_seconds: lease, ..config });
    lemma_same_lists(config, ConfigModel { livemode, ..config });
}

proof fn lemma_same_lists(config: ConfigModel, other: ConfigModel)
    requires
        secrets(config) == secrets(other),
        all_callers(config) == all_callers(other),
    ensures
        (forall|i: int|
            0 <= i < secrets(config).len() ==> is_secret_reference(#[trigger] secrets(config)[i]))
            == (forall|i: int|
            0 <= i < secrets(other).len() ==> is_secret_reference(#[trigger] secrets(other)[i])),
        distinct(secrets(config)) == distinct(secrets(other)),
        distinct(all_callers(config)) == distinct(all_callers(other)),
{
}

/// Under a valid policy Stripe is reached over HTTPS at one origin, without credentials.
pub proof fn law_stripe_is_reached_over_https(config: ConfigModel)
    requires
        valid_config(config),
    ensures
        parsed_url(config.api_base_url) matches Some(url) && {
            &&& url.scheme == "https"@
            &&& url.host is Some
            &&& url.username.len() == 0
            &&& url.password is None
            &&& url.path == "/"@
            &&& url.query is None
            &&& url.fragment is None
        },
{
}

/// A URL may be redirected to wherever it is an HTTPS URL without credentials at an origin that is
/// configured.
pub proof fn law_redirects_at_configured_origins_are_allowed(config: ConfigModel, url: Seq<char>)
    requires
        parsed_url(url) is Some,
        parsed_url(url)->0.scheme == "https"@,
        parsed_url(url)->0.host is Some,
        parsed_url(url)->0.username.len() == 0,
        parsed_url(url)->0.password is None,
    ensures
        redirects(config, url) == config.redirect_origins.contains(origin_text(url)),
{
}

/// Under a valid policy there are one to 256 prices, each with a name, a Stripe Price and one to
/// 256 features, no feature twice in one price, and every limit is a positive integer.
pub proof fn law_prices_are_sound(config: ConfigModel, i: int, j: int, k: int)
    requires
        valid_config(config),
        0 <= i < config.prices.len(),
        0 <= j < config.prices[i].entitlements.len(),
        0 <= k < config.prices[i].entitlements.len(),
    ensures
        1 <= config.prices.len() <= 256,
        is_name(config.prices[i].alias),
        is_stripe_id(config.prices[i].price_id, "price_"@),
        1 <= config.prices[i].entitlements.len() <= 256,
        is_name(config.prices[i].entitlements[j].feature),
        config.prices[i].entitlements[j].limit is Some ==> integer_text(
            config.prices[i].entitlements[j].limit->0,
        ) is Some && integer_text(config.prices[i].entitlements[j].limit->0)->0 > 0,
        j != k ==> config.prices[i].entitlements[j].feature
            != config.prices[i].entitlements[k].feature,
{
    assert(is_price(config.prices[i]));
    assert(is_entitlement(config.prices[i].entitlements[j]));
    let names = features(config.prices[i]);
    if j < k {
        assert(names[j] != names[k]);
    } else if k < j {
        assert(names[k] != names[j]);
    }
}

/// Names hold letters, digits and `.`, `_`, `-`, `:` alone, and any one to 256 of these are a name;
/// identifiers of Stripe's hold letters, digits and `_` behind the prefix of their kind.
pub proof fn law_names_and_identifiers(text: Seq<char>, prefix: Seq<char>, c: char)
    ensures
        is_name(text) ==> 1 <= text.len() <= 256,
        is_name(text) && text.len() < 256 ==> is_name(text.push(c)) == (is_alphanumeric(c)
            || ".-_:"@.contains(c)),
        is_name(seq![c]) == (is_alphanumeric(c) || ".-_:"@.contains(c)),
        is_stripe_id(text, prefix) ==> text.len() <= 256 && prefix.is_prefix_of(text),
        is_stripe_id(text, prefix) && text.len() < 256 ==> is_stripe_id(text.push(c), prefix) == (
        is_alphanumeric(c) || c == '_'),
        is_alphanumeric(c) == ('0' as int <= c as int <= '9' as int || 'A' as int <= c as int
            <= 'Z' as int || 'a' as int <= c as int <= 'z' as int),
{
    reveal_strlit(".-_:");
    let marks = ".-_:"@;
    assert(marks[0] == '.' && marks[1] == '-' && marks[2] == '_' && marks[3] == ':');
    assert(marks.contains(c) == (c == '.' || c == '-' || c == '_' || c == ':'));
    assert(is_name_char(c) == (is_alphanumeric(c) || marks.contains(c)));
    let longer = text.push(c);
    assert(longer[text.len() as int] == c);
    assert(seq![c][0] == c);
    if is_name(text) {
        assert forall|i: int| 0 <= i < text.len() implies is_name_char(#[trigger] longer[i]) by {
            assert(longer[i] == text[i]);
        }
    }
    if is_stripe_id(text, prefix) {
        assert forall|i: int| 0 <= i < text.len() implies is_id_char(#[trigger] longer[i]) by {
            assert(longer[i] == text[i]);
        }
        assert(longer.subrange(0, prefix.len() as int) == text.subrange(0, prefix.len() as int));
    }
}

/// Two secret references with a slash between them are one, as far as it is not too long, and a
/// text that begins or ends with a slash, or has two in a row, is none.
pub proof fn law_references_are_joined_by_slashes(a: Seq<char>, b: Seq<char>)
    requires
        a.len() + b.len() < 256,
    ensures
        is_secret_reference(a.push('/') + b) == (is_secret_reference(a) && is_secret_reference(b)),
{
    let whole = a.push('/') + b;
    law_splitting_is_at_separators(a, b, '/');
    law_splitting_is_at_separators(a, a, '/');
    let first = split_text(a, '/');
    let second = split_text(b, '/');
    let pieces = split_text(whole, '/');
    assert(pieces == first + second);
    assert(is_reference_char('/'));
    if is_secret_reference(a) && is_secret_reference(b) {
        assert forall|i: int| 0 <= i < whole.len() implies is_reference_char(#[trigger] whole[i]) by {
            if i < a.len() {
                assert(whole[i] == a[i]);
            } else if i > a.len() {
                assert(whole[i] == b[i - a.len() - 1]);
            }
        }
        assert forall|i: int| 0 <= i < pieces.len() implies is_segment(#[trigger] pieces[i]) by {
            if i < first.len() {
                assert(pieces[i] == first[i]);
            } else {
                assert(pieces[i] == second[i - first.len()]);
            }
        }
    }
    if is_secret_reference(whole) {
        assert forall|i: int| 0 <= i < a.len() implies is_reference_char(#[trigger] a[i]) by {
            assert(whole[i] == a[i]);
        }
        assert forall|i: int| 0 <= i < b.len() implies is_reference_char(#[trigger] b[i]) by {
            assert(whole[a.len() + 1 + i] == b[i]);
        }
        assert forall|i: int| 0 <= i < first.len() implies is_segment(#[trigger] first[i]) by {
            assert(pieces[i] == first[i]);
        }
        assert forall|i: int| 0 <= i < second.len() implies is_segment(#[trigger] second[i]) by {
            assert(pieces[first.len() + i] == second[i]);
        }
        if a.len() == 0 {
            assert(!is_segment(first[0]));
        }
        if b.len() == 0 {
            assert(!is_segment(second[0]));
        }
    }
}

/// A text without a slash is a secret reference exactly where it is one to 256 letters, digits and
/// `.`, `_`, `-`, and neither `.` nor `..`.
pub proof fn law_single_references(text: Seq<char>)
    requires
        !text.contains('/'),
    ensures
        is_secret_reference(text) == (1 <= text.len() <= 256 && text != "."@ && text != ".."@
            && forall|i: int|
            0 <= i < text.len() ==> is_alphanumeric(#[trigger] text[i]) || text[i] == '.' || text[i]
                == '_' || text[i] == '-'),
{
    law_splitting_is_at_separators(text, Seq::empty(), '/');
    let pieces = split_text(text, '/');
    assert(pieces == seq![text]);
    assert(pieces[0] == text);
    assert forall|i: int| 0 <= i < text.len() implies #[trigger] text[i] != '/' by {
        if text[i] == '/' {
            assert(text.contains('/'));
        }
    }
    if is_secret_reference(text) {
        assert(is_segment(pieces[0]));
        assert forall|i: int| 0 <= i < text.len() implies is_alphanumeric(#[trigger] text[i])
            || text[i] == '.' || text[i] == '_' || text[i] == '-' by {
            assert(is_reference_char(text[i]));
        }
    }
}

/// Of several prices the first with a Stripe Price identifier is the one that is found by it.
pub proof fn law_first_price_is_found(prices: Seq<PriceMapping>, k: int)
    requires
        0 <= k < prices.len(),
        forall|j: int| 0 <= j < k ==> (#[trigger] prices[j]).price_id@ != prices[k].price_id@,
    ensures
        price_with_id(prices, prices[k].price_id@) == Some(prices[k]),
    decreases k,
{
    if k > 0 {
        let rest = prices.skip(1);
        assert(prices[0].price_id@ != prices[k].price_id@);
        assert forall|j: int| 0 <= j < k - 1 implies (#[trigger] rest[j]).price_id@
            != rest[k - 1].price_id@ by {
            assert(prices[j + 1].price_id@ != prices[k].price_id@);
        }
        law_first_price_is_found(rest, k - 1);
    }
}

/// Of several prices the first with an alias is the one that is found by it.
pub proof fn law_first_alias_is_found(prices: Seq<PriceMapping>, k: int)
    requires
        0 <= k < prices.len(),
        forall|j: int| 0 <= j < k ==> (#[trigger] prices[j]).alias@ != prices[k].alias@,
    ensures
        price_with_alias(prices, prices[k].alias@) == Some(prices[k]),
    decreases k,
{
    if k > 0 {
        let rest = prices.skip(1);
        assert(prices[0].alias@ != prices[k].alias@);
        assert forall|j: int| 0 <= j < k - 1 implies (#[trigger] rest[j]).alias@
            != rest[k - 1].alias@ by {
            assert(prices[j + 1].alias@ != prices[k].alias@);
        }
        law_first_alias_is_found(rest, k - 1);
    }
}

proof fn lemma_first_origin_error(values: Seq<Seq<char>>)
    ensures
        first_origin_error(values) is None == forall|i: int|
            0 <= i < values.len() ==> redirect_origin_of(#[trigger] values[i]) is Ok,
    decreases values.len(),
{
    if values.len() > 0 {
        let rest = values.skip(1);
        lemma_first_origin_error(rest);
        assert(forall|i: int| 0 <= i < rest.len() ==> #[trigger] rest[i] == values[i + 1]);
        assert forall|i: int| 0 < i < values.len() implies #[trigger] values[i] == rest[i - 1] by {}
        if first_origin_error(values) is None {
            assert forall|i: int| 0 <= i < values.len() implies redirect_origin_of(
                #[trigger] values[i],
            ) is Ok by {
                if i > 0 {
                    assert(redirect_origin_of(rest[i - 1]) is Ok);
                }
            }
        } else if redirect_origin_of(values[0]) is Ok {
            let i = choose|i: int|
                0 <= i < rest.len() && !(redirect_origin_of(#[trigger] rest[i]) is Ok);
            assert(!(redirect_origin_of(values[i + 1]) is Ok));
        }
    }
}

/// One to 64 redirect origins are accepted exactly where each is an HTTPS URL without credentials
/// that is written as its own origin, and none stands there twice.
pub proof fn law_redirect_origins_are_canonical(values: Seq<Seq<char>>)
    ensures
        origins_error(values) is None == {
            &&& 1 <= values.len() <= 64
            &&& forall|i: int|
                0 <= i < values.len() ==> {
                    &&& parsed_url(#[trigger] values[i]) is Some
                    &&& parsed_url(values[i])->0.scheme == "https"@
                    &&& parsed_url(values[i])->0.host is Some
                    &&& parsed_url(values[i])->0.username.len() == 0
                    &&& parsed_url(values[i])->0.password is None
                    &&& origin_text(values[i]) == values[i]
                }
            &&& forall|i: int, j: int|
                0 <= i < j < values.len() ==> #[trigger] values[i] != #[trigger] values[j]
        },
{
    lemma_first_origin_error(values);
    if origins_error(values) is None {
        assert forall|i: int| 0 <= i < values.len() implies {
            &&& parsed_url(#[trigger] values[i]) is Some
            &&& parsed_url(values[i])->0.scheme == "https"@
            &&& parsed_url(values[i])->0.host is Some
            &&& parsed_url(values[i])->0.username.len() == 0
            &&& parsed_url(values[i])->0.password is None
            &&& origin_text(values[i]) == values[i]
        } by {
            assert(redirect_origin_of(values[i]) == Ok::<Seq<char>, Seq<char>>(values[i]));
        }
    }
}

/// A caller list is accepted exactly where it holds at least one name, names alone, and none twice.
pub proof fn law_caller_lists_are_names(values: Seq<Seq<char>>, role: Seq<char>)
    ensures
        callers_error(values, role) is None == {
            &&& values.len() > 0
            &&& forall|i: int| 0 <= i < values.len() ==> is_name(#[trigger] values[i])
            &&& forall|i: int, j: int|
                0 <= i < j < values.len() ==> #[trigger] values[i] != #[trigger] values[j]
        },
{
}

/// One to 256 prices are accepted exactly where each can stand and no alias and no Stripe Price
/// stands there twice.
pub proof fn law_price_lists_are_unique(prices: Seq<PriceModel>)
    ensures
        prices_error(prices) is None == {
            &&& 1 <= prices.len() <= 256
            &&& forall|i: int| 0 <= i < prices.len() ==> is_price(#[trigger] prices[i])
            &&& forall|i: int, j: int|
                0 <= i < j < prices.len() ==> (#[trigger] prices[i]).alias != (
                #[trigger] prices[j]).alias && prices[i].price_id != prices[j].price_id
        },
{
    if prices_error(prices) is None {
        assert forall|i: int, j: int| 0 <= i < j < prices.len() implies (#[trigger] prices[i]).alias
            != (#[trigger] prices[j]).alias && prices[i].price_id != prices[j].price_id by {
            assert(aliases(prices)[i] != aliases(prices)[j]);
            assert(price_ids(prices)[i] != price_ids(prices)[j]);
        }
    }
    if forall|i: int, j: int|
        0 <= i < j < prices.len() ==> (#[trigger] prices[i]).alias != (#[trigger] prices[j]).alias
            && prices[i].price_id != prices[j].price_id {
        assert forall|i: int, j: int| 0 <= i < j < prices.len() implies #[trigger] aliases(
            prices,
        )[i] != #[trigger] aliases(prices)[j] by {
            assert(prices[i].alias != prices[j].alias);
        }
        assert forall|i: int, j: int| 0 <= i < j < prices.len() implies #[trigger] price_ids(
            prices,
        )[i] != #[trigger] price_ids(prices)[j] by {
            assert(prices[i].alias != prices[j].alias);
        }
    }
}

/// A price can stand exactly where it has a name, a Stripe Price and one to 256 entitlements, each
/// with a feature of its own that is a name, and with a positive limit or none.
pub proof fn law_prices_can_stand(price: PriceModel)
    ensures
        is_price(price) == {
            &&& is_name(price.alias)
            &&& is_stripe_id(price.price_id, "price_"@)
            &&& 1 <= price.entitlements.len() <= 256
            &&& forall|i: int|
                0 <= i < price.entitlements.len() ==> is_name(
                    (#[trigger] price.entitlements[i]).feature,
                ) && (price.entitlements[i].limit is Some ==> integer_text(
                    price.entitlements[i].limit->0,
                ) is Some && integer_text(price.entitlements[i].limit->0)->0 > 0)
            &&& forall|i: int, j: int|
                0 <= i < j < price.entitlements.len() ==> (#[trigger] price.entitlements[i]).feature
                    != (#[trigger] price.entitlements[j]).feature
        },
{
    let entries = price.entitlements;
    if is_price(price) {
        assert forall|i: int| 0 <= i < entries.len() implies is_name((#[trigger] entries[i]).feature)
            && (entries[i].limit is Some ==> integer_text(entries[i].limit->0) is Some
            && integer_text(entries[i].limit->0)->0 > 0) by {
            assert(is_entitlement(entries[i]));
        }
        assert forall|i: int, j: int| 0 <= i < j < entries.len() implies (
        #[trigger] entries[i]).feature != (#[trigger] entries[j]).feature by {
            assert(features(price)[i] != features(price)[j]);
        }
    }
    if forall|i: int, j: int|
        0 <= i < j < entries.len() ==> (#[trigger] entries[i]).feature != (
        #[trigger] entries[j]).feature {
        assert forall|i: int, j: int| 0 <= i < j < features(price).len() implies #[trigger] features(
            price,
        )[i] != #[trigger] features(price)[j] by {
            assert(entries[i].feature != entries[j].feature);
        }
    }
}

/// A policy is valid exactly where its schema can be owned, its four secret references can be and
/// differ, its API base is one HTTPS origin, its numbers are within their bounds, its origins, its
/// prices and its four caller lists are accepted, and no caller stands on two of them.
pub proof fn law_policies_are_valid(config: ConfigModel)
    ensures
        valid_config(config) == {
            let url = parsed_url(config.api_base_url);
            let a = config.database_url_secret;
            let b = config.stripe_api_key_secret;
            let c = config.webhook_signing_secret;
            let d = config.receipt_encryption_secret;
            let everyone = config.product_instances + config.webhook_instances
                + config.worker_instances + config.operator_instances;
            &&& valid_schema_name(config.schema)
            &&& is_secret_reference(a) && is_secret_reference(b) && is_secret_reference(c)
                && is_secret_reference(d)
            &&& a != b && a != c && a != d && b != c && b != d && c != d
            &&& url is Some && url->0.scheme == "https"@ && url->0.host is Some
            &&& url->0.username.len() == 0 && url->0.password is None
            &&& url->0.path == "/"@ && url->0.query is None && url->0.fragment is None
            &&& 60 <= config.signature_tolerance_seconds <= 900
            &&& 1024 <= config.max_webhook_body_bytes <= 1024 * 1024
            &&& 5 <= config.reconciliation_lease_seconds <= 3600
            &&& origins_error(config.redirect_origins) is None
            &&& prices_error(config.prices) is None
            &&& callers_error(config.product_instances, "product"@) is None
            &&& callers_error(config.webhook_instances, "webhook"@) is None
            &&& callers_error(config.worker_instances, "worker"@) is None
            &&& callers_error(config.operator_instances, "operator"@) is None
            &&& forall|i: int, j: int|
                0 <= i < j < everyone.len() ==> #[trigger] everyone[i] != #[trigger] everyone[j]
        },
{
    let all = secrets(config);
    let a = config.database_url_secret;
    let b = config.stripe_api_key_secret;
    let c = config.webhook_signing_secret;
    let d = config.receipt_encryption_secret;
    assert(all[0] == a && all[1] == b && all[2] == c && all[3] == d && all.len() == 4);
    if distinct(all) {
        assert(all[0] != all[1] && all[0] != all[2] && all[0] != all[3]);
        assert(all[1] != all[2] && all[1] != all[3] && all[2] != all[3]);
    }
    if forall|i: int| 0 <= i < all.len() ==> is_secret_reference(#[trigger] all[i]) {
        assert(is_secret_reference(all[0]) && is_secret_reference(all[1]) && is_secret_reference(
            all[2],
        ) && is_secret_reference(all[3]));
    }
}

/// A policy that breaks one rule alone is refused with that rule's message.
pub proof fn law_broken_rules_are_named(
    config: ConfigModel,
    schema: Seq<char>,
    secret: Seq<char>,
    tolerance: int,
    body: int,
    lease: int,
)
    requires
        valid_config(config),
    ensures
        !valid_schema_name(schema) ==> config_error(ConfigModel { schema, ..config }) == Some(
            "invalid owned PostgreSQL schema: invalid owned schema name `"@ + schema + "`"@,
        ),
        !is_secret_reference(secret) ==> config_error(
            ConfigModel { webhook_signing_secret: secret, ..config },
        ) == Some("all four secret references must be valid and distinct"@),
        config_error(
            ConfigModel { webhook_signing_secret: config.stripe_api_key_secret, ..config },
        ) == Some("all four secret references must be valid and distinct"@),
        !(60 <= tolerance <= 900) ==> config_error(
            ConfigModel { signature_tolerance_seconds: tolerance, ..config },
        ) == Some("signature_tolerance_seconds must be between 60 and 900"@),
        !(1024 <= body <= 1048576) ==> config_error(
            ConfigModel { max_webhook_body_bytes: body, ..config },
        ) == Some("max_webhook_body_bytes must be between 1024 and 1048576"@),
        !(5 <= lease <= 3600) ==> config_error(
            ConfigModel { reconciliation_lease_seconds: lease, ..config },
        ) == Some("reconciliation_lease_seconds must be between 5 and 3600"@),
        config_error(ConfigModel { redirect_origins: Seq::empty(), ..config }) == Some(
            "between one and 64 redirect origins are required"@,
        ),
        config_error(ConfigModel { prices: Seq::empty(), ..config }) == Some(
            "between one and 256 price mappings are required"@,
        ),
        config_error(ConfigModel { worker_instances: config.operator_instances, ..config }) == Some(
            "caller role lists must be pairwise disjoint"@,
        ),
{
    lemma_same_lists(config, ConfigModel { signature_tolerance_seconds: tolerance, ..config });
    lemma_same_lists(config, ConfigModel { max_webhook_body_bytes: body, ..config });
    lemma_same_lists(config, ConfigModel { reconciliation_lease_seconds: lease, ..config });
    lemma_same_lists(config, ConfigModel { redirect_origins: Seq::empty(), ..config });
    lemma_same_lists(config, ConfigModel { prices: Seq::empty(), ..config });
    reveal_strlit("invalid owned PostgreSQL schema: ");
    reveal_strlit("invalid owned schema name `");
    reveal_strlit("invalid owned PostgreSQL schema: invalid owned schema name `");
    assert("invalid owned PostgreSQL schema: invalid owned schema name `"@
        == "invalid owned PostgreSQL schema: "@ + "invalid owned schema name `"@);
    assert("invalid owned PostgreSQL schema: "@ + schema_name_error(schema)
        == "invalid owned PostgreSQL schema: invalid owned schema name `"@ + schema + "`"@);
    let other = ConfigModel { webhook_signing_secret: secret, ..config };
    assert(secrets(other)[2] == secret);
    let twice = ConfigModel { webhook_signing_secret: config.stripe_api_key_secret, ..config };
    assert(secrets(twice)[1] == secrets(twice)[2]);
    let shared = ConfigModel { worker_instances: config.operator_instances, ..config };
    assert(secrets(shared) == secrets(config));
    let all = all_callers(shared);
    let n = config.product_instances.len() + config.webhook_instances.len();
    assert(all[n as int] == config.operator_instances[0]);
    assert(all[(n + config.operator_instances.len()) as int] == config.operator_instances[0]);
    assert(callers_error(shared.worker_instances, "worker"@) is None) by {
        assert(callers_error(config.operator_instances, "operator"@) is None);
    }
}

} // verus!
