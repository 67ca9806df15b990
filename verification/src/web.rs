//! URLs and form bodies.

use vstd::prelude::*;

use crate::json::pair_texts;
use crate::text::opt_text;

verus! {

/// The parts of a URL that the rules read.
pub struct UrlParts {
    /// The scheme, in lower case.
    pub scheme: String,
    /// The host, where there is one.
    pub host: Option<String>,
    /// The user name; empty where there is none.
    pub username: String,
    /// The password, where there is one.
    pub password: Option<String>,
    /// The path.
    pub path: String,
    /// The query, where there is one.
    pub query: Option<String>,
    /// The fragment, where there is one.
    pub fragment: Option<String>,
}

/// The texts of [`UrlParts`].
pub struct UrlModel {
    pub scheme: Seq<char>,
    pub host: Option<Seq<char>>,
    pub username: Seq<char>,
    pub password: Option<Seq<char>>,
    pub path: Seq<char>,
    pub query: Option<Seq<char>>,
    pub fragment: Option<Seq<char>>,
}

impl View for UrlParts {
    type V = UrlModel;

    open spec fn view(&self) -> UrlModel {
        UrlModel {
            scheme: self.scheme@,
            host: opt_text(self.host),
            username: self.username@,
            password: opt_text(self.password),
            path: self.path@,
            query: opt_text(self.query),
            fragment: opt_text(self.fragment),
        }
    }
}

/// The texts of the parts of a URL, if there is one.
pub open spec fn opt_url(value: Option<UrlParts>) -> Option<UrlModel> {
    match value {
        Some(url) => Some(url@),
        None => None,
    }
}

/// The parts of the URL that `url::Url::parse` reads from a text; `None` for a text that it
/// refuses.
pub uninterp spec fn parsed_url(text: Seq<char>) -> Option<UrlModel>;

/// Calls `url::Url::parse` and the accessors of the result. The claim: the parts depend on the
/// text alone.
#[verifier::external_body]
pub(crate) fn parse_url(text: &str) -> (r: Option<UrlParts>)
    ensures
        opt_url(r) == parsed_url(text@),
{
    url::Url::parse(text).ok().map(|url| UrlParts {
        scheme: url.scheme().to_owned(),
        host: url.host_str().map(str::to_owned),
        username: url.username().to_owned(),
        password: url.password().map(str::to_owned),
        path: url.path().to_owned(),
        query: url.query().map(str::to_owned),
        fragment: url.fragment().map(str::to_owned),
    })
}

/// The origin, in its ASCII form, of the HTTPS URL that a text writes.
pub uninterp spec fn origin_text(text: Seq<char>) -> Seq<char>;

/// Calls `url::Url::origin` and `Origin::ascii_serialization` on the URL that `url::Url::parse`
/// reads. The claim: an HTTPS URL has an origin, which depends on the text alone. Other URLs are
/// left out: the origin of a `blob` URL is that of the URL in its path, which is found by a
/// recursion without a bound, and that of most other schemes is opaque.
#[verifier::external_body]
pub(crate) fn https_origin(text: &str) -> (r: Option<String>)
    requires
        parsed_url(text@) is Some,
        parsed_url(text@)->0.scheme == "https"@,
        parsed_url(text@)->0.host is Some,
    ensures
        opt_text(r) == Some(origin_text(text@)),
{
    url::Url::parse(text).ok().map(|url| url.origin().ascii_serialization())
}

/// The URL that `url::Url::join` makes of a base and a reference, as text; `None` where either is
/// refused.
pub uninterp spec fn joined_url(base: Seq<char>, reference: Seq<char>) -> Option<Seq<char>>;

/// Calls `url::Url::join` on the base that `url::Url::parse` reads. The claim: the result depends
/// on the two texts alone.
#[verifier::external_body]
pub(crate) fn join_url(base: &str, reference: &str) -> (r: Option<String>)
    ensures
        opt_text(r) == joined_url(base@, reference@),
{
    url::Url::parse(base).and_then(|url| url.join(reference)).ok().map(|url| url.to_string())
}

/// The form body that `url::form_urlencoded` writes for a list of names and values.
pub uninterp spec fn form_text(pairs: Seq<(Seq<char>, Seq<char>)>) -> Seq<char>;

/// Calls `url::form_urlencoded::Serializer::extend_pairs` on a new serializer. The claim: the body
/// depends on the pairs alone.
#[verifier::external_body]
pub(crate) fn encode_form(pairs: &Vec<(String, String)>) -> (r: String)
    ensures
        r@ == form_text(pair_texts(pairs@)),
{
    url::form_urlencoded::Serializer::new(String::new()).extend_pairs(pairs).finish()
}

} // verus!
