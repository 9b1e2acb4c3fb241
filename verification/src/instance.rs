//! An instance's address and the addresses of its endpoints. Parsing and
//! resolving URLs is the `url` crate's work; what counts as an instance's
//! address, and which paths are resolved against it, is decided here.
use vstd::prelude::*;

verus! {

/// Whether `url::Url::parse` accepts `text` as an absolute URL and the URL it
/// gives has a host.
pub uninterp spec fn url_has_host(text: Seq<char>) -> bool;

/// The serialization of the URL that `url::Url::join` gives for `reference`
/// on the URL that `url::Url::parse` gives for `base`; `None` where either
/// fails.
pub uninterp spec fn url_join(base: Seq<char>, reference: Seq<char>) -> Option<Seq<char>>;

/// Parses `text` with `url::Url::parse` and asks the URL `has_host`.
///
/// Trusted: the answer is a function of the text alone. It is `false` where
/// the text is no absolute URL (one without a scheme is not), and where the
/// URL has no host (`mailto:`, `data:`).
#[verifier::external_body]
fn parses_with_host(text: &str) -> (found: bool)
    ensures
        found == url_has_host(text@),
{
    match url::Url::parse(text) {
        Ok(parsed) => parsed.has_host(),
        Err(_) => false,
    }
}

/// Parses `base` with `url::Url::parse`, resolves `reference` against it with
/// `url::Url::join`, and returns what `as_str` gives for the result.
///
/// Trusted: the result is a function of the two texts alone, and `None`
/// exactly where the parse or the join returns an error.
#[verifier::external_body]
fn join(base: &str, reference: &str) -> (joined: Option<String>)
    ensures
        joined matches Some(text) ==> url_join(base@, reference@) == Some(text@),
        joined is None ==> url_join(base@, reference@) is None,
{
    match url::Url::parse(base) {
        Ok(parsed) => match parsed.join(reference) {
            Ok(target) => Some(String::from(target.as_str())),
            Err(_) => None,
        },
        Err(_) => None,
    }
}

/// The three places on an instance that a run talks to.
#[derive(Clone, Copy, Debug, PartialEq, Eq, Structural)]
pub enum Endpoint {
    /// Where a client application is registered.
    Apps,
    /// Where credentials are exchanged for a token.
    Token,
    /// Where a status is created.
    Statuses,
}

impl Endpoint {
    /// The path of this endpoint below the instance's address.
    pub open spec fn path(self) -> Seq<char> {
        match self {
            Endpoint::Apps => "/api/v1/apps"@,
            Endpoint::Token => "/oauth/token"@,
            Endpoint::Statuses => "/api/v1/statuses"@,
        }
    }

    /// The path of this endpoint below the instance's address.
    pub fn as_path(self) -> (path: &'static str)
        ensures
            path@ == self.path(),
    {
        match self {
            Endpoint::Apps => "/api/v1/apps",
            Endpoint::Token => "/oauth/token",
            Endpoint::Statuses => "/api/v1/statuses",
        }
    }
}

/// The address of an endpoint of the instance at `base`, where it has one.
pub open spec fn endpoint_address(base: Seq<char>, endpoint: Endpoint) -> Option<Seq<char>> {
    url_join(base, endpoint.path())
}

/// What an instance's address must be: an absolute URL with a scheme and a
/// host, against which each of the three endpoint paths resolves.
pub open spec fn valid_instance_url(text: Seq<char>) -> bool {
    &&& url_has_host(text)
    &&& endpoint_address(text, Endpoint::Apps) is Some
    &&& endpoint_address(text, Endpoint::Token) is Some
    &&& endpoint_address(text, Endpoint::Statuses) is Some
}

/// The address of `endpoint` on the instance at `base`; `None` where `base`
/// is no URL that the path resolves against.
pub fn resolve(base: &str, endpoint: Endpoint) -> (address: Option<String>)
    ensures
        address matches Some(text) ==> endpoint_address(base@, endpoint) == Some(text@),
        address is None ==> endpoint_address(base@, endpoint) is None,
        valid_instance_url(base@) ==> address is Some,
{
    join(base, endpoint.as_path())
}

/// Whether `text` can serve as an instance's address.
pub fn is_valid_instance_url(text: &str) -> (valid: bool)
    ensures
        valid == valid_instance_url(text@),
{
    parses_with_host(text) && resolve(text, Endpoint::Apps).is_some() && resolve(
        text,
        Endpoint::Token,
    ).is_some() && resolve(text, Endpoint::Statuses).is_some()
}

} // verus!
