//! Settings of the HTTP client that carries the requests.
use vstd::prelude::*;

verus! {

/// The seconds allowed for one call to the instance. A call that takes
/// longer counts as one that got no answer.
pub const REQUEST_TIMEOUT_SECONDS: u64 = 30;

/// The content type of every request's body.
pub const FORM_CONTENT_TYPE: &'static str = "application/x-www-form-urlencoded";

/// The proxy that a setting selects: the setting's text, unless there is no
/// setting or it is empty.
pub open spec fn proxy_of(setting: Option<Seq<char>>) -> Option<Seq<char>> {
    match setting {
        Some(text) => if text.len() > 0 {
            Some(text)
        } else {
            None
        },
        None => None,
    }
}

/// The proxy to send HTTPS calls through, given the environment's setting,
/// or `None` to send them directly.
pub fn proxy_choice(setting: Option<String>) -> (proxy: Option<String>)
    ensures
        proxy matches Some(text) ==> proxy_of(
            match setting {
                Some(s) => Some(s@),
                None => None,
            },
        ) == Some(text@),
        proxy is None ==> proxy_of(
            match setting {
                Some(s) => Some(s@),
                None => None,
            },
        ) is None,
{
    match setting {
        Some(text) => if text.as_str().is_empty() {
            None
        } else {
            Some(text)
        },
        None => None,
    }
}

} // verus!
