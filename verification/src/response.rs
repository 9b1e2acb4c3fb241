//! Reading what the instance answered to each of the three requests.
use vstd::prelude::*;
use crate::error::Error;
use crate::json::{find_text, json_object_members, members_view, object_members, text_of, Member, MemberView};
use crate::session::{ClientCredentials, ClientCredentialsView};

verus! {

/// What the instance answered: the HTTP status and the body as text.
pub struct Response {
    pub status: u16,
    pub body: String,
}

/// What a [`Response`] holds, as plain text.
pub struct ResponseView {
    pub status: u16,
    pub body: Seq<char>,
}

impl View for Response {
    type V = ResponseView;

    open spec fn view(&self) -> ResponseView {
        ResponseView { status: self.status, body: self.body@ }
    }
}

/// The address that the instance gave the published status.
pub struct PostResult {
    pub url: String,
}

/// What a [`PostResult`] holds, as plain text.
pub struct PostResultView {
    pub url: Seq<char>,
}

impl View for PostResult {
    type V = PostResultView;

    open spec fn view(&self) -> PostResultView {
        PostResultView { url: self.url@ }
    }
}

/// The statuses that report success: 200 to 299.
pub open spec fn accepted(status: u16) -> bool {
    200 <= status <= 299
}

/// Whether `status` reports success.
pub fn is_accepted(status: u16) -> (yes: bool)
    ensures
        yes == accepted(status),
{
    200 <= status && status <= 299
}

/// The credentials that an object's members hold: the strings under
/// `client_id` and `client_secret`, where both are there.
pub open spec fn credentials_of_members(members: Seq<MemberView>) -> Option<ClientCredentialsView> {
    match (text_of(members, "client_id"@), text_of(members, "client_secret"@)) {
        (Some(client_id), Some(client_secret)) => Some(
            ClientCredentialsView { client_id, client_secret },
        ),
        _ => None,
    }
}

/// The token that an object's members hold: the string under `access_token`,
/// where it is there and not empty.
pub open spec fn token_of_members(members: Seq<MemberView>) -> Option<Seq<char>> {
    match text_of(members, "access_token"@) {
        Some(token) => if token.len() > 0 {
            Some(token)
        } else {
            None
        },
        None => None,
    }
}

/// The post's address that an object's members hold: the string under `url`.
pub open spec fn post_result_of_members(members: Seq<MemberView>) -> Option<PostResultView> {
    match text_of(members, "url"@) {
        Some(url) => Some(PostResultView { url }),
        None => None,
    }
}

/// What the answer to a registration comes to: the credentials where the
/// status reports success and the body holds them, `RegistrationFailed`
/// otherwise.
pub open spec fn registration_outcome(r: ResponseView) -> Result<ClientCredentialsView, Error> {
    if !accepted(r.status) {
        Err(Error::RegistrationFailed)
    } else {
        match json_object_members(r.body) {
            Some(members) => match credentials_of_members(members) {
                Some(c) => Ok(c),
                None => Err(Error::RegistrationFailed),
            },
            None => Err(Error::RegistrationFailed),
        }
    }
}

/// What the answer to a login comes to: `AuthRejected` where the status
/// reports no success, the token where the body holds one, `ProtocolError`
/// where it does not.
pub open spec fn login_outcome(r: ResponseView) -> Result<Seq<char>, Error> {
    if !accepted(r.status) {
        Err(Error::AuthRejected)
    } else {
        match json_object_members(r.body) {
            Some(members) => match token_of_members(members) {
                Some(token) => Ok(token),
                None => Err(Error::ProtocolError),
            },
            None => Err(Error::ProtocolError),
        }
    }
}

/// What the answer to a post comes to: `AuthRejected` where the status
/// reports no success, the post's address where the body holds it,
/// `ProtocolError` where it does not.
pub open spec fn post_outcome(r: ResponseView) -> Result<PostResultView, Error> {
    if !accepted(r.status) {
        Err(Error::AuthRejected)
    } else {
        match json_object_members(r.body) {
            Some(members) => match post_result_of_members(members) {
                Some(p) => Ok(p),
                None => Err(Error::ProtocolError),
            },
            None => Err(Error::ProtocolError),
        }
    }
}

/// The credentials that an object's members hold.
pub fn credentials_from_members(members: &Vec<Member>) -> (found: Option<ClientCredentials>)
    ensures
        found matches Some(c) ==> credentials_of_members(members_view(members@)) == Some(c@),
        found is None ==> credentials_of_members(members_view(members@)) is None,
{
    let client_id = find_text(members, "client_id");
    let client_secret = find_text(members, "client_secret");
    match (client_id, client_secret) {
        (Some(client_id), Some(client_secret)) => Some(
            ClientCredentials { client_id, client_secret },
        ),
        _ => None,
    }
}

/// The access token that an object's members hold.
pub fn token_from_members(members: &Vec<Member>) -> (found: Option<String>)
    ensures
        found matches Some(t) ==> token_of_members(members_view(members@)) == Some(t@),
        found is None ==> token_of_members(members_view(members@)) is None,
{
    match find_text(members, "access_token") {
        Some(token) => if token.as_str().is_empty() {
            None
        } else {
            Some(token)
        },
        None => None,
    }
}

/// The post's address that an object's members hold.
pub fn post_result_from_members(members: &Vec<Member>) -> (found: Option<PostResult>)
    ensures
        found matches Some(p) ==> post_result_of_members(members_view(members@)) == Some(p@),
        found is None ==> post_result_of_members(members_view(members@)) is None,
{
    match find_text(members, "url") {
        Some(url) => Some(PostResult { url }),
        None => None,
    }
}

/// Reads the answer to a registration.
pub fn read_credentials(response: &Response) -> (outcome: Result<ClientCredentials, Error>)
    ensures
        outcome matches Ok(c) ==> registration_outcome(response@) == Ok::<
            ClientCredentialsView,
            Error,
        >(c@),
        outcome matches Err(e) ==> registration_outcome(response@) == Err::<
            ClientCredentialsView,
            Error,
        >(e),
{
    if !is_accepted(response.status) {
        return Err(Error::RegistrationFailed);
    }
    match object_members(response.body.as_str()) {
        Some(members) => match credentials_from_members(&members) {
            Some(c) => Ok(c),
            None => Err(Error::RegistrationFailed),
        },
        None => Err(Error::RegistrationFailed),
    }
}

/// Reads the answer to a login.
pub fn read_token(response: &Response) -> (outcome: Result<String, Error>)
    ensures
        outcome matches Ok(t) ==> login_outcome(response@) == Ok::<Seq<char>, Error>(t@) && t@.len()
            > 0,
        outcome matches Err(e) ==> login_outcome(response@) == Err::<Seq<char>, Error>(e),
{
    if !is_accepted(response.status) {
        return Err(Error::AuthRejected);
    }
    match object_members(response.body.as_str()) {
        Some(members) => match token_from_members(&members) {
            Some(t) => Ok(t),
            None => Err(Error::ProtocolError),
        },
        None => Err(Error::ProtocolError),
    }
}

/// Reads the answer to a post.
pub fn read_post_result(response: &Response) -> (outcome: Result<PostResult, Error>)
    ensures
        outcome matches Ok(p) ==> post_outcome(response@) == Ok::<PostResultView, Error>(p@),
        outcome matches Err(e) ==> post_outcome(response@) == Err::<PostResultView, Error>(e),
{
    if !is_accepted(response.status) {
        return Err(Error::AuthRejected);
    }
    match object_members(response.body.as_str()) {
        Some(members) => match post_result_from_members(&members) {
            Some(p) => Ok(p),
            None => Err(Error::ProtocolError),
        },
        None => Err(Error::ProtocolError),
    }
}

} // verus!
