//! The three requests that a run sends to an instance.
use vstd::prelude::*;
use crate::form::{encode_form, fields_view, form_body, Field, FieldView};
use crate::instance::{endpoint_address, resolve, Endpoint};
use crate::session::{ClientCredentials, ClientCredentialsView, Session, SessionView};
use crate::visibility::Visibility;

verus! {

/// The name under which the client application registers.
pub const CLIENT_NAME: &'static str = "fedirust";

/// The redirect address that stands for "hand the code to the user".
pub const REDIRECT_URI: &'static str = "urn:ietf:wg:oauth:2.0:oob";

/// The rights that the client application asks for.
pub const SCOPES: &'static str = "read write follow";

/// The kind of grant by which the token is asked for.
pub const GRANT_TYPE: &'static str = "password";

/// A `POST` to the instance with a form-encoded body.
pub struct Request {
    /// The full address to send to.
    pub url: String,
    /// The value of the `Authorization` header, where the request has one.
    pub authorization: Option<String>,
    /// The form's fields, in the order in which they are sent.
    pub fields: Vec<Field>,
}

/// What a [`Request`] holds, as plain text.
pub struct RequestView {
    pub url: Seq<char>,
    pub authorization: Option<Seq<char>>,
    pub fields: Seq<FieldView>,
}

impl View for Request {
    type V = RequestView;

    open spec fn view(&self) -> RequestView {
        RequestView {
            url: self.url@,
            authorization: match self.authorization {
                Some(a) => Some(a@),
                None => None,
            },
            fields: fields_view(self.fields@),
        }
    }
}

impl RequestView {
    /// The body that carries the request's fields.
    pub open spec fn body(self) -> Seq<char> {
        form_body(self.fields)
    }
}

impl Request {
    /// The form-encoded body to send.
    pub fn body(&self) -> (body: String)
        ensures
            body@ == self@.body(),
    {
        encode_form(&self.fields)
    }
}

/// A status to publish.
pub struct PostRequest {
    pub text: String,
    pub visibility: Visibility,
}

/// What a [`PostRequest`] holds, as plain text.
pub struct PostRequestView {
    pub text: Seq<char>,
    pub visibility: Visibility,
}

impl View for PostRequest {
    type V = PostRequestView;

    open spec fn view(&self) -> PostRequestView {
        PostRequestView { text: self.text@, visibility: self.visibility }
    }
}

/// The header value that presents `token` as a bearer credential.
pub open spec fn bearer(token: Seq<char>) -> Seq<char> {
    "Bearer "@ + token
}

/// The request that registers the client application with the session's
/// instance.
pub open spec fn registration_request(s: SessionView) -> RequestView {
    RequestView {
        url: endpoint_address(s.url, Endpoint::Apps)->Some_0,
        authorization: None,
        fields: seq![
            FieldView { name: "client_name"@, value: CLIENT_NAME@ },
            FieldView { name: "redirect_uris"@, value: REDIRECT_URI@ },
            FieldView { name: "scopes"@, value: SCOPES@ },
        ],
    }
}

/// The request that exchanges the user's name and password, with the client's
/// credentials, for an access token.
pub open spec fn token_request(
    s: SessionView,
    c: ClientCredentialsView,
    password: Seq<char>,
) -> RequestView {
    RequestView {
        url: endpoint_address(s.url, Endpoint::Token)->Some_0,
        authorization: None,
        fields: seq![
            FieldView { name: "client_id"@, value: c.client_id },
            FieldView { name: "client_secret"@, value: c.client_secret },
            FieldView { name: "username"@, value: s.username },
            FieldView { name: "password"@, value: password },
            FieldView { name: "grant_type"@, value: GRANT_TYPE@ },
            FieldView { name: "scope"@, value: SCOPES@ },
        ],
    }
}

/// The request that publishes a status under the session's token.
pub open spec fn status_request(s: SessionView, p: PostRequestView) -> RequestView {
    RequestView {
        url: endpoint_address(s.url, Endpoint::Statuses)->Some_0,
        authorization: Some(bearer(s.token)),
        fields: seq![
            FieldView { name: "visibility"@, value: p.visibility.label() },
            FieldView { name: "status"@, value: p.text },
        ],
    }
}

/// A field with the given name and value.
pub fn field(name: &str, value: &str) -> (made: Field)
    ensures
        made@ == (FieldView { name: name@, value: value@ }),
{
    Field { name: name.to_owned(), value: value.to_owned() }
}

/// The request that registers the client application with the session's
/// instance.
pub fn build_registration_request(session: &Session) -> (request: Request)
    ensures
        request@ == registration_request(session@),
{
    let url = resolve(session.url(), Endpoint::Apps).unwrap();
    let mut fields: Vec<Field> = Vec::new();
    fields.push(field("client_name", CLIENT_NAME));
    fields.push(field("redirect_uris", REDIRECT_URI));
    fields.push(field("scopes", SCOPES));
    assert(fields_view(fields@) == registration_request(session@).fields);
    Request { url, authorization: None, fields }
}

/// The request that exchanges the user's name and password, with the client's
/// credentials, for an access token.
pub fn build_token_request(
    session: &Session,
    credentials: &ClientCredentials,
    password: &str,
) -> (request: Request)
    ensures
        request@ == token_request(session@, credentials@, password@),
{
    let url = resolve(session.url(), Endpoint::Token).unwrap();
    let mut fields: Vec<Field> = Vec::new();
    fields.push(field("client_id", credentials.client_id.as_str()));
    fields.push(field("client_secret", credentials.client_secret.as_str()));
    fields.push(field("username", session.username()));
    fields.push(field("password", password));
    fields.push(field("grant_type", GRANT_TYPE));
    fields.push(field("scope", SCOPES));
    assert(fields_view(fields@) == token_request(session@, credentials@, password@).fields);
    Request { url, authorization: None, fields }
}

/// The request that publishes `post` under the session's token.
pub fn build_status_request(session: &Session, post: &PostRequest) -> (request: Request)
    ensures
        request@ == status_request(session@, post@),
{
    let url = resolve(session.url(), Endpoint::Statuses).unwrap();
    let mut authorization = String::new();
    authorization.append("Bearer ");
    authorization.append(session.token());
    assert(authorization@ == bearer(session@.token)) by {
        assert(Seq::<char>::empty() + "Bearer "@ == "Bearer "@);
    }
    let mut fields: Vec<Field> = Vec::new();
    fields.push(field("visibility", post.visibility.as_str()));
    fields.push(field("status", post.text.as_str()));
    assert(fields_view(fields@) == status_request(session@, post@).fields);
    Request { url, authorization: Some(authorization), fields }
}

} // verus!
