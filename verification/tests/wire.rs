use fedirust::error::Error;
use fedirust::form::{encode_form, Field};
use fedirust::json::Member;
use fedirust::request::{
    build_registration_request, build_status_request, build_token_request, field, PostRequest,
    CLIENT_NAME, GRANT_TYPE, REDIRECT_URI, SCOPES,
};
use fedirust::response::{
    credentials_from_members, is_accepted, post_result_from_members, read_credentials,
    read_post_result, read_token, token_from_members, Response,
};
use fedirust::session::{ClientCredentials, Session};
use fedirust::visibility::Visibility;

fn session(token: &str) -> Session {
    Session::restore(
        "https://example.social".to_string(),
        token.to_string(),
        "alice".to_string(),
    )
    .unwrap()
}

fn pairs(fields: &Vec<Field>) -> Vec<(String, String)> {
    fields.iter().map(|f| (f.name.clone(), f.value.clone())).collect()
}

fn pair(name: &str, value: &str) -> (String, String) {
    (name.to_string(), value.to_string())
}

fn reply(status: u16, body: &str) -> Response {
    Response { status, body: body.to_string() }
}

fn member(name: &str, text: Option<&str>) -> Member {
    Member { name: name.to_string(), text: text.map(String::from) }
}

#[test]
fn form_of_no_fields_is_empty() {
    assert_eq!(encode_form(&Vec::new()), "");
}

#[test]
fn form_of_one_field() {
    assert_eq!(encode_form(&vec![field("status", "hello")]), "status=hello");
}

#[test]
fn form_joins_fields_with_ampersands() {
    assert_eq!(
        encode_form(&vec![field("a", "1"), field("b", "2"), field("c", "3")]),
        "a=1&b=2&c=3"
    );
}

#[test]
fn form_writes_space_as_plus() {
    assert_eq!(encode_form(&vec![field("scopes", "read write follow")]), "scopes=read+write+follow");
}

#[test]
fn form_leaves_letters_digits_and_four_marks() {
    assert_eq!(
        encode_form(&vec![field("k", "AZaz09*-._")]),
        "k=AZaz09*-._"
    );
}

#[test]
fn form_escapes_other_bytes_in_upper_case_hex() {
    assert_eq!(
        encode_form(&vec![field("k", "a&b=c+d%e/f:g~h\n\u{0}")]),
        "k=a%26b%3Dc%2Bd%25e%2Ff%3Ag%7Eh%0A%00"
    );
    assert_eq!(
        encode_form(&vec![field("redirect_uris", "urn:ietf:wg:oauth:2.0:oob")]),
        "redirect_uris=urn%3Aietf%3Awg%3Aoauth%3A2.0%3Aoob"
    );
}

#[test]
fn form_escapes_each_byte_of_a_character() {
    assert_eq!(encode_form(&vec![field("n\u{e9}", "\u{1f600}")]), "n%C3%A9=%F0%9F%98%80");
}

#[test]
fn form_of_empty_name_and_value() {
    assert_eq!(encode_form(&vec![field("", ""), field("", "")]), "=&=");
}

#[test]
fn registration_request_names_the_client() {
    let request = build_registration_request(&session(""));
    assert_eq!(request.url, "https://example.social/api/v1/apps");
    assert_eq!(request.authorization, None);
    assert_eq!(
        pairs(&request.fields),
        vec![
            pair("client_name", "fedirust"),
            pair("redirect_uris", "urn:ietf:wg:oauth:2.0:oob"),
            pair("scopes", "read write follow"),
        ]
    );
    assert_eq!(
        request.body(),
        "client_name=fedirust&redirect_uris=urn%3Aietf%3Awg%3Aoauth%3A2.0%3Aoob&scopes=read+write+follow"
    );
}

#[test]
fn fixed_values_of_the_client() {
    assert_eq!(CLIENT_NAME, "fedirust");
    assert_eq!(REDIRECT_URI, "urn:ietf:wg:oauth:2.0:oob");
    assert_eq!(SCOPES, "read write follow");
    assert_eq!(GRANT_TYPE, "password");
}

#[test]
fn token_request_carries_the_password_grant() {
    let credentials =
        ClientCredentials { client_id: "C1".to_string(), client_secret: "S1".to_string() };
    let request = build_token_request(&session(""), &credentials, "p");
    assert_eq!(request.url, "https://example.social/oauth/token");
    assert_eq!(request.authorization, None);
    assert_eq!(
        pairs(&request.fields),
        vec![
            pair("client_id", "C1"),
            pair("client_secret", "S1"),
            pair("username", "alice"),
            pair("password", "p"),
            pair("grant_type", "password"),
            pair("scope", "read write follow"),
        ]
    );
    assert_eq!(
        request.body(),
        "client_id=C1&client_secret=S1&username=alice&password=p&grant_type=password&scope=read+write+follow"
    );
}

#[test]
fn status_request_bears_the_token() {
    let post = PostRequest { text: "hello".to_string(), visibility: Visibility::Public };
    let request = build_status_request(&session("T1"), &post);
    assert_eq!(request.url, "https://example.social/api/v1/statuses");
    assert_eq!(request.authorization, Some("Bearer T1".to_string()));
    assert_eq!(pairs(&request.fields), vec![pair("visibility", "public"), pair("status", "hello")]);
    assert_eq!(request.body(), "visibility=public&status=hello");
}

#[test]
fn status_request_for_each_visibility() {
    for (v, word) in [
        (Visibility::Public, "public"),
        (Visibility::Unlisted, "unlisted"),
        (Visibility::Private, "private"),
    ] {
        let post = PostRequest { text: "a b".to_string(), visibility: v };
        let request = build_status_request(&session("T1"), &post);
        assert_eq!(request.body(), format!("visibility={}&status=a+b", word));
    }
}

#[test]
fn success_is_two_hundred_to_two_ninety_nine() {
    assert!(!is_accepted(0));
    assert!(!is_accepted(199));
    assert!(is_accepted(200));
    assert!(is_accepted(201));
    assert!(is_accepted(299));
    assert!(!is_accepted(300));
    assert!(!is_accepted(401));
    assert!(!is_accepted(500));
    assert!(!is_accepted(u16::MAX));
}

#[test]
fn registration_answer_holds_the_credentials() {
    let c = read_credentials(&reply(
        200,
        "{\"id\":\"7\",\"client_id\":\"C1\",\"client_secret\":\"S1\",\"name\":\"fedirust\"}",
    ))
    .ok()
    .unwrap();
    assert_eq!(c.client_id, "C1");
    assert_eq!(c.client_secret, "S1");
}

#[test]
fn registration_refused_by_status() {
    let body = "{\"client_id\":\"C1\",\"client_secret\":\"S1\"}";
    assert_eq!(read_credentials(&reply(422, body)).err(), Some(Error::RegistrationFailed));
    assert_eq!(read_credentials(&reply(500, body)).err(), Some(Error::RegistrationFailed));
    assert_eq!(read_credentials(&reply(301, body)).err(), Some(Error::RegistrationFailed));
}

#[test]
fn registration_answer_malformed() {
    assert_eq!(read_credentials(&reply(200, "<html>")).err(), Some(Error::RegistrationFailed));
    assert_eq!(
        read_credentials(&reply(200, "{\"client_id\":\"C1\"}")).err(),
        Some(Error::RegistrationFailed)
    );
    assert_eq!(
        read_credentials(&reply(200, "{\"client_id\":1,\"client_secret\":\"S1\"}")).err(),
        Some(Error::RegistrationFailed)
    );
}

#[test]
fn login_answer_holds_the_token() {
    assert_eq!(
        read_token(&reply(200, "{\"access_token\":\"T1\",\"token_type\":\"Bearer\"}")).ok(),
        Some("T1".to_string())
    );
}

#[test]
fn login_rejected_by_status() {
    let body = "{\"access_token\":\"T1\"}";
    assert_eq!(read_token(&reply(401, body)).err(), Some(Error::AuthRejected));
    assert_eq!(read_token(&reply(400, body)).err(), Some(Error::AuthRejected));
    assert_eq!(read_token(&reply(403, "{\"error\":\"invalid_grant\"}")).err(), Some(Error::AuthRejected));
}

#[test]
fn login_answer_malformed() {
    assert_eq!(read_token(&reply(200, "")).err(), Some(Error::ProtocolError));
    assert_eq!(read_token(&reply(200, "{\"token\":\"T1\"}")).err(), Some(Error::ProtocolError));
    assert_eq!(read_token(&reply(200, "{\"access_token\":5}")).err(), Some(Error::ProtocolError));
}

#[test]
fn login_answer_with_empty_token_is_malformed() {
    assert_eq!(read_token(&reply(200, "{\"access_token\":\"\"}")).err(), Some(Error::ProtocolError));
}

#[test]
fn post_answer_holds_the_address() {
    let result = read_post_result(&reply(
        200,
        "{\"id\":\"1\",\"url\":\"https://example.social/@alice/1\"}",
    ))
    .ok()
    .unwrap();
    assert_eq!(result.url, "https://example.social/@alice/1");
}

#[test]
fn post_rejected_by_status() {
    assert_eq!(
        read_post_result(&reply(401, "{\"error\":\"The access token is invalid\"}")).err(),
        Some(Error::AuthRejected)
    );
    assert_eq!(
        read_post_result(&reply(403, "{\"url\":\"https://example.social/@alice/1\"}")).err(),
        Some(Error::AuthRejected)
    );
}

#[test]
fn post_answer_malformed() {
    assert_eq!(read_post_result(&reply(200, "[]")).err(), Some(Error::ProtocolError));
    assert_eq!(read_post_result(&reply(200, "{\"uri\":\"x\"}")).err(), Some(Error::ProtocolError));
    assert_eq!(read_post_result(&reply(200, "{\"url\":null}")).err(), Some(Error::ProtocolError));
}

#[test]
fn answers_read_from_members() {
    let members = vec![
        member("client_id", Some("C1")),
        member("client_secret", Some("S1")),
        member("access_token", Some("T1")),
        member("url", Some("https://example.social/@alice/1")),
    ];
    let c = credentials_from_members(&members).unwrap();
    assert_eq!((c.client_id.as_str(), c.client_secret.as_str()), ("C1", "S1"));
    assert_eq!(token_from_members(&members), Some("T1".to_string()));
    assert_eq!(post_result_from_members(&members).unwrap().url, "https://example.social/@alice/1");
    let none = vec![member("client_id", Some("C1")), member("access_token", Some(""))];
    assert!(credentials_from_members(&none).is_none());
    assert_eq!(token_from_members(&none), None);
    assert!(post_result_from_members(&none).is_none());
}
