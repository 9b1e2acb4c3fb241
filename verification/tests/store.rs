use fedirust::error::Error;
use fedirust::instance::{is_valid_instance_url, resolve, Endpoint};
use fedirust::json::{find_text, Member};
use fedirust::session::Session;
use fedirust::store::{decode_session, encode_session, load, session_from_members, storable_text};

fn session(url: &str, token: &str, username: &str) -> Session {
    Session::restore(url.to_string(), token.to_string(), username.to_string()).unwrap()
}

fn member(name: &str, text: Option<&str>) -> Member {
    Member { name: name.to_string(), text: text.map(String::from) }
}

#[test]
fn address_with_scheme_and_host_is_valid() {
    assert!(is_valid_instance_url("https://example.social"));
    assert!(is_valid_instance_url("http://localhost:3000/"));
}

#[test]
fn address_without_scheme_is_invalid() {
    assert!(!is_valid_instance_url("example.social"));
    assert!(!is_valid_instance_url("/api/v1/apps"));
    assert!(!is_valid_instance_url(""));
}

#[test]
fn address_without_host_is_invalid() {
    assert!(!is_valid_instance_url("mailto:alice@example.social"));
    assert!(!is_valid_instance_url("data:text/plain,hello"));
}

#[test]
fn endpoints_of_an_instance() {
    let base = "https://example.social";
    assert_eq!(resolve(base, Endpoint::Apps).unwrap(), "https://example.social/api/v1/apps");
    assert_eq!(resolve(base, Endpoint::Token).unwrap(), "https://example.social/oauth/token");
    assert_eq!(
        resolve(base, Endpoint::Statuses).unwrap(),
        "https://example.social/api/v1/statuses"
    );
}

#[test]
fn endpoint_replaces_the_path_of_the_address() {
    assert_eq!(
        resolve("https://example.social/some/where?x=1", Endpoint::Token).unwrap(),
        "https://example.social/oauth/token"
    );
}

#[test]
fn endpoint_of_no_url_is_nothing() {
    assert_eq!(resolve("not a url", Endpoint::Apps), None);
    assert_eq!(resolve("mailto:alice@example.social", Endpoint::Apps), None);
}

#[test]
fn endpoint_paths() {
    assert_eq!(Endpoint::Apps.as_path(), "/api/v1/apps");
    assert_eq!(Endpoint::Token.as_path(), "/oauth/token");
    assert_eq!(Endpoint::Statuses.as_path(), "/api/v1/statuses");
}

#[test]
fn new_session_has_no_token() {
    let s = Session::new("https://example.social".to_string(), "alice".to_string()).unwrap();
    assert_eq!(s.url(), "https://example.social");
    assert_eq!(s.token(), "");
    assert_eq!(s.username(), "alice");
    assert!(!s.is_authenticated());
}

#[test]
fn session_needs_a_valid_address() {
    assert!(Session::new("example.social".to_string(), "alice".to_string()).is_none());
    assert!(Session::restore("".to_string(), "T".to_string(), "alice".to_string()).is_none());
}

#[test]
fn with_token_logs_the_session_in() {
    let s = session("https://example.social", "", "alice").with_token("T1".to_string());
    assert!(s.is_authenticated());
    assert_eq!(s.token(), "T1");
    assert_eq!(s.url(), "https://example.social");
    assert_eq!(s.username(), "alice");
}

#[test]
fn sessions_compare_by_their_three_values() {
    let a = session("https://example.social", "T1", "alice");
    assert!(a.same_as(&a.duplicate()));
    assert!(!a.same_as(&session("https://example.social", "T2", "alice")));
    assert!(!a.same_as(&session("https://example.social", "T1", "bob")));
    assert!(!a.same_as(&session("https://other.social", "T1", "alice")));
}

#[test]
fn stored_text_is_one_compact_object() {
    let s = session("https://example.social", "T1", "alice");
    assert_eq!(
        encode_session(&s),
        "{\"url\":\"https://example.social\",\"token\":\"T1\",\"username\":\"alice\"}"
    );
}

#[test]
fn stored_text_with_empty_token() {
    let s = session("https://example.social", "", "alice");
    assert_eq!(
        encode_session(&s),
        "{\"url\":\"https://example.social\",\"token\":\"\",\"username\":\"alice\"}"
    );
}

#[test]
fn stored_text_escapes_quotes_backslashes_and_controls() {
    let s = session("https://example.social", "a\"b\\c", "x\ny\tz\u{1}\u{8}\u{c}\r\u{1f}");
    assert_eq!(
        encode_session(&s),
        "{\"url\":\"https://example.social\",\"token\":\"a\\\"b\\\\c\",\"username\":\"x\\ny\\tz\\u0001\\b\\f\\r\\u001f\"}"
    );
}

#[test]
fn stored_text_keeps_other_characters() {
    let s = session("https://example.social", "T/1", "\u{e9}l\u{e8}ve \u{1f600}\u{7f}");
    assert_eq!(
        encode_session(&s),
        "{\"url\":\"https://example.social\",\"token\":\"T/1\",\"username\":\"\u{e9}l\u{e8}ve \u{1f600}\u{7f}\"}"
    );
}

#[test]
fn decode_reads_the_three_members() {
    let s = decode_session(
        "{\"url\":\"https://example.social\",\"token\":\"T1\",\"username\":\"alice\"}",
    )
    .unwrap();
    assert_eq!(s.url(), "https://example.social");
    assert_eq!(s.token(), "T1");
    assert_eq!(s.username(), "alice");
}

#[test]
fn decode_allows_white_space_and_any_order() {
    let s = decode_session(
        " { \"username\" : \"alice\",\n \"token\" : \"\",\n \"url\" : \"https://example.social\" } ",
    )
    .unwrap();
    assert_eq!(s.url(), "https://example.social");
    assert_eq!(s.token(), "");
    assert_eq!(s.username(), "alice");
}

#[test]
fn decode_passes_over_other_members() {
    let s = decode_session(
        "{\"url\":\"https://example.social\",\"token\":\"T1\",\"username\":\"alice\",\"extra\":[1,2]}",
    )
    .unwrap();
    assert_eq!(s.token(), "T1");
}

#[test]
fn decode_rejects_text_that_is_not_json() {
    assert_eq!(decode_session("").err(), Some(Error::ConfigCorrupt));
    assert_eq!(decode_session("{").err(), Some(Error::ConfigCorrupt));
    assert_eq!(decode_session("url=https://example.social").err(), Some(Error::ConfigCorrupt));
    assert_eq!(
        decode_session(
            "{\"url\":\"https://example.social\",\"token\":\"T1\",\"username\":\"alice\"} x"
        )
        .err(),
        Some(Error::ConfigCorrupt)
    );
}

#[test]
fn decode_rejects_json_that_is_no_object() {
    assert_eq!(
        decode_session("[\"https://example.social\",\"T1\",\"alice\"]").err(),
        Some(Error::ConfigCorrupt)
    );
    assert_eq!(decode_session("\"text\"").err(), Some(Error::ConfigCorrupt));
    assert_eq!(decode_session("null").err(), Some(Error::ConfigCorrupt));
}

#[test]
fn decode_rejects_a_missing_member() {
    assert_eq!(
        decode_session("{\"url\":\"https://example.social\",\"token\":\"T1\"}").err(),
        Some(Error::ConfigCorrupt)
    );
    assert_eq!(
        decode_session("{\"token\":\"T1\",\"username\":\"alice\"}").err(),
        Some(Error::ConfigCorrupt)
    );
    assert_eq!(decode_session("{}").err(), Some(Error::ConfigCorrupt));
}

#[test]
fn decode_rejects_a_member_that_is_no_string() {
    assert_eq!(
        decode_session("{\"url\":\"https://example.social\",\"token\":null,\"username\":\"alice\"}")
            .err(),
        Some(Error::ConfigCorrupt)
    );
    assert_eq!(
        decode_session("{\"url\":\"https://example.social\",\"token\":\"T1\",\"username\":7}")
            .err(),
        Some(Error::ConfigCorrupt)
    );
}

#[test]
fn decode_rejects_an_address_that_is_no_url() {
    assert_eq!(
        decode_session("{\"url\":\"example.social\",\"token\":\"T1\",\"username\":\"alice\"}")
            .err(),
        Some(Error::ConfigCorrupt)
    );
}

#[test]
fn load_without_a_file_is_no_session() {
    assert!(matches!(load(None), Ok(None)));
}

#[test]
fn load_with_a_file_is_its_session_or_corrupt() {
    let text = "{\"url\":\"https://example.social\",\"token\":\"T1\",\"username\":\"alice\"}";
    let s = load(Some(text)).unwrap().unwrap();
    assert_eq!(s.token(), "T1");
    assert_eq!(load(Some("garbage")).err(), Some(Error::ConfigCorrupt));
}

#[test]
fn what_is_saved_is_what_is_loaded() {
    let sessions = [
        session("https://example.social", "T1", "alice"),
        session("https://example.social", "", "alice"),
        session("http://localhost:3000/x?y=z#f", "a\"b\\c\n\u{0}\u{1f}", "\u{e9}\u{1f600} \"q\""),
        session("https://example.social", "{\"url\":\"x\"}", "}{,:"),
    ];
    for s in sessions.iter() {
        let text = encode_session(s);
        let back = load(Some(text.as_str())).unwrap().unwrap();
        assert!(back.same_as(s));
        assert_eq!(storable_text(s), Some(text));
    }
}

#[test]
fn find_text_takes_the_first_member_of_the_name() {
    let members = vec![
        member("a", Some("1")),
        member("b", None),
        member("c", Some("3")),
        member("a", Some("4")),
        member("b", Some("5")),
    ];
    assert_eq!(find_text(&members, "a"), Some("1".to_string()));
    assert_eq!(find_text(&members, "b"), None);
    assert_eq!(find_text(&members, "c"), Some("3".to_string()));
    assert_eq!(find_text(&members, "d"), None);
    assert_eq!(find_text(&Vec::new(), "a"), None);
}

#[test]
fn session_from_members_needs_all_three_strings() {
    let full = vec![
        member("url", Some("https://example.social")),
        member("token", Some("T1")),
        member("username", Some("alice")),
    ];
    let s = session_from_members(&full).unwrap();
    assert!(s.same_as(&session("https://example.social", "T1", "alice")));
    let partial = vec![member("url", Some("https://example.social")), member("token", Some("T1"))];
    assert_eq!(session_from_members(&partial).err(), Some(Error::ConfigCorrupt));
    let wrong = vec![
        member("url", Some("https://example.social")),
        member("token", None),
        member("username", Some("alice")),
    ];
    assert_eq!(session_from_members(&wrong).err(), Some(Error::ConfigCorrupt));
    let no_url = vec![
        member("url", Some("nowhere")),
        member("token", Some("T1")),
        member("username", Some("alice")),
    ];
    assert_eq!(session_from_members(&no_url).err(), Some(Error::ConfigCorrupt));
}
