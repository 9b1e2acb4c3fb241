//! The state file's content: the text that stands for a session, and the
//! session that a text stands for. Reading and writing the file itself is the
//! caller's part.
use vstd::prelude::*;
use crate::error::Error;
use crate::instance::valid_instance_url;
use crate::json::{
    find_text, json_object_members, json_quoted, members_view, object_members, quote, text_of,
    Member, MemberView,
};
use crate::session::{Session, SessionView};

verus! {

/// The text of the state file for a session: a JSON object with the members
/// `url`, `token` and `username`, in that order and without white space.
pub open spec fn session_text(s: SessionView) -> Seq<char> {
    "{\"url\":"@ + json_quoted(s.url) + ",\"token\":"@ + json_quoted(s.token) + ",\"username\":"@
        + json_quoted(s.username) + "}"@
}

/// The session that an object's members describe: the strings under `url`,
/// `token` and `username`, where all three are there and the address is one
/// that an instance can have. Other members are passed over.
pub open spec fn session_of_members(members: Seq<MemberView>) -> Option<SessionView> {
    match (text_of(members, "url"@), text_of(members, "token"@), text_of(members, "username"@)) {
        (Some(url), Some(token), Some(username)) => if valid_instance_url(url) {
            Some(SessionView { url, token, username })
        } else {
            None
        },
        _ => None,
    }
}

/// The session that the text of a state file describes.
pub open spec fn session_of_text(text: Seq<char>) -> Option<SessionView> {
    match json_object_members(text) {
        Some(members) => session_of_members(members),
        None => None,
    }
}

/// What reading the state file comes to: no session where there is no file,
/// the stored session where the file holds one, and `ConfigCorrupt` where it
/// holds anything else.
pub open spec fn loaded(content: Option<Seq<char>>) -> Result<Option<SessionView>, Error> {
    match content {
        None => Ok(None),
        Some(text) => match session_of_text(text) {
            Some(s) => Ok(Some(s)),
            None => Err(Error::ConfigCorrupt),
        },
    }
}

/// The text to store for `session`.
pub fn encode_session(session: &Session) -> (text: String)
    ensures
        text@ == session_text(session@),
{
    let mut text = String::new();
    text.append("{\"url\":");
    text.append(quote(session.url()).as_str());
    text.append(",\"token\":");
    text.append(quote(session.token()).as_str());
    text.append(",\"username\":");
    text.append(quote(session.username()).as_str());
    text.append("}");
    assert(text@ == session_text(session@)) by {
        assert(Seq::<char>::empty() + "{\"url\":"@ == "{\"url\":"@);
    }
    text
}

/// Whether the text stored for a session reads back as that session.
pub open spec fn reads_back(s: SessionView) -> bool {
    session_of_text(session_text(s)) == Some(s)
}

/// The text to store for `session`, handed out only where reading it back
/// gives the session again.
pub fn storable_text(session: &Session) -> (text: Option<String>)
    ensures
        text is Some <==> reads_back(session@),
        text matches Some(t) ==> t@ == session_text(session@),
{
    let text = encode_session(session);
    match decode_session(text.as_str()) {
        Ok(back) => if back.same_as(session) {
            Some(text)
        } else {
            None
        },
        Err(_) => None,
    }
}

/// The session that an object's members describe, or `ConfigCorrupt` where
/// they describe none.
pub fn session_from_members(members: &Vec<Member>) -> (outcome: Result<Session, Error>)
    ensures
        outcome matches Ok(s) ==> session_of_members(members_view(members@)) == Some(s@),
        outcome matches Err(e) ==> e == Error::ConfigCorrupt && session_of_members(
            members_view(members@),
        ) is None,
{
    let url = find_text(members, "url");
    let token = find_text(members, "token");
    let username = find_text(members, "username");
    match (url, token, username) {
        (Some(url), Some(token), Some(username)) => match Session::restore(url, token, username) {
            Some(session) => Ok(session),
            None => Err(Error::ConfigCorrupt),
        },
        _ => Err(Error::ConfigCorrupt),
    }
}

/// The session that the text of a state file describes, or `ConfigCorrupt`
/// where the text is not a JSON object with the three members as strings and
/// an address that an instance can have.
pub fn decode_session(text: &str) -> (outcome: Result<Session, Error>)
    ensures
        outcome matches Ok(s) ==> session_of_text(text@) == Some(s@),
        outcome matches Err(e) ==> e == Error::ConfigCorrupt && session_of_text(text@) is None,
{
    match object_members(text) {
        Some(members) => session_from_members(&members),
        None => Err(Error::ConfigCorrupt),
    }
}

/// What reading the state file comes to, given the file's text, or `None`
/// where there is no file.
pub fn load(content: Option<&str>) -> (outcome: Result<Option<Session>, Error>)
    ensures
        outcome matches Ok(Some(s)) ==> loaded(option_text(content)) == Ok::<
            Option<SessionView>,
            Error,
        >(Some(s@)),
        outcome matches Ok(None) ==> content is None,
        outcome matches Err(e) ==> loaded(option_text(content)) == Err::<
            Option<SessionView>,
            Error,
        >(e),
{
    match content {
        None => Ok(None),
        Some(text) => match decode_session(text) {
            Ok(session) => Ok(Some(session)),
            Err(e) => Err(e),
        },
    }
}

/// The text that an optional string slice holds.
pub open spec fn option_text(content: Option<&str>) -> Option<Seq<char>> {
    match content {
        Some(text) => Some(text@),
        None => None,
    }
}

/// Reading back the members that a session is stored as gives the session.
pub proof fn lemma_members_round_trip(s: SessionView)
    requires
        s.wf(),
    ensures
        session_of_members(
            seq![
                MemberView { name: "url"@, text: Some(s.url) },
                MemberView { name: "token"@, text: Some(s.token) },
                MemberView { name: "username"@, text: Some(s.username) },
            ],
        ) == Some(s),
{
    let members = seq![
        MemberView { name: "url"@, text: Some(s.url) },
        MemberView { name: "token"@, text: Some(s.token) },
        MemberView { name: "username"@, text: Some(s.username) },
    ];
    reveal_strlit("url");
    reveal_strlit("token");
    reveal_strlit("username");
    assert("url"@.len() == 3 && "token"@.len() == 5 && "username"@.len() == 8);
    let rest1 = members.drop_first();
    let rest2 = rest1.drop_first();
    assert(rest1[0] == members[1]);
    assert(rest2[0] == members[2]);
    reveal_with_fuel(text_of, 4);
    assert(text_of(members, "url"@) == Some(s.url));
    assert(text_of(members, "token"@) == Some(s.token));
    assert(text_of(members, "username"@) == Some(s.username));
}

} // verus!
