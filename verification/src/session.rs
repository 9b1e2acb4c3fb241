//! The session: where a user is logged in, and whether.
use vstd::prelude::*;
use crate::instance::{is_valid_instance_url, valid_instance_url};

verus! {

/// Where a user is logged in, and whether: the instance's address, the access
/// token and the user's name. An empty token means "not logged in"; any other
/// token is taken to be usable.
pub struct Session {
    url: String,
    token: String,
    username: String,
}

/// What a [`Session`] holds, as plain text.
pub struct SessionView {
    pub url: Seq<char>,
    pub token: Seq<char>,
    pub username: Seq<char>,
}

impl SessionView {
    /// The address is one that an instance can have.
    pub open spec fn wf(self) -> bool {
        valid_instance_url(self.url)
    }

    /// The session carries a token.
    pub open spec fn authenticated(self) -> bool {
        self.token.len() > 0
    }

    /// This session with `token` in place of its own.
    pub open spec fn with_token(self, token: Seq<char>) -> SessionView {
        SessionView { url: self.url, token, username: self.username }
    }
}

impl View for Session {
    type V = SessionView;

    closed spec fn view(&self) -> SessionView {
        SessionView { url: self.url@, token: self.token@, username: self.username@ }
    }
}

impl Session {
    #[verifier::type_invariant]
    pub open spec fn well_formed(&self) -> bool {
        self@.wf()
    }

    /// A session that is not logged in yet; `None` where `url` cannot be an
    /// instance's address.
    pub fn new(url: String, username: String) -> (made: Option<Session>)
        ensures
            made is Some <==> valid_instance_url(url@),
            made matches Some(s) ==> s@ == (SessionView {
                url: url@,
                token: Seq::<char>::empty(),
                username: username@,
            }),
    {
        Session::restore(url, String::new(), username)
    }

    /// The session that the three stored values describe; `None` where `url`
    /// cannot be an instance's address.
    pub fn restore(url: String, token: String, username: String) -> (made: Option<Session>)
        ensures
            made is Some <==> valid_instance_url(url@),
            made matches Some(s) ==> s@ == (SessionView {
                url: url@,
                token: token@,
                username: username@,
            }),
    {
        if is_valid_instance_url(url.as_str()) {
            Some(Session { url, token, username })
        } else {
            None
        }
    }

    /// Whether the session carries a token.
    pub fn is_authenticated(&self) -> (yes: bool)
        ensures
            yes == self@.authenticated(),
    {
        !self.token.as_str().is_empty()
    }

    /// This session, logged in with `token`.
    pub fn with_token(self, token: String) -> (updated: Session)
        ensures
            updated@ == self@.with_token(token@),
    {
        proof {
            use_type_invariant(&self);
        }
        Session { url: self.url, token, username: self.username }
    }

    /// The instance's address.
    pub fn url(&self) -> (text: &str)
        ensures
            text@ == self@.url,
            valid_instance_url(text@),
    {
        proof {
            use_type_invariant(self);
        }
        self.url.as_str()
    }

    /// The access token; empty while not logged in.
    pub fn token(&self) -> (text: &str)
        ensures
            text@ == self@.token,
    {
        self.token.as_str()
    }

    /// The user's name on the instance.
    pub fn username(&self) -> (text: &str)
        ensures
            text@ == self@.username,
    {
        self.username.as_str()
    }

    /// Whether the two sessions hold the same three values.
    pub fn same_as(&self, other: &Session) -> (same: bool)
        ensures
            same == (self@ == other@),
    {
        self.url == other.url && self.token == other.token && self.username == other.username
    }

    /// A copy of this session.
    pub fn duplicate(&self) -> (copy: Session)
        ensures
            copy@ == self@,
    {
        proof {
            use_type_invariant(self);
        }
        Session {
            url: self.url.clone(),
            token: self.token.clone(),
            username: self.username.clone(),
        }
    }
}

/// The client application's identity on an instance, as the instance issued
/// it. It serves one login and is not kept.
pub struct ClientCredentials {
    pub client_id: String,
    pub client_secret: String,
}

/// What [`ClientCredentials`] hold, as plain text.
pub struct ClientCredentialsView {
    pub client_id: Seq<char>,
    pub client_secret: Seq<char>,
}

impl View for ClientCredentials {
    type V = ClientCredentialsView;

    open spec fn view(&self) -> ClientCredentialsView {
        ClientCredentialsView { client_id: self.client_id@, client_secret: self.client_secret@ }
    }
}

} // verus!
