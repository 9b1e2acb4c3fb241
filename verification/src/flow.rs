//! One run as a state machine: each state names the action it waits for, and
//! each outcome of that action leads to the next state.
use vstd::prelude::*;
use crate::error::Error;
use crate::instance::valid_instance_url;
use crate::request::{
    build_registration_request, build_status_request, build_token_request, registration_request,
    status_request, token_request, PostRequest, PostRequestView, Request, RequestView,
};
use crate::response::{
    login_outcome, post_outcome, read_credentials, read_post_result, read_token,
    registration_outcome, PostResult, PostResultView, Response, ResponseView,
};
use crate::session::{ClientCredentials, ClientCredentialsView, Session, SessionView};
use crate::store::{decode_session, encode_session, loaded, reads_back, session_text, storable_text};
use crate::visibility::Visibility;

verus! {

/// The stages of a run.
#[derive(Clone, Copy, Debug, PartialEq, Eq, Structural)]
pub enum Phase {
    /// No session is known yet.
    Start,
    /// A session is known and it carries no token.
    Unauthenticated,
    /// A session with a token is known and not stored yet.
    Authenticated,
    /// The session is stored; a status can be published.
    Ready,
    /// The status is published.
    Done,
    /// The run has ended on an error.
    Failed,
}

/// What the world outside hands back to a run.
pub enum Event {
    /// The state file was looked for: its text, or `None` where there is no
    /// file.
    StateRead { content: Option<String> },
    /// The state file is there and could not be read as text.
    StateUnreadable,
    /// The user named the instance and the account.
    Identity { url: String, username: String },
    /// The user gave the password.
    Password { password: String },
    /// The instance answered the request.
    Reply { response: Response },
    /// The request got no answer: the instance could not be reached, or the
    /// time allowed for the call ran out.
    NoReply,
    /// The state file now holds the text.
    StateWritten,
    /// The state file could not be written and is as it was.
    WriteFailed,
    /// The user wrote a status and selected a position in the list of
    /// visibilities.
    Draft { text: String, choice: usize },
}

/// What an [`Event`] holds, as plain text.
pub enum EventView {
    StateRead { content: Option<Seq<char>> },
    StateUnreadable,
    Identity { url: Seq<char>, username: Seq<char> },
    Password { password: Seq<char> },
    Reply { response: ResponseView },
    NoReply,
    StateWritten,
    WriteFailed,
    Draft { text: Seq<char>, choice: usize },
}

impl View for Event {
    type V = EventView;

    open spec fn view(&self) -> EventView {
        match *self {
            Event::StateRead { content } => EventView::StateRead {
                content: match content {
                    Some(text) => Some(text@),
                    None => None,
                },
            },
            Event::StateUnreadable => EventView::StateUnreadable,
            Event::Identity { url, username } => EventView::Identity {
                url: url@,
                username: username@,
            },
            Event::Password { password } => EventView::Password { password: password@ },
            Event::Reply { response } => EventView::Reply { response: response@ },
            Event::NoReply => EventView::NoReply,
            Event::StateWritten => EventView::StateWritten,
            Event::WriteFailed => EventView::WriteFailed,
            Event::Draft { text, choice } => EventView::Draft { text: text@, choice },
        }
    }
}

/// What a run asks the world outside to do next.
pub enum Action {
    /// Look for the state file and read it.
    ReadState,
    /// Ask the user for the instance's address and the account's name.
    AskIdentity,
    /// Send the request that registers the client application.
    Register { request: Request },
    /// Ask the user for the password, without showing it.
    AskPassword,
    /// Send the request that exchanges the password for a token.
    Login { request: Request },
    /// Replace the state file's content with the text, in one step.
    WriteState { text: String },
    /// Ask the user for the status and its visibility.
    AskDraft,
    /// Send the request that publishes the status.
    Post { request: Request },
    /// Report the published status's address and end.
    Finish { result: PostResult },
    /// Report the error and end.
    Abort { error: Error },
}

/// What an [`Action`] holds, as plain text.
pub enum ActionView {
    ReadState,
    AskIdentity,
    Register { request: RequestView },
    AskPassword,
    Login { request: RequestView },
    WriteState { text: Seq<char> },
    AskDraft,
    Post { request: RequestView },
    Finish { result: PostResultView },
    Abort { error: Error },
}

impl View for Action {
    type V = ActionView;

    open spec fn view(&self) -> ActionView {
        match *self {
            Action::ReadState => ActionView::ReadState,
            Action::AskIdentity => ActionView::AskIdentity,
            Action::Register { request } => ActionView::Register { request: request@ },
            Action::AskPassword => ActionView::AskPassword,
            Action::Login { request } => ActionView::Login { request: request@ },
            Action::WriteState { text } => ActionView::WriteState { text: text@ },
            Action::AskDraft => ActionView::AskDraft,
            Action::Post { request } => ActionView::Post { request: request@ },
            Action::Finish { result } => ActionView::Finish { result: result@ },
            Action::Abort { error } => ActionView::Abort { error },
        }
    }
}

/// Where a run stands, as plain text. Each state waits for the outcome of one
/// action.
pub enum FlowView {
    /// Waiting for the state file.
    Start,
    /// There is no state file: waiting for the instance and the account.
    NeedIdentity,
    /// Waiting for the answer to the registration.
    Registering { session: SessionView },
    /// Registered: waiting for the password.
    NeedPassword { session: SessionView, credentials: ClientCredentialsView },
    /// Waiting for the answer to the login.
    LoggingIn { session: SessionView, credentials: ClientCredentialsView, password: Seq<char> },
    /// Logged in: waiting for the state file to be written.
    Saving { session: SessionView },
    /// Stored: waiting for the status.
    Drafting { session: SessionView },
    /// Waiting for the answer to the post.
    Posting { session: SessionView, post: PostRequestView },
    /// Published.
    Done { result: PostResultView },
    /// Ended on an error.
    Failed { error: Error },
}

/// The state that a run enters with a session that carries a token: the one in
/// which the session is stored, and `Failed` with `IOError` where the text to
/// store would not read back as the session.
pub open spec fn enter_authenticated(session: SessionView) -> FlowView {
    if reads_back(session) {
        FlowView::Saving { session }
    } else {
        FlowView::Failed { error: Error::IOError }
    }
}

/// The state that a run enters with a session it has just come to know:
/// straight to storing it where it carries a token, to the login otherwise.
pub open spec fn enter(session: SessionView) -> FlowView {
    if session.authenticated() {
        enter_authenticated(session)
    } else {
        FlowView::Registering { session }
    }
}

impl FlowView {
    /// The stage that this state belongs to.
    pub open spec fn phase(self) -> Phase {
        match self {
            FlowView::Start | FlowView::NeedIdentity => Phase::Start,
            FlowView::Registering { .. }
            | FlowView::NeedPassword { .. }
            | FlowView::LoggingIn { .. } => Phase::Unauthenticated,
            FlowView::Saving { .. } => Phase::Authenticated,
            FlowView::Drafting { .. } | FlowView::Posting { .. } => Phase::Ready,
            FlowView::Done { .. } => Phase::Done,
            FlowView::Failed { .. } => Phase::Failed,
        }
    }

    /// The action whose outcome this state waits for.
    pub open spec fn action(self) -> ActionView {
        match self {
            FlowView::Start => ActionView::ReadState,
            FlowView::NeedIdentity => ActionView::AskIdentity,
            FlowView::Registering { session } => ActionView::Register {
                request: registration_request(session),
            },
            FlowView::NeedPassword { .. } => ActionView::AskPassword,
            FlowView::LoggingIn { session, credentials, password } => ActionView::Login {
                request: token_request(session, credentials, password),
            },
            FlowView::Saving { session } => ActionView::WriteState { text: session_text(session) },
            FlowView::Drafting { .. } => ActionView::AskDraft,
            FlowView::Posting { session, post } => ActionView::Post {
                request: status_request(session, post),
            },
            FlowView::Done { result } => ActionView::Finish { result },
            FlowView::Failed { error } => ActionView::Abort { error },
        }
    }

    /// The state after `event`. An event that is not an outcome of the state's
    /// action leaves the state as it is, and so do an address that no
    /// instance can have and a choice past the end of the list; `Done` and
    /// `Failed` are left by no event.
    pub open spec fn next(self, event: EventView) -> FlowView {
        match self {
            FlowView::Start => match event {
                EventView::StateRead { content } => match loaded(content) {
                    Ok(Some(session)) => enter(session),
                    Ok(None) => FlowView::NeedIdentity,
                    Err(error) => FlowView::Failed { error },
                },
                EventView::StateUnreadable => FlowView::Failed { error: Error::ConfigCorrupt },
                _ => self,
            },
            FlowView::NeedIdentity => match event {
                EventView::Identity { url, username } => if valid_instance_url(url) {
                    FlowView::Registering {
                        session: SessionView { url, token: Seq::<char>::empty(), username },
                    }
                } else {
                    self
                },
                _ => self,
            },
            FlowView::Registering { session } => match event {
                EventView::Reply { response } => match registration_outcome(response) {
                    Ok(credentials) => FlowView::NeedPassword { session, credentials },
                    Err(error) => FlowView::Failed { error },
                },
                EventView::NoReply => FlowView::Failed { error: Error::NetworkError },
                _ => self,
            },
            FlowView::NeedPassword { session, credentials } => match event {
                EventView::Password { password } => FlowView::LoggingIn {
                    session,
                    credentials,
                    password,
                },
                _ => self,
            },
            FlowView::LoggingIn { session, credentials, password } => match event {
                EventView::Reply { response } => match login_outcome(response) {
                    Ok(token) => enter_authenticated(session.with_token(token)),
                    Err(error) => FlowView::Failed { error },
                },
                EventView::NoReply => FlowView::Failed { error: Error::NetworkError },
                _ => self,
            },
            FlowView::Saving { session } => match event {
                EventView::StateWritten => FlowView::Drafting { session },
                EventView::WriteFailed => FlowView::Failed { error: Error::IOError },
                _ => self,
            },
            FlowView::Drafting { session } => match event {
                EventView::Draft { text, choice } => match Visibility::at(choice as int) {
                    Some(visibility) => FlowView::Posting {
                        session,
                        post: PostRequestView { text, visibility },
                    },
                    None => self,
                },
                _ => self,
            },
            FlowView::Posting { session, post } => match event {
                EventView::Reply { response } => match post_outcome(response) {
                    Ok(result) => FlowView::Done { result },
                    Err(error) => FlowView::Failed { error },
                },
                EventView::NoReply => FlowView::Failed { error: Error::NetworkError },
                _ => self,
            },
            FlowView::Done { .. } => self,
            FlowView::Failed { .. } => self,
        }
    }
}

/// Where a run stands. [`FlowView`] describes each state.
enum State {
    Start,
    NeedIdentity,
    Registering { session: Session },
    NeedPassword { session: Session, credentials: ClientCredentials },
    LoggingIn { session: Session, credentials: ClientCredentials, password: String },
    Saving { session: Session },
    Drafting { session: Session },
    Posting { session: Session, post: PostRequest },
    Done { result: PostResult },
    Failed { error: Error },
}

/// One run: it names the next action and takes the action's outcome. A run
/// starts in [`Flow::start`] and has its states from [`Flow::advance`] alone.
pub struct Flow {
    state: State,
}

impl View for Flow {
    type V = FlowView;

    closed spec fn view(&self) -> FlowView {
        match self.state {
            State::Start => FlowView::Start,
            State::NeedIdentity => FlowView::NeedIdentity,
            State::Registering { session } => FlowView::Registering { session: session@ },
            State::NeedPassword { session, credentials } => FlowView::NeedPassword {
                session: session@,
                credentials: credentials@,
            },
            State::LoggingIn { session, credentials, password } => FlowView::LoggingIn {
                session: session@,
                credentials: credentials@,
                password: password@,
            },
            State::Saving { session } => FlowView::Saving { session: session@ },
            State::Drafting { session } => FlowView::Drafting { session: session@ },
            State::Posting { session, post } => FlowView::Posting { session: session@, post: post@ },
            State::Done { result } => FlowView::Done { result: result@ },
            State::Failed { error } => FlowView::Failed { error },
        }
    }
}

/// The state that a run enters with a session that carries a token.
fn state_for_authenticated(session: Session) -> (state: State)
    ensures
        (Flow { state })@ == enter_authenticated(session@),
{
    match storable_text(&session) {
        Some(_) => State::Saving { session },
        None => State::Failed { error: Error::IOError },
    }
}

/// The state that a run enters with a session it has just come to know.
fn state_for(session: Session) -> (state: State)
    ensures
        (Flow { state })@ == enter(session@),
{
    if session.is_authenticated() {
        state_for_authenticated(session)
    } else {
        State::Registering { session }
    }
}

impl Flow {
    /// A run that has done nothing yet.
    pub fn start() -> (flow: Flow)
        ensures
            flow@ == FlowView::Start,
    {
        Flow { state: State::Start }
    }

    /// The stage that the run is in.
    pub fn phase(&self) -> (phase: Phase)
        ensures
            phase == self@.phase(),
    {
        match &self.state {
            State::Start => Phase::Start,
            State::NeedIdentity => Phase::Start,
            State::Registering { .. } => Phase::Unauthenticated,
            State::NeedPassword { .. } => Phase::Unauthenticated,
            State::LoggingIn { .. } => Phase::Unauthenticated,
            State::Saving { .. } => Phase::Authenticated,
            State::Drafting { .. } => Phase::Ready,
            State::Posting { .. } => Phase::Ready,
            State::Done { .. } => Phase::Done,
            State::Failed { .. } => Phase::Failed,
        }
    }

    /// Whether the run has ended, in `Done` or in `Failed`.
    pub fn is_finished(&self) -> (finished: bool)
        ensures
            finished == (self@ is Done || self@ is Failed),
    {
        match &self.state {
            State::Done { .. } => true,
            State::Failed { .. } => true,
            _ => false,
        }
    }

    /// The action whose outcome the run waits for.
    pub fn action(&self) -> (action: Action)
        ensures
            action@ == self@.action(),
    {
        match &self.state {
            State::Start => Action::ReadState,
            State::NeedIdentity => Action::AskIdentity,
            State::Registering { session } => Action::Register {
                request: build_registration_request(session),
            },
            State::NeedPassword { .. } => Action::AskPassword,
            State::LoggingIn { session, credentials, password } => Action::Login {
                request: build_token_request(session, credentials, password.as_str()),
            },
            State::Saving { session } => Action::WriteState { text: encode_session(session) },
            State::Drafting { .. } => Action::AskDraft,
            State::Posting { session, post } => Action::Post {
                request: build_status_request(session, post),
            },
            State::Done { result } => Action::Finish {
                result: PostResult { url: result.url.clone() },
            },
            State::Failed { error } => Action::Abort { error: *error },
        }
    }

    /// The run after `event`.
    pub fn advance(self, event: Event) -> (flow: Flow)
        ensures
            flow@ == self@.next(event@),
    {
        let state = match self.state {
            State::Start => match event {
                Event::StateRead { content } => match content {
                    None => State::NeedIdentity,
                    Some(text) => match decode_session(text.as_str()) {
                        Ok(session) => state_for(session),
                        Err(error) => State::Failed { error },
                    },
                },
                Event::StateUnreadable => State::Failed { error: Error::ConfigCorrupt },
                _ => State::Start,
            },
            State::NeedIdentity => match event {
                Event::Identity { url, username } => match Session::new(url, username) {
                    Some(session) => State::Registering { session },
                    None => State::NeedIdentity,
                },
                _ => State::NeedIdentity,
            },
            State::Registering { session } => match event {
                Event::Reply { response } => match read_credentials(&response) {
                    Ok(credentials) => State::NeedPassword { session, credentials },
                    Err(error) => State::Failed { error },
                },
                Event::NoReply => State::Failed { error: Error::NetworkError },
                _ => State::Registering { session },
            },
            State::NeedPassword { session, credentials } => match event {
                Event::Password { password } => State::LoggingIn { session, credentials, password },
                _ => State::NeedPassword { session, credentials },
            },
            State::LoggingIn { session, credentials, password } => match event {
                Event::Reply { response } => match read_token(&response) {
                    Ok(token) => state_for_authenticated(session.with_token(token)),
                    Err(error) => State::Failed { error },
                },
                Event::NoReply => State::Failed { error: Error::NetworkError },
                _ => State::LoggingIn { session, credentials, password },
            },
            State::Saving { session } => match event {
                Event::StateWritten => State::Drafting { session },
                Event::WriteFailed => State::Failed { error: Error::IOError },
                _ => State::Saving { session },
            },
            State::Drafting { session } => match event {
                Event::Draft { text, choice } => match Visibility::from_index(choice) {
                    Some(visibility) => State::Posting {
                        session,
                        post: PostRequest { text, visibility },
                    },
                    None => State::Drafting { session },
                },
                _ => State::Drafting { session },
            },
            State::Posting { session, post } => match event {
                Event::Reply { response } => match read_post_result(&response) {
                    Ok(result) => State::Done { result },
                    Err(error) => State::Failed { error },
                },
                Event::NoReply => State::Failed { error: Error::NetworkError },
                _ => State::Posting { session, post },
            },
            State::Done { result } => State::Done { result },
            State::Failed { error } => State::Failed { error },
        };
        Flow { state }
    }
}

} // verus!
