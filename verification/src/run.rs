//! What holds of every run, whatever events it is handed.
use vstd::prelude::*;
use crate::error::Error;
use crate::flow::{ActionView, EventView, FlowView};
use crate::request::bearer;
use crate::response::login_outcome;
use crate::session::SessionView;
use crate::store::{loaded, reads_back, session_text};

verus! {

/// The state of a run that has been handed `events`, in order.
pub open spec fn run(events: Seq<EventView>) -> FlowView
    decreases events.len(),
{
    if events.len() == 0 {
        FlowView::Start
    } else {
        run(events.drop_last()).next(events.last())
    }
}

/// The action that the run asks for after the first `k` of `events`.
pub open spec fn action_after(events: Seq<EventView>, k: int) -> ActionView {
    run(events.take(k)).action()
}

/// The run's first event is a state file that holds a session with a token.
pub open spec fn starts_logged_in(events: Seq<EventView>) -> bool {
    &&& events.len() > 0
    &&& events[0] matches EventView::StateRead { content }
    &&& loaded(content) matches Ok(Some(session))
    &&& session.authenticated()
}

/// The run's first event is a missing state file, or a state file that holds
/// a session without a token.
pub open spec fn starts_logged_out(events: Seq<EventView>) -> bool {
    &&& events.len() > 0
    &&& events[0] matches EventView::StateRead { content }
    &&& match loaded(content) {
        Ok(Some(session)) => !session.authenticated(),
        Ok(None) => true,
        Err(_) => false,
    }
}

/// What holds of the session in every state that a run can be in: its address
/// is valid; it carries a token exactly from the state on in which it is
/// stored; and a session that is stored reads back as itself.
pub open spec fn coherent(state: FlowView) -> bool {
    match state {
        FlowView::Registering { session } => session.wf() && !session.authenticated(),
        FlowView::NeedPassword { session, .. } => session.wf() && !session.authenticated(),
        FlowView::LoggingIn { session, .. } => session.wf() && !session.authenticated(),
        FlowView::Saving { session } => session.wf() && session.authenticated() && reads_back(
            session,
        ),
        FlowView::Drafting { session } => session.wf() && session.authenticated() && reads_back(
            session,
        ),
        FlowView::Posting { session, .. } => session.wf() && session.authenticated() && reads_back(
            session,
        ),
        _ => true,
    }
}

/// The states before a token is known.
pub open spec fn before_login(state: FlowView) -> bool {
    state is Start || state is NeedIdentity || state is Registering || state is NeedPassword
        || state is LoggingIn
}

/// How a prefix of the events relates to the prefixes around it.
proof fn lemma_take_prefix(events: Seq<EventView>, k: int)
    requires
        0 <= k < events.len(),
    ensures
        events.drop_last().take(k) == events.take(k),
        events.take(k + 1).drop_last() == events.take(k),
        events.take(k + 1).last() == events[k],
        events.take(events.len() as int) == events,
{
}

/// One more event: the run's state is the next state of the state before.
pub proof fn lemma_run_step(events: Seq<EventView>, k: int)
    requires
        0 <= k < events.len(),
    ensures
        run(events.take(k + 1)) == run(events.take(k)).next(events[k]),
{
    lemma_take_prefix(events, k);
}

/// A step keeps what holds of the session.
pub proof fn lemma_next_keeps_coherent(state: FlowView, event: EventView)
    requires
        coherent(state),
    ensures
        coherent(state.next(event)),
{
}

/// Every state that a run can be in is coherent.
pub proof fn lemma_run_coherent(events: Seq<EventView>)
    ensures
        coherent(run(events)),
    decreases events.len(),
{
    if events.len() > 0 {
        lemma_run_coherent(events.drop_last());
        lemma_next_keeps_coherent(run(events.drop_last()), events.last());
    }
}

/// Whatever a run writes to the state file is the text of a session with a
/// valid address and a token, and reading that text gives the same session:
/// the file never receives a partial session or one without a token, and
/// what was saved is what is loaded.
pub proof fn lemma_written_state_loads_back(events: Seq<EventView>, k: int)
    requires
        0 <= k <= events.len(),
        action_after(events, k) is WriteState,
    ensures
        run(events.take(k)) matches FlowView::Saving { session } && session.wf()
            && session.authenticated() && action_after(events, k) == (ActionView::WriteState {
            text: session_text(session),
        }) && loaded(Some(session_text(session))) == Ok::<Option<SessionView>, Error>(
            Some(session),
        ),
{
    lemma_run_coherent(events.take(k));
}

/// A run leaves `Done` and `Failed` by no event.
pub proof fn lemma_finished_stays(events: Seq<EventView>, k: int, m: int)
    requires
        0 <= k <= m <= events.len(),
        run(events.take(k)) is Done || run(events.take(k)) is Failed,
    ensures
        run(events.take(m)) == run(events.take(k)),
    decreases m - k,
{
    if k < m {
        lemma_finished_stays(events, k, m - 1);
        lemma_run_step(events, m - 1);
    }
}

/// A run that is before the login has been so since its start.
pub proof fn lemma_before_login_since_start(events: Seq<EventView>, k: int, m: int)
    requires
        0 <= m <= k <= events.len(),
        before_login(run(events.take(k))),
    ensures
        before_login(run(events.take(m))),
    decreases k - m,
{
    if m < k {
        lemma_run_step(events, k - 1);
        let earlier = run(events.take(k - 1));
        assert(before_login(earlier)) by {
            if !before_login(earlier) {
                assert(!before_login(earlier.next(events[k - 1])));
            }
        }
        lemma_before_login_since_start(events, k - 1, m);
    }
}

/// A run that starts from a state file with a token never asks to register,
/// to be given a password, to log in, or to be told the instance: from its
/// first event on it is storing, drafting, posting, or has ended.
pub proof fn lemma_logged_in_run_skips_login(events: Seq<EventView>, k: int)
    requires
        starts_logged_in(events),
        1 <= k <= events.len(),
    ensures
        !before_login(run(events.take(k))),
        !(action_after(events, k) is Register),
        !(action_after(events, k) is AskPassword),
        !(action_after(events, k) is Login),
        !(action_after(events, k) is AskIdentity),
    decreases k,
{
    if k == 1 {
        lemma_run_step(events, 0);
        assert(events.take(0) == Seq::<EventView>::empty());
        assert(run(events.take(0)) == FlowView::Start);
    } else {
        lemma_logged_in_run_skips_login(events, k - 1);
        lemma_run_step(events, k - 1);
    }
}

/// At `registered` the run asked to register, and later, at `logged_in`, it
/// asked to log in and the answer held the session's token.
pub open spec fn login_precedes(
    events: Seq<EventView>,
    session: SessionView,
    registered: int,
    logged_in: int,
) -> bool {
    &&& 0 <= registered < logged_in < events.len()
    &&& action_after(events, registered) is Register
    &&& action_after(events, logged_in) is Login
    &&& events[logged_in] matches EventView::Reply { response }
    &&& login_outcome(response) == Ok::<Seq<char>, Error>(session.token)
    &&& session.authenticated()
}

/// After the login at `logged_in`, the run asked at `saved` to write the
/// session's text and was told that it is written.
pub open spec fn save_precedes(
    events: Seq<EventView>,
    session: SessionView,
    logged_in: int,
    saved: int,
) -> bool {
    &&& logged_in < saved < events.len()
    &&& action_after(events, saved) == (ActionView::WriteState { text: session_text(session) })
    &&& events[saved] == EventView::StateWritten
}

/// The last event does not change what was asked for before it.
proof fn lemma_action_after_prefix(events: Seq<EventView>, k: int)
    requires
        events.len() > 0,
        0 <= k < events.len(),
    ensures
        action_after(events.drop_last(), k) == action_after(events, k),
{
    lemma_take_prefix(events, k);
}

/// The places of the registration, the login and the save in a run that
/// started logged out, as far as the run has come.
proof fn logged_out_history(events: Seq<EventView>) -> (at: (int, int, int))
    requires
        starts_logged_out(events),
    ensures
        !(run(events) is Start),
        run(events) is NeedPassword || run(events) is LoggingIn ==> 0 <= at.0 < events.len()
            && action_after(events, at.0) is Register,
        run(events) matches FlowView::Saving { session } ==> login_precedes(
            events,
            session,
            at.0,
            at.1,
        ),
        run(events) matches FlowView::Drafting { session } ==> login_precedes(
            events,
            session,
            at.0,
            at.1,
        ) && save_precedes(events, session, at.1, at.2),
        run(events) matches FlowView::Posting { session, .. } ==> login_precedes(
            events,
            session,
            at.0,
            at.1,
        ) && save_precedes(events, session, at.1, at.2),
    decreases events.len(),
{
    let n = events.len() as int;
    let earlier = events.drop_last();
    if n == 1 {
        assert(earlier == Seq::<EventView>::empty());
        assert(run(earlier) == FlowView::Start);
        (0, 0, 0)
    } else {
        assert(earlier[0] == events[0]);
        let before = logged_out_history(earlier);
        let state = run(earlier);
        lemma_run_coherent(earlier);
        assert(earlier == events.take(n - 1));
        assert forall|k: int| 0 <= k < n - 1 implies action_after(earlier, k) == action_after(
            events,
            k,
        ) by {
            lemma_action_after_prefix(events, k);
        }
        match state {
            FlowView::Registering { .. } => (n - 1, 0, 0),
            FlowView::LoggingIn { .. } => (before.0, n - 1, 0),
            FlowView::Saving { .. } => (before.0, before.1, n - 1),
            _ => before,
        }
    }
}

/// In a run that starts without a token (no state file, or one without a
/// token), a post is asked for only after the run asked to register, then
/// asked to log in and was answered with a token, then asked to write the
/// session with that token to the state file and was told that it is
/// written; and the post goes out under that token.
pub proof fn lemma_login_and_save_precede_post(events: Seq<EventView>)
    requires
        starts_logged_out(events),
        run(events).action() is Post,
    ensures
        run(events) matches FlowView::Posting { session, .. } && (exists|
            registered: int,
            logged_in: int,
            saved: int,
        |
            login_precedes(events, session, registered, logged_in) && save_precedes(
                events,
                session,
                logged_in,
                saved,
            )) && run(events).action()->Post_request.authorization == Some(bearer(session.token)),
{
    let at = logged_out_history(events);
    let session = run(events)->Posting_session;
    assert(login_precedes(events, session, at.0, at.1) && save_precedes(
        events,
        session,
        at.1,
        at.2,
    ));
}

/// A run that fails before it has a token writes nothing: where the login is
/// rejected or gets no answer (or the registration before it fails), no
/// action of the run, before the failure or after it, asks to write the state
/// file, so the file is absent or as it was.
pub proof fn lemma_failed_login_writes_nothing(events: Seq<EventView>, k: int, m: int)
    requires
        0 <= k < events.len(),
        before_login(run(events.take(k))),
        run(events.take(k + 1)) is Failed,
        0 <= m <= events.len(),
    ensures
        !(action_after(events, m) is WriteState),
{
    if m <= k {
        lemma_before_login_since_start(events, k, m);
    } else {
        lemma_finished_stays(events, k + 1, m);
    }
}

/// A run that has ended on an error asks for nothing but to report it: after
/// a failure, at whatever stage, nothing is sent and nothing is written.
pub proof fn lemma_failed_run_only_aborts(events: Seq<EventView>, k: int, m: int)
    requires
        0 <= k <= m <= events.len(),
        run(events.take(k)) matches FlowView::Failed { .. },
    ensures
        action_after(events, m) == (ActionView::Abort {
            error: run(events.take(k))->Failed_error,
        }),
{
    lemma_finished_stays(events, k, m);
}

} // verus!
