//! Whole runs: what holds of every sequence of events that a session may
//! be fed, whatever the network does.

use crate::error::{call_text, connect_text, status_error, CallErrorView, FailureView};
use crate::lifecycle::{
    accepts, answers, outcome, ActionView, EventView, PhaseView, SessionView, EXIT_FAILURE,
    EXIT_SUCCESS,
};
use vstd::prelude::*;

verus! {

/// The session after `events`, fed in order.
pub open spec fn after(session: SessionView, events: Seq<EventView>) -> SessionView
    decreases events.len(),
{
    if events.len() == 0 {
        session
    } else {
        after(session.advance(events[0]), events.drop_first())
    }
}

/// The actions that the session answers `events` with, in order. An event
/// that the session does not take adds none.
pub open spec fn transcript(session: SessionView, events: Seq<EventView>) -> Seq<ActionView>
    decreases events.len(),
{
    if events.len() == 0 {
        Seq::empty()
    } else {
        let rest = transcript(session.advance(events[0]), events.drop_first());
        if accepts(session.phase, events[0]) {
            seq![session.answer(events[0])] + rest
        } else {
            rest
        }
    }
}

/// How many of `actions` ask for a connect.
pub open spec fn connect_attempts(actions: Seq<ActionView>) -> nat
    decreases actions.len(),
{
    if actions.len() == 0 {
        0
    } else if actions[0] is Connect {
        1 + connect_attempts(actions.drop_first())
    } else {
        connect_attempts(actions.drop_first())
    }
}

/// How many of `actions` ask for a call.
pub open spec fn call_attempts(actions: Seq<ActionView>) -> nat
    decreases actions.len(),
{
    if actions.len() == 0 {
        0
    } else if actions[0] is Call {
        1 + call_attempts(actions.drop_first())
    } else {
        call_attempts(actions.drop_first())
    }
}

/// How far a run has come: every event that is taken moves it on by at
/// least one.
pub open spec fn progress(phase: PhaseView) -> nat {
    match phase {
        PhaseView::Init => 0,
        PhaseView::Connecting => 1,
        PhaseView::Connected => 2,
        PhaseView::Calling => 3,
        PhaseView::Succeeded(_) => 4,
        PhaseView::Failed(_) => 4,
        PhaseView::Terminated(_) => 5,
    }
}

/// The run has failed at the connect.
pub open spec fn connect_failed(phase: PhaseView) -> bool {
    match phase {
        PhaseView::Failed(FailureView::Connect(_)) => true,
        PhaseView::Terminated(Err(FailureView::Connect(_))) => true,
        _ => false,
    }
}

/// The call has been asked for.
pub open spec fn call_issued(phase: PhaseView) -> bool {
    match phase {
        PhaseView::Calling => true,
        PhaseView::Succeeded(_) => true,
        PhaseView::Failed(FailureView::Call(_)) => true,
        PhaseView::Terminated(Ok(_)) => true,
        PhaseView::Terminated(Err(FailureView::Call(_))) => true,
        _ => false,
    }
}

/// The event by which a caller reports what `result` records: the reply
/// with that `pong` text, or that failure of the connect or of the call.
pub open spec fn reported_by(result: Result<Seq<char>, FailureView>) -> EventView {
    match result {
        Ok(pong) => EventView::Replied(pong),
        Err(FailureView::Connect(cause)) => EventView::ConnectFailed(cause),
        Err(FailureView::Call(error)) => EventView::CallFailed(error),
    }
}

/// The events of a run in which the connect succeeds and the service
/// replies with `pong`.
pub open spec fn served(pong: Seq<char>) -> Seq<EventView> {
    seq![
        EventView::Continue,
        EventView::Connected,
        EventView::Continue,
        EventView::Replied(pong),
        EventView::Continue,
    ]
}

/// The events of a run in which the connect fails with `cause`.
pub open spec fn refused(cause: Seq<char>) -> Seq<EventView> {
    seq![EventView::Continue, EventView::ConnectFailed(cause), EventView::Continue]
}

/// The events of a run in which the connect succeeds and the call fails
/// with `error`.
pub open spec fn failed_call(error: CallErrorView) -> Seq<EventView> {
    seq![
        EventView::Continue,
        EventView::Connected,
        EventView::Continue,
        EventView::CallFailed(error),
        EventView::Continue,
    ]
}

proof fn lemma_attempts_prepend(action: ActionView, rest: Seq<ActionView>)
    ensures
        connect_attempts(seq![action] + rest) == connect_attempts(rest) + (if action is Connect {
            1nat
        } else {
            0nat
        }),
        call_attempts(seq![action] + rest) == call_attempts(rest) + (if action is Call {
            1nat
        } else {
            0nat
        }),
{
    let all = seq![action] + rest;
    assert(all.drop_first() =~= rest);
    assert(all[0] == action);
}

proof fn lemma_contains_later(events: Seq<EventView>, event: EventView)
    requires
        events.len() > 0,
        events[0] == event || events.drop_first().contains(event),
    ensures
        events.contains(event),
{
    if events[0] != event {
        let i = choose|i: int|
            0 <= i < events.drop_first().len() && events.drop_first()[i] == event;
        assert(events[i + 1] == event);
    }
}

proof fn lemma_origin(session: SessionView, events: Seq<EventView>)
    ensures
        outcome(session.phase) is Some ==> outcome(after(session, events).phase) == outcome(
            session.phase,
        ),
        outcome(session.phase) is None ==> (outcome(after(session, events).phase) matches Some(
            result,
        ) ==> events.contains(reported_by(result))),
        call_issued(after(session, events).phase) ==> call_issued(session.phase)
            || session.phase is Connected || events.contains(EventView::Connected),
    decreases events.len(),
{
    if events.len() > 0 {
        let next = session.advance(events[0]);
        lemma_origin(next, events.drop_first());
        if outcome(session.phase) is None {
            if let Some(result) = outcome(after(session, events).phase) {
                lemma_contains_later(events, reported_by(result));
            }
        }
        if call_issued(after(session, events).phase) && !call_issued(session.phase)
            && !(session.phase is Connected) {
            lemma_contains_later(events, EventView::Connected);
        }
    }
}

proof fn lemma_run(session: SessionView, events: Seq<EventView>)
    ensures
        progress(after(session, events).phase) >= progress(session.phase) + transcript(
            session,
            events,
        ).len(),
        connect_attempts(transcript(session, events)) == (if session.phase is Init && !(after(
            session,
            events,
        ).phase is Init) {
            1nat
        } else {
            0nat
        }),
        call_attempts(transcript(session, events)) == (if !call_issued(session.phase)
            && call_issued(after(session, events).phase) {
            1nat
        } else {
            0nat
        }),
        call_issued(session.phase) ==> call_issued(after(session, events).phase),
        after(session, events).address == session.address,
        after(session, events).ping == session.ping,
    decreases events.len(),
{
    if events.len() > 0 {
        let next = session.advance(events[0]);
        let rest = transcript(next, events.drop_first());
        lemma_run(next, events.drop_first());
        if accepts(session.phase, events[0]) {
            lemma_attempts_prepend(session.answer(events[0]), rest);
        }
    }
}

/// A caller that does as it is asked is never turned away: a session that
/// has not started takes the event that starts it, and after every action
/// but the exit it takes each outcome of that action. The exit is the
/// last action: a session that is over takes no event.
pub proof fn answer_is_taken(session: SessionView, event: EventView, reply: EventView)
    ensures
        session.phase is Init ==> accepts(session.phase, EventView::Continue),
        accepts(session.phase, event) && answers(session.answer(event), reply) ==> accepts(
            session.advance(event).phase,
            reply,
        ),
        accepts(session.phase, event) && session.answer(event) is Exit ==> !accepts(
            session.advance(event).phase,
            reply,
        ),
        session.phase is Terminated ==> !accepts(session.phase, event),
{
}

/// A run performs exactly one connect attempt once it has started, and
/// none before; it performs at most one call attempt. This holds of every
/// sequence of events, so of every outcome of the connect and of the call.
pub proof fn single_attempt(session: SessionView, events: Seq<EventView>)
    requires
        session.phase is Init,
    ensures
        connect_attempts(transcript(session, events)) == (if after(session, events).phase is Init {
            0nat
        } else {
            1nat
        }),
        call_attempts(transcript(session, events)) == (if call_issued(
            after(session, events).phase,
        ) {
            1nat
        } else {
            0nat
        }),
        call_attempts(transcript(session, events)) <= 1,
{
    lemma_run(session, events);
}

/// A run whose connect has failed never asks for the call, neither before
/// the failure nor after it.
pub proof fn failed_connect_never_calls(session: SessionView, events: Seq<EventView>)
    requires
        session.phase is Init,
        connect_failed(after(session, events).phase),
    ensures
        call_attempts(transcript(session, events)) == 0,
        connect_attempts(transcript(session, events)) == 1,
{
    lemma_run(session, events);
}

/// Against a service that accepts the connection and replies, a run asks
/// for the connect to its address, then for the call with its request,
/// prints the `pong` text as the service gave it, and ends with success:
/// for every address, every `ping` text and every `pong` text.
pub proof fn served_run_prints_pong(session: SessionView, pong: Seq<char>)
    requires
        session.phase is Init,
    ensures
        transcript(session, served(pong)) == seq![
            ActionView::Connect(session.address),
            ActionView::Proceed,
            ActionView::Call(session.ping),
            ActionView::Print(pong),
            ActionView::Exit(EXIT_SUCCESS),
        ],
        after(session, served(pong)).phase == PhaseView::Terminated(Ok(pong)),
{
    reveal_with_fuel(transcript, 6);
    reveal_with_fuel(after, 6);
    let events = served(pong);
    assert(events.drop_first().drop_first().drop_first().drop_first().drop_first().len() == 0);
    assert(transcript(session, events) =~= seq![
        ActionView::Connect(session.address),
        ActionView::Proceed,
        ActionView::Call(session.ping),
        ActionView::Print(pong),
        ActionView::Exit(EXIT_SUCCESS),
    ]);
}

/// The events of a run in which the connect fails end it with that
/// failure: one connect is asked for, no call, the failure is reported and
/// the exit status is not zero.
pub proof fn refused_run_reports_failure(session: SessionView, cause: Seq<char>)
    requires
        session.phase is Init,
    ensures
        transcript(session, refused(cause)) == seq![
            ActionView::Connect(session.address),
            ActionView::Report(connect_text(cause)),
            ActionView::Exit(EXIT_FAILURE),
        ],
        after(session, refused(cause)).phase == PhaseView::Terminated(
            Err(FailureView::Connect(cause)),
        ),
        EXIT_FAILURE != 0,
{
    reveal_with_fuel(transcript, 4);
    reveal_with_fuel(after, 4);
    let events = refused(cause);
    assert(events.drop_first().drop_first().drop_first().len() == 0);
    assert(transcript(session, events) =~= seq![
        ActionView::Connect(session.address),
        ActionView::Report(connect_text(cause)),
        ActionView::Exit(EXIT_FAILURE),
    ]);
}

/// The events of a run in which the connect succeeds and the call fails
/// end it with that failure of the call: nothing is printed, the failure
/// is reported under its class, and the exit status is not zero.
pub proof fn failed_call_reports_failure(session: SessionView, error: CallErrorView)
    requires
        session.phase is Init,
    ensures
        transcript(session, failed_call(error)) == seq![
            ActionView::Connect(session.address),
            ActionView::Proceed,
            ActionView::Call(session.ping),
            ActionView::Report(call_text(error)),
            ActionView::Exit(EXIT_FAILURE),
        ],
        after(session, failed_call(error)).phase == PhaseView::Terminated(
            Err(FailureView::Call(error)),
        ),
{
    reveal_with_fuel(transcript, 6);
    reveal_with_fuel(after, 6);
    let events = failed_call(error);
    assert(events.drop_first().drop_first().drop_first().drop_first().drop_first().len() == 0);
    assert(transcript(session, events) =~= seq![
        ActionView::Connect(session.address),
        ActionView::Proceed,
        ActionView::Call(session.ping),
        ActionView::Report(call_text(error)),
        ActionView::Exit(EXIT_FAILURE),
    ]);
}

/// Where the connect succeeds and the connection is then lost before a
/// reply arrives, the run fails with a transport failure, whatever status
/// the lost call was given.
pub proof fn lost_connection_is_transport_failure(
    session: SessionView,
    code: i32,
    message: Seq<char>,
)
    requires
        session.phase is Init,
    ensures
        after(session, failed_call(status_error(code, message, true))).phase
            == PhaseView::Terminated(
            Err(FailureView::Call(CallErrorView::Transport(message))),
        ),
{
    failed_call_reports_failure(session, status_error(code, message, true));
}

/// Where the connect succeeds and the reply does not decode, the run fails
/// with a decode failure.
pub proof fn undecodable_reply_is_decode_failure(session: SessionView, cause: Seq<char>)
    requires
        session.phase is Init,
    ensures
        after(session, failed_call(CallErrorView::Decode(cause))).phase == PhaseView::Terminated(
            Err(FailureView::Call(CallErrorView::Decode(cause))),
        ),
        transcript(session, failed_call(CallErrorView::Decode(cause)))[3] == ActionView::Report(
            "decode failure: "@ + cause,
        ),
{
    failed_call_reports_failure(session, CallErrorView::Decode(cause));
}

/// A run only moves forward: every event that is taken brings it nearer to
/// its end, none brings it back to an earlier phase, and the address and
/// the request stay what they were. So a run answers with five actions at
/// most.
pub proof fn run_moves_forward(session: SessionView, events: Seq<EventView>)
    ensures
        progress(after(session, events).phase) >= progress(session.phase) + transcript(
            session,
            events,
        ).len(),
        transcript(session, events).len() <= 5,
        after(session, events).phase is Init ==> session.phase is Init,
        after(session, events).address == session.address,
        after(session, events).ping == session.ping,
{
    lemma_run(session, events);
}

/// A run has one result: once the reply or a failure is recorded, no event
/// changes or replaces it.
pub proof fn outcome_is_final(session: SessionView, events: Seq<EventView>)
    requires
        outcome(session.phase) is Some,
    ensures
        outcome(after(session, events).phase) == outcome(session.phase),
{
    lemma_origin(session, events);
}

/// A run makes up nothing: the reply that it records was reported to it as
/// decoded from the service, and the failure that it records was reported
/// to it by the operation that failed.
pub proof fn outcome_was_reported(session: SessionView, events: Seq<EventView>)
    requires
        outcome(session.phase) is None,
    ensures
        outcome(after(session, events).phase) matches Some(result) ==> events.contains(
            reported_by(result),
        ),
{
    lemma_origin(session, events);
}

/// The call is asked for only on a connection that was reported as
/// established.
pub proof fn call_needs_connection(session: SessionView, events: Seq<EventView>)
    requires
        session.phase is Init,
        call_attempts(transcript(session, events)) > 0,
    ensures
        events.contains(EventView::Connected),
{
    lemma_run(session, events);
    lemma_origin(session, events);
}

} // verus!

