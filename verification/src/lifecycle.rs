//! The life of one run: connect, call once, report, terminate.
//!
//! A [`Session`] decides; its caller acts. The caller hands in an
//! [`Event`], the session moves to its next [`Phase`] and answers with the
//! [`Action`] to perform, whose outcome is the next event. The session
//! never waits and never touches the network: the two places where a run
//! is suspended, the connect and the call, are actions of the caller.

use crate::error::{failure_text, CallError, CallErrorView, ConnectError, Failure, FailureView};
use crate::message::{PingRequest, PongResponse, ServiceAddress};
use vstd::prelude::*;
use vstd::string::StringExecFns;

verus! {

/// The exit status of a run that received its reply.
pub const EXIT_SUCCESS: u8 = 0;

/// The exit status of a run that failed.
pub const EXIT_FAILURE: u8 = 1;

/// Where a run stands.
#[derive(Debug, PartialEq, Eq)]
pub enum Phase {
    /// Nothing has been attempted yet.
    Init,
    /// The connect is under way.
    Connecting,
    /// The connection is established and has not been used.
    Connected,
    /// The one call is under way.
    Calling,
    /// The reply has arrived and is about to be printed.
    Succeeded(PongResponse),
    /// The run has failed and the failure is about to be reported.
    Failed(Failure),
    /// The run is over; its result is kept.
    Terminated(Result<PongResponse, Failure>),
}

/// The mathematical value of a [`Phase`].
pub enum PhaseView {
    Init,
    Connecting,
    Connected,
    Calling,
    Succeeded(Seq<char>),
    Failed(FailureView),
    Terminated(Result<Seq<char>, FailureView>),
}

impl View for Phase {
    type V = PhaseView;

    open spec fn view(&self) -> PhaseView {
        match *self {
            Phase::Init => PhaseView::Init,
            Phase::Connecting => PhaseView::Connecting,
            Phase::Connected => PhaseView::Connected,
            Phase::Calling => PhaseView::Calling,
            Phase::Succeeded(response) => PhaseView::Succeeded(response@),
            Phase::Failed(failure) => PhaseView::Failed(failure@),
            Phase::Terminated(Ok(response)) => PhaseView::Terminated(Ok(response@)),
            Phase::Terminated(Err(failure)) => PhaseView::Terminated(Err(failure@)),
        }
    }
}

/// What the caller reports back to the session.
#[derive(Debug, PartialEq, Eq)]
pub enum Event {
    /// The last action is done and had nothing to report. It also starts
    /// a run.
    Continue,
    /// The connect succeeded: the caller now holds the connection.
    Connected,
    /// The connect failed.
    ConnectFailed(ConnectError),
    /// The call returned a reply that decoded to this `pong` text.
    Replied(String),
    /// The call failed.
    CallFailed(CallError),
}

/// The mathematical value of an [`Event`].
pub enum EventView {
    Continue,
    Connected,
    ConnectFailed(Seq<char>),
    Replied(Seq<char>),
    CallFailed(CallErrorView),
}

impl View for Event {
    type V = EventView;

    open spec fn view(&self) -> EventView {
        match *self {
            Event::Continue => EventView::Continue,
            Event::Connected => EventView::Connected,
            Event::ConnectFailed(error) => EventView::ConnectFailed(error@),
            Event::Replied(pong) => EventView::Replied(pong@),
            Event::CallFailed(error) => EventView::CallFailed(error@),
        }
    }
}

/// What the session asks its caller to do.
#[derive(Debug, PartialEq, Eq)]
pub enum Action {
    /// Open a connection to this address; answer with
    /// [`Event::Connected`] or [`Event::ConnectFailed`].
    Connect(ServiceAddress),
    /// Nothing to do outside; answer with [`Event::Continue`].
    Proceed,
    /// Send this request over the connection as one unary call; answer
    /// with [`Event::Replied`] or [`Event::CallFailed`].
    Call(PingRequest),
    /// Write this text to standard output; answer with
    /// [`Event::Continue`].
    Print(String),
    /// Tell the operator of this failure; answer with [`Event::Continue`].
    Report(String),
    /// End the process with this status. The session takes no further
    /// event.
    Exit(u8),
}

/// The mathematical value of an [`Action`].
pub enum ActionView {
    Connect(Seq<char>),
    Proceed,
    Call(Seq<char>),
    Print(Seq<char>),
    Report(Seq<char>),
    Exit(u8),
}

impl View for Action {
    type V = ActionView;

    open spec fn view(&self) -> ActionView {
        match *self {
            Action::Connect(address) => ActionView::Connect(address@),
            Action::Proceed => ActionView::Proceed,
            Action::Call(request) => ActionView::Call(request@),
            Action::Print(text) => ActionView::Print(text@),
            Action::Report(text) => ActionView::Report(text@),
            Action::Exit(code) => ActionView::Exit(code),
        }
    }
}

/// The mathematical value of a [`Session`]: the constant input of the run
/// and the phase it has reached.
pub struct SessionView {
    pub address: Seq<char>,
    pub ping: Seq<char>,
    pub phase: PhaseView,
}

/// Whether a session in `phase` takes `event`. An event that is not taken
/// changes nothing and is answered with no action.
pub open spec fn accepts(phase: PhaseView, event: EventView) -> bool {
    match (phase, event) {
        (PhaseView::Init, EventView::Continue) => true,
        (PhaseView::Connecting, EventView::Connected) => true,
        (PhaseView::Connecting, EventView::ConnectFailed(_)) => true,
        (PhaseView::Connected, EventView::Continue) => true,
        (PhaseView::Calling, EventView::Replied(_)) => true,
        (PhaseView::Calling, EventView::CallFailed(_)) => true,
        (PhaseView::Succeeded(_), EventView::Continue) => true,
        (PhaseView::Failed(_), EventView::Continue) => true,
        _ => false,
    }
}

/// The phase that follows `phase` when `event` is taken; `phase` itself
/// when it is not.
pub open spec fn successor(phase: PhaseView, event: EventView) -> PhaseView {
    match (phase, event) {
        (PhaseView::Init, EventView::Continue) => PhaseView::Connecting,
        (PhaseView::Connecting, EventView::Connected) => PhaseView::Connected,
        (PhaseView::Connecting, EventView::ConnectFailed(cause)) => PhaseView::Failed(
            FailureView::Connect(cause),
        ),
        (PhaseView::Connected, EventView::Continue) => PhaseView::Calling,
        (PhaseView::Calling, EventView::Replied(pong)) => PhaseView::Succeeded(pong),
        (PhaseView::Calling, EventView::CallFailed(error)) => PhaseView::Failed(
            FailureView::Call(error),
        ),
        (PhaseView::Succeeded(pong), EventView::Continue) => PhaseView::Terminated(Ok(pong)),
        (PhaseView::Failed(failure), EventView::Continue) => PhaseView::Terminated(Err(failure)),
        _ => phase,
    }
}

/// What a session asks for on entering `phase`.
pub open spec fn duty(address: Seq<char>, ping: Seq<char>, phase: PhaseView) -> ActionView {
    match phase {
        PhaseView::Init => ActionView::Proceed,
        PhaseView::Connecting => ActionView::Connect(address),
        PhaseView::Connected => ActionView::Proceed,
        PhaseView::Calling => ActionView::Call(ping),
        PhaseView::Succeeded(pong) => ActionView::Print(pong),
        PhaseView::Failed(failure) => ActionView::Report(failure_text(failure)),
        PhaseView::Terminated(Ok(_)) => ActionView::Exit(EXIT_SUCCESS),
        PhaseView::Terminated(Err(_)) => ActionView::Exit(EXIT_FAILURE),
    }
}

/// Whether `event` is an outcome of performing `action`: what a caller
/// may report after it. Nothing answers [`Action::Exit`].
pub open spec fn answers(action: ActionView, event: EventView) -> bool {
    match action {
        ActionView::Connect(_) => event is Connected || event is ConnectFailed,
        ActionView::Proceed => event is Continue,
        ActionView::Call(_) => event is Replied || event is CallFailed,
        ActionView::Print(_) => event is Continue,
        ActionView::Report(_) => event is Continue,
        ActionView::Exit(_) => false,
    }
}

/// The result of a run, once it has one: the `pong` text of the reply, or
/// the failure.
pub open spec fn outcome(phase: PhaseView) -> Option<Result<Seq<char>, FailureView>> {
    match phase {
        PhaseView::Succeeded(pong) => Some(Ok(pong)),
        PhaseView::Failed(failure) => Some(Err(failure)),
        PhaseView::Terminated(result) => Some(result),
        _ => None,
    }
}

/// The exit status of a run that is over.
pub open spec fn exit_status(phase: PhaseView) -> Option<u8> {
    match phase {
        PhaseView::Terminated(Ok(_)) => Some(EXIT_SUCCESS),
        PhaseView::Terminated(Err(_)) => Some(EXIT_FAILURE),
        _ => None,
    }
}

impl SessionView {
    /// The session after `event`.
    pub open spec fn advance(self, event: EventView) -> SessionView {
        SessionView { phase: successor(self.phase, event), ..self }
    }

    /// The action that answers `event`, where the session takes it.
    pub open spec fn answer(self, event: EventView) -> ActionView {
        duty(self.address, self.ping, successor(self.phase, event))
    }
}

/// One run of the client against one address with one request.
#[derive(Debug, PartialEq, Eq)]
pub struct Session {
    address: ServiceAddress,
    request: PingRequest,
    phase: Phase,
}

impl View for Session {
    type V = SessionView;

    closed spec fn view(&self) -> SessionView {
        SessionView { address: self.address@, ping: self.request@, phase: self.phase@ }
    }
}

impl Session {
    /// A run that has not started, for `request` to the service at
    /// `address`.
    pub fn new(address: ServiceAddress, request: PingRequest) -> (session: Session)
        ensures
            session@ == (SessionView {
                address: address@,
                ping: request@,
                phase: PhaseView::Init,
            }),
    {
        Session { address, request, phase: Phase::Init }
    }

    /// The phase that the run has reached.
    pub fn phase(&self) -> (phase: &Phase)
        ensures
            phase@ == self@.phase,
    {
        &self.phase
    }

    /// The address that the run connects to.
    pub fn address(&self) -> (address: &ServiceAddress)
        ensures
            address@ == self@.address,
    {
        &self.address
    }

    /// The request that the run sends.
    pub fn request(&self) -> (request: &PingRequest)
        ensures
            request@ == self@.ping,
    {
        &self.request
    }

    /// The result of the run: `None` until the reply or a failure is
    /// recorded, and from then on always that reply or that failure.
    pub fn outcome(&self) -> (result: Option<Result<&PongResponse, &Failure>>)
        ensures
            match result {
                Some(Ok(response)) => outcome(self@.phase) == Some(
                    Ok::<Seq<char>, FailureView>(response@),
                ),
                Some(Err(failure)) => outcome(self@.phase) == Some(
                    Err::<Seq<char>, FailureView>(failure@),
                ),
                None => outcome(self@.phase) is None,
            },
    {
        match &self.phase {
            Phase::Succeeded(response) => Some(Ok(response)),
            Phase::Failed(failure) => Some(Err(failure)),
            Phase::Terminated(Ok(response)) => Some(Ok(response)),
            Phase::Terminated(Err(failure)) => Some(Err(failure)),
            _ => None,
        }
    }

    /// The exit status of the run: `None` until it is over, then zero for
    /// a run that received its reply and non-zero for one that failed.
    pub fn exit_status(&self) -> (status: Option<u8>)
        ensures
            status == exit_status(self@.phase),
    {
        match &self.phase {
            Phase::Terminated(Ok(_)) => Some(EXIT_SUCCESS),
            Phase::Terminated(Err(_)) => Some(EXIT_FAILURE),
            _ => None,
        }
    }

    /// Takes `event` and answers with the action to perform next.
    ///
    /// Returns `None`, and leaves the session as it was, exactly when the
    /// session does not take `event` in its phase.
    pub fn step(&mut self, event: Event) -> (action: Option<Action>)
        ensures
            action is Some <==> accepts(old(self)@.phase, event@),
            final(self)@ == old(self)@.advance(event@),
            action matches Some(a) ==> a@ == old(self)@.answer(event@),
    {
        let mut phase = Phase::Init;
        core::mem::swap(&mut self.phase, &mut phase);
        match (phase, event) {
            (Phase::Init, Event::Continue) => {
                self.phase = Phase::Connecting;
                Some(Action::Connect(ServiceAddress::new(self.address.as_str())))
            },
            (Phase::Connecting, Event::Connected) => {
                self.phase = Phase::Connected;
                Some(Action::Proceed)
            },
            (Phase::Connecting, Event::ConnectFailed(error)) => {
                let failure = Failure::Connect(error);
                let text = failure.describe();
                self.phase = Phase::Failed(failure);
                Some(Action::Report(text))
            },
            (Phase::Connected, Event::Continue) => {
                self.phase = Phase::Calling;
                Some(Action::Call(PingRequest::new(self.request.ping())))
            },
            (Phase::Calling, Event::Replied(pong)) => {
                let text = String::from_str(pong.as_str());
                self.phase = Phase::Succeeded(PongResponse::decoded(pong));
                Some(Action::Print(text))
            },
            (Phase::Calling, Event::CallFailed(error)) => {
                let failure = Failure::Call(error);
                let text = failure.describe();
                self.phase = Phase::Failed(failure);
                Some(Action::Report(text))
            },
            (Phase::Succeeded(response), Event::Continue) => {
                self.phase = Phase::Terminated(Ok(response));
                Some(Action::Exit(EXIT_SUCCESS))
            },
            (Phase::Failed(failure), Event::Continue) => {
                self.phase = Phase::Terminated(Err(failure));
                Some(Action::Exit(EXIT_FAILURE))
            },
            (unchanged, _) => {
                self.phase = unchanged;
                None
            },
        }
    }
}

} // verus!
