//! The life of one connection, as the decisions it takes.
//!
//! A session starts when its connection is accepted, waits for a login
//! within the handshake window, and once the login is verified relays every
//! frame it decodes. It takes an event and answers with what is to be done;
//! reading the socket, asking who a credential belongs to and stopping the
//! send loop are the caller's work.

use crate::auth::{deadline_passed, spec_deadline_passed};
use crate::envelope::{decode, envelope_of_text, Payload, PayloadView, UserLogin};
use crate::outbound::Socket;
use crate::registry::{
    authenticated, deregistered, AuthenticatedIdentity, ConnectionCounter, ConnectionId,
    Registry, WsClient,
};
use vstd::prelude::*;

verus! {

/// Why a connection is closed.
#[derive(Debug, Clone, Copy, PartialEq, Eq, Structural)]
pub enum CloseReason {
    /// A frame was no envelope, or not the one that was due.
    MalformedEnvelope,
    /// No login came within the handshake window.
    AuthTimeout,
    /// The credential was not accepted.
    AuthRejected,
    /// A write to the socket failed.
    SendFailure,
    /// The peer closed the connection, or reading from it failed.
    ConnectionClosed,
}

/// Where a session stands.
#[derive(Debug, Clone, Copy, PartialEq, Eq, Structural)]
pub enum Phase {
    /// Accepted, not yet in the table.
    Connected,
    /// In the table; the login is due.
    AwaitingAuth,
    /// The login came in time; the credential is being verified.
    Verifying,
    Authenticated,
    /// Closed during the handshake on a frame or credential that was
    /// refused.
    Rejected,
    /// Closed because the handshake window went by.
    TimedOut,
    /// Closed after the handshake, or by the peer.
    Closed,
}

/// One session.
#[derive(Debug, Clone, Copy, PartialEq, Eq, Structural)]
pub struct Session {
    pub id: ConnectionId,
    /// When the connection was entered into the table.
    pub registered_at: u64,
    pub phase: Phase,
}

/// What happened to a connection.
#[derive(Debug, PartialEq, Eq)]
pub enum Event {
    /// The connection was entered into the table.
    Registered { now: u64 },
    /// A text frame arrived.
    Frame { now: u64, text: String },
    /// A frame arrived that holds no text and is no close.
    Unreadable { now: u64 },
    /// The timer of the handshake window fired.
    DeadlineElapsed { now: u64 },
    /// The credential was accepted.
    Verified(AuthenticatedIdentity),
    /// The credential was refused.
    VerificationFailed,
    /// The send loop failed to write.
    SendFailed,
    /// The peer closed the connection, or reading from it failed.
    TransportClosed,
}

/// What is to be done for a connection.
#[derive(Debug, PartialEq, Eq)]
pub enum Action {
    /// Nothing; wait for the next event.
    Wait,
    /// Ask whose credential this is.
    Verify(UserLogin),
    /// Attach the identity to the connection in the table.
    Attach(AuthenticatedIdentity),
    /// Relay this frame, as it is, to every connection.
    Broadcast(String),
    /// Take the connection out of the table and stop its send loop.
    Teardown(CloseReason),
}

/// What an [`Event`] stands for.
pub enum EventView {
    Registered { now: u64 },
    Frame { now: u64, text: Seq<char> },
    Unreadable { now: u64 },
    DeadlineElapsed { now: u64 },
    Verified(AuthenticatedIdentity),
    VerificationFailed,
    SendFailed,
    TransportClosed,
}

/// What an [`Action`] stands for.
pub enum ActionView {
    Wait,
    Verify(Seq<char>),
    Attach(AuthenticatedIdentity),
    Broadcast(Seq<char>),
    Teardown(CloseReason),
}

impl View for Event {
    type V = EventView;

    open spec fn view(&self) -> EventView {
        match self {
            Event::Registered { now } => EventView::Registered { now: *now },
            Event::Frame { now, text } => EventView::Frame { now: *now, text: text@ },
            Event::Unreadable { now } => EventView::Unreadable { now: *now },
            Event::DeadlineElapsed { now } => EventView::DeadlineElapsed { now: *now },
            Event::Verified(identity) => EventView::Verified(*identity),
            Event::VerificationFailed => EventView::VerificationFailed,
            Event::SendFailed => EventView::SendFailed,
            Event::TransportClosed => EventView::TransportClosed,
        }
    }
}

impl View for Action {
    type V = ActionView;

    open spec fn view(&self) -> ActionView {
        match self {
            Action::Wait => ActionView::Wait,
            Action::Verify(login) => ActionView::Verify(login.token@),
            Action::Attach(identity) => ActionView::Attach(*identity),
            Action::Broadcast(text) => ActionView::Broadcast(text@),
            Action::Teardown(reason) => ActionView::Teardown(*reason),
        }
    }
}

/// A session after an event, and what is to be done.
pub struct Step {
    pub session: Session,
    pub action: ActionView,
}

impl Session {
    /// The session in another phase.
    pub open spec fn moved_to(self, phase: Phase) -> Session {
        Session { id: self.id, registered_at: self.registered_at, phase }
    }

    /// Whether the session is over.
    pub open spec fn is_closed(self) -> bool {
        self.phase == Phase::Rejected || self.phase == Phase::TimedOut || self.phase
            == Phase::Closed
    }

    /// The session stays as it is and nothing is to be done.
    pub open spec fn stay(self) -> Step {
        Step { session: self, action: ActionView::Wait }
    }

    /// The session ends in `phase` and is to be torn down.
    pub open spec fn end(self, phase: Phase, reason: CloseReason) -> Step {
        Step { session: self.moved_to(phase), action: ActionView::Teardown(reason) }
    }

    /// What a frame does to a session that waits for its login. After the
    /// window the frame comes too late. In time, the login envelope sends
    /// its credential to be verified, and any other frame is refused.
    pub open spec fn on_login_frame(self, now: u64, text: Seq<char>) -> Step {
        if spec_deadline_passed(self.registered_at, now) {
            self.end(Phase::TimedOut, CloseReason::AuthTimeout)
        } else {
            match envelope_of_text(text) {
                Ok(envelope) => match envelope.data {
                    PayloadView::Credential(token) => Step {
                        session: self.moved_to(Phase::Verifying),
                        action: ActionView::Verify(token),
                    },
                    PayloadView::Opaque(_) => self.end(
                        Phase::Rejected,
                        CloseReason::MalformedEnvelope,
                    ),
                },
                Err(_) => self.end(Phase::Rejected, CloseReason::MalformedEnvelope),
            }
        }
    }

    /// What a frame without text does to a session. It is no envelope, so it
    /// ends the session as a malformed frame does; while the login is due
    /// and the window is over, it comes too late.
    pub open spec fn on_unreadable_frame(self, now: u64) -> Step {
        match self.phase {
            Phase::AwaitingAuth => if spec_deadline_passed(self.registered_at, now) {
                self.end(Phase::TimedOut, CloseReason::AuthTimeout)
            } else {
                self.end(Phase::Rejected, CloseReason::MalformedEnvelope)
            },
            Phase::Verifying => self.end(Phase::Rejected, CloseReason::MalformedEnvelope),
            _ => self.end(Phase::Closed, CloseReason::MalformedEnvelope),
        }
    }

    /// What a frame does to a session that has logged in: a frame that is
    /// an envelope is relayed as it came, and any other ends the session.
    pub open spec fn on_relay_frame(self, text: Seq<char>) -> Step {
        match envelope_of_text(text) {
            Ok(_) => Step { session: self, action: ActionView::Broadcast(text) },
            Err(_) => self.end(Phase::Closed, CloseReason::MalformedEnvelope),
        }
    }

    /// What an event does to a session.
    ///
    /// A closed session stays closed and asks for nothing more. An open one
    /// ends when the peer goes or a write fails. Registration opens the
    /// handshake window. While the login is due, the window's end closes the
    /// session, and the one frame that may come is the login. While the
    /// credential is verified, a further frame is refused, acceptance makes
    /// the session authenticated and refusal ends it. From then on frames
    /// are relayed and the window no longer counts.
    pub open spec fn step_spec(self, event: EventView) -> Step {
        if self.is_closed() {
            self.stay()
        } else {
            match event {
                EventView::TransportClosed => self.end(
                    Phase::Closed,
                    CloseReason::ConnectionClosed,
                ),
                EventView::SendFailed => self.end(Phase::Closed, CloseReason::SendFailure),
                EventView::Registered { now } => if self.phase == Phase::Connected {
                    Step {
                        session: Session {
                            id: self.id,
                            registered_at: now,
                            phase: Phase::AwaitingAuth,
                        },
                        action: ActionView::Wait,
                    }
                } else {
                    self.stay()
                },
                EventView::DeadlineElapsed { now } => if self.phase == Phase::AwaitingAuth
                    && spec_deadline_passed(self.registered_at, now) {
                    self.end(Phase::TimedOut, CloseReason::AuthTimeout)
                } else {
                    self.stay()
                },
                EventView::Frame { now, text } => match self.phase {
                    Phase::AwaitingAuth => self.on_login_frame(now, text),
                    Phase::Verifying => self.end(Phase::Rejected, CloseReason::MalformedEnvelope),
                    Phase::Authenticated => self.on_relay_frame(text),
                    _ => self.end(Phase::Closed, CloseReason::MalformedEnvelope),
                },
                EventView::Unreadable { now } => self.on_unreadable_frame(now),
                EventView::Verified(identity) => if self.phase == Phase::Verifying {
                    Step {
                        session: self.moved_to(Phase::Authenticated),
                        action: ActionView::Attach(identity),
                    }
                } else {
                    self.stay()
                },
                EventView::VerificationFailed => if self.phase == Phase::Verifying {
                    self.end(Phase::Rejected, CloseReason::AuthRejected)
                } else {
                    self.stay()
                },
            }
        }
    }

    /// The session of a connection that was accepted under `id`.
    pub fn new(id: ConnectionId) -> (session: Session)
        ensures
            session == (Session { id, registered_at: 0, phase: Phase::Connected }),
    {
        Session { id, registered_at: 0, phase: Phase::Connected }
    }

    /// Whether the session is over.
    pub fn closed(&self) -> (closed: bool)
        ensures
            closed == self.is_closed(),
    {
        match self.phase {
            Phase::Rejected | Phase::TimedOut | Phase::Closed => true,
            _ => false,
        }
    }

    /// Ends the session in `phase`.
    fn finish(&mut self, phase: Phase, reason: CloseReason) -> (action: Action)
        ensures
            (Step { session: *final(self), action: action@ }) == old(self).end(phase, reason),
    {
        self.phase = phase;
        Action::Teardown(reason)
    }

    /// Takes an event and says what is to be done.
    pub fn step(&mut self, event: Event) -> (action: Action)
        ensures
            (Step { session: *final(self), action: action@ }) == old(self).step_spec(event@),
    {
        if self.closed() {
            return Action::Wait;
        }
        match event {
            Event::TransportClosed => self.finish(Phase::Closed, CloseReason::ConnectionClosed),
            Event::SendFailed => self.finish(Phase::Closed, CloseReason::SendFailure),
            Event::Registered { now } => {
                match self.phase {
                    Phase::Connected => {
                        self.registered_at = now;
                        self.phase = Phase::AwaitingAuth;
                    },
                    _ => {},
                }
                Action::Wait
            },
            Event::DeadlineElapsed { now } => match self.phase {
                Phase::AwaitingAuth => if deadline_passed(self.registered_at, now) {
                    self.finish(Phase::TimedOut, CloseReason::AuthTimeout)
                } else {
                    Action::Wait
                },
                _ => Action::Wait,
            },
            Event::Frame { now, text } => match self.phase {
                Phase::AwaitingAuth => {
                    if deadline_passed(self.registered_at, now) {
                        return self.finish(Phase::TimedOut, CloseReason::AuthTimeout);
                    }
                    match decode(text.as_str()) {
                        Ok(envelope) => match envelope.data {
                            Payload::Credential(login) => {
                                self.phase = Phase::Verifying;
                                Action::Verify(login)
                            },
                            Payload::Opaque(_) => self.finish(
                                Phase::Rejected,
                                CloseReason::MalformedEnvelope,
                            ),
                        },
                        Err(_) => self.finish(Phase::Rejected, CloseReason::MalformedEnvelope),
                    }
                },
                Phase::Verifying => self.finish(Phase::Rejected, CloseReason::MalformedEnvelope),
                Phase::Authenticated => match decode(text.as_str()) {
                    Ok(_) => Action::Broadcast(text),
                    Err(_) => self.finish(Phase::Closed, CloseReason::MalformedEnvelope),
                },
                _ => self.finish(Phase::Closed, CloseReason::MalformedEnvelope),
            },
            Event::Unreadable { now } => match self.phase {
                Phase::AwaitingAuth => if deadline_passed(self.registered_at, now) {
                    self.finish(Phase::TimedOut, CloseReason::AuthTimeout)
                } else {
                    self.finish(Phase::Rejected, CloseReason::MalformedEnvelope)
                },
                Phase::Verifying => self.finish(Phase::Rejected, CloseReason::MalformedEnvelope),
                _ => self.finish(Phase::Closed, CloseReason::MalformedEnvelope),
            },
            Event::Verified(identity) => match self.phase {
                Phase::Verifying => {
                    self.phase = Phase::Authenticated;
                    Action::Attach(identity)
                },
                _ => Action::Wait,
            },
            Event::VerificationFailed => match self.phase {
                Phase::Verifying => self.finish(Phase::Rejected, CloseReason::AuthRejected),
                _ => Action::Wait,
            },
        }
    }
}

/// Why a connection could not be accepted.
#[derive(Debug, Clone, Copy, PartialEq, Eq, Structural)]
pub enum AcceptError {
    /// Every id has been handed out.
    IdsExhausted,
    /// The id that was due stands in the table already.
    RegistryInvariantViolation,
}

/// Accepts a connection: gives it the next id, enters it into the table
/// with `socket` as its outbound handle and no identity, and opens the
/// handshake window at `now`.
///
/// The connection is refused, and the table left as it was, where the ids
/// have run out or the next id stands in the table already.
pub fn accept(
    counter: &mut ConnectionCounter,
    registry: &mut Registry,
    socket: Socket,
    now: u64,
) -> (result: Result<Session, AcceptError>)
    ensures
        final(registry)@.dom().finite(),
        match result {
            Ok(session) => {
                &&& old(counter).upcoming() < usize::MAX
                &&& !old(registry)@.contains_key(old(counter).upcoming())
                &&& session == (Session {
                    id: old(counter).upcoming(),
                    registered_at: now,
                    phase: Phase::AwaitingAuth,
                })
                &&& final(counter).upcoming() == session.id + 1
                &&& final(registry)@ == old(registry)@.insert(
                    session.id,
                    WsClient { socket, user: None },
                )
            },
            Err(AcceptError::IdsExhausted) => {
                &&& old(counter).upcoming() == usize::MAX
                &&& final(counter).upcoming() == usize::MAX
                &&& final(registry)@ == old(registry)@
            },
            Err(AcceptError::RegistryInvariantViolation) => {
                &&& old(counter).upcoming() < usize::MAX
                &&& old(registry)@.contains_key(old(counter).upcoming())
                &&& final(counter).upcoming() == old(counter).upcoming() + 1
                &&& final(registry)@ == old(registry)@
            },
        },
{
    proof {
        registry.lemma_finite();
    }
    let id = match counter.allocate() {
        Some(id) => id,
        None => {
            return Err(AcceptError::IdsExhausted);
        },
    };
    match registry.register(id, WsClient::default(socket)) {
        Ok(()) => {
            let mut session = Session::new(id);
            session.step(Event::Registered { now });
            Ok(session)
        },
        Err(_) => Err(AcceptError::RegistryInvariantViolation),
    }
}

/// The table after what an action asks of it was done for the connection
/// `id`: an identity attached, the connection taken out, or nothing.
pub open spec fn table_after_action(
    table: Map<ConnectionId, WsClient>,
    id: ConnectionId,
    action: ActionView,
) -> Map<ConnectionId, WsClient> {
    match action {
        ActionView::Attach(identity) => authenticated(table, id, identity),
        ActionView::Teardown(_) => deregistered(table, id),
        _ => table,
    }
}

/// Does to the table what an action asks of it for the connection `id`. A
/// teardown may be settled more than once: the second time changes nothing.
pub fn settle(registry: &mut Registry, id: ConnectionId, action: &Action)
    ensures
        final(registry)@ == table_after_action(old(registry)@, id, action@),
        final(registry)@.dom().finite(),
{
    proof {
        registry.lemma_finite();
    }
    match action {
        Action::Attach(identity) => {
            registry.authenticate(id, *identity);
        },
        Action::Teardown(_) => {
            registry.deregister(id);
        },
        _ => {},
    }
}

/// A connection that has sent nothing when the handshake window has gone
/// by since its registration is timed out, and once that is settled it no
/// longer stands in the table.
pub proof fn lemma_silent_connection_times_out(
    session: Session,
    table: Map<ConnectionId, WsClient>,
    now: u64,
)
    requires
        session.phase == Phase::AwaitingAuth,
        now - session.registered_at >= 22500,
    ensures
        session.step_spec(EventView::DeadlineElapsed { now }) == session.end(
            Phase::TimedOut,
            CloseReason::AuthTimeout,
        ),
        !table_after_action(
            table,
            session.id,
            session.step_spec(EventView::DeadlineElapsed { now }).action,
        ).contains_key(session.id),
{
}

/// A connection that sends its login envelope within the handshake window,
/// with a credential that is accepted, becomes authenticated with the
/// identity attached, and the end of the window then leaves it in the
/// table.
pub proof fn lemma_login_in_time_stays(
    session: Session,
    table: Map<ConnectionId, WsClient>,
    now: u64,
    text: Seq<char>,
    identity: AuthenticatedIdentity,
    later: u64,
)
    requires
        session.phase == Phase::AwaitingAuth,
        table.contains_key(session.id),
        now - session.registered_at < 22500,
        envelope_of_text(text) matches Ok(envelope) && envelope.data is Credential,
    ensures
        ({
            let login = session.step_spec(EventView::Frame { now, text });
            let verdict = login.session.step_spec(EventView::Verified(identity));
            let attached = table_after_action(table, session.id, verdict.action);
            let timer = verdict.session.step_spec(EventView::DeadlineElapsed { now: later });
            &&& login.session == session.moved_to(Phase::Verifying)
            &&& login.action == ActionView::Verify(envelope_of_text(text)->Ok_0.data->Credential_0)
            &&& verdict.session == session.moved_to(Phase::Authenticated)
            &&& verdict.action == ActionView::Attach(identity)
            &&& attached.contains_key(session.id)
            &&& table[session.id].user is None ==> attached[session.id].user == Some(identity)
            &&& timer == verdict.session.stay()
            &&& table_after_action(attached, session.id, timer.action) == attached
        }),
{
}

/// Once a teardown is asked for, the session is over: whatever happens
/// next, it stays as it is and asks for nothing more. So a teardown is asked
/// for once.
pub proof fn lemma_teardown_is_asked_once(session: Session, event: EventView, next: EventView)
    requires
        session.step_spec(event).action is Teardown,
    ensures
        session.step_spec(event).session.is_closed(),
        session.step_spec(event).session.step_spec(next) == session.step_spec(
            event,
        ).session.stay(),
{
}

/// What is settled for one connection leaves every other connection of the
/// table as it was.
pub proof fn lemma_settling_leaves_others(
    table: Map<ConnectionId, WsClient>,
    id: ConnectionId,
    action: ActionView,
    other: ConnectionId,
)
    requires
        other != id,
    ensures
        table_after_action(table, id, action).contains_key(other) == table.contains_key(other),
        table.contains_key(other) ==> table_after_action(table, id, action)[other] == table[other],
{
}

/// Only a teardown takes a connection out of the table.
pub proof fn lemma_only_teardown_removes(
    table: Map<ConnectionId, WsClient>,
    id: ConnectionId,
    action: ActionView,
)
    requires
        table.contains_key(id),
    ensures
        table_after_action(table, id, action).contains_key(id) <==> !(action is Teardown),
{
}

} // verus!
