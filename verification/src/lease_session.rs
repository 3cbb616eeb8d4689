//! One exchange with the app-server daemon, as a state machine.
//!
//! [`LeaseSession::pending`] names the work that the session waits for, and
//! [`LeaseSession::advance`] takes what came of it. Whoever runs the session
//! owns the socket; the session owns every decision.

use crate::daemon_lease::{
    get_auth_token_request, judge_reply, read_reply, LeaseError, LeaseErrorView, ReplyVerdict,
    ReplyVerdictView,
};
use crate::daemon_lease;
use crate::texts;
use vstd::prelude::*;

verus! {

/// An access token leased by the daemon.
pub struct McpGetAuthTokenResponse {
    pub access_token: String,
    /// When the token expires, where the daemon knows it.
    pub expires_at: Option<u64>,
}

/// The mathematical counterpart of [`McpGetAuthTokenResponse`].
pub struct LeasedTokenView {
    pub access_token: Seq<char>,
    pub expires_at: Option<u64>,
}

impl View for McpGetAuthTokenResponse {
    type V = LeasedTokenView;

    open spec fn view(&self) -> LeasedTokenView {
        LeasedTokenView { access_token: self.access_token@, expires_at: self.expires_at }
    }
}

/// How far a session has come.
pub enum LeasePhase {
    /// The handshake request has to be built.
    Building,
    /// The control socket has to be connected.
    Connecting,
    /// The connection has to be upgraded to a websocket.
    Upgrading,
    /// The request has to be sent.
    Sending,
    /// The next message has to be read.
    Receiving,
    /// The result with this compact JSON text has to be decoded.
    Decoding { result: String },
    /// The websocket has to be closed; the token is there.
    Closing { token: McpGetAuthTokenResponse },
    /// A token was leased.
    Leased { token: McpGetAuthTokenResponse },
    /// The exchange failed.
    Failed { error: LeaseError },
}

/// The mathematical counterpart of [`LeasePhase`].
pub enum LeasePhaseView {
    Building,
    Connecting,
    Upgrading,
    Sending,
    Receiving,
    Decoding { result: Seq<char> },
    Closing { token: LeasedTokenView },
    Leased { token: LeasedTokenView },
    Failed { error: LeaseErrorView },
}

impl View for LeasePhase {
    type V = LeasePhaseView;

    open spec fn view(&self) -> LeasePhaseView {
        match *self {
            LeasePhase::Building => LeasePhaseView::Building,
            LeasePhase::Connecting => LeasePhaseView::Connecting,
            LeasePhase::Upgrading => LeasePhaseView::Upgrading,
            LeasePhase::Sending => LeasePhaseView::Sending,
            LeasePhase::Receiving => LeasePhaseView::Receiving,
            LeasePhase::Decoding { result } => LeasePhaseView::Decoding { result: result@ },
            LeasePhase::Closing { token } => LeasePhaseView::Closing { token: token@ },
            LeasePhase::Leased { token } => LeasePhaseView::Leased { token: token@ },
            LeasePhase::Failed { error } => LeasePhaseView::Failed { error: error@ },
        }
    }
}

/// A message from the daemon's websocket.
pub enum DaemonMessage {
    Text(String),
    /// A close message, with the reason where it carries a frame.
    Close(Option<String>),
    /// Any other kind of message.
    Other,
}

/// The mathematical counterpart of [`DaemonMessage`].
pub enum DaemonMessageView {
    Text(Seq<char>),
    Close(Option<Seq<char>>),
    Other,
}

impl View for DaemonMessage {
    type V = DaemonMessageView;

    open spec fn view(&self) -> DaemonMessageView {
        match *self {
            DaemonMessage::Text(text) => DaemonMessageView::Text(text@),
            DaemonMessage::Close(reason) => DaemonMessageView::Close(
                texts::optional_text(reason),
            ),
            DaemonMessage::Other => DaemonMessageView::Other,
        }
    }
}

/// What came of the pending work; a `cause` is the message of the error that
/// came of it.
pub enum LeaseEvent {
    RequestBuilt,
    RequestRejected { cause: String },
    Connected,
    ConnectFailed { cause: String },
    Upgraded,
    UpgradeFailed { cause: String },
    Sent,
    SendFailed { cause: String },
    Received(DaemonMessage),
    ReadFailed { cause: String },
    StreamEnded,
    Decoded(McpGetAuthTokenResponse),
    DecodeFailed { cause: String },
    /// The websocket was closed, or closing it failed.
    Closed,
}

/// The mathematical counterpart of [`LeaseEvent`].
pub enum LeaseEventView {
    RequestBuilt,
    RequestRejected { cause: Seq<char> },
    Connected,
    ConnectFailed { cause: Seq<char> },
    Upgraded,
    UpgradeFailed { cause: Seq<char> },
    Sent,
    SendFailed { cause: Seq<char> },
    Received(DaemonMessageView),
    ReadFailed { cause: Seq<char> },
    StreamEnded,
    Decoded(LeasedTokenView),
    DecodeFailed { cause: Seq<char> },
    Closed,
}

impl View for LeaseEvent {
    type V = LeaseEventView;

    open spec fn view(&self) -> LeaseEventView {
        match *self {
            LeaseEvent::RequestBuilt => LeaseEventView::RequestBuilt,
            LeaseEvent::RequestRejected { cause } => LeaseEventView::RequestRejected {
                cause: cause@,
            },
            LeaseEvent::Connected => LeaseEventView::Connected,
            LeaseEvent::ConnectFailed { cause } => LeaseEventView::ConnectFailed { cause: cause@ },
            LeaseEvent::Upgraded => LeaseEventView::Upgraded,
            LeaseEvent::UpgradeFailed { cause } => LeaseEventView::UpgradeFailed { cause: cause@ },
            LeaseEvent::Sent => LeaseEventView::Sent,
            LeaseEvent::SendFailed { cause } => LeaseEventView::SendFailed { cause: cause@ },
            LeaseEvent::Received(message) => LeaseEventView::Received(message@),
            LeaseEvent::ReadFailed { cause } => LeaseEventView::ReadFailed { cause: cause@ },
            LeaseEvent::StreamEnded => LeaseEventView::StreamEnded,
            LeaseEvent::Decoded(token) => LeaseEventView::Decoded(token@),
            LeaseEvent::DecodeFailed { cause } => LeaseEventView::DecodeFailed { cause: cause@ },
            LeaseEvent::Closed => LeaseEventView::Closed,
        }
    }
}

/// The work that a session waits for.
pub enum LeaseAction {
    /// Build the handshake request for the handshake URL.
    BuildRequest,
    /// Connect to the control socket.
    Connect,
    /// Perform the websocket handshake.
    Upgrade,
    /// Send this text.
    Send { text: String },
    /// Read the next message.
    Receive,
    /// Decode this compact JSON text as a [`McpGetAuthTokenResponse`].
    Decode { result: String },
    /// Close the websocket.
    Close,
    /// Nothing is left to do: take the outcome.
    Finish,
}

/// The mathematical counterpart of [`LeaseAction`].
pub enum LeaseActionView {
    BuildRequest,
    Connect,
    Upgrade,
    Send { text: Seq<char> },
    Receive,
    Decode { result: Seq<char> },
    Close,
    Finish,
}

impl View for LeaseAction {
    type V = LeaseActionView;

    open spec fn view(&self) -> LeaseActionView {
        match *self {
            LeaseAction::BuildRequest => LeaseActionView::BuildRequest,
            LeaseAction::Connect => LeaseActionView::Connect,
            LeaseAction::Upgrade => LeaseActionView::Upgrade,
            LeaseAction::Send { text } => LeaseActionView::Send { text: text@ },
            LeaseAction::Receive => LeaseActionView::Receive,
            LeaseAction::Decode { result } => LeaseActionView::Decode { result: result@ },
            LeaseAction::Close => LeaseActionView::Close,
            LeaseAction::Finish => LeaseActionView::Finish,
        }
    }
}

/// One exchange: who asks for what over which socket, and how far it has come.
pub struct LeaseSession {
    /// The control socket's path, as shown to a user.
    pub socket_path: String,
    pub server_name: String,
    pub force_refresh: bool,
    pub phase: LeasePhase,
}

/// The mathematical counterpart of [`LeaseSession`].
pub struct LeaseSessionView {
    pub socket_path: Seq<char>,
    pub server_name: Seq<char>,
    pub force_refresh: bool,
    pub phase: LeasePhaseView,
}

impl View for LeaseSession {
    type V = LeaseSessionView;

    open spec fn view(&self) -> LeaseSessionView {
        LeaseSessionView {
            socket_path: self.socket_path@,
            server_name: self.server_name@,
            force_refresh: self.force_refresh,
            phase: self.phase@,
        }
    }
}

/// The phase that a failure leads to.
pub open spec fn failed(error: LeaseErrorView) -> LeasePhaseView {
    LeasePhaseView::Failed { error }
}

impl LeaseSessionView {
    /// The session at its start.
    pub open spec fn start(
        socket_path: Seq<char>,
        server_name: Seq<char>,
        force_refresh: bool,
    ) -> LeaseSessionView {
        LeaseSessionView { socket_path, server_name, force_refresh, phase: LeasePhaseView::Building }
    }

    /// The phase after a verdict on a reply.
    pub open spec fn after_verdict(self, verdict: ReplyVerdictView) -> LeasePhaseView {
        match verdict {
            ReplyVerdictView::KeepWaiting => LeasePhaseView::Receiving,
            ReplyVerdictView::Refused { message } => failed(
                LeaseErrorView::Daemon { server_name: self.server_name, message },
            ),
            ReplyVerdictView::Granted { result } => LeasePhaseView::Decoding { result },
        }
    }

    /// The phase after a message that was waited for.
    pub open spec fn after_message(self, message: DaemonMessageView) -> LeasePhaseView {
        match message {
            DaemonMessageView::Text(text) => match daemon_lease::reply_of_text(text) {
                Ok(reply) => self.after_verdict(daemon_lease::verdict_of(reply)),
                Err(cause) => failed(LeaseErrorView::InvalidJson { text, cause }),
            },
            DaemonMessageView::Close(reason) => failed(
                LeaseErrorView::ClosedBeforeResponse {
                    reason: match reason {
                        Some(reason) => reason,
                        None => Seq::empty(),
                    },
                },
            ),
            DaemonMessageView::Other => LeasePhaseView::Receiving,
        }
    }

    /// The phase after an event. An event that answers other work than the
    /// pending one changes nothing.
    pub open spec fn next_phase(self, event: LeaseEventView) -> LeasePhaseView {
        match (self.phase, event) {
            (LeasePhaseView::Building, LeaseEventView::RequestBuilt) => LeasePhaseView::Connecting,
            (LeasePhaseView::Building, LeaseEventView::RequestRejected { cause }) => failed(
                LeaseErrorView::InvalidHandshakeUrl { cause },
            ),
            (LeasePhaseView::Connecting, LeaseEventView::Connected) => LeasePhaseView::Upgrading,
            (LeasePhaseView::Connecting, LeaseEventView::ConnectFailed { cause }) => failed(
                LeaseErrorView::Connect { socket_path: self.socket_path, cause },
            ),
            (LeasePhaseView::Upgrading, LeaseEventView::Upgraded) => LeasePhaseView::Sending,
            (LeasePhaseView::Upgrading, LeaseEventView::UpgradeFailed { cause }) => failed(
                LeaseErrorView::Upgrade { socket_path: self.socket_path, cause },
            ),
            (LeasePhaseView::Sending, LeaseEventView::Sent) => LeasePhaseView::Receiving,
            (LeasePhaseView::Sending, LeaseEventView::SendFailed { cause }) => failed(
                LeaseErrorView::Send { cause },
            ),
            (LeasePhaseView::Receiving, LeaseEventView::Received(message)) => self.after_message(
                message,
            ),
            (LeasePhaseView::Receiving, LeaseEventView::ReadFailed { cause }) => failed(
                LeaseErrorView::Read { cause },
            ),
            (LeasePhaseView::Receiving, LeaseEventView::StreamEnded) => failed(
                LeaseErrorView::NoResponse,
            ),
            (LeasePhaseView::Decoding { .. }, LeaseEventView::Decoded(token)) =>
                LeasePhaseView::Closing { token },
            (LeasePhaseView::Decoding { .. }, LeaseEventView::DecodeFailed { cause }) => failed(
                LeaseErrorView::Decode { cause },
            ),
            (LeasePhaseView::Closing { token }, LeaseEventView::Closed) => LeasePhaseView::Leased {
                token,
            },
            (phase, _) => phase,
        }
    }

    /// The session after an event.
    pub open spec fn next(self, event: LeaseEventView) -> LeaseSessionView {
        LeaseSessionView { phase: self.next_phase(event), ..self }
    }

    /// The session after a sequence of events.
    pub open spec fn run(self, events: Seq<LeaseEventView>) -> LeaseSessionView
        decreases events.len(),
    {
        if events.len() == 0 {
            self
        } else {
            self.run(events.drop_last()).next(events.last())
        }
    }

    /// The work that the session waits for.
    pub open spec fn pending(self) -> LeaseActionView {
        match self.phase {
            LeasePhaseView::Building => LeaseActionView::BuildRequest,
            LeasePhaseView::Connecting => LeaseActionView::Connect,
            LeasePhaseView::Upgrading => LeaseActionView::Upgrade,
            LeasePhaseView::Sending => LeaseActionView::Send {
                text: daemon_lease::request_text(self.server_name, self.force_refresh),
            },
            LeasePhaseView::Receiving => LeaseActionView::Receive,
            LeasePhaseView::Decoding { result } => LeaseActionView::Decode { result },
            LeasePhaseView::Closing { .. } => LeaseActionView::Close,
            LeasePhaseView::Leased { .. } => LeaseActionView::Finish,
            LeasePhaseView::Failed { .. } => LeaseActionView::Finish,
        }
    }
}

impl LeaseSession {
    /// The work that the session waits for.
    pub fn pending(&self) -> (action: LeaseAction)
        ensures
            action@ == self@.pending(),
    {
        match &self.phase {
            LeasePhase::Building => LeaseAction::BuildRequest,
            LeasePhase::Connecting => LeaseAction::Connect,
            LeasePhase::Upgrading => LeaseAction::Upgrade,
            LeasePhase::Sending => LeaseAction::Send {
                text: get_auth_token_request(self.server_name.as_str(), self.force_refresh),
            },
            LeasePhase::Receiving => LeaseAction::Receive,
            LeasePhase::Decoding { result } => LeaseAction::Decode { result: result.clone() },
            LeasePhase::Closing { .. } => LeaseAction::Close,
            LeasePhase::Leased { .. } => LeaseAction::Finish,
            LeasePhase::Failed { .. } => LeaseAction::Finish,
        }
    }

    /// The phase after a verdict on a reply.
    pub fn after_verdict(&self, verdict: ReplyVerdict) -> (phase: LeasePhase)
        ensures
            phase@ == self@.after_verdict(verdict@),
    {
        match verdict {
            ReplyVerdict::KeepWaiting => LeasePhase::Receiving,
            ReplyVerdict::Refused { message } => LeasePhase::Failed {
                error: LeaseError::Daemon { server_name: self.server_name.clone(), message },
            },
            ReplyVerdict::Granted { result } => LeasePhase::Decoding { result },
        }
    }

    /// The phase after a message that was waited for.
    pub fn after_message(&self, message: DaemonMessage) -> (phase: LeasePhase)
        ensures
            phase@ == self@.after_message(message@),
    {
        match message {
            DaemonMessage::Text(text) => match read_reply(text.as_str()) {
                Ok(reply) => self.after_verdict(judge_reply(reply)),
                Err(cause) => LeasePhase::Failed { error: LeaseError::InvalidJson { text, cause } },
            },
            DaemonMessage::Close(reason) => LeasePhase::Failed {
                error: LeaseError::ClosedBeforeResponse {
                    reason: match reason {
                        Some(reason) => reason,
                        None => String::new(),
                    },
                },
            },
            DaemonMessage::Other => LeasePhase::Receiving,
        }
    }

    /// Takes what came of the pending work.
    pub fn advance(self, event: LeaseEvent) -> (next: LeaseSession)
        ensures
            next@ == self@.next(event@),
    {
        let phase = match event {
            LeaseEvent::Received(message) => match self.phase {
                LeasePhase::Receiving => {
                    let phase = self.after_message(message);
                    return LeaseSession {
                        socket_path: self.socket_path,
                        server_name: self.server_name,
                        force_refresh: self.force_refresh,
                        phase,
                    };
                },
                phase => phase,
            },
            event => match (self.phase, event) {
                (LeasePhase::Building, LeaseEvent::RequestBuilt) => LeasePhase::Connecting,
                (LeasePhase::Building, LeaseEvent::RequestRejected { cause }) =>
                    LeasePhase::Failed { error: LeaseError::InvalidHandshakeUrl { cause } },
                (LeasePhase::Connecting, LeaseEvent::Connected) => LeasePhase::Upgrading,
                (LeasePhase::Connecting, LeaseEvent::ConnectFailed { cause }) =>
                    LeasePhase::Failed {
                        error: LeaseError::Connect { socket_path: self.socket_path.clone(), cause },
                    },
                (LeasePhase::Upgrading, LeaseEvent::Upgraded) => LeasePhase::Sending,
                (LeasePhase::Upgrading, LeaseEvent::UpgradeFailed { cause }) =>
                    LeasePhase::Failed {
                        error: LeaseError::Upgrade { socket_path: self.socket_path.clone(), cause },
                    },
                (LeasePhase::Sending, LeaseEvent::Sent) => LeasePhase::Receiving,
                (LeasePhase::Sending, LeaseEvent::SendFailed { cause }) =>
                    LeasePhase::Failed { error: LeaseError::Send { cause } },
                (LeasePhase::Receiving, LeaseEvent::ReadFailed { cause }) =>
                    LeasePhase::Failed { error: LeaseError::Read { cause } },
                (LeasePhase::Receiving, LeaseEvent::StreamEnded) => LeasePhase::Failed {
                    error: LeaseError::NoResponse,
                },
                (LeasePhase::Decoding { .. }, LeaseEvent::Decoded(token)) => LeasePhase::Closing {
                    token,
                },
                (LeasePhase::Decoding { .. }, LeaseEvent::DecodeFailed { cause }) =>
                    LeasePhase::Failed { error: LeaseError::Decode { cause } },
                (LeasePhase::Closing { token }, LeaseEvent::Closed) => LeasePhase::Leased { token },
                (phase, _) => phase,
            },
        };
        LeaseSession {
            socket_path: self.socket_path,
            server_name: self.server_name,
            force_refresh: self.force_refresh,
            phase,
        }
    }

    /// The outcome of a session that has one: the leased token or the error.
    pub fn outcome(self) -> (outcome: Option<Result<McpGetAuthTokenResponse, LeaseError>>)
        ensures
            match outcome {
                Some(Ok(token)) => self@.phase == (LeasePhaseView::Leased { token: token@ }),
                Some(Err(error)) => self@.phase == (LeasePhaseView::Failed { error: error@ }),
                None => !(self@.pending() is Finish),
            },
    {
        match self.phase {
            LeasePhase::Leased { token } => Some(Ok(token)),
            LeasePhase::Failed { error } => Some(Err(error)),
            _ => None,
        }
    }
}

/// Starts the exchange that leases an access token over the given socket.
pub fn lease_access_token_from_socket(
    socket_path: String,
    server_name: String,
    force_refresh: bool,
) -> (session: LeaseSession)
    ensures
        session@ == LeaseSessionView::start(socket_path@, server_name@, force_refresh),
{
    LeaseSession { socket_path, server_name, force_refresh, phase: LeasePhase::Building }
}

/// Starts the exchange that leases an access token from the running daemon,
/// whose control socket is the one that was resolved.
pub fn lease_access_token_from_daemon(
    socket_path: Option<String>,
    server_name: String,
    force_refresh: bool,
) -> (session: Result<LeaseSession, LeaseError>)
    ensures
        match socket_path {
            Some(path) => session matches Ok(session) && session@ == LeaseSessionView::start(
                path@,
                server_name@,
                force_refresh,
            ),
            None => session matches Err(error) && error@ == LeaseErrorView::SocketNotFound,
        },
{
    match socket_path {
        Some(path) => Ok(lease_access_token_from_socket(path, server_name, force_refresh)),
        None => Err(LeaseError::SocketNotFound),
    }
}

/// Whether this event is a reply that grants the request with this result.
pub open spec fn grants(event: LeaseEventView, result: Seq<char>) -> bool {
    event matches LeaseEventView::Received(DaemonMessageView::Text(text))
        && daemon_lease::reply_of_text(text) is Ok && daemon_lease::verdict_of(
        daemon_lease::reply_of_text(text)->Ok_0,
    ) == (ReplyVerdictView::Granted { result })
}

/// Whether some event grants the request with this result.
pub open spec fn granted(events: Seq<LeaseEventView>, result: Seq<char>) -> bool {
    exists|i: int| 0 <= i < events.len() && #[trigger] grants(events[i], result)
}

/// Whether some event grants the request and a later one decodes this token.
pub open spec fn granted_and_decoded(events: Seq<LeaseEventView>, token: LeasedTokenView) -> bool {
    exists|i: int, j: int, result: Seq<char>|
        0 <= i < j < events.len() && #[trigger] grants(events[i], result) && #[trigger] events[j]
            == LeaseEventView::Decoded(token)
}

proof fn lemma_phase_origin(start: LeaseSessionView, events: Seq<LeaseEventView>)
    requires
        start.phase is Building,
    ensures
        start.run(events).phase matches LeasePhaseView::Decoding { result } ==> granted(
            events,
            result,
        ),
        start.run(events).phase matches LeasePhaseView::Closing { token } ==> granted_and_decoded(
            events,
            token,
        ),
        start.run(events).phase matches LeasePhaseView::Leased { token } ==> granted_and_decoded(
            events,
            token,
        ),
    decreases events.len(),
{
    if events.len() > 0 {
        let earlier = events.drop_last();
        lemma_phase_origin(start, earlier);
        let before = start.run(earlier);
        let last = events.len() - 1;
        assert(forall|i: int| 0 <= i < earlier.len() ==> earlier[i] == events[i]);
        match before.phase {
            LeasePhaseView::Receiving => {
                if let LeasePhaseView::Decoding { result } = start.run(events).phase {
                    assert(grants(events[last], result));
                }
            },
            LeasePhaseView::Decoding { result } => {
                let i = choose|i: int| 0 <= i < earlier.len() && #[trigger] grants(earlier[i], result);
                assert(grants(events[i], result));
                if let LeasePhaseView::Closing { token } = start.run(events).phase {
                    assert(events[last] == LeaseEventView::Decoded(token));
                }
            },
            LeasePhaseView::Closing { token } => {
                let (i, j, result) = choose|i: int, j: int, result: Seq<char>|
                    0 <= i < j < earlier.len() && #[trigger] grants(earlier[i], result)
                        && #[trigger] earlier[j] == LeaseEventView::Decoded(token);
                assert(grants(events[i], result));
                assert(events[j] == LeaseEventView::Decoded(token));
            },
            LeasePhaseView::Leased { token } => {
                let (i, j, result) = choose|i: int, j: int, result: Seq<char>|
                    0 <= i < j < earlier.len() && #[trigger] grants(earlier[i], result)
                        && #[trigger] earlier[j] == LeaseEventView::Decoded(token);
                assert(grants(events[i], result));
                assert(events[j] == LeaseEventView::Decoded(token));
            },
            _ => {},
        }
    }
}

/// A token is leased only after a reply with the request's id and no error
/// granted the request, and it is the token decoded after that reply.
pub proof fn law_a_lease_needs_a_granting_reply(
    socket_path: Seq<char>,
    server_name: Seq<char>,
    force_refresh: bool,
    events: Seq<LeaseEventView>,
    token: LeasedTokenView,
)
    requires
        LeaseSessionView::start(socket_path, server_name, force_refresh).run(events).phase == (
        LeasePhaseView::Leased { token }),
    ensures
        granted_and_decoded(events, token),
{
    lemma_phase_origin(
        LeaseSessionView::start(socket_path, server_name, force_refresh),
        events,
    );
}

/// A reply to another request, or one with neither error nor result, leaves a
/// waiting session as it is.
pub proof fn law_other_replies_are_passed_over(
    session: LeaseSessionView,
    text: Seq<char>,
    reply: daemon_lease::DaemonReplyView,
)
    requires
        session.phase is Receiving,
        daemon_lease::reply_of_text(text) == Ok::<daemon_lease::DaemonReplyView, Seq<char>>(reply),
        reply.id != Some(daemon_lease::REQUEST_ID) || (reply.error is None && reply.result is None),
    ensures
        session.next(LeaseEventView::Received(DaemonMessageView::Text(text))) == session,
{
}

/// A reply with the request's id and an error fails the session, whatever
/// result it carries, and the message names the server and the error.
pub proof fn law_an_error_reply_fails_the_session(
    session: LeaseSessionView,
    text: Seq<char>,
    reply: daemon_lease::DaemonReplyView,
)
    requires
        session.phase is Receiving,
        daemon_lease::reply_of_text(text) == Ok::<daemon_lease::DaemonReplyView, Seq<char>>(reply),
        reply.id == Some(daemon_lease::REQUEST_ID),
        reply.error is Some,
    ensures
        session.next(LeaseEventView::Received(DaemonMessageView::Text(text))).phase matches
            LeasePhaseView::Failed { error } && error.message()
            == "Daemon error retrieving auth token for '"@ + session.server_name + "': "@ + (
        match reply.error->0 {
            Some(message) => message,
            None => "unknown error"@,
        }),
{
}

/// A session that has an outcome keeps it, whatever happens next.
pub proof fn law_an_outcome_is_final(session: LeaseSessionView, events: Seq<LeaseEventView>)
    requires
        session.pending() is Finish,
    ensures
        session.run(events) == session,
    decreases events.len(),
{
    if events.len() > 0 {
        law_an_outcome_is_final(session, events.drop_last());
    }
}

/// Whether the request has left the session.
pub open spec fn request_is_out(phase: LeasePhaseView) -> bool {
    !(phase is Building || phase is Connecting || phase is Upgrading || phase is Sending)
}

/// A session sends its request once: after it was sent, no send is pending
/// again.
pub proof fn law_the_request_is_sent_once(session: LeaseSessionView, events: Seq<LeaseEventView>)
    requires
        request_is_out(session.phase),
    ensures
        request_is_out(session.run(events).phase),
        !(session.run(events).pending() is Send),
    decreases events.len(),
{
    if events.len() > 0 {
        law_the_request_is_sent_once(session, events.drop_last());
    }
}

/// A session keeps asking for the same server over the same socket.
pub proof fn law_a_session_keeps_its_request(
    session: LeaseSessionView,
    events: Seq<LeaseEventView>,
)
    ensures
        session.run(events).socket_path == session.socket_path,
        session.run(events).server_name == session.server_name,
        session.run(events).force_refresh == session.force_refresh,
    decreases events.len(),
{
    if events.len() > 0 {
        law_a_session_keeps_its_request(session, events.drop_last());
    }
}

/// Whether an event answers the work that the session waits for.
pub open spec fn answers(session: LeaseSessionView, event: LeaseEventView) -> bool {
    match (session.pending(), event) {
        (LeaseActionView::BuildRequest, LeaseEventView::RequestBuilt) => true,
        (LeaseActionView::BuildRequest, LeaseEventView::RequestRejected { .. }) => true,
        (LeaseActionView::Connect, LeaseEventView::Connected) => true,
        (LeaseActionView::Connect, LeaseEventView::ConnectFailed { .. }) => true,
        (LeaseActionView::Upgrade, LeaseEventView::Upgraded) => true,
        (LeaseActionView::Upgrade, LeaseEventView::UpgradeFailed { .. }) => true,
        (LeaseActionView::Send { .. }, LeaseEventView::Sent) => true,
        (LeaseActionView::Send { .. }, LeaseEventView::SendFailed { .. }) => true,
        (LeaseActionView::Receive, LeaseEventView::Received(_)) => true,
        (LeaseActionView::Receive, LeaseEventView::ReadFailed { .. }) => true,
        (LeaseActionView::Receive, LeaseEventView::StreamEnded) => true,
        (LeaseActionView::Decode { .. }, LeaseEventView::Decoded(_)) => true,
        (LeaseActionView::Decode { .. }, LeaseEventView::DecodeFailed { .. }) => true,
        (LeaseActionView::Close, LeaseEventView::Closed) => true,
        _ => false,
    }
}

/// Whether an event is a message that the session passes over.
pub open spec fn is_passed_over(session: LeaseSessionView, event: LeaseEventView) -> bool {
    session.phase is Receiving && (event matches LeaseEventView::Received(message)
        && session.after_message(message) is Receiving)
}

/// Whether each event answers the work that the session waits for when it
/// comes.
pub open spec fn all_answer(start: LeaseSessionView, events: Seq<LeaseEventView>) -> bool
    decreases events.len(),
{
    events.len() == 0 || (all_answer(start, events.drop_last()) && answers(
        start.run(events.drop_last()),
        events.last(),
    ))
}

/// How many of the events are messages that the session passes over.
pub open spec fn passed_over(start: LeaseSessionView, events: Seq<LeaseEventView>) -> nat
    decreases events.len(),
{
    if events.len() == 0 {
        0
    } else {
        passed_over(start, events.drop_last()) + if is_passed_over(
            start.run(events.drop_last()),
            events.last(),
        ) {
            1nat
        } else {
            0nat
        }
    }
}

/// How many answers the session still takes, at most, besides messages that it
/// passes over.
pub open spec fn answers_left(session: LeaseSessionView) -> nat {
    match session.phase {
        LeasePhaseView::Building => 7,
        LeasePhaseView::Connecting => 6,
        LeasePhaseView::Upgrading => 5,
        LeasePhaseView::Sending => 4,
        LeasePhaseView::Receiving => 3,
        LeasePhaseView::Decoding { .. } => 2,
        LeasePhaseView::Closing { .. } => 1,
        LeasePhaseView::Leased { .. } => 0,
        LeasePhaseView::Failed { .. } => 0,
    }
}

/// An event that answers the pending work brings the session nearer to its end,
/// unless it is a message that is passed over; such a message, and any event
/// that answers nothing, changes nothing.
pub proof fn law_an_answer_brings_the_outcome_nearer(
    session: LeaseSessionView,
    event: LeaseEventView,
)
    ensures
        answers(session, event) && !is_passed_over(session, event) ==> answers_left(
            session.next(event),
        ) < answers_left(session),
        !answers(session, event) || is_passed_over(session, event) ==> session.next(event)
            == session,
        answers_left(session) == 0 <==> session.phase is Leased || session.phase is Failed,
        answers_left(session) == 0 <==> session.pending() is Finish,
{
}

/// A session comes to an outcome: besides messages that it passes over, it
/// takes at most seven answers.
pub proof fn law_a_session_comes_to_an_outcome(
    socket_path: Seq<char>,
    server_name: Seq<char>,
    force_refresh: bool,
    events: Seq<LeaseEventView>,
)
    requires
        all_answer(LeaseSessionView::start(socket_path, server_name, force_refresh), events),
    ensures
        ({
            let start = LeaseSessionView::start(socket_path, server_name, force_refresh);
            &&& events.len() + answers_left(start.run(events)) <= 7 + passed_over(start, events)
            &&& events.len() == 7 + passed_over(start, events) ==> start.run(
                events,
            ).pending() is Finish
        }),
    decreases events.len(),
{
    let start = LeaseSessionView::start(socket_path, server_name, force_refresh);
    if events.len() > 0 {
        let earlier = events.drop_last();
        law_a_session_comes_to_an_outcome(socket_path, server_name, force_refresh, earlier);
        law_an_answer_brings_the_outcome_nearer(start.run(earlier), events.last());
    }
    law_an_answer_brings_the_outcome_nearer(start.run(events), LeaseEventView::Closed);
}

/// The message of the error that an event reports, besides that of a refused
/// handshake URL, which the shown message holds.
pub open spec fn reported_cause(event: LeaseEventView) -> Option<Seq<char>> {
    match event {
        LeaseEventView::ConnectFailed { cause } => Some(cause),
        LeaseEventView::UpgradeFailed { cause } => Some(cause),
        LeaseEventView::SendFailed { cause } => Some(cause),
        LeaseEventView::ReadFailed { cause } => Some(cause),
        LeaseEventView::DecodeFailed { cause } => Some(cause),
        _ => None,
    }
}

/// A failure of the pending work fails the session, and the error keeps what
/// caused it.
pub proof fn law_a_failure_keeps_its_cause(session: LeaseSessionView, event: LeaseEventView)
    requires
        answers(session, event),
        reported_cause(event) is Some,
    ensures
        session.next(event).phase matches LeasePhaseView::Failed { error } && error.source()
            == reported_cause(event),
{
}

} // verus!
