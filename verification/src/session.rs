//! One realtime connection as a state machine. The owner of the socket feeds
//! it events and carries out the action it answers with.

use vstd::prelude::*;
use vstd::string::*;
use crate::claims::{AuthRequestClaims, JWTClaims, TokenConfig};
use crate::codec::{hs256_payload, hs256_signed};

verus! {

/// What arrived on a connection's socket.
#[derive(Clone, Debug)]
pub enum Frame {
    /// A text frame.
    Text(String),
    /// Any other frame.
    Other,
    /// The peer is gone or the socket failed.
    End,
}

/// A frame with its text as a sequence of characters.
pub enum FrameView {
    Text(Seq<char>),
    Other,
    End,
}

impl View for Frame {
    type V = FrameView;

    open spec fn view(&self) -> FrameView {
        match self {
            Frame::Text(t) => FrameView::Text(t@),
            Frame::Other => FrameView::Other,
            Frame::End => FrameView::End,
        }
    }
}

/// Where a connection stands.
#[derive(Clone, Debug)]
pub enum ConnState {
    Connecting,
    Authenticating,
    Joined { name: String },
    Leaving { name: String },
    Closed,
}

/// A connection's state with the name as a sequence of characters.
pub enum ConnStateView {
    Connecting,
    Authenticating,
    Joined { name: Seq<char> },
    Leaving { name: Seq<char> },
    Closed,
}

impl View for ConnState {
    type V = ConnStateView;

    open spec fn view(&self) -> ConnStateView {
        match self {
            ConnState::Connecting => ConnStateView::Connecting,
            ConnState::Authenticating => ConnStateView::Authenticating,
            ConnState::Joined { name } => ConnStateView::Joined { name: name@ },
            ConnState::Leaving { name } => ConnStateView::Leaving { name: name@ },
            ConnState::Closed => ConnStateView::Closed,
        }
    }
}

/// What happened to a connection.
#[derive(Clone, Debug)]
pub enum Event {
    /// The transport upgrade is complete.
    Upgraded,
    /// A frame came in from the peer.
    Inbound(Frame),
    /// The first frame was checked and its subject looked up: the display
    /// name, or nothing where either step failed.
    Authenticated(Option<String>),
    /// The broadcast group handed over a message, or nothing where the
    /// subscription ended.
    Outbound(Option<String>),
    /// Writing to the socket failed.
    SendFailed,
    /// Both relay loops have stopped.
    Stopped,
}

/// An event with its texts as sequences of characters.
pub enum EventView {
    Upgraded,
    Inbound(FrameView),
    Authenticated(Option<Seq<char>>),
    Outbound(Option<Seq<char>>),
    SendFailed,
    Stopped,
}

impl View for Event {
    type V = EventView;

    open spec fn view(&self) -> EventView {
        match self {
            Event::Upgraded => EventView::Upgraded,
            Event::Inbound(f) => EventView::Inbound(f@),
            Event::Authenticated(Some(n)) => EventView::Authenticated(Some(n@)),
            Event::Authenticated(None) => EventView::Authenticated(None),
            Event::Outbound(Some(m)) => EventView::Outbound(Some(m@)),
            Event::Outbound(None) => EventView::Outbound(None),
            Event::SendFailed => EventView::SendFailed,
            Event::Stopped => EventView::Stopped,
        }
    }
}

/// What the owner of the socket has to do next.
#[derive(Clone, Debug)]
pub enum Action {
    /// Nothing; wait for the next event.
    Wait,
    /// Check this signed token and look its subject up, then report
    /// `Authenticated`.
    Authenticate(String),
    /// Close the socket without telling the group anything.
    Close,
    /// Add the name to the room, publish the announcement and start relaying
    /// in both directions.
    Join { name: String, announcement: String },
    /// Publish a chat line to the group.
    Broadcast(String),
    /// Write a message of the group to the socket.
    Deliver(String),
    /// Stop both relay loops, then report `Stopped`.
    StopLoops,
    /// Publish the announcement and take the name out of the room.
    Leave { name: String, announcement: String },
}

/// An action with its texts as sequences of characters.
pub enum ActionView {
    Wait,
    Authenticate(Seq<char>),
    Close,
    Join { name: Seq<char>, announcement: Seq<char> },
    Broadcast(Seq<char>),
    Deliver(Seq<char>),
    StopLoops,
    Leave { name: Seq<char>, announcement: Seq<char> },
}

impl View for Action {
    type V = ActionView;

    open spec fn view(&self) -> ActionView {
        match self {
            Action::Wait => ActionView::Wait,
            Action::Authenticate(t) => ActionView::Authenticate(t@),
            Action::Close => ActionView::Close,
            Action::Join { name, announcement } => ActionView::Join {
                name: name@,
                announcement: announcement@,
            },
            Action::Broadcast(m) => ActionView::Broadcast(m@),
            Action::Deliver(m) => ActionView::Deliver(m@),
            Action::StopLoops => ActionView::StopLoops,
            Action::Leave { name, announcement } => ActionView::Leave {
                name: name@,
                announcement: announcement@,
            },
        }
    }
}

/// The announcement for a participant who joined.
pub open spec fn join_text(name: Seq<char>) -> Seq<char> {
    name + " joined"@
}

/// The announcement for a participant who left.
pub open spec fn leave_text(name: Seq<char>) -> Seq<char> {
    name + " left"@
}

/// A chat line: the sender's name, a colon, a space and the text.
pub open spec fn chat_text(name: Seq<char>, text: Seq<char>) -> Seq<char> {
    name + ": "@ + text
}

/// The transition of a joined connection.
pub open spec fn next_joined(name: Seq<char>, event: EventView) -> (ConnStateView, ActionView) {
    let stay = ConnStateView::Joined { name };
    let go = (ConnStateView::Leaving { name }, ActionView::StopLoops);
    match event {
        EventView::Inbound(FrameView::Text(t)) => if t.len() == 0 {
            go
        } else {
            (stay, ActionView::Broadcast(chat_text(name, t)))
        },
        EventView::Inbound(_) => go,
        EventView::Outbound(Some(m)) => if m.len() == 0 {
            go
        } else {
            (stay, ActionView::Deliver(m))
        },
        EventView::Outbound(None) => go,
        EventView::SendFailed => go,
        _ => (stay, ActionView::Wait),
    }
}

/// The transition function: the state after an event, and what to do.
pub open spec fn next(state: ConnStateView, event: EventView) -> (ConnStateView, ActionView) {
    match state {
        ConnStateView::Connecting => match event {
            EventView::Upgraded => (ConnStateView::Authenticating, ActionView::Wait),
            _ => (state, ActionView::Wait),
        },
        ConnStateView::Authenticating => match event {
            EventView::Inbound(FrameView::Text(t)) => (state, ActionView::Authenticate(t)),
            EventView::Inbound(_) => (ConnStateView::Closed, ActionView::Close),
            EventView::Authenticated(Some(name)) => (
                ConnStateView::Joined { name },
                ActionView::Join { name, announcement: join_text(name) },
            ),
            EventView::Authenticated(None) => (ConnStateView::Closed, ActionView::Close),
            _ => (state, ActionView::Wait),
        },
        ConnStateView::Joined { name } => next_joined(name, event),
        ConnStateView::Leaving { name } => match event {
            EventView::Stopped => (
                ConnStateView::Closed,
                ActionView::Leave { name, announcement: leave_text(name) },
            ),
            _ => (state, ActionView::Wait),
        },
        ConnStateView::Closed => (state, ActionView::Wait),
    }
}

/// How far a connection has come on its way from connecting to closed.
pub open spec fn progress(state: ConnStateView) -> nat {
    match state {
        ConnStateView::Connecting => 0,
        ConnStateView::Authenticating => 1,
        ConnStateView::Joined { .. } => 2,
        ConnStateView::Leaving { .. } => 3,
        ConnStateView::Closed => 4,
    }
}

/// A connection never goes back: no event takes it to an earlier state, and a
/// joined or leaving connection keeps its name.
pub proof fn lemma_states_only_advance(state: ConnStateView, event: EventView)
    ensures
        progress(state) <= progress(next(state, event).0),
        state matches ConnStateView::Joined { name } ==> (next(state, event).0 matches ConnStateView::Joined {
            name: kept,
        } ==> kept == name),
        state matches ConnStateView::Joined { name } ==> (next(state, event).0 matches ConnStateView::Leaving {
            name: kept,
        } ==> kept == name),
        state matches ConnStateView::Joined { .. } ==> !(next(state, event).0 is Closed),
{
}

/// Before a connection has authenticated nothing is published: it is joined
/// only on a successful authentication, and a failed one closes it in silence.
pub proof fn lemma_join_needs_authentication(state: ConnStateView, event: EventView)
    ensures
        next(state, event).1 is Join ==> state is Authenticating && event matches EventView::Authenticated(
            Some(_),
        ),
        state is Authenticating && (event matches EventView::Authenticated(None)) ==> next(
            state,
            event,
        ) == (ConnStateView::Closed, ActionView::Close),
{
}

/// A closed connection stays closed and asks for nothing.
pub proof fn lemma_closed_is_final(event: EventView)
    ensures
        next(ConnStateView::Closed, event) == (ConnStateView::Closed, ActionView::Wait),
{
}

/// A participant's leaving is announced only once both relay loops have
/// stopped, and that closes the connection.
pub proof fn lemma_leave_follows_stop(state: ConnStateView, event: EventView)
    requires
        next(state, event).1 is Leave,
    ensures
        state is Leaving,
        event is Stopped,
        next(state, event).0 is Closed,
{
}

/// Messages reach the socket or the group only while the connection is joined,
/// and an empty text is never relayed.
pub proof fn lemma_relay_only_while_joined(state: ConnStateView, event: EventView)
    ensures
        next(state, event).1 matches ActionView::Broadcast(m) ==> state is Joined && m.len() > 0,
        next(state, event).1 matches ActionView::Deliver(m) ==> state is Joined && m.len() > 0,
{
    if let ConnStateView::Joined { name } = state {
        if let EventView::Inbound(FrameView::Text(t)) = event {
            assert(chat_text(name, t).len() == name.len() + ": "@.len() + t.len());
        }
    }
}

fn leaving(name: String) -> (r: (ConnState, Action))
    ensures
        r.0@ == (ConnStateView::Leaving { name: name@ }),
        r.1@ == ActionView::StopLoops,
{
    (ConnState::Leaving { name }, Action::StopLoops)
}

fn step_joined(name: String, event: Event) -> (r: (ConnState, Action))
    ensures
        (r.0@, r.1@) == next_joined(name@, event@),
{
    match event {
        Event::Inbound(Frame::Text(text)) => {
            if text.as_str().is_empty() {
                leaving(name)
            } else {
                let line = name.clone().concat(": ").concat(text.as_str());
                (ConnState::Joined { name }, Action::Broadcast(line))
            }
        },
        Event::Inbound(_) => leaving(name),
        Event::Outbound(Some(message)) => {
            if message.as_str().is_empty() {
                leaving(name)
            } else {
                (ConnState::Joined { name }, Action::Deliver(message))
            }
        },
        Event::Outbound(None) => leaving(name),
        Event::SendFailed => leaving(name),
        _ => (ConnState::Joined { name }, Action::Wait),
    }
}

/// Takes a connection one event further.
pub fn step(state: ConnState, event: Event) -> (r: (ConnState, Action))
    ensures
        (r.0@, r.1@) == next(state@, event@),
{
    match state {
        ConnState::Connecting => match event {
            Event::Upgraded => (ConnState::Authenticating, Action::Wait),
            _ => (ConnState::Connecting, Action::Wait),
        },
        ConnState::Authenticating => match event {
            Event::Inbound(Frame::Text(token)) => (
                ConnState::Authenticating,
                Action::Authenticate(token),
            ),
            Event::Inbound(_) => (ConnState::Closed, Action::Close),
            Event::Authenticated(Some(name)) => {
                let announcement = name.clone().concat(" joined");
                let joined = name.clone();
                (ConnState::Joined { name }, Action::Join { name: joined, announcement })
            },
            Event::Authenticated(None) => (ConnState::Closed, Action::Close),
            _ => (ConnState::Authenticating, Action::Wait),
        },
        ConnState::Joined { name } => step_joined(name, event),
        ConnState::Leaving { name } => match event {
            Event::Stopped => {
                let announcement = name.clone().concat(" left");
                (ConnState::Closed, Action::Leave { name, announcement })
            },
            _ => (ConnState::Leaving { name }, Action::Wait),
        },
        ConnState::Closed => (ConnState::Closed, Action::Wait),
    }
}

/// Checks the signed token of a first frame as request claims; every failure
/// is `None`. What comes back is read off the payload of that token.
pub fn authenticate(config: &TokenConfig, token: &str) -> (r: Option<AuthRequestClaims>)
    ensures
        r matches Some(c) ==> c.iss@ == config.issuer@ && c.aud@ == config.audience@,
        r is Some ==> hs256_signed(token@, config.secret@),
        r matches Some(c) ==> c.read_from(hs256_payload(token@, config.secret@)->0),
{
    handshake_claims(AuthRequestClaims::from_string(config, token))
}

/// What the check of a first frame's token means for the handshake: the
/// verified claims, whose subject is looked up next, or nothing on a failure.
pub fn handshake_claims(checked: Result<AuthRequestClaims, crate::auth::AuthError>) -> (r: Option<
    AuthRequestClaims,
>)
    ensures
        match checked {
            Ok(claims) => r == Some(claims),
            Err(_) => r is None,
        },
{
    match checked {
        Ok(claims) => Some(claims),
        Err(_) => None,
    }
}

} // verus!
