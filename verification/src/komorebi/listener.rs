//! The decisions of the thread that listens to komorebi. The thread performs
//! an action, reports what happened as an event, and is told the next action.

use vstd::prelude::*;
use vstd::string::*;
use crate::json::{text_json, Json, JsonError, JsonValue};
use crate::komorebi::client::{KSocketMessage, KSocketMessageView};
use crate::komorebi::notification_state;
use crate::komorebi::state_from_notification;
use crate::state::{State, StateView};

verus! {

/// The time between two attempts to reach komorebi, in milliseconds.
pub const RETRY_BACKOFF_MILLIS: u64 = 1000;

/// Where the listening thread stands.
#[derive(Clone, Copy, Debug, PartialEq, Eq, Structural)]
pub enum ListenerState {
    /// No subscription yet: the socket is to be bound and komorebi told of it.
    Subscribing,
    /// Subscribed: notifications come in, one connection each.
    Listening,
    /// komorebi went away: it is to be told of the socket again.
    Reconnecting,
}

/// What happened to the listening thread's last action.
#[derive(Debug)]
pub enum ListenerEvent {
    /// The socket is bound and komorebi knows of it.
    Subscribed,
    /// The socket could not be bound, or komorebi not be told.
    SubscribeFailed,
    /// A connection could not be accepted.
    AcceptFailed,
    /// A connection ended before it brought a byte.
    Disconnected,
    /// A connection brought bytes that are no text.
    Unreadable,
    /// A connection brought this text.
    Payload(String),
    /// komorebi knows of the socket again.
    Reconnected,
    /// komorebi could not be told of the socket.
    ReconnectFailed,
}

/// An event as a plain value.
pub enum ListenerEventView {
    Subscribed,
    SubscribeFailed,
    AcceptFailed,
    Disconnected,
    Unreadable,
    Payload(Seq<char>),
    Reconnected,
    ReconnectFailed,
}

impl View for ListenerEvent {
    type V = ListenerEventView;

    open spec fn view(&self) -> ListenerEventView {
        match self {
            ListenerEvent::Subscribed => ListenerEventView::Subscribed,
            ListenerEvent::SubscribeFailed => ListenerEventView::SubscribeFailed,
            ListenerEvent::AcceptFailed => ListenerEventView::AcceptFailed,
            ListenerEvent::Disconnected => ListenerEventView::Disconnected,
            ListenerEvent::Unreadable => ListenerEventView::Unreadable,
            ListenerEvent::Payload(text) => ListenerEventView::Payload(text@),
            ListenerEvent::Reconnected => ListenerEventView::Reconnected,
            ListenerEvent::ReconnectFailed => ListenerEventView::ReconnectFailed,
        }
    }
}

/// What the listening thread is to do next.
#[derive(Debug)]
pub enum ListenerAction {
    /// Wait so many milliseconds, then bind the socket and tell komorebi.
    Subscribe { after_millis: u64 },
    /// Wait for the next connection.
    Accept,
    /// Hand the snapshot to the event loop, then wait for the next connection.
    Push(State),
    /// Wait so many milliseconds, then tell komorebi of the socket again.
    Reconnect { after_millis: u64 },
}

/// An action as a plain value.
pub enum ListenerActionView {
    Subscribe { after_millis: u64 },
    Accept,
    Push(StateView),
    Reconnect { after_millis: u64 },
}

impl View for ListenerAction {
    type V = ListenerActionView;

    open spec fn view(&self) -> ListenerActionView {
        match self {
            ListenerAction::Subscribe { after_millis } => ListenerActionView::Subscribe {
                after_millis: *after_millis,
            },
            ListenerAction::Accept => ListenerActionView::Accept,
            ListenerAction::Push(state) => ListenerActionView::Push(state@),
            ListenerAction::Reconnect { after_millis } => ListenerActionView::Reconnect {
                after_millis: *after_millis,
            },
        }
    }
}

/// The state after `event`. A payload never ends the subscription, whatever
/// it holds; an event that the state does not wait for changes nothing.
pub open spec fn next_state(state: ListenerState, event: ListenerEventView) -> ListenerState {
    match (state, event) {
        (ListenerState::Subscribing, ListenerEventView::Subscribed) => ListenerState::Listening,
        (ListenerState::Listening, ListenerEventView::Disconnected) => ListenerState::Reconnecting,
        (ListenerState::Reconnecting, ListenerEventView::Reconnected) => ListenerState::Listening,
        _ => state,
    }
}

/// What a payload leads to: the snapshot is handed on where the payload is a
/// notification of a listed kind; any other payload is dropped.
pub open spec fn payload_action(document: Option<JsonValue>) -> ListenerActionView {
    match document {
        Some(j) => match notification_state(j) {
            Some(state) => ListenerActionView::Push(state),
            None => ListenerActionView::Accept,
        },
        None => ListenerActionView::Accept,
    }
}

/// What a state goes on with where nothing new is to be done: a new attempt
/// after the pause, or the wait for the next connection.
pub open spec fn resume_action(state: ListenerState) -> ListenerActionView {
    match state {
        ListenerState::Subscribing => ListenerActionView::Subscribe {
            after_millis: RETRY_BACKOFF_MILLIS,
        },
        ListenerState::Listening => ListenerActionView::Accept,
        ListenerState::Reconnecting => ListenerActionView::Reconnect {
            after_millis: RETRY_BACKOFF_MILLIS,
        },
    }
}

/// The action after `event`.
pub open spec fn next_action(state: ListenerState, event: ListenerEventView) -> ListenerActionView {
    match (state, event) {
        (ListenerState::Listening, ListenerEventView::Disconnected) => ListenerActionView::Reconnect {
            after_millis: 0,
        },
        (ListenerState::Listening, ListenerEventView::Payload(text)) => payload_action(
            text_json(text),
        ),
        _ => resume_action(next_state(state, event)),
    }
}

/// A payload never ends the subscription: whatever it holds, the thread
/// goes on listening. One that is no JSON document, or no notification of a
/// listed kind, is dropped, and the thread waits for the next connection.
pub proof fn lemma_payload_keeps_listening(text: Seq<char>)
    ensures
        next_state(ListenerState::Listening, ListenerEventView::Payload(text))
            == ListenerState::Listening,
        next_action(ListenerState::Listening, ListenerEventView::Payload(text)) == match text_json(
            text,
        ) {
            Some(j) => match notification_state(j) {
                Some(state) => ListenerActionView::Push(state),
                None => ListenerActionView::Accept,
            },
            None => ListenerActionView::Accept,
        },
{
}

/// The state and the action that the thread starts with.
pub fn listener_start() -> (r: (ListenerState, ListenerAction))
    ensures
        r.0 == ListenerState::Subscribing,
        r.1@ == (ListenerActionView::Subscribe { after_millis: 0 }),
{
    (ListenerState::Subscribing, ListenerAction::Subscribe { after_millis: 0 })
}

/// The request that tells komorebi to send its notifications to the socket
/// `name`.
pub fn subscribe_message(name: &str) -> (r: KSocketMessage)
    ensures
        r@ == KSocketMessageView::AddSubscriberSocket(name@),
{
    KSocketMessage::AddSubscriberSocket(String::from_str(name))
}

/// What the document of a payload leads to.
pub fn on_payload(document: &Result<Json, JsonError>) -> (r: ListenerAction)
    ensures
        r@ == payload_action(
            match document {
                Ok(j) => Some(j@),
                Err(_) => None,
            },
        ),
{
    match document {
        Ok(j) => match state_from_notification(j) {
            Some(state) => ListenerAction::Push(state),
            None => ListenerAction::Accept,
        },
        Err(_) => ListenerAction::Accept,
    }
}

fn resume(state: ListenerState) -> (r: ListenerAction)
    ensures
        r@ == resume_action(state),
{
    match state {
        ListenerState::Subscribing => ListenerAction::Subscribe { after_millis: RETRY_BACKOFF_MILLIS },
        ListenerState::Listening => ListenerAction::Accept,
        ListenerState::Reconnecting => ListenerAction::Reconnect {
            after_millis: RETRY_BACKOFF_MILLIS,
        },
    }
}

/// One step of the listening thread: the state and the action after `event`.
pub fn listener_step(state: ListenerState, event: &ListenerEvent) -> (r: (
    ListenerState,
    ListenerAction,
))
    ensures
        r.0 == next_state(state, event@),
        r.1@ == next_action(state, event@),
{
    match (state, event) {
        (ListenerState::Subscribing, ListenerEvent::Subscribed) => (
            ListenerState::Listening,
            ListenerAction::Accept,
        ),
        (ListenerState::Listening, ListenerEvent::Disconnected) => (
            ListenerState::Reconnecting,
            ListenerAction::Reconnect { after_millis: 0 },
        ),
        (ListenerState::Listening, ListenerEvent::Payload(text)) => {
            let document = Json::parse(text.as_str());
            (ListenerState::Listening, on_payload(&document))
        },
        (ListenerState::Reconnecting, ListenerEvent::Reconnected) => (
            ListenerState::Listening,
            ListenerAction::Accept,
        ),
        _ => (state, resume(state)),
    }
}

} // verus!
