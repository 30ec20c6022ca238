//! The websocket route: who may open a socket, with which subscribers,
//! and what each incoming message asks for.
//!
//! An admitted socket is registered with the connection manager by
//! `ConnectionManager::open_socket` and dropped by `close_socket` when its
//! stream ends. The manager only records sockets: it keeps no subscriber
//! lists and has no way to deliver typing notices or texts to another
//! user, so the subscribers found at admission and the `Typing` and `Text`
//! commands are reported to the caller but lead to no manager call.

use vstd::prelude::*;
use crate::functions::statics::{first_occurrences, get_subscribers, string_views};
use crate::models::ws_models::WSIncomming;
use crate::text::text_is;

verus! {

/// Where the admission of a websocket stands.
pub enum WsState {
    /// Waiting for the session of the client's token.
    AwaitSession { token: String },
    /// Waiting for the subscriber list of `username`.
    AwaitSubscribers { username: String },
    /// The decision has been made.
    Done,
}

/// The outcome of the last lookup.
pub enum WsEvent {
    /// The user name stored with the token's session, if there is one.
    SessionLookup { session_username: Option<String> },
    /// The subscriber list stored with the user, if the user was found.
    SubscribersLookup { stored: Option<Vec<String>> },
}

/// What to do next.
#[allow(inconsistent_fields)]
pub enum WsAction {
    /// Look up the session with this token.
    FindSession { token: String },
    /// Look up the subscriber list of this user.
    FindSubscribers { username: String },
    /// Refuse the socket: there was no token (`None`), or no session has
    /// this token.
    Reject { token: Option<String> },
    /// Open the socket for `username`, whose subscribers are these.
    Accept { username: String, subscribers: Vec<String> },
}

/// Whether `state` waits for an event of the kind of `event`.
pub open spec fn ws_accepts(state: WsState, event: WsEvent) -> bool {
    match state {
        WsState::AwaitSession { .. } => event is SessionLookup,
        WsState::AwaitSubscribers { .. } => event is SubscribersLookup,
        WsState::Done => false,
    }
}

/// The transition from `pre` on `event` to `post`, asking for `act`.
pub open spec fn ws_step_spec(pre: WsState, event: WsEvent, post: WsState, act: WsAction) -> bool {
    match pre {
        WsState::AwaitSession { token } => match event {
            WsEvent::SessionLookup { session_username } => match session_username {
                None => post is Done && act == (WsAction::Reject { token: Some(token) }),
                Some(username) => {
                    &&& post == (WsState::AwaitSubscribers { username })
                    &&& act == (WsAction::FindSubscribers { username })
                },
            },
            _ => false,
        },
        WsState::AwaitSubscribers { username } => match event {
            WsEvent::SubscribersLookup { stored } => {
                &&& post is Done
                &&& act matches WsAction::Accept { username: u, subscribers }
                &&& u == username
                &&& string_views(subscribers@).no_duplicates()
                &&& stored is None ==> subscribers@.len() == 0
                &&& stored matches Some(list) ==> string_views(subscribers@).to_set()
                    == string_views(list@).to_set()
                &&& stored matches Some(list) ==> string_views(subscribers@) == first_occurrences(
                    string_views(list@),
                )
            },
            _ => false,
        },
        WsState::Done => false,
    }
}

impl WsState {
    /// Whether this state waits for an event of the kind of `event`.
    pub fn accepts(&self, event: &WsEvent) -> (b: bool)
        ensures
            b == ws_accepts(*self, *event),
    {
        match self {
            WsState::AwaitSession { .. } => matches!(event, WsEvent::SessionLookup { .. }),
            WsState::AwaitSubscribers { .. } => matches!(event, WsEvent::SubscribersLookup { .. }),
            WsState::Done => false,
        }
    }
}

/// Starts the admission from the client's `token` cookie, if any: without
/// one the socket is refused; with one, its session is looked up.
pub fn ws_start(token: Option<String>) -> (res: (WsState, WsAction))
    ensures
        token is None ==> res.0 is Done && res.1 == (WsAction::Reject { token: None }),
        token matches Some(t) ==> res.0 == (WsState::AwaitSession { token: t }) && res.1 == (
        WsAction::FindSession { token: t }),
{
    match token {
        None => (WsState::Done, WsAction::Reject { token: None }),
        Some(t) => {
            let act = WsAction::FindSession { token: t.clone() };
            (WsState::AwaitSession { token: t }, act)
        },
    }
}

/// Advances the admission on the outcome of the last lookup.
pub fn ws_step(state: WsState, event: WsEvent) -> (res: (WsState, WsAction))
    requires
        ws_accepts(state, event),
    ensures
        ws_step_spec(state, event, res.0, res.1),
{
    match state {
        WsState::AwaitSession { token } => match event {
            WsEvent::SessionLookup { session_username } => match session_username {
                None => (WsState::Done, WsAction::Reject { token: Some(token) }),
                Some(username) => {
                    let act = WsAction::FindSubscribers { username: username.clone() };
                    (WsState::AwaitSubscribers { username }, act)
                },
            },
            // not reached: `requires` admits only `SessionLookup` here
            _ => (WsState::Done, WsAction::Reject { token: None }),
        },
        WsState::AwaitSubscribers { username } => match event {
            WsEvent::SubscribersLookup { stored } => {
                let subscribers = match get_subscribers(stored) {
                    Some(set) => set,
                    None => Vec::new(),
                };
                (WsState::Done, WsAction::Accept { username, subscribers })
            },
            // not reached: `requires` admits only `SubscribersLookup` here
            _ => (WsState::Done, WsAction::Reject { token: None }),
        },
        // not reached: `requires` admits no event here
        WsState::Done => (WsState::Done, WsAction::Reject { token: None }),
    }
}

/// A socket is opened only for the user whose session holds the client's
/// token: an `Accept` comes only from the subscriber lookup of the user
/// that the session lookup named.
pub proof fn law_ws_accepts_only_session_user(
    token: String,
    username: String,
    stored: Option<Vec<String>>,
    s1: WsState,
    a1: WsAction,
    s2: WsState,
    a2: WsAction,
)
    requires
        ws_step_spec(
            WsState::AwaitSession { token },
            WsEvent::SessionLookup { session_username: Some(username) },
            s1,
            a1,
        ),
        ws_step_spec(s1, WsEvent::SubscribersLookup { stored }, s2, a2),
    ensures
        a1 == (WsAction::FindSubscribers { username }),
        a2 matches WsAction::Accept { username: u, .. } && u == username,
        s2 is Done,
{
}

/// What an incoming websocket message asks for.
pub enum WsCommand {
    /// The sender is typing to `username_to`.
    Typing { username_to: String },
    /// A text message to `username_to`.
    Text { username_to: String, text_content: String },
    /// A like.
    Like,
    /// A request for a user's status.
    StatusRequest,
    /// A message of a type that is not known.
    Unknown { message_type: String },
}

/// Whether `msg` carries what its type needs: a recipient for `typing`,
/// a recipient and a text for `txt`.
pub open spec fn routable(msg: WSIncomming) -> bool {
    &&& msg.message_type@ == "typing"@ ==> msg.username_to is Some
    &&& msg.message_type@ == "txt"@ ==> msg.username_to is Some && msg.text_content is Some
}

proof fn lemma_message_types_distinct()
    ensures
        "typing"@ != "txt"@,
        "typing"@ != "like"@,
        "typing"@ != "status_request"@,
        "txt"@ != "like"@,
        "txt"@ != "status_request"@,
        "like"@ != "status_request"@,
{
    reveal_strlit("typing");
    reveal_strlit("txt");
    reveal_strlit("like");
    reveal_strlit("status_request");
    assert("typing"@.len() == 6);
    assert("txt"@.len() == 3);
    assert("like"@.len() == 4);
    assert("status_request"@.len() == 14);
}

/// Whether `msg` carries what its type needs (see `routable`).
pub fn is_routable(msg: &WSIncomming) -> (b: bool)
    ensures
        b == routable(*msg),
{
    proof {
        lemma_message_types_distinct();
    }
    if text_is(&msg.message_type, "typing") {
        msg.username_to.is_some()
    } else if text_is(&msg.message_type, "txt") {
        msg.username_to.is_some() && msg.text_content.is_some()
    } else {
        true
    }
}

/// The command of an incoming message, chosen by its type: `typing`,
/// `txt`, `like`, `status_request`, or any other.
pub fn route_message(msg: WSIncomming) -> (cmd: WsCommand)
    requires
        routable(msg),
    ensures
        msg.message_type@ == "typing"@ ==> cmd == (WsCommand::Typing {
            username_to: msg.username_to->Some_0,
        }),
        msg.message_type@ == "txt"@ ==> cmd == (WsCommand::Text {
            username_to: msg.username_to->Some_0,
            text_content: msg.text_content->Some_0,
        }),
        msg.message_type@ == "like"@ ==> cmd is Like,
        msg.message_type@ == "status_request"@ ==> cmd is StatusRequest,
        msg.message_type@ != "typing"@ && msg.message_type@ != "txt"@ && msg.message_type@
            != "like"@ && msg.message_type@ != "status_request"@ ==> cmd == (WsCommand::Unknown {
            message_type: msg.message_type,
        }),
{
    proof {
        lemma_message_types_distinct();
    }
    if text_is(&msg.message_type, "typing") {
        match msg.username_to {
            Some(to) => WsCommand::Typing { username_to: to },
            None => WsCommand::Like,
        }
    } else if text_is(&msg.message_type, "txt") {
        match (msg.username_to, msg.text_content) {
            (Some(to), Some(text)) => WsCommand::Text { username_to: to, text_content: text },
            _ => WsCommand::Like,
        }
    } else if text_is(&msg.message_type, "like") {
        WsCommand::Like
    } else if text_is(&msg.message_type, "status_request") {
        WsCommand::StatusRequest
    } else {
        WsCommand::Unknown { message_type: msg.message_type }
    }
}

/// How many steps an admission in this state can still take.
pub open spec fn ws_steps_left(state: WsState) -> nat {
    match state {
        WsState::AwaitSession { .. } => 2,
        WsState::AwaitSubscribers { .. } => 1,
        WsState::Done => 0,
    }
}

/// Every websocket admission is decided: each step brings it closer to
/// the end, and a step accepts or refuses the socket exactly when it ends.
pub proof fn law_ws_always_decides(pre: WsState, event: WsEvent, post: WsState, act: WsAction)
    requires
        ws_step_spec(pre, event, post, act),
    ensures
        ws_steps_left(post) < ws_steps_left(pre),
        (act is Accept || act is Reject) <==> post is Done,
{
}

/// `event` is a possible outcome of carrying out `act`.
pub open spec fn ws_answers(act: WsAction, event: WsEvent) -> bool {
    match act {
        WsAction::FindSession { .. } => event is SessionLookup,
        WsAction::FindSubscribers { .. } => event is SubscribersLookup,
        WsAction::Reject { .. } => false,
        WsAction::Accept { .. } => false,
    }
}

/// A websocket admission never gets stuck: the state it starts in (with
/// a token), and every state a step leads to, waits for each possible
/// outcome of the lookup asked for with it.
pub proof fn law_ws_waits_for_each_outcome(
    token: String,
    pre: WsState,
    event: WsEvent,
    post: WsState,
    act: WsAction,
    outcome: WsEvent,
)
    ensures
        ws_answers(WsAction::FindSession { token }, outcome) ==> ws_accepts(
            WsState::AwaitSession { token },
            outcome,
        ),
        ws_step_spec(pre, event, post, act) && ws_answers(act, outcome) ==> ws_accepts(
            post,
            outcome,
        ),
{
}

/// Whether a message can be routed depends only on its type, recipient
/// and text: two messages that agree on those are both routable or both
/// not, whatever their ids and user lists.
pub proof fn law_routable_reads_only_type_recipient_and_text(m1: WSIncomming, m2: WSIncomming)
    requires
        m1.message_type@ == m2.message_type@,
        m1.username_to is Some <==> m2.username_to is Some,
        m1.text_content is Some <==> m2.text_content is Some,
    ensures
        routable(m1) == routable(m2),
{
}

/// Which messages can be routed: a `txt` message with a recipient and a
/// text, a `typing` message with a recipient, and every message of any
/// other type.
pub proof fn law_routable_messages(m: WSIncomming)
    ensures
        m.message_type@ == "txt"@ && m.username_to is Some && m.text_content is Some ==> routable(m),
        m.message_type@ == "typing"@ && m.username_to is Some ==> routable(m),
        m.message_type@ != "txt"@ && m.message_type@ != "typing"@ ==> routable(m),
{
    lemma_message_types_distinct();
}

/// A token with no session gets the socket refused, naming that token; a
/// token with a session goes on to the subscribers of that session's user.
pub proof fn law_ws_session_decides(
    token: String,
    found: Option<String>,
    post: WsState,
    act: WsAction,
)
    requires
        ws_step_spec(
            WsState::AwaitSession { token },
            WsEvent::SessionLookup { session_username: found },
            post,
            act,
        ),
    ensures
        found is None ==> post is Done && act == (WsAction::Reject { token: Some(token) }),
        found matches Some(u) ==> act == (WsAction::FindSubscribers { username: u }),
{
}

} // verus!
