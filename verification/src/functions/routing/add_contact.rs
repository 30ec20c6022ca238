//! Adding a contact: the signed-in user (found by the session of the
//! client's `token` cookie) gets the named user as a contact, and the
//! named user gets the signed-in user as a subscriber.
//!
//! Both lists live in the database; the connection manager keeps no
//! subscriber lists, so once both updates are stored the request is done
//! and no step touches the manager.

use vstd::prelude::*;
use vstd::string::*;
use crate::functions::statics::{invalid_token_message, no_token_message, validate_token};
use crate::models::{request_models, response_models};

verus! {

/// Where the request stands.
pub enum AddContactState {
    /// Waiting for the session of the client's token.
    AwaitSession { contact: String },
    /// Waiting to learn whether `contact` is a user.
    AwaitContactLookup { username: String, contact: String, message: String },
    /// Waiting for `contact` to be added to the contacts of `username`.
    AwaitContactsUpdated { username: String, contact: String, message: String },
    /// Waiting for `username` to be added to the subscribers of `contact`.
    AwaitSubscribersUpdated { username: String, contact: String, message: String },
    /// The reply has been given.
    Done,
}

/// The outcome of the last action.
pub enum AddContactEvent {
    /// The user name stored with the token's session, if there is one.
    SessionLookup { session_username: Option<String> },
    /// Whether a user with the contact's name exists.
    ContactLookup { exists: bool },
    /// The contact was added to the user's contacts.
    ContactsUpdated,
    /// The user was added to the contact's subscribers.
    SubscribersUpdated,
}

/// What to do next.
pub enum AddContactAction {
    /// Look up the session with this token.
    FindSession { token: String },
    /// Look up the user with this name.
    FindUserByUsername { username: String },
    /// Add `contact` to the contacts of `username`, unless it is there.
    AddToContacts { username: String, contact: String },
    /// Add `subscriber` to the subscribers of `username`, unless it is there.
    AddToSubscribers { username: String, subscriber: String },
    /// Send this reply.
    Reply { body: response_models::AddContactModel },
}

/// Whether `state` waits for an event of the kind of `event`.
pub open spec fn add_contact_accepts(state: AddContactState, event: AddContactEvent) -> bool {
    match state {
        AddContactState::AwaitSession { .. } => event is SessionLookup,
        AddContactState::AwaitContactLookup { .. } => event is ContactLookup,
        AddContactState::AwaitContactsUpdated { .. } => event is ContactsUpdated,
        AddContactState::AwaitSubscribersUpdated { .. } => event is SubscribersUpdated,
        AddContactState::Done => false,
    }
}

/// `act` is a reply with this success flag and message.
pub open spec fn is_reply(act: AddContactAction, success: bool, message: Seq<char>) -> bool {
    act matches AddContactAction::Reply { body } && body.success == success && body.message@
        == message
}

/// The transition from `pre` on `event` to `post`, asking for `act`.
pub open spec fn add_contact_step_spec(
    pre: AddContactState,
    event: AddContactEvent,
    post: AddContactState,
    act: AddContactAction,
) -> bool {
    match pre {
        AddContactState::AwaitSession { contact } => match event {
            AddContactEvent::SessionLookup { session_username } => match session_username {
                None => post is Done && is_reply(act, false, invalid_token_message()),
                Some(username) => {
                    &&& post matches AddContactState::AwaitContactLookup {
                        username: u,
                        contact: c,
                        message,
                    }
                    &&& u == username && c == contact && message@ == no_token_message()
                    &&& act == (AddContactAction::FindUserByUsername { username: contact })
                },
            },
            _ => false,
        },
        AddContactState::AwaitContactLookup { username, contact, message } => match event {
            AddContactEvent::ContactLookup { exists } => if exists {
                &&& post == (AddContactState::AwaitContactsUpdated { username, contact, message })
                &&& act == (AddContactAction::AddToContacts { username, contact })
            } else {
                post is Done && is_reply(act, false, "username does not exist"@)
            },
            _ => false,
        },
        AddContactState::AwaitContactsUpdated { username, contact, message } => match event {
            AddContactEvent::ContactsUpdated => {
                &&& post == (AddContactState::AwaitSubscribersUpdated { username, contact, message })
                &&& act == (AddContactAction::AddToSubscribers {
                    username: contact,
                    subscriber: username,
                })
            },
            _ => false,
        },
        AddContactState::AwaitSubscribersUpdated { username, contact, message } => match event {
            AddContactEvent::SubscribersUpdated => post is Done && is_reply(act, true, message@),
            _ => false,
        },
        AddContactState::Done => false,
    }
}

impl AddContactState {
    /// Whether this state waits for an event of the kind of `event`.
    pub fn accepts(&self, event: &AddContactEvent) -> (b: bool)
        ensures
            b == add_contact_accepts(*self, *event),
    {
        match self {
            AddContactState::AwaitSession { .. } => matches!(
                event,
                AddContactEvent::SessionLookup { .. }
            ),
            AddContactState::AwaitContactLookup { .. } => matches!(
                event,
                AddContactEvent::ContactLookup { .. }
            ),
            AddContactState::AwaitContactsUpdated { .. } => matches!(
                event,
                AddContactEvent::ContactsUpdated
            ),
            AddContactState::AwaitSubscribersUpdated { .. } => matches!(
                event,
                AddContactEvent::SubscribersUpdated
            ),
            AddContactState::Done => false,
        }
    }
}

fn reply(success: bool, message: String) -> (act: AddContactAction)
    ensures
        act == (AddContactAction::Reply { body: response_models::AddContactModel { success, message } }),
{
    AddContactAction::Reply { body: response_models::AddContactModel { success, message } }
}

/// Starts the request from the client's `token` cookie, if any, and the
/// request body: without a token the reply fails with an empty message;
/// with one, its session is looked up.
pub fn add_contact_start(token: Option<String>, request: request_models::AddContactModel) -> (res: (
    AddContactState,
    AddContactAction,
))
    ensures
        token is None ==> res.0 is Done && is_reply(res.1, false, Seq::empty()),
        token matches Some(t) ==> res.0 == (AddContactState::AwaitSession {
            contact: request.username,
        }) && res.1 == (AddContactAction::FindSession { token: t }),
{
    match token {
        None => (AddContactState::Done, reply(false, String::new())),
        Some(t) => (
            AddContactState::AwaitSession { contact: request.username },
            AddContactAction::FindSession { token: t },
        ),
    }
}

/// Advances the request on the outcome of the last action.
pub fn add_contact_step(state: AddContactState, event: AddContactEvent) -> (res: (
    AddContactState,
    AddContactAction,
))
    requires
        add_contact_accepts(state, event),
    ensures
        add_contact_step_spec(state, event, res.0, res.1),
{
    match state {
        AddContactState::AwaitSession { contact } => match event {
            AddContactEvent::SessionLookup { session_username } => {
                let (found, message) = validate_token(session_username);
                match found {
                    None => (AddContactState::Done, reply(false, message)),
                    Some(username) => {
                        let act = AddContactAction::FindUserByUsername { username: contact.clone() };
                        (AddContactState::AwaitContactLookup { username, contact, message }, act)
                    },
                }
            },
            // not reached: `requires` admits only `SessionLookup` here
            _ => (AddContactState::Done, reply(false, String::new())),
        },
        AddContactState::AwaitContactLookup { username, contact, message } => match event {
            AddContactEvent::ContactLookup { exists } => {
                if exists {
                    let act = AddContactAction::AddToContacts {
                        username: username.clone(),
                        contact: contact.clone(),
                    };
                    (AddContactState::AwaitContactsUpdated { username, contact, message }, act)
                } else {
                    (AddContactState::Done, reply(false, String::from_str("username does not exist")))
                }
            },
            // not reached: `requires` admits only `ContactLookup` here
            _ => (AddContactState::Done, reply(false, String::new())),
        },
        AddContactState::AwaitContactsUpdated { username, contact, message } => {
            let act = AddContactAction::AddToSubscribers {
                username: contact.clone(),
                subscriber: username.clone(),
            };
            (AddContactState::AwaitSubscribersUpdated { username, contact, message }, act)
        },
        AddContactState::AwaitSubscribersUpdated { username, contact, message } => (
            AddContactState::Done,
            reply(true, message),
        ),
        // not reached: `requires` admits no event here
        AddContactState::Done => (AddContactState::Done, reply(false, String::new())),
    }
}

/// With a valid session and an existing contact, the request adds the
/// contact to the signed-in user's contacts and the signed-in user to the
/// contact's subscribers, in that order, and then succeeds.
pub proof fn law_add_contact_links_both_users(
    contact: String,
    username: String,
    s1: AddContactState,
    a1: AddContactAction,
    s2: AddContactState,
    a2: AddContactAction,
    s3: AddContactState,
    a3: AddContactAction,
    s4: AddContactState,
    a4: AddContactAction,
)
    requires
        add_contact_step_spec(
            AddContactState::AwaitSession { contact },
            AddContactEvent::SessionLookup { session_username: Some(username) },
            s1,
            a1,
        ),
        add_contact_step_spec(s1, AddContactEvent::ContactLookup { exists: true }, s2, a2),
        add_contact_step_spec(s2, AddContactEvent::ContactsUpdated, s3, a3),
        add_contact_step_spec(s3, AddContactEvent::SubscribersUpdated, s4, a4),
    ensures
        a1 == (AddContactAction::FindUserByUsername { username: contact }),
        a2 == (AddContactAction::AddToContacts { username, contact }),
        a3 == (AddContactAction::AddToSubscribers { username: contact, subscriber: username }),
        is_reply(a4, true, no_token_message()),
        s4 is Done,
{
}

/// No contact or subscriber list is changed unless the session was found
/// and the contact exists: from a state that still waits for either, the
/// step never asks for an update.
pub proof fn law_add_contact_updates_only_when_linked(
    pre: AddContactState,
    event: AddContactEvent,
    post: AddContactState,
    act: AddContactAction,
)
    requires
        add_contact_step_spec(pre, event, post, act),
        act is AddToContacts || act is AddToSubscribers,
    ensures
        pre is AwaitContactLookup ==> event == (AddContactEvent::ContactLookup { exists: true }),
        !(pre is AwaitSession),
{
}

/// How many steps a request in this state can still take.
pub open spec fn add_contact_steps_left(state: AddContactState) -> nat {
    match state {
        AddContactState::AwaitSession { .. } => 4,
        AddContactState::AwaitContactLookup { .. } => 3,
        AddContactState::AwaitContactsUpdated { .. } => 2,
        AddContactState::AwaitSubscribersUpdated { .. } => 1,
        AddContactState::Done => 0,
    }
}

/// Every request to add a contact is answered: each step brings it closer
/// to the end, and a step replies exactly when it ends the flow.
pub proof fn law_add_contact_always_replies(
    pre: AddContactState,
    event: AddContactEvent,
    post: AddContactState,
    act: AddContactAction,
)
    requires
        add_contact_step_spec(pre, event, post, act),
    ensures
        add_contact_steps_left(post) < add_contact_steps_left(pre),
        act is Reply <==> post is Done,
{
}

/// `event` is a possible outcome of carrying out `act`.
pub open spec fn add_contact_answers(act: AddContactAction, event: AddContactEvent) -> bool {
    match act {
        AddContactAction::FindSession { .. } => event is SessionLookup,
        AddContactAction::FindUserByUsername { .. } => event is ContactLookup,
        AddContactAction::AddToContacts { .. } => event is ContactsUpdated,
        AddContactAction::AddToSubscribers { .. } => event is SubscribersUpdated,
        AddContactAction::Reply { .. } => false,
    }
}

/// A request to add a contact never gets stuck: the state it starts in
/// (with a token), and every state a step leads to, waits for each
/// possible outcome of the action asked for with it.
pub proof fn law_add_contact_waits_for_each_outcome(
    contact: String,
    token: String,
    pre: AddContactState,
    event: AddContactEvent,
    post: AddContactState,
    act: AddContactAction,
    outcome: AddContactEvent,
)
    ensures
        add_contact_answers(AddContactAction::FindSession { token }, outcome) ==> add_contact_accepts(
            AddContactState::AwaitSession { contact },
            outcome,
        ),
        add_contact_step_spec(pre, event, post, act) && add_contact_answers(act, outcome)
            ==> add_contact_accepts(post, outcome),
{
}

/// An add-contact request fails without touching any list when the token
/// has no session ("token is not valid") or the named user does not exist
/// ("username does not exist").
pub proof fn law_add_contact_failures(
    contact: String,
    username: String,
    message: String,
    post: AddContactState,
    act: AddContactAction,
    post2: AddContactState,
    act2: AddContactAction,
)
    ensures
        add_contact_step_spec(
            AddContactState::AwaitSession { contact },
            AddContactEvent::SessionLookup { session_username: None },
            post,
            act,
        ) ==> post is Done && (act matches AddContactAction::Reply { body } && !body.success
            && body.message@ == "token is not valid"@),
        add_contact_step_spec(
            AddContactState::AwaitContactLookup { username, contact, message },
            AddContactEvent::ContactLookup { exists: false },
            post2,
            act2,
        ) ==> post2 is Done && (act2 matches AddContactAction::Reply { body } && !body.success
            && body.message@ == "username does not exist"@),
{
}

} // verus!
