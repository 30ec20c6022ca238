//! Whether the client is signed in: look up the session of the token in
//! the client's `token` cookie.

use vstd::prelude::*;
use vstd::string::*;
use crate::functions::statics::{invalid_token_message, no_token_message, validate_token};
use crate::models::response_models::IsSignedinModel;

verus! {

/// Where the check stands.
pub enum IsSignedinState {
    /// Waiting for the session of the client's token.
    AwaitSession,
    /// The reply has been given.
    Done,
}

/// The outcome of the session lookup.
pub enum IsSignedinEvent {
    /// The lookup ran: the user name stored with the token's session, if
    /// there is one.
    SessionLookup { session_username: Option<String> },
    /// The lookup could not be made (the database could not be reached).
    LookupFailed,
}

/// What to do next.
pub enum IsSignedinAction {
    /// Look up the session with this token.
    FindSession { token: String },
    /// Send this reply.
    Reply { body: IsSignedinModel },
}

/// `act` is the reply given when no session could be looked up.
pub open spec fn is_no_token_reply(act: IsSignedinAction) -> bool {
    act matches IsSignedinAction::Reply { body } && !body.success && body.username is None
        && body.message@ == no_token_message()
}

fn no_token_reply() -> (act: IsSignedinAction)
    ensures
        is_no_token_reply(act),
{
    IsSignedinAction::Reply {
        body: IsSignedinModel { success: false, username: None, message: String::from_str("no token") },
    }
}

/// Starts the check from the client's `token` cookie, if any: without one
/// the reply says so at once; with one, its session is looked up.
pub fn is_signedin_start(token: Option<String>) -> (res: (IsSignedinState, IsSignedinAction))
    ensures
        token is None ==> res.0 is Done && is_no_token_reply(res.1),
        token matches Some(t) ==> res.0 is AwaitSession && res.1 == (IsSignedinAction::FindSession {
            token: t,
        }),
{
    match token {
        None => (IsSignedinState::Done, no_token_reply()),
        Some(t) => (IsSignedinState::AwaitSession, IsSignedinAction::FindSession { token: t }),
    }
}

/// The last step of the check, on `event`, to `post`, asking for `act`:
/// when the lookup ran, the reply succeeds and reports what the token
/// check found (the user name, or none, and its message); when it could
/// not run, the reply is the one for a missing token.
pub open spec fn is_signedin_step_spec(
    event: IsSignedinEvent,
    post: IsSignedinState,
    act: IsSignedinAction,
) -> bool {
    &&& post is Done
    &&& match event {
        IsSignedinEvent::LookupFailed => is_no_token_reply(act),
        IsSignedinEvent::SessionLookup { session_username } => {
            &&& act matches IsSignedinAction::Reply { body }
            &&& body.success
            &&& body.username == session_username
            &&& session_username is Some ==> body.message@ == no_token_message()
            &&& session_username is None ==> body.message@ == invalid_token_message()
        },
    }
}

/// Finishes the check on the outcome of the lookup: when the lookup ran,
/// the reply succeeds and reports what the token check found (the user
/// name, or none, and its message); when it could not run, the reply is
/// the one for a missing token.
pub fn is_signedin_step(state: IsSignedinState, event: IsSignedinEvent) -> (res: (
    IsSignedinState,
    IsSignedinAction,
))
    requires
        state is AwaitSession,
    ensures
        is_signedin_step_spec(event, res.0, res.1),
{
    match event {
        IsSignedinEvent::SessionLookup { session_username } => {
            let (username, message) = validate_token(session_username);
            (
                IsSignedinState::Done,
                IsSignedinAction::Reply { body: IsSignedinModel { success: true, username, message } },
            )
        },
        IsSignedinEvent::LookupFailed => (IsSignedinState::Done, no_token_reply()),
    }
}

/// When the session lookup cannot be made, the reply fails, names no user
/// and says "no token"; when it runs, the reply succeeds and names
/// exactly the user the lookup found.
pub proof fn law_is_signedin_replies(event: IsSignedinEvent, post: IsSignedinState, act: IsSignedinAction)
    requires
        is_signedin_step_spec(event, post, act),
    ensures
        post is Done,
        event is LookupFailed ==> (act matches IsSignedinAction::Reply { body } && !body.success
            && body.username is None && body.message@ == "no token"@),
        event matches IsSignedinEvent::SessionLookup { session_username } ==> (act matches IsSignedinAction::Reply {
            body,
        } && body.success && body.username == session_username),
{
}

} // verus!
