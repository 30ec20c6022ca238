//! Sign-in: check the credentials with the identity provider, look up the
//! user by e-mail, open a session and hand its token to the client in a
//! cookie, together with the user's name and contacts.

use vstd::prelude::*;
use vstd::string::*;
use crate::functions::statics::{session_cookie, session_cookie_spec};
use crate::models::mongodb_models::SessionRecord;
use crate::models::{request_models, response_models, UserInfo};

verus! {

/// Where a sign-in stands.
pub enum SigninState {
    /// Waiting for the identity provider to check the credentials.
    AwaitSignIn { request: request_models::SigninModel },
    /// Waiting for the user with the request's e-mail.
    AwaitUser { request: request_models::SigninModel },
    /// Waiting for a fresh session token for the user found.
    AwaitToken { username: String, contacts: Vec<String> },
    /// Waiting for the session with `token` to be stored.
    AwaitSessionStored { username: String, contacts: Vec<String>, token: String },
    /// The reply has been given.
    Done,
}

/// The outcome of the last action.
pub enum SigninEvent {
    /// The identity provider accepted the credentials.
    SignedIn,
    /// The identity provider refused the credentials.
    SignInRefused,
    /// The user with the e-mail: their name and contacts.
    UserFound { username: String, contacts: Vec<String> },
    /// A fresh session token.
    TokenCreated { token: String },
    /// The session was stored.
    SessionStored,
}

/// What to do next.
pub enum SigninAction {
    /// Ask the identity provider to check these credentials.
    SignIn { email: String, password: String },
    /// Look up the user with this e-mail.
    FindUserByEmail { email: String },
    /// Make a fresh session token.
    CreateToken,
    /// Store this session.
    InsertSession { session: SessionRecord },
    /// Send this reply, with this `Set-Cookie` value if any.
    Reply { body: response_models::SigninModel, set_cookie: Option<String> },
}

/// Whether `state` waits for an event of the kind of `event`.
pub open spec fn signin_accepts(state: SigninState, event: SigninEvent) -> bool {
    match state {
        SigninState::AwaitSignIn { .. } => event is SignedIn || event is SignInRefused,
        SigninState::AwaitUser { .. } => event is UserFound,
        SigninState::AwaitToken { .. } => event is TokenCreated,
        SigninState::AwaitSessionStored { .. } => event is SessionStored,
        SigninState::Done => false,
    }
}

/// The transition from `pre` on `event` to `post`, asking for `act`.
pub open spec fn signin_step_spec(
    pre: SigninState,
    event: SigninEvent,
    post: SigninState,
    act: SigninAction,
) -> bool {
    match pre {
        SigninState::AwaitSignIn { request } => match event {
            SigninEvent::SignedIn => {
                &&& post == (SigninState::AwaitUser { request })
                &&& act == (SigninAction::FindUserByEmail { email: request.email })
            },
            SigninEvent::SignInRefused => {
                &&& post is Done
                &&& act matches SigninAction::Reply { body, set_cookie }
                &&& !body.success
                &&& body.username@.len() == 0
                &&& body.info.contacts is None
                &&& body.message@ == "error signing in"@
                &&& set_cookie is None
            },
            _ => false,
        },
        SigninState::AwaitUser { request } => match event {
            SigninEvent::UserFound { username, contacts } => {
                &&& post == (SigninState::AwaitToken { username, contacts })
                &&& act is CreateToken
            },
            _ => false,
        },
        SigninState::AwaitToken { username, contacts } => match event {
            SigninEvent::TokenCreated { token } => {
                &&& post == (SigninState::AwaitSessionStored { username, contacts, token })
                &&& act == (SigninAction::InsertSession { session: SessionRecord { token, username } })
            },
            _ => false,
        },
        SigninState::AwaitSessionStored { username, contacts, token } => match event {
            SigninEvent::SessionStored => {
                &&& post is Done
                &&& act matches SigninAction::Reply { body, set_cookie }
                &&& body.success
                &&& body.username == username
                &&& body.info.contacts == Some(contacts)
                &&& body.message@.len() == 0
                &&& set_cookie matches Some(c) && c@ == session_cookie_spec(token@)
            },
            _ => false,
        },
        SigninState::Done => false,
    }
}

impl SigninState {
    /// Whether this state waits for an event of the kind of `event`.
    pub fn accepts(&self, event: &SigninEvent) -> (b: bool)
        ensures
            b == signin_accepts(*self, *event),
    {
        match self {
            SigninState::AwaitSignIn { .. } => matches!(
                event,
                SigninEvent::SignedIn | SigninEvent::SignInRefused
            ),
            SigninState::AwaitUser { .. } => matches!(event, SigninEvent::UserFound { .. }),
            SigninState::AwaitToken { .. } => matches!(event, SigninEvent::TokenCreated { .. }),
            SigninState::AwaitSessionStored { .. } => matches!(event, SigninEvent::SessionStored),
            SigninState::Done => false,
        }
    }
}

/// Starts a sign-in: have the identity provider check the credentials.
pub fn signin_start(request: request_models::SigninModel) -> (res: (SigninState, SigninAction))
    ensures
        res.1 == (SigninAction::SignIn { email: request.email, password: request.password }),
        res.0 == (SigninState::AwaitSignIn { request }),
{
    let act = SigninAction::SignIn {
        email: request.email.clone(),
        password: request.password.clone(),
    };
    (SigninState::AwaitSignIn { request }, act)
}

/// Advances a sign-in on the outcome of the last action.
pub fn signin_step(state: SigninState, event: SigninEvent) -> (res: (SigninState, SigninAction))
    requires
        signin_accepts(state, event),
    ensures
        signin_step_spec(state, event, res.0, res.1),
{
    match state {
        SigninState::AwaitSignIn { request } => match event {
            SigninEvent::SignedIn => {
                let email = request.email.clone();
                (SigninState::AwaitUser { request }, SigninAction::FindUserByEmail { email })
            },
            _ => {
                let body = response_models::SigninModel {
                    success: false,
                    username: String::new(),
                    info: UserInfo { contacts: None },
                    message: String::from_str("error signing in"),
                };
                (SigninState::Done, SigninAction::Reply { body, set_cookie: None })
            },
        },
        SigninState::AwaitUser { request } => match event {
            SigninEvent::UserFound { username, contacts } => (
                SigninState::AwaitToken { username, contacts },
                SigninAction::CreateToken,
            ),
            // not reached: `requires` admits only `UserFound` here
            _ => (SigninState::Done, SigninAction::CreateToken),
        },
        SigninState::AwaitToken { username, contacts } => match event {
            SigninEvent::TokenCreated { token } => {
                let session = SessionRecord { token: token.clone(), username: username.clone() };
                (
                    SigninState::AwaitSessionStored { username, contacts, token },
                    SigninAction::InsertSession { session },
                )
            },
            // not reached: `requires` admits only `TokenCreated` here
            _ => (SigninState::Done, SigninAction::CreateToken),
        },
        SigninState::AwaitSessionStored { username, contacts, token } => {
            let cookie = session_cookie(token.as_str());
            let body = response_models::SigninModel {
                success: true,
                username,
                info: UserInfo { contacts: Some(contacts) },
                message: String::new(),
            };
            (SigninState::Done, SigninAction::Reply { body, set_cookie: Some(cookie) })
        },
        // not reached: `requires` admits no event here
        SigninState::Done => (SigninState::Done, SigninAction::CreateToken),
    }
}

/// A sign-in whose credentials the identity provider accepts runs to a
/// successful reply for the user found by the request's e-mail: the reply
/// names that user and lists their contacts, a session of the fresh token
/// is stored for that user, and the client gets that token.
pub proof fn law_signin_success_path(
    request: request_models::SigninModel,
    username: String,
    contacts: Vec<String>,
    token: String,
    s1: SigninState,
    a1: SigninAction,
    s2: SigninState,
    a2: SigninAction,
    s3: SigninState,
    a3: SigninAction,
    s4: SigninState,
    a4: SigninAction,
)
    requires
        signin_step_spec(SigninState::AwaitSignIn { request }, SigninEvent::SignedIn, s1, a1),
        signin_step_spec(s1, SigninEvent::UserFound { username, contacts }, s2, a2),
        signin_step_spec(s2, SigninEvent::TokenCreated { token }, s3, a3),
        signin_step_spec(s3, SigninEvent::SessionStored, s4, a4),
    ensures
        a1 == (SigninAction::FindUserByEmail { email: request.email }),
        a2 is CreateToken,
        a3 == (SigninAction::InsertSession { session: SessionRecord { token, username } }),
        a4 matches SigninAction::Reply { body, set_cookie: Some(c) } && body.success && body.username
            == username && body.info.contacts == Some(contacts) && c@ == session_cookie_spec(token@),
        s4 is Done,
{
}

/// Only the last step of a sign-in replies with success, and that reply
/// carries the cookie of the token whose session it waited to be stored.
pub proof fn law_signin_success_only_with_session(
    pre: SigninState,
    event: SigninEvent,
    post: SigninState,
    act: SigninAction,
)
    requires
        signin_step_spec(pre, event, post, act),
        act matches SigninAction::Reply { body, .. } && body.success,
    ensures
        pre matches SigninState::AwaitSessionStored { token, .. } && (act matches SigninAction::Reply {
            set_cookie: Some(c),
            ..
        } && c@ == session_cookie_spec(token@)),
{
}

/// How many steps a sign-in in this state can still take.
pub open spec fn signin_steps_left(state: SigninState) -> nat {
    match state {
        SigninState::AwaitSignIn { .. } => 4,
        SigninState::AwaitUser { .. } => 3,
        SigninState::AwaitToken { .. } => 2,
        SigninState::AwaitSessionStored { .. } => 1,
        SigninState::Done => 0,
    }
}

/// Every sign-in is answered: each step brings it closer to the end, and
/// a step replies exactly when it ends the flow.
pub proof fn law_signin_always_replies(
    pre: SigninState,
    event: SigninEvent,
    post: SigninState,
    act: SigninAction,
)
    requires
        signin_step_spec(pre, event, post, act),
    ensures
        signin_steps_left(post) < signin_steps_left(pre),
        act is Reply <==> post is Done,
{
}

/// `event` is a possible outcome of carrying out `act`.
pub open spec fn signin_answers(act: SigninAction, event: SigninEvent) -> bool {
    match act {
        SigninAction::SignIn { .. } => event is SignedIn || event is SignInRefused,
        SigninAction::FindUserByEmail { .. } => event is UserFound,
        SigninAction::CreateToken => event is TokenCreated,
        SigninAction::InsertSession { .. } => event is SessionStored,
        SigninAction::Reply { .. } => false,
    }
}

/// A sign-in never gets stuck: the state it starts in, and every state a
/// step leads to, waits for each possible outcome of the action asked for
/// with it.
pub proof fn law_signin_waits_for_each_outcome(
    request: request_models::SigninModel,
    pre: SigninState,
    event: SigninEvent,
    post: SigninState,
    act: SigninAction,
    outcome: SigninEvent,
)
    ensures
        signin_answers(
            SigninAction::SignIn { email: request.email, password: request.password },
            outcome,
        ) ==> signin_accepts(SigninState::AwaitSignIn { request }, outcome),
        signin_step_spec(pre, event, post, act) && signin_answers(act, outcome) ==> signin_accepts(
            post,
            outcome,
        ),
{
}

/// A sign-in the identity provider refuses ends at once with a failed
/// reply: no user name, no contacts, the message "error signing in", and
/// no cookie.
pub proof fn law_signin_refused(
    request: request_models::SigninModel,
    post: SigninState,
    act: SigninAction,
)
    requires
        signin_step_spec(SigninState::AwaitSignIn { request }, SigninEvent::SignInRefused, post, act),
    ensures
        post is Done,
        act matches SigninAction::Reply { body, set_cookie } && !body.success && body.username@.len()
            == 0 && body.info.contacts is None && body.message@ == "error signing in"@ && set_cookie
            is None,
{
}

} // verus!
