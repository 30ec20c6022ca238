//! Sign-up: refuse a user name that is taken, create the account with the
//! identity provider, store the user, open a session and hand its token
//! to the client in a cookie.

use vstd::prelude::*;
use vstd::string::*;
use crate::functions::statics::{session_cookie, session_cookie_spec};
use crate::models::mongodb_models::{NewUserRecord, SessionRecord};
use crate::models::{request_models, response_models};
use crate::text::{decimal, decimal_string};

verus! {

/// Where a sign-up stands.
pub enum SignupState {
    /// Waiting to learn whether the user name is taken.
    AwaitUserLookup { request: request_models::SignupModel },
    /// Waiting for the identity provider to create the account.
    AwaitAccount { request: request_models::SignupModel },
    /// Waiting for the new user's record to be stored.
    AwaitUserStored { request: request_models::SignupModel },
    /// Waiting for a fresh session token.
    AwaitToken { request: request_models::SignupModel },
    /// Waiting for the session with `token` to be stored.
    AwaitSessionStored { request: request_models::SignupModel, token: String },
    /// The reply has been given.
    Done,
}

/// The outcome of the last action.
pub enum SignupEvent {
    /// Whether a user with the requested name exists.
    UserLookup { exists: bool },
    /// The identity provider created the account; `now_micros` is the
    /// current time in microseconds since the Unix epoch.
    AccountCreated { local_id: String, now_micros: u128 },
    /// The identity provider refused to create the account.
    AccountRefused,
    /// The user's record was stored.
    UserStored,
    /// A fresh session token.
    TokenCreated { token: String },
    /// The session was stored.
    SessionStored,
}

/// What to do next.
pub enum SignupAction {
    /// Look up the user with this name.
    FindUserByUsername { username: String },
    /// Ask the identity provider to create an account.
    CreateAccount { email: String, password: String },
    /// Store this user.
    InsertUser { user: NewUserRecord },
    /// Make a fresh session token.
    CreateToken,
    /// Store this session.
    InsertSession { session: SessionRecord },
    /// Send this reply, with this `Set-Cookie` value if any.
    Reply { body: response_models::SignupModel, set_cookie: Option<String> },
}

/// Whether `state` waits for an event of the kind of `event`.
pub open spec fn signup_accepts(state: SignupState, event: SignupEvent) -> bool {
    match state {
        SignupState::AwaitUserLookup { .. } => event is UserLookup,
        SignupState::AwaitAccount { .. } => event is AccountCreated || event is AccountRefused,
        SignupState::AwaitUserStored { .. } => event is UserStored,
        SignupState::AwaitToken { .. } => event is TokenCreated,
        SignupState::AwaitSessionStored { .. } => event is SessionStored,
        SignupState::Done => false,
    }
}

/// `act` is a reply with this success flag, message and no cookie.
pub open spec fn is_plain_reply(act: SignupAction, success: bool, message: Seq<char>) -> bool {
    act matches SignupAction::Reply { body, set_cookie } && body.success == success
        && body.message@ == message && set_cookie is None
}

/// The transition from `pre` on `event` to `post`, asking for `act`.
pub open spec fn signup_step_spec(
    pre: SignupState,
    event: SignupEvent,
    post: SignupState,
    act: SignupAction,
) -> bool {
    match pre {
        SignupState::AwaitUserLookup { request } => match event {
            SignupEvent::UserLookup { exists } => if exists {
                post is Done && is_plain_reply(act, false, "username exists"@)
            } else {
                post == (SignupState::AwaitAccount { request })
                    && act == (SignupAction::CreateAccount {
                    email: request.email,
                    password: request.password,
                })
            },
            _ => false,
        },
        SignupState::AwaitAccount { request } => match event {
            SignupEvent::AccountCreated { local_id, now_micros } => {
                &&& post == (SignupState::AwaitUserStored { request })
                &&& act matches SignupAction::InsertUser { user }
                &&& user.local_id == local_id
                &&& user.email == request.email
                &&& user.username == request.username
                &&& user.signup_time_stamp@ == decimal(now_micros as nat)
                &&& user.contacts@.len() == 0
                &&& user.subscribers@.len() == 0
            },
            SignupEvent::AccountRefused => post is Done && is_plain_reply(
                act,
                false,
                "error signing up"@,
            ),
            _ => false,
        },
        SignupState::AwaitUserStored { request } => match event {
            SignupEvent::UserStored => post == (SignupState::AwaitToken { request }) && act
                is CreateToken,
            _ => false,
        },
        SignupState::AwaitToken { request } => match event {
            SignupEvent::TokenCreated { token } => {
                &&& post == (SignupState::AwaitSessionStored { request, token })
                &&& act == (SignupAction::InsertSession {
                    session: SessionRecord { token, username: request.username },
                })
            },
            _ => false,
        },
        SignupState::AwaitSessionStored { request, token } => match event {
            SignupEvent::SessionStored => {
                &&& post is Done
                &&& act matches SignupAction::Reply { body, set_cookie }
                &&& body.success
                &&& body.message@ == "success"@
                &&& set_cookie matches Some(c) && c@ == session_cookie_spec(token@)
            },
            _ => false,
        },
        SignupState::Done => false,
    }
}

impl SignupState {
    /// Whether this state waits for an event of the kind of `event`.
    pub fn accepts(&self, event: &SignupEvent) -> (b: bool)
        ensures
            b == signup_accepts(*self, *event),
    {
        match self {
            SignupState::AwaitUserLookup { .. } => matches!(event, SignupEvent::UserLookup { .. }),
            SignupState::AwaitAccount { .. } => matches!(
                event,
                SignupEvent::AccountCreated { .. } | SignupEvent::AccountRefused
            ),
            SignupState::AwaitUserStored { .. } => matches!(event, SignupEvent::UserStored),
            SignupState::AwaitToken { .. } => matches!(event, SignupEvent::TokenCreated { .. }),
            SignupState::AwaitSessionStored { .. } => matches!(event, SignupEvent::SessionStored),
            SignupState::Done => false,
        }
    }
}

fn plain_reply(success: bool, message: &str) -> (act: SignupAction)
    ensures
        is_plain_reply(act, success, message@),
{
    SignupAction::Reply {
        body: response_models::SignupModel { success, message: String::from_str(message) },
        set_cookie: None,
    }
}

/// Starts a sign-up: look up the requested user name.
pub fn signup_start(request: request_models::SignupModel) -> (res: (SignupState, SignupAction))
    ensures
        res.1 == (SignupAction::FindUserByUsername { username: request.username }),
        res.0 == (SignupState::AwaitUserLookup { request }),
{
    let username = request.username.clone();
    (SignupState::AwaitUserLookup { request }, SignupAction::FindUserByUsername { username })
}

/// Advances a sign-up on the outcome of the last action.
pub fn signup_step(state: SignupState, event: SignupEvent) -> (res: (SignupState, SignupAction))
    requires
        signup_accepts(state, event),
    ensures
        signup_step_spec(state, event, res.0, res.1),
{
    match state {
        SignupState::AwaitUserLookup { request } => match event {
            SignupEvent::UserLookup { exists } => {
                if exists {
                    (SignupState::Done, plain_reply(false, "username exists"))
                } else {
                    let act = SignupAction::CreateAccount {
                        email: request.email.clone(),
                        password: request.password.clone(),
                    };
                    (SignupState::AwaitAccount { request }, act)
                }
            },
            // not reached: `requires` admits only the awaited event here
            _ => (SignupState::Done, SignupAction::CreateToken),
        },
        SignupState::AwaitAccount { request } => match event {
            SignupEvent::AccountCreated { local_id, now_micros } => {
                let user = NewUserRecord {
                    local_id,
                    email: request.email.clone(),
                    username: request.username.clone(),
                    signup_time_stamp: decimal_string(now_micros),
                    contacts: Vec::new(),
                    subscribers: Vec::new(),
                };
                (SignupState::AwaitUserStored { request }, SignupAction::InsertUser { user })
            },
            SignupEvent::AccountRefused => (SignupState::Done, plain_reply(false, "error signing up")),
            // not reached: `requires` admits only the awaited event here
            _ => (SignupState::Done, SignupAction::CreateToken),
        },
        SignupState::AwaitUserStored { request } => (
            SignupState::AwaitToken { request },
            SignupAction::CreateToken,
        ),
        SignupState::AwaitToken { request } => match event {
            SignupEvent::TokenCreated { token } => {
                let session = SessionRecord {
                    token: token.clone(),
                    username: request.username.clone(),
                };
                (SignupState::AwaitSessionStored { request, token }, SignupAction::InsertSession {
                    session,
                })
            },
            // not reached: `requires` admits only the awaited event here
            _ => (SignupState::Done, SignupAction::CreateToken),
        },
        SignupState::AwaitSessionStored { request, token } => {
            let cookie = session_cookie(token.as_str());
            let body = response_models::SignupModel {
                success: true,
                message: String::from_str("success"),
            };
            (SignupState::Done, SignupAction::Reply { body, set_cookie: Some(cookie) })
        },
        // not reached: `requires` admits no event here
        SignupState::Done => (SignupState::Done, SignupAction::CreateToken),
    }
}

/// Only the last step of a sign-up replies with success, and that reply
/// carries the cookie of the token whose session it waited to be stored.
pub proof fn law_signup_success_only_with_session(
    pre: SignupState,
    event: SignupEvent,
    post: SignupState,
    act: SignupAction,
)
    requires
        signup_step_spec(pre, event, post, act),
        act matches SignupAction::Reply { body, .. } && body.success,
    ensures
        pre matches SignupState::AwaitSessionStored { token, .. } && (act matches SignupAction::Reply {
            set_cookie: Some(c),
            ..
        } && c@ == session_cookie_spec(token@)),
{
}

/// A sign-up whose user name is free and whose account the identity
/// provider creates runs to a successful reply: it stores the requested
/// user (with the provider's id and the sign-up time), stores a session of
/// the fresh token for that user, and hands the client that token.
pub proof fn law_signup_success_path(
    request: request_models::SignupModel,
    local_id: String,
    now_micros: u128,
    token: String,
    s1: SignupState,
    a1: SignupAction,
    s2: SignupState,
    a2: SignupAction,
    s3: SignupState,
    a3: SignupAction,
    s4: SignupState,
    a4: SignupAction,
    s5: SignupState,
    a5: SignupAction,
)
    requires
        signup_step_spec(
            SignupState::AwaitUserLookup { request },
            SignupEvent::UserLookup { exists: false },
            s1,
            a1,
        ),
        signup_step_spec(s1, SignupEvent::AccountCreated { local_id, now_micros }, s2, a2),
        signup_step_spec(s2, SignupEvent::UserStored, s3, a3),
        signup_step_spec(s3, SignupEvent::TokenCreated { token }, s4, a4),
        signup_step_spec(s4, SignupEvent::SessionStored, s5, a5),
    ensures
        a1 == (SignupAction::CreateAccount { email: request.email, password: request.password }),
        a2 matches SignupAction::InsertUser { user } && user.local_id == local_id && user.username
            == request.username && user.email == request.email && user.signup_time_stamp@
            == decimal(now_micros as nat),
        a3 is CreateToken,
        a4 == (SignupAction::InsertSession {
            session: SessionRecord { token, username: request.username },
        }),
        a5 matches SignupAction::Reply { body, set_cookie: Some(c) } && body.success && c@
            == session_cookie_spec(token@),
        s5 is Done,
{
}

/// How many steps a sign-up in this state can still take.
pub open spec fn signup_steps_left(state: SignupState) -> nat {
    match state {
        SignupState::AwaitUserLookup { .. } => 5,
        SignupState::AwaitAccount { .. } => 4,
        SignupState::AwaitUserStored { .. } => 3,
        SignupState::AwaitToken { .. } => 2,
        SignupState::AwaitSessionStored { .. } => 1,
        SignupState::Done => 0,
    }
}

/// Every sign-up is answered: each step brings it closer to the end, and
/// a step replies exactly when it ends the flow.
pub proof fn law_signup_always_replies(
    pre: SignupState,
    event: SignupEvent,
    post: SignupState,
    act: SignupAction,
)
    requires
        signup_step_spec(pre, event, post, act),
    ensures
        signup_steps_left(post) < signup_steps_left(pre),
        act is Reply <==> post is Done,
{
}

/// `event` is a possible outcome of carrying out `act`.
pub open spec fn signup_answers(act: SignupAction, event: SignupEvent) -> bool {
    match act {
        SignupAction::FindUserByUsername { .. } => event is UserLookup,
        SignupAction::CreateAccount { .. } => event is AccountCreated || event is AccountRefused,
        SignupAction::InsertUser { .. } => event is UserStored,
        SignupAction::CreateToken => event is TokenCreated,
        SignupAction::InsertSession { .. } => event is SessionStored,
        SignupAction::Reply { .. } => false,
    }
}

/// A sign-up never gets stuck: the state it starts in, and every state a
/// step leads to, waits for each possible outcome of the action asked for
/// with it.
pub proof fn law_signup_waits_for_each_outcome(
    request: request_models::SignupModel,
    pre: SignupState,
    event: SignupEvent,
    post: SignupState,
    act: SignupAction,
    outcome: SignupEvent,
)
    ensures
        signup_answers(SignupAction::FindUserByUsername { username: request.username }, outcome)
            ==> signup_accepts(SignupState::AwaitUserLookup { request }, outcome),
        signup_step_spec(pre, event, post, act) && signup_answers(act, outcome) ==> signup_accepts(
            post,
            outcome,
        ),
{
}

/// A sign-up with a taken name, or one the identity provider refuses,
/// ends at once with a failed reply and no cookie: "username exists" for
/// a taken name (no account is created), "error signing up" for a refusal.
pub proof fn law_signup_failures(
    request: request_models::SignupModel,
    pre: SignupState,
    post: SignupState,
    act: SignupAction,
    post2: SignupState,
    act2: SignupAction,
)
    ensures
        signup_step_spec(
            SignupState::AwaitUserLookup { request },
            SignupEvent::UserLookup { exists: true },
            post,
            act,
        ) ==> post is Done && (act matches SignupAction::Reply { body, set_cookie } && !body.success
            && body.message@ == "username exists"@ && set_cookie is None),
        signup_step_spec(
            SignupState::AwaitAccount { request },
            SignupEvent::AccountRefused,
            post2,
            act2,
        ) ==> post2 is Done && (act2 matches SignupAction::Reply { body, set_cookie } && !body.success
            && body.message@ == "error signing up"@ && set_cookie is None),
{
}

} // verus!
