//! The Users and Sessions collections as the flows see them, what each
//! database action of a flow does to them, and the laws that follow.
//!
//! Users are modelled by user name. The database itself would accept a
//! second document with a name already taken; the model holds one user
//! per name, and `law_signup_keeps_user_names_unique` shows that sign-up
//! never inserts a name that is already there, so the model stays
//! faithful. Sessions are kept in the order they were inserted, and a
//! lookup by token finds the first one with that token, as a query for
//! one document does.

use vstd::prelude::*;
use crate::functions::routing::add_contact::{
    add_contact_step_spec, AddContactAction, AddContactEvent, AddContactState,
};
use crate::functions::routing::is_signedin::{
    is_signedin_step_spec, IsSignedinAction, IsSignedinEvent, IsSignedinState,
};
use crate::functions::routing::signin::SigninAction;
use crate::functions::routing::signup::{signup_step_spec, SignupAction, SignupEvent, SignupState};
use crate::functions::statics::{first_occurrences, lemma_first_occurrences, no_token_message};
use crate::models::request_models;

verus! {

/// A stored user: e-mail, and the user names of their contacts and of
/// their subscribers.
#[verifier::ext_equal]
pub ghost struct UserModel {
    pub email: Seq<char>,
    pub contacts: Set<Seq<char>>,
    pub subscribers: Set<Seq<char>>,
}

/// The Users collection, by user name.
pub type UsersModel = Map<Seq<char>, UserModel>;

/// The Sessions collection: (token, user name) pairs in insertion order.
pub type SessionsModel = Seq<(Seq<char>, Seq<char>)>;

/// The user name of the first session with `token`, if there is one.
pub open spec fn session_user(sessions: SessionsModel, token: Seq<char>) -> Option<Seq<char>>
    decreases sessions.len(),
{
    if sessions.len() == 0 {
        None
    } else if sessions[0].0 == token {
        Some(sessions[0].1)
    } else {
        session_user(sessions.drop_first(), token)
    }
}

/// A lookup result given to a flow agrees with what the store holds.
pub open spec fn lookup_matches(given: Option<String>, held: Option<Seq<char>>) -> bool {
    match (given, held) {
        (Some(g), Some(h)) => g@ == h,
        (None, None) => true,
        _ => false,
    }
}

/// The store after a sign-up action: a new user with empty lists, or a
/// new session; other actions change nothing.
pub open spec fn after_signup_action(
    users: UsersModel,
    sessions: SessionsModel,
    act: SignupAction,
) -> (UsersModel, SessionsModel) {
    match act {
        SignupAction::InsertUser { user } => (
            users.insert(
                user.username@,
                UserModel { email: user.email@, contacts: Set::empty(), subscribers: Set::empty() },
            ),
            sessions,
        ),
        SignupAction::InsertSession { session } => (
            users,
            sessions.push((session.token@, session.username@)),
        ),
        _ => (users, sessions),
    }
}

/// The sessions after a sign-in action: a new session, or no change.
pub open spec fn after_signin_action(sessions: SessionsModel, act: SigninAction) -> SessionsModel {
    match act {
        SigninAction::InsertSession { session } => sessions.push(
            (session.token@, session.username@),
        ),
        _ => sessions,
    }
}

/// The users after an add-contact action: a name added to a user's
/// contacts or subscribers (no change when that user does not exist or
/// already has it), or no change.
pub open spec fn after_add_contact_action(users: UsersModel, act: AddContactAction) -> UsersModel {
    match act {
        AddContactAction::AddToContacts { username, contact } => if users.contains_key(username@) {
            users.insert(
                username@,
                UserModel {
                    contacts: users[username@].contacts.insert(contact@),
                    ..users[username@]
                },
            )
        } else {
            users
        },
        AddContactAction::AddToSubscribers { username, subscriber } => if users.contains_key(
            username@,
        ) {
            users.insert(
                username@,
                UserModel {
                    subscribers: users[username@].subscribers.insert(subscriber@),
                    ..users[username@]
                },
            )
        } else {
            users
        },
        _ => users,
    }
}

/// Contacts and subscribers mirror each other: `b` is a contact of `a`
/// exactly when `a` is a subscriber of `b`.
pub open spec fn contacts_mirror_subscribers(users: UsersModel) -> bool {
    forall|a: Seq<char>, b: Seq<char>|
        #![trigger users[a].contacts.contains(b), users[b].subscribers.contains(a)]
        users.contains_key(a) && users.contains_key(b) ==> (users[a].contacts.contains(b)
            <==> users[b].subscribers.contains(a))
}

/// Sign-up never stores a second user with a taken name: when the name
/// lookup reflects the store, the user it inserts has a name that no
/// stored user has, and every stored user stays as it was.
pub proof fn law_signup_keeps_user_names_unique(
    users: UsersModel,
    sessions: SessionsModel,
    request: request_models::SignupModel,
    s1: SignupState,
    a1: SignupAction,
    event: SignupEvent,
    s2: SignupState,
    a2: SignupAction,
)
    requires
        signup_step_spec(
            SignupState::AwaitUserLookup { request },
            SignupEvent::UserLookup { exists: users.contains_key(request.username@) },
            s1,
            a1,
        ),
        signup_step_spec(s1, event, s2, a2),
        a2 is InsertUser,
    ensures
        a2 matches SignupAction::InsertUser { user } && !users.contains_key(user.username@),
        forall|n: Seq<char>| #[trigger]
            users.contains_key(n) ==> after_signup_action(users, sessions, a2).0.contains_key(n)
                && after_signup_action(users, sessions, a2).0[n] == users[n],
{
}

proof fn lemma_session_user_push(sessions: SessionsModel, entry: (Seq<char>, Seq<char>), token: Seq<char>)
    ensures
        session_user(sessions, token) is Some ==> session_user(sessions.push(entry), token)
            == session_user(sessions, token),
        session_user(sessions, token) is None && entry.0 == token ==> session_user(
            sessions.push(entry),
            token,
        ) == Some(entry.1),
    decreases sessions.len(),
{
    if sessions.len() > 0 {
        assert(sessions.push(entry)[0] == sessions[0]);
        assert(sessions.push(entry).drop_first() == sessions.drop_first().push(entry));
        lemma_session_user_push(sessions.drop_first(), entry, token);
    } else {
        assert(sessions.push(entry).drop_first() =~= Seq::<(Seq<char>, Seq<char>)>::empty());
    }
}

/// Sign-up and sign-in only ever add sessions: after any of their actions
/// every token that had a session still finds the same user.
pub proof fn law_sessions_only_grow(
    users: UsersModel,
    sessions: SessionsModel,
    signup_act: SignupAction,
    signin_act: SigninAction,
    token: Seq<char>,
)
    requires
        session_user(sessions, token) is Some,
    ensures
        session_user(after_signup_action(users, sessions, signup_act).1, token) == session_user(
            sessions,
            token,
        ),
        session_user(after_signin_action(sessions, signin_act), token) == session_user(
            sessions,
            token,
        ),
{
    match signup_act {
        SignupAction::InsertSession { session } => {
            lemma_session_user_push(sessions, (session.token@, session.username@), token);
        },
        _ => {},
    }
    match signin_act {
        SigninAction::InsertSession { session } => {
            lemma_session_user_push(sessions, (session.token@, session.username@), token);
        },
        _ => {},
    }
}

/// Once a session of a fresh token is stored for a user, a sign-in check
/// with that token (whose lookup reflects the store) succeeds, names that
/// user and says "no token", as the token check does for a found session.
pub proof fn law_signed_in_after_session_stored(
    sessions: SessionsModel,
    token: Seq<char>,
    username: Seq<char>,
    found: Option<String>,
    post: IsSignedinState,
    act: IsSignedinAction,
)
    requires
        session_user(sessions, token) is None,
        lookup_matches(found, session_user(sessions.push((token, username)), token)),
        is_signedin_step_spec(IsSignedinEvent::SessionLookup { session_username: found }, post, act),
    ensures
        act matches IsSignedinAction::Reply { body } && body.success && (body.username matches Some(
            n,
        ) && n@ == username) && body.message@ == no_token_message(),
{
    lemma_session_user_push(sessions, (token, username), token);
}

/// Adding a contact a second time changes nothing: each update of the
/// add-contact flow, applied again, leaves the users as they were.
pub proof fn law_add_contact_update_idempotent(users: UsersModel, act: AddContactAction)
    ensures
        after_add_contact_action(after_add_contact_action(users, act), act)
            == after_add_contact_action(users, act),
{
    let once = after_add_contact_action(users, act);
    match act {
        AddContactAction::AddToContacts { username, contact } => {
            if users.contains_key(username@) {
                assert(once[username@].contacts.insert(contact@) =~= once[username@].contacts);
                assert(after_add_contact_action(once, act) =~= once);
            }
        },
        AddContactAction::AddToSubscribers { username, subscriber } => {
            if users.contains_key(username@) {
                assert(once[username@].subscribers.insert(subscriber@)
                    =~= once[username@].subscribers);
                assert(after_add_contact_action(once, act) =~= once);
            }
        },
        _ => {},
    }
}

/// Sending the same add-contact request again changes nothing: its two
/// updates (the contact into the user's contacts, the user into the
/// contact's subscribers), applied a second time after the first, leave
/// the users as the first time left them.
pub proof fn law_add_contact_repeat_changes_nothing(
    users: UsersModel,
    to_contacts: AddContactAction,
    to_subscribers: AddContactAction,
)
    requires
        to_contacts is AddToContacts,
        to_subscribers is AddToSubscribers,
    ensures
        after_add_contact_action(
            after_add_contact_action(
                after_add_contact_action(after_add_contact_action(users, to_contacts), to_subscribers),
                to_contacts,
            ),
            to_subscribers,
        ) == after_add_contact_action(after_add_contact_action(users, to_contacts), to_subscribers),
{
    let m1 = after_add_contact_action(users, to_contacts);
    let m2 = after_add_contact_action(m1, to_subscribers);
    let m3 = after_add_contact_action(m2, to_contacts);
    law_add_contact_update_idempotent(m2, to_contacts);
    if let AddContactAction::AddToContacts { username, contact } = to_contacts {
        if m2.contains_key(username@) {
            assert(m2[username@].contacts.insert(contact@) =~= m2[username@].contacts);
        }
    }
    assert(m3 =~= m2);
    law_add_contact_update_idempotent(m1, to_subscribers);
}

/// A successful add-contact keeps contacts and subscribers mirrored: with
/// both users stored, the two updates it asks for add the contact to the
/// user's contacts and the user to the contact's subscribers.
pub proof fn law_add_contact_keeps_mirror(
    users: UsersModel,
    contact: String,
    username: String,
    s1: AddContactState,
    a1: AddContactAction,
    s2: AddContactState,
    a2: AddContactAction,
    s3: AddContactState,
    a3: AddContactAction,
)
    requires
        contacts_mirror_subscribers(users),
        users.contains_key(username@),
        users.contains_key(contact@),
        add_contact_step_spec(
            AddContactState::AwaitSession { contact },
            AddContactEvent::SessionLookup { session_username: Some(username) },
            s1,
            a1,
        ),
        add_contact_step_spec(s1, AddContactEvent::ContactLookup { exists: true }, s2, a2),
        add_contact_step_spec(s2, AddContactEvent::ContactsUpdated, s3, a3),
    ensures
        contacts_mirror_subscribers(
            after_add_contact_action(after_add_contact_action(users, a2), a3),
        ),
        after_add_contact_action(after_add_contact_action(users, a2), a3)[contact@].subscribers.contains(
            username@,
        ),
{
    let u = username@;
    let c = contact@;
    let m1 = after_add_contact_action(users, a2);
    let m2 = after_add_contact_action(m1, a3);
    assert forall|a: Seq<char>, b: Seq<char>|
        m2.contains_key(a) && m2.contains_key(b) implies (#[trigger] m2[a].contacts.contains(b)
        <==> #[trigger] m2[b].subscribers.contains(a)) by {
        assert(users[a].contacts.contains(b) <==> users[b].subscribers.contains(a));
    }
}

/// After a successful add-contact, the contact's subscriber list, as the
/// websocket admission reads it, includes the user: any stored list that
/// holds the contact's subscribers yields them, the user among them.
pub proof fn law_subscribed_after_add_contact(
    users: UsersModel,
    contact: Seq<char>,
    username: Seq<char>,
    act: AddContactAction,
    stored: Seq<Seq<char>>,
)
    requires
        users.contains_key(contact),
        act matches AddContactAction::AddToSubscribers { username: c, subscriber: u } && c@
            == contact && u@ == username,
        stored.to_set() == after_add_contact_action(users, act)[contact].subscribers,
    ensures
        first_occurrences(stored).contains(username),
{
    lemma_first_occurrences(stored);
    assert(first_occurrences(stored).to_set().contains(username));
}

} // verus!
