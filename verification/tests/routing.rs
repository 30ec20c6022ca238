use poem_api::functions::routing::add_contact::{
    add_contact_start, add_contact_step, AddContactAction, AddContactEvent, AddContactState,
};
use poem_api::functions::routing::is_signedin::{
    is_signedin_start, is_signedin_step, IsSignedinAction, IsSignedinEvent, IsSignedinState,
};
use poem_api::functions::routing::signin::{
    signin_start, signin_step, SigninAction, SigninEvent, SigninState,
};
use poem_api::functions::routing::signup::{
    signup_start, signup_step, SignupAction, SignupEvent, SignupState,
};
use poem_api::functions::routing::ws::{
    is_routable, route_message, ws_start, ws_step, WsAction, WsCommand, WsEvent, WsState,
};
use poem_api::models::request_models;
use poem_api::models::ws_models::WSIncomming;

fn signup_request() -> request_models::SignupModel {
    request_models::SignupModel {
        email: String::from("a@b.c"),
        password: String::from("pw"),
        username: String::from("alice"),
    }
}

#[test]
fn signup_full_success() {
    let (s, a) = signup_start(signup_request());
    match a {
        SignupAction::FindUserByUsername { username } => assert_eq!(username, "alice"),
        _ => panic!("expected a user lookup"),
    }
    let ev = SignupEvent::UserLookup { exists: false };
    assert!(s.accepts(&ev));
    let (s, a) = signup_step(s, ev);
    match a {
        SignupAction::CreateAccount { email, password } => {
            assert_eq!(email, "a@b.c");
            assert_eq!(password, "pw");
        }
        _ => panic!("expected account creation"),
    }
    let (s, a) = signup_step(
        s,
        SignupEvent::AccountCreated { local_id: String::from("L1"), now_micros: 1234567 },
    );
    match a {
        SignupAction::InsertUser { user } => {
            assert_eq!(user.local_id, "L1");
            assert_eq!(user.email, "a@b.c");
            assert_eq!(user.username, "alice");
            assert_eq!(user.signup_time_stamp, "1234567");
            assert!(user.contacts.is_empty());
            assert!(user.subscribers.is_empty());
        }
        _ => panic!("expected user insert"),
    }
    let (s, a) = signup_step(s, SignupEvent::UserStored);
    assert!(matches!(a, SignupAction::CreateToken));
    let (s, a) = signup_step(s, SignupEvent::TokenCreated { token: String::from("TOK") });
    match a {
        SignupAction::InsertSession { session } => {
            assert_eq!(session.token, "TOK");
            assert_eq!(session.username, "alice");
        }
        _ => panic!("expected session insert"),
    }
    let (s, a) = signup_step(s, SignupEvent::SessionStored);
    assert!(matches!(s, SignupState::Done));
    match a {
        SignupAction::Reply { body, set_cookie } => {
            assert!(body.success);
            assert_eq!(body.message, "success");
            assert_eq!(set_cookie.unwrap(), "token=TOK; SameSite=lax; path=/");
        }
        _ => panic!("expected reply"),
    }
}

#[test]
fn signup_taken_username() {
    let (s, _) = signup_start(signup_request());
    let (s, a) = signup_step(s, SignupEvent::UserLookup { exists: true });
    assert!(matches!(s, SignupState::Done));
    match a {
        SignupAction::Reply { body, set_cookie } => {
            assert!(!body.success);
            assert_eq!(body.message, "username exists");
            assert!(set_cookie.is_none());
        }
        _ => panic!("expected reply"),
    }
}

#[test]
fn signup_refused_by_provider() {
    let (s, _) = signup_start(signup_request());
    let (s, _) = signup_step(s, SignupEvent::UserLookup { exists: false });
    assert!(!s.accepts(&SignupEvent::UserStored));
    let (s, a) = signup_step(s, SignupEvent::AccountRefused);
    assert!(matches!(s, SignupState::Done));
    assert!(!s.accepts(&SignupEvent::SessionStored));
    match a {
        SignupAction::Reply { body, set_cookie } => {
            assert!(!body.success);
            assert_eq!(body.message, "error signing up");
            assert!(set_cookie.is_none());
        }
        _ => panic!("expected reply"),
    }
}

#[test]
fn signin_full_success() {
    let req = request_models::SigninModel { email: String::from("a@b.c"), password: String::from("pw") };
    let (s, a) = signin_start(req);
    match a {
        SigninAction::SignIn { email, password } => {
            assert_eq!(email, "a@b.c");
            assert_eq!(password, "pw");
        }
        _ => panic!("expected sign in"),
    }
    let (s, a) = signin_step(s, SigninEvent::SignedIn);
    match a {
        SigninAction::FindUserByEmail { email } => assert_eq!(email, "a@b.c"),
        _ => panic!("expected lookup"),
    }
    let ev = SigninEvent::UserFound {
        username: String::from("alice"),
        contacts: vec![String::from("bob")],
    };
    assert!(s.accepts(&ev));
    let (s, a) = signin_step(s, ev);
    assert!(matches!(a, SigninAction::CreateToken));
    let (s, a) = signin_step(s, SigninEvent::TokenCreated { token: String::from("T2") });
    match a {
        SigninAction::InsertSession { session } => {
            assert_eq!(session.token, "T2");
            assert_eq!(session.username, "alice");
        }
        _ => panic!("expected session insert"),
    }
    let (s, a) = signin_step(s, SigninEvent::SessionStored);
    assert!(matches!(s, SigninState::Done));
    match a {
        SigninAction::Reply { body, set_cookie } => {
            assert!(body.success);
            assert_eq!(body.username, "alice");
            assert_eq!(body.info.contacts, Some(vec![String::from("bob")]));
            assert_eq!(body.message, "");
            assert_eq!(set_cookie.unwrap(), "token=T2; SameSite=lax; path=/");
        }
        _ => panic!("expected reply"),
    }
}

#[test]
fn signin_refused() {
    let req = request_models::SigninModel { email: String::from("x"), password: String::from("y") };
    let (s, _) = signin_start(req);
    let (s, a) = signin_step(s, SigninEvent::SignInRefused);
    assert!(matches!(s, SigninState::Done));
    match a {
        SigninAction::Reply { body, set_cookie } => {
            assert!(!body.success);
            assert_eq!(body.username, "");
            assert!(body.info.contacts.is_none());
            assert_eq!(body.message, "error signing in");
            assert!(set_cookie.is_none());
        }
        _ => panic!("expected reply"),
    }
}

fn signedin_body(a: IsSignedinAction) -> (bool, Option<String>, String) {
    match a {
        IsSignedinAction::Reply { body } => (body.success, body.username, body.message),
        _ => panic!("expected reply"),
    }
}

#[test]
fn is_signedin_without_cookie() {
    let (s, a) = is_signedin_start(None);
    assert!(matches!(s, IsSignedinState::Done));
    assert_eq!(signedin_body(a), (false, None, String::from("no token")));
}

#[test]
fn is_signedin_with_valid_token() {
    let (s, a) = is_signedin_start(Some(String::from("T")));
    match a {
        IsSignedinAction::FindSession { token } => assert_eq!(token, "T"),
        _ => panic!("expected lookup"),
    }
    let (s, a) = is_signedin_step(
        s,
        IsSignedinEvent::SessionLookup { session_username: Some(String::from("alice")) },
    );
    assert!(matches!(s, IsSignedinState::Done));
    assert_eq!(signedin_body(a), (true, Some(String::from("alice")), String::from("no token")));
}

#[test]
fn is_signedin_with_unknown_token() {
    let (s, _) = is_signedin_start(Some(String::from("T")));
    let (_, a) = is_signedin_step(s, IsSignedinEvent::SessionLookup { session_username: None });
    assert_eq!(signedin_body(a), (true, None, String::from("token is not valid")));
}

#[test]
fn is_signedin_when_lookup_fails() {
    let (s, _) = is_signedin_start(Some(String::from("T")));
    let (_, a) = is_signedin_step(s, IsSignedinEvent::LookupFailed);
    assert_eq!(signedin_body(a), (false, None, String::from("no token")));
}

fn contact_reply(a: AddContactAction) -> (bool, String) {
    match a {
        AddContactAction::Reply { body } => (body.success, body.message),
        _ => panic!("expected reply"),
    }
}

fn contact_request() -> request_models::AddContactModel {
    request_models::AddContactModel { username: String::from("bob") }
}

#[test]
fn add_contact_without_cookie() {
    let (s, a) = add_contact_start(None, contact_request());
    assert!(matches!(s, AddContactState::Done));
    assert_eq!(contact_reply(a), (false, String::new()));
}

#[test]
fn add_contact_with_unknown_token() {
    let (s, _) = add_contact_start(Some(String::from("T")), contact_request());
    let (s, a) =
        add_contact_step(s, AddContactEvent::SessionLookup { session_username: None });
    assert!(matches!(s, AddContactState::Done));
    assert_eq!(contact_reply(a), (false, String::from("token is not valid")));
}

#[test]
fn add_contact_of_missing_user() {
    let (s, _) = add_contact_start(Some(String::from("T")), contact_request());
    let (s, _) = add_contact_step(
        s,
        AddContactEvent::SessionLookup { session_username: Some(String::from("alice")) },
    );
    let (s, a) = add_contact_step(s, AddContactEvent::ContactLookup { exists: false });
    assert!(matches!(s, AddContactState::Done));
    assert_eq!(contact_reply(a), (false, String::from("username does not exist")));
}

#[test]
fn add_contact_links_both_users() {
    let (s, a) = add_contact_start(Some(String::from("T")), contact_request());
    match a {
        AddContactAction::FindSession { token } => assert_eq!(token, "T"),
        _ => panic!("expected session lookup"),
    }
    let ev = AddContactEvent::SessionLookup { session_username: Some(String::from("alice")) };
    assert!(s.accepts(&ev));
    let (s, a) = add_contact_step(s, ev);
    match a {
        AddContactAction::FindUserByUsername { username } => assert_eq!(username, "bob"),
        _ => panic!("expected user lookup"),
    }
    let (s, a) = add_contact_step(s, AddContactEvent::ContactLookup { exists: true });
    match a {
        AddContactAction::AddToContacts { username, contact } => {
            assert_eq!(username, "alice");
            assert_eq!(contact, "bob");
        }
        _ => panic!("expected contacts update"),
    }
    let (s, a) = add_contact_step(s, AddContactEvent::ContactsUpdated);
    match a {
        AddContactAction::AddToSubscribers { username, subscriber } => {
            assert_eq!(username, "bob");
            assert_eq!(subscriber, "alice");
        }
        _ => panic!("expected subscribers update"),
    }
    let (s, a) = add_contact_step(s, AddContactEvent::SubscribersUpdated);
    assert!(matches!(s, AddContactState::Done));
    assert_eq!(contact_reply(a), (true, String::from("no token")));
}

#[test]
fn ws_without_cookie_is_rejected() {
    let (s, a) = ws_start(None);
    assert!(matches!(s, WsState::Done));
    assert!(matches!(a, WsAction::Reject { token: None }));
}

#[test]
fn ws_with_unknown_token_is_rejected() {
    let (s, _) = ws_start(Some(String::from("T")));
    let (s, a) = ws_step(s, WsEvent::SessionLookup { session_username: None });
    assert!(matches!(s, WsState::Done));
    match a {
        WsAction::Reject { token } => assert_eq!(token, Some(String::from("T"))),
        _ => panic!("expected rejection"),
    }
}

#[test]
fn ws_accepts_session_user_with_distinct_subscribers() {
    let (s, a) = ws_start(Some(String::from("T")));
    match a {
        WsAction::FindSession { token } => assert_eq!(token, "T"),
        _ => panic!("expected session lookup"),
    }
    let (s, a) = ws_step(s, WsEvent::SessionLookup { session_username: Some(String::from("alice")) });
    match a {
        WsAction::FindSubscribers { username } => assert_eq!(username, "alice"),
        _ => panic!("expected subscribers lookup"),
    }
    let stored = vec![String::from("bob"), String::from("bob"), String::from("carol")];
    let ev = WsEvent::SubscribersLookup { stored: Some(stored) };
    assert!(s.accepts(&ev));
    let (s, a) = ws_step(s, ev);
    assert!(matches!(s, WsState::Done));
    match a {
        WsAction::Accept { username, subscribers } => {
            assert_eq!(username, "alice");
            assert_eq!(subscribers, vec![String::from("bob"), String::from("carol")]);
        }
        _ => panic!("expected acceptance"),
    }
}

#[test]
fn ws_accepts_user_without_record_with_no_subscribers() {
    let (s, _) = ws_start(Some(String::from("T")));
    let (s, _) = ws_step(s, WsEvent::SessionLookup { session_username: Some(String::from("al")) });
    let (_, a) = ws_step(s, WsEvent::SubscribersLookup { stored: None });
    match a {
        WsAction::Accept { username, subscribers } => {
            assert_eq!(username, "al");
            assert!(subscribers.is_empty());
        }
        _ => panic!("expected acceptance"),
    }
}

fn incoming(kind: &str, to: Option<&str>, text: Option<&str>) -> WSIncomming {
    WSIncomming {
        username_to: to.map(String::from),
        message_type: String::from(kind),
        text_content: text.map(String::from),
        message_id: None,
        usernames: None,
    }
}

#[test]
fn ws_messages_are_routed_by_type() {
    let m = incoming("typing", Some("bob"), None);
    assert!(is_routable(&m));
    match route_message(m) {
        WsCommand::Typing { username_to } => assert_eq!(username_to, "bob"),
        _ => panic!("expected typing"),
    }
    let m = incoming("txt", Some("bob"), Some("hi"));
    assert!(is_routable(&m));
    match route_message(m) {
        WsCommand::Text { username_to, text_content } => {
            assert_eq!(username_to, "bob");
            assert_eq!(text_content, "hi");
        }
        _ => panic!("expected text"),
    }
    assert!(matches!(route_message(incoming("like", None, None)), WsCommand::Like));
    assert!(matches!(
        route_message(incoming("status_request", None, None)),
        WsCommand::StatusRequest
    ));
    match route_message(incoming("wave", None, None)) {
        WsCommand::Unknown { message_type } => assert_eq!(message_type, "wave"),
        _ => panic!("expected unknown"),
    }
}

#[test]
fn ws_messages_missing_fields_are_not_routable() {
    assert!(!is_routable(&incoming("typing", None, None)));
    assert!(!is_routable(&incoming("txt", Some("bob"), None)));
    assert!(!is_routable(&incoming("txt", None, Some("hi"))));
    assert!(is_routable(&incoming("like", None, None)));
}
