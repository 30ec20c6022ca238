use poem_api::connection_manager::{ConnectionManager, SessionTable};
use tokio::sync::watch;

fn channel(tag: &str) -> (watch::Sender<String>, watch::Receiver<String>) {
    watch::channel(String::from(tag))
}

#[test]
fn new_manager_is_empty_and_named_by_start_time() {
    let cm = ConnectionManager::new(1700000000123456);
    assert_eq!(cm.id, "1700000000123456");
    assert!(cm.sessions.sockets_of("alice").is_none());
}

#[test]
fn first_socket_of_a_user_gets_position_zero() {
    let mut cm = ConnectionManager::new(0);
    let (tx, _rx) = channel("a");
    assert_eq!(cm.connect(String::from("alice"), tx), 0);
    let sockets = cm.sessions.sockets_of("alice").unwrap();
    assert_eq!(sockets.len(), 1);
    assert!(sockets.contains_key(&0));
}

#[test]
fn positions_count_up_while_nothing_disconnects() {
    let mut cm = ConnectionManager::new(0);
    for expected in 0..4usize {
        let (tx, _rx) = channel("a");
        assert_eq!(cm.connect(String::from("alice"), tx), expected);
    }
    assert_eq!(cm.sessions.sockets_of("alice").unwrap().len(), 4);
}

#[test]
fn connected_socket_is_found_at_its_position() {
    let mut cm = ConnectionManager::new(0);
    let (tx0, _rx0) = channel("zero");
    let (tx1, mut rx1) = channel("one");
    cm.connect(String::from("bob"), tx0);
    let pos = cm.connect(String::from("bob"), tx1);
    assert_eq!(pos, 1);
    let sender = cm.sessions.sockets_of("bob").unwrap().get(&pos).unwrap();
    sender.send(String::from("ping")).unwrap();
    assert!(rx1.has_changed().unwrap());
    assert_eq!(*rx1.borrow_and_update(), "ping");
}

#[test]
fn connect_leaves_other_users_alone() {
    let mut cm = ConnectionManager::new(0);
    let (a, _ra) = channel("a");
    let (b, _rb) = channel("b");
    let (c, _rc) = channel("c");
    cm.connect(String::from("alice"), a);
    cm.connect(String::from("bob"), b);
    assert_eq!(cm.connect(String::from("bob"), c), 1);
    assert_eq!(cm.sessions.sockets_of("alice").unwrap().len(), 1);
    assert_eq!(cm.sessions.sockets_of("bob").unwrap().len(), 2);
}

#[test]
fn disconnect_removes_only_that_socket() {
    let mut cm = ConnectionManager::new(7);
    let (a0, _r0) = channel("a0");
    let (a1, _r1) = channel("a1");
    let (b0, _r2) = channel("b0");
    cm.connect(String::from("alice"), a0);
    cm.connect(String::from("alice"), a1);
    cm.connect(String::from("bob"), b0);
    cm.disconnect(String::from("alice"), 0);
    let alice = cm.sessions.sockets_of("alice").unwrap();
    assert!(!alice.contains_key(&0));
    assert!(alice.contains_key(&1));
    assert_eq!(cm.sessions.sockets_of("bob").unwrap().len(), 1);
    assert_eq!(cm.id, "7");
}

#[test]
fn disconnect_of_unknown_user_changes_nothing() {
    let mut cm = ConnectionManager::new(0);
    let (a, _ra) = channel("a");
    cm.connect(String::from("alice"), a);
    cm.disconnect(String::from("carol"), 0);
    assert!(cm.sessions.sockets_of("carol").is_none());
    assert_eq!(cm.sessions.sockets_of("alice").unwrap().len(), 1);
}

#[test]
fn disconnect_undoes_connect_and_keeps_the_user() {
    let mut cm = ConnectionManager::new(0);
    let (a, _ra) = channel("a");
    let pos = cm.connect(String::from("dave"), a);
    cm.disconnect(String::from("dave"), pos);
    let dave = cm.sessions.sockets_of("dave").unwrap();
    assert!(dave.is_empty());
}

#[test]
fn connect_after_a_disconnect_can_reuse_a_live_position() {
    // Positions are the socket count at connect time, so after the first
    // socket leaves, the next one is put at position 1, over the second.
    let mut cm = ConnectionManager::new(0);
    let (a0, _r0) = channel("a0");
    let (a1, _r1) = channel("a1");
    let (a2, mut r2) = channel("a2");
    cm.connect(String::from("erin"), a0);
    cm.connect(String::from("erin"), a1);
    cm.disconnect(String::from("erin"), 0);
    assert_eq!(cm.connect(String::from("erin"), a2), 1);
    let erin = cm.sessions.sockets_of("erin").unwrap();
    assert_eq!(erin.len(), 1);
    erin.get(&1).unwrap().send(String::from("x")).unwrap();
    assert!(r2.has_changed().unwrap());
}

#[test]
fn session_table_on_its_own() {
    let mut t = SessionTable::new();
    let (a, _ra) = channel("a");
    assert_eq!(t.connect(String::from("u"), a), 0);
    t.disconnect(String::from("u"), 5);
    assert_eq!(t.sockets_of("u").unwrap().len(), 1);
}

#[test]
fn open_then_close_socket() {
    let mut cm = ConnectionManager::new(0);
    let (a, _ra) = channel("a");
    let (b, _rb) = channel("b");
    let first = cm.open_socket(String::from("frank"), a);
    let second = cm.open_socket(String::from("frank"), b);
    assert_eq!(first.username(), "frank");
    assert_eq!(first.pos(), 0);
    assert_eq!(second.pos(), 1);
    cm.close_socket(first);
    let frank = cm.sessions.sockets_of("frank").unwrap();
    assert!(!frank.contains_key(&0));
    assert!(frank.contains_key(&1));
    cm.close_socket(second);
    assert!(cm.sessions.sockets_of("frank").unwrap().is_empty());
}

#[test]
fn set_id_replaces_only_the_id() {
    let mut cm = ConnectionManager::new(42);
    let (a, _ra) = channel("a");
    cm.connect(String::from("gail"), a);
    cm.set_id(String::from("123"));
    assert_eq!(cm.id, "123");
    assert_eq!(cm.sessions.sockets_of("gail").unwrap().len(), 1);
}
