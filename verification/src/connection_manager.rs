//! Live websocket sessions: for each user, the sockets that are open for
//! them, each numbered by the position it was given when it connected.
//!
//! The table is kept as a map from user name to a slot, and a vector of
//! slots, each a map from position to socket. A `HashMap` keyed by
//! `String` has no usable specification here (String keys are not known
//! to obey the hash-table key model), and the map of `String` keys that
//! vstd specifies hands out no mutable access to a value, so the per-user
//! maps live in the vector, where they can be updated in place.

use std::collections::HashMap;
use tokio::sync::watch::Sender;
use vstd::hash_map::StringHashMap;
use vstd::prelude::*;
use crate::text::{decimal, decimal_string};

verus! {

broadcast use vstd::std_specs::hash::group_hash_axioms;

/// The sending half of a tokio `watch` channel; the library only stores
/// and hands back such values, it never looks inside one.
#[verifier::external_type_specification]
#[verifier::external_body]
#[verifier::reject_recursive_types(T)]
pub struct ExWatchSender<T>(Sender<T>);

/// Abstract state of the session table: user name to (position to socket).
pub type SessionsView = Map<Seq<char>, Map<usize, Sender<String>>>;

/// The position that `connect` gives a new socket of `user`: the number
/// of sockets the user has at that moment (0 for a user not yet seen).
pub open spec fn connect_position(m: SessionsView, user: Seq<char>) -> nat {
    if m.contains_key(user) {
        m[user].len()
    } else {
        0
    }
}

/// The table after `connect` registers `sender` for `user`.
pub open spec fn after_connect(m: SessionsView, user: Seq<char>, sender: Sender<String>) -> SessionsView {
    if m.contains_key(user) {
        m.insert(user, m[user].insert(connect_position(m, user) as usize, sender))
    } else {
        m.insert(user, Map::empty().insert(0usize, sender))
    }
}

/// The table after `disconnect` drops the socket at `pos` of `user`; a
/// user not in the table leaves it unchanged, and a user whose sockets
/// are all gone stays in it with no sockets.
pub open spec fn after_disconnect(m: SessionsView, user: Seq<char>, pos: usize) -> SessionsView {
    if m.contains_key(user) {
        m.insert(user, m[user].remove(pos))
    } else {
        m
    }
}

/// Per-user socket tables. Each user name maps to a slot of `slots`, and
/// no two users share a slot.
pub struct SessionTable {
    slot_of: StringHashMap<usize>,
    slots: Vec<HashMap<usize, Sender<String>>>,
}

impl View for SessionTable {
    type V = SessionsView;

    closed spec fn view(&self) -> SessionsView {
        Map::new(
            |u: Seq<char>| self.slot_of@.contains_key(u),
            |u: Seq<char>| self.slots@[self.slot_of@[u] as int]@,
        )
    }
}

impl SessionTable {
    #[verifier::type_invariant]
    spec fn slots_wf(self) -> bool {
        &&& forall|u: Seq<char>|
            #[trigger] self.slot_of@.contains_key(u) ==> self.slot_of@[u] < self.slots@.len()
        &&& forall|u: Seq<char>, v: Seq<char>|
            #[trigger] self.slot_of@.contains_key(u) && #[trigger] self.slot_of@.contains_key(v)
                && u != v ==> self.slot_of@[u] != self.slot_of@[v]
    }

    /// An empty table.
    pub fn new() -> (t: SessionTable)
        ensures
            t@ == SessionsView::empty(),
    {
        let t = SessionTable { slot_of: StringHashMap::new(), slots: Vec::new() };
        assert(t@ =~= SessionsView::empty());
        t
    }

    /// The sockets of `username`, by position, if the user is in the table.
    pub fn sockets_of(&self, username: &str) -> (r: Option<&HashMap<usize, Sender<String>>>)
        ensures
            match r {
                Some(sockets) => self@.contains_key(username@) && sockets@ == self@[username@],
                None => !self@.contains_key(username@),
            },
    {
        proof {
            use_type_invariant(self);
        }
        match self.slot_of.get(username) {
            Some(slot) => Some(&self.slots[*slot]),
            None => None,
        }
    }

    /// Moves the table out of `self`, leaving an empty one behind.
    fn take(&mut self) -> (t: SessionTable)
        ensures
            t@ == old(self)@,
            final(self)@ == SessionsView::empty(),
    {
        let mut t = SessionTable::new();
        std::mem::swap(self, &mut t);
        t
    }

    /// Registers `sender` as a new socket of `username` and returns the
    /// position it was stored at: the number of sockets the user had.
    pub fn connect(&mut self, username: String, sender: Sender<String>) -> (pos: usize)
        ensures
            pos == connect_position(old(self)@, username@),
            final(self)@ == after_connect(old(self)@, username@, sender),
    {
        let ghost u = username@;
        let taken = self.take();
        let ghost before = taken@;
        proof {
            use_type_invariant(&taken);
        }
        let SessionTable { mut slot_of, mut slots } = taken;
        let pos: usize;
        match slot_of.get(username.as_str()) {
            Some(slot) => {
                let i: usize = *slot;
                pos = slots[i].len();
                slots[i].insert(pos, sender);
            },
            None => {
                let mut sockets: HashMap<usize, Sender<String>> = HashMap::new();
                sockets.insert(0, sender);
                let slot = slots.len();
                slots.push(sockets);
                slot_of.insert(username, slot);
                pos = 0;
            },
        }
        let t = SessionTable { slot_of, slots };
        assert(t@ =~= after_connect(before, u, sender));
        *self = t;
        pos
    }

    /// Drops the socket at `pos` of `username`, if there is one.
    pub fn disconnect(&mut self, username: String, pos: usize)
        ensures
            final(self)@ == after_disconnect(old(self)@, username@, pos),
    {
        let ghost u = username@;
        let taken = self.take();
        let ghost before = taken@;
        proof {
            use_type_invariant(&taken);
        }
        let SessionTable { slot_of, mut slots } = taken;
        match slot_of.get(username.as_str()) {
            Some(slot) => {
                let i: usize = *slot;
                slots[i].remove(&pos);
            },
            None => {},
        }
        let t = SessionTable { slot_of, slots };
        assert(t@ =~= after_disconnect(before, u, pos));
        *self = t;
    }
}

/// The connection manager shared by the request handlers: an identifier
/// for this server instance and the live sockets of each user.
pub struct ConnectionManager {
    pub id: String,
    pub sessions: SessionTable,
}

impl ConnectionManager {
    /// A manager with no sessions, identified by the decimal rendering of
    /// `started_micros` (the microseconds since the Unix epoch at which the
    /// server started).
    pub fn new(started_micros: u128) -> (cm: ConnectionManager)
        ensures
            cm.id@ == decimal(started_micros as nat),
            cm.sessions@ == SessionsView::empty(),
    {
        ConnectionManager { id: decimal_string(started_micros), sessions: SessionTable::new() }
    }

    /// Registers `sender` as a new socket of `username`; returns the
    /// position it was stored at, the number of sockets the user had.
    pub fn connect(&mut self, username: String, sender: Sender<String>) -> (pos: usize)
        ensures
            pos == connect_position(old(self).sessions@, username@),
            final(self).sessions@ == after_connect(old(self).sessions@, username@, sender),
            final(self).id == old(self).id,
    {
        self.sessions.connect(username, sender)
    }

    /// Replaces the identifier of this server instance.
    pub fn set_id(&mut self, id: String)
        ensures
            final(self).id == id,
            final(self).sessions@ == old(self).sessions@,
    {
        self.id = id;
    }

    /// Drops the socket at `pos` of `username`, if there is one.
    pub fn disconnect(&mut self, username: String, pos: usize)
        ensures
            final(self).sessions@ == after_disconnect(old(self).sessions@, username@, pos),
            final(self).id == old(self).id,
    {
        self.sessions.disconnect(username, pos)
    }
}

/// An open socket of a user at the position it was registered at. It is
/// made only by `ConnectionManager::open_socket` and used up by
/// `ConnectionManager::close_socket`, so each socket is dropped from the
/// table once, at the position it was given.
pub struct SocketSession {
    username: String,
    pos: usize,
}

impl SocketSession {
    /// The user the socket belongs to.
    pub closed spec fn user(&self) -> Seq<char> {
        self.username@
    }

    /// The position the socket was registered at.
    pub closed spec fn position(&self) -> usize {
        self.pos
    }

    /// The user the socket belongs to.
    pub fn username(&self) -> (u: &String)
        ensures
            u@ == self.user(),
    {
        &self.username
    }

    /// The position the socket was registered at.
    pub fn pos(&self) -> (p: usize)
        ensures
            p == self.position(),
    {
        self.pos
    }
}

impl ConnectionManager {
    /// Opens a socket: registers `sender` for `username` (as `connect`
    /// does) and returns the session that `close_socket` takes back.
    pub fn open_socket(&mut self, username: String, sender: Sender<String>) -> (s: SocketSession)
        ensures
            s.user() == username@,
            s.position() == connect_position(old(self).sessions@, username@),
            final(self).sessions@ == after_connect(old(self).sessions@, username@, sender),
            final(self).id == old(self).id,
    {
        let name = username.clone();
        let pos = self.connect(username, sender);
        SocketSession { username: name, pos }
    }

    /// Closes a socket when its stream has ended: drops it from the table
    /// at the position it was opened at (as `disconnect` does).
    pub fn close_socket(&mut self, session: SocketSession)
        ensures
            final(self).sessions@ == after_disconnect(
                old(self).sessions@,
                session.user(),
                session.position(),
            ),
            final(self).id == old(self).id,
    {
        let SocketSession { username, pos } = session;
        self.disconnect(username, pos)
    }
}

/// Closing the session that `open_socket` just opened gives back the
/// table as it was, except that a user seen for the first time stays in
/// it with no sockets, when the position chosen was free (see
/// `law_disconnect_undoes_connect`).
pub proof fn law_close_undoes_open(
    m: SessionsView,
    user: Seq<char>,
    sender: Sender<String>,
    session: SocketSession,
)
    requires
        session.user() == user,
        session.position() == connect_position(m, user),
        m.contains_key(user) ==> !m[user].contains_key(connect_position(m, user) as usize),
    ensures
        after_disconnect(after_connect(m, user, sender), session.user(), session.position()) == (
        if m.contains_key(user) {
            m
        } else {
            m.insert(user, Map::empty())
        }),
{
    law_disconnect_undoes_connect(m, user, sender);
}

/// The positions `0..n` as a set of socket positions.
pub open spec fn positions_below(n: nat) -> Set<usize> {
    Set::new(|k: usize| (k as nat) < n)
}

proof fn lemma_positions_below_len(n: nat)
    requires
        n <= usize::MAX + 1,
    ensures
        positions_below(n).finite(),
        positions_below(n).len() == n,
    decreases n,
{
    if n == 0 {
        assert(positions_below(0) =~= Set::<usize>::empty());
    } else {
        let k = (n - 1) as nat;
        lemma_positions_below_len(k);
        assert(positions_below(n) =~= positions_below(k).insert(k as usize));
    }
}

/// A socket that `connect` registers can be found at the position that
/// `connect` returned.
pub proof fn law_connect_then_lookup(m: SessionsView, user: Seq<char>, sender: Sender<String>)
    ensures
        after_connect(m, user, sender).contains_key(user),
        after_connect(m, user, sender)[user].contains_key(connect_position(m, user) as usize),
        after_connect(m, user, sender)[user][connect_position(m, user) as usize] == sender,
{
}

/// Connecting a socket of one user leaves every other user's sockets as
/// they were.
pub proof fn law_connect_keeps_other_users(
    m: SessionsView,
    user: Seq<char>,
    sender: Sender<String>,
    other: Seq<char>,
)
    requires
        other != user,
    ensures
        after_connect(m, user, sender).contains_key(other) == m.contains_key(other),
        m.contains_key(other) ==> after_connect(m, user, sender)[other] == m[other],
{
}

/// Disconnecting a socket of one user leaves every other user's sockets
/// as they were, and leaves the user's other sockets in place.
pub proof fn law_disconnect_keeps_the_rest(
    m: SessionsView,
    user: Seq<char>,
    pos: usize,
    other: Seq<char>,
    other_pos: usize,
)
    requires
        other != user || other_pos != pos,
    ensures
        after_disconnect(m, user, pos).contains_key(other) == m.contains_key(other),
        m.contains_key(other) ==> (after_disconnect(m, user, pos)[other].contains_key(other_pos)
            == m[other].contains_key(other_pos)),
        m.contains_key(other) && m[other].contains_key(other_pos) ==> after_disconnect(
            m,
            user,
            pos,
        )[other][other_pos] == m[other][other_pos],
{
}

/// Disconnecting the socket that `connect` just registered gives back the
/// table as it was before, except that a user seen for the first time
/// stays in it with no sockets. This holds when the position `connect`
/// chose was free; after an earlier disconnect it may not be (see
/// `law_positions_are_fresh`).
pub proof fn law_disconnect_undoes_connect(m: SessionsView, user: Seq<char>, sender: Sender<String>)
    requires
        m.contains_key(user) ==> !m[user].contains_key(connect_position(m, user) as usize),
    ensures
        after_disconnect(after_connect(m, user, sender), user, connect_position(m, user) as usize)
            == (if m.contains_key(user) {
            m
        } else {
            m.insert(user, Map::empty())
        }),
{
    let p = connect_position(m, user) as usize;
    let r = after_disconnect(after_connect(m, user, sender), user, p);
    if m.contains_key(user) {
        assert(r[user] =~= m[user]);
        assert(r =~= m);
    } else {
        assert(r[user] =~= Map::<usize, Sender<String>>::empty());
        assert(r =~= m.insert(user, Map::empty()));
    }
}

/// While a user's sockets are exactly the positions `0..n` (as they are
/// when sockets were only ever connected, never disconnected), `connect`
/// gives the next socket position `n`, which is free, and the user's
/// sockets become `0..n + 1`. A user not yet seen gets position 0.
pub proof fn law_positions_are_fresh(m: SessionsView, user: Seq<char>, sender: Sender<String>, n: nat)
    requires
        n < usize::MAX,
        m.contains_key(user) ==> m[user].dom() == positions_below(n),
        !m.contains_key(user) ==> n == 0,
    ensures
        connect_position(m, user) == n,
        m.contains_key(user) ==> !m[user].contains_key(n as usize),
        after_connect(m, user, sender)[user].dom() == positions_below(n + 1),
{
    lemma_positions_below_len(n);
    if m.contains_key(user) {
        assert(after_connect(m, user, sender)[user].dom() =~= positions_below(n + 1));
    } else {
        assert(after_connect(m, user, sender)[user].dom() =~= positions_below(1));
    }
}

/// `connect` changes a user's sockets only at the position it returns:
/// every other position of that user holds the same socket as before, or
/// stays empty, whether or not the returned position was already taken.
pub proof fn law_connect_touches_only_its_position(
    m: SessionsView,
    user: Seq<char>,
    sender: Sender<String>,
    k: usize,
)
    requires
        k != connect_position(m, user) as usize,
    ensures
        after_connect(m, user, sender)[user].contains_key(k) == (m.contains_key(user)
            && m[user].contains_key(k)),
        m.contains_key(user) && m[user].contains_key(k) ==> after_connect(m, user, sender)[user][k]
            == m[user][k],
{
}

} // verus!
