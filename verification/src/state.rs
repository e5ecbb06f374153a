//! Live WebSocket connections keyed by user id. Each user has a single
//! connection (a newer connection replaces the older one), and the exit of a
//! replaced connection leaves the newer one in place.
use vstd::prelude::*;

use std::collections::HashMap;

verus! {

broadcast use vstd::std_specs::hash::group_hash_axioms;

/// The connection id that follows `id` (ids wrap around after `u64::MAX`).
pub open spec fn next_id(id: u64) -> u64 {
    if id < u64::MAX {
        (id + 1) as u64
    } else {
        0
    }
}

/// The connections after the exit of connection `connection` of `user_id`:
/// the user's entry goes only if it still is that connection.
pub open spec fn without_connection<S>(connections: Map<i64, (u64, S)>, user_id: i64, connection: u64) -> Map<
    i64,
    (u64, S),
> {
    if connections.contains_key(user_id) && connections[user_id].0 == connection {
        connections.remove(user_id)
    } else {
        connections
    }
}

/// The connection id and sender of each connected user's channel, by user id.
pub struct ConnectionRegistry<S> {
    senders: HashMap<i64, (u64, S)>,
    next_connection: u64,
}

impl<S> View for ConnectionRegistry<S> {
    type V = Map<i64, (u64, S)>;

    closed spec fn view(&self) -> Map<i64, (u64, S)> {
        self.senders@
    }
}

impl<S> ConnectionRegistry<S> {
    /// The id that the next registration gets.
    pub closed spec fn next_connection(&self) -> u64 {
        self.next_connection
    }

    /// No user connected.
    pub fn new() -> (registry: Self)
        ensures
            registry@ == Map::<i64, (u64, S)>::empty(),
            registry.next_connection() == 0,
    {
        ConnectionRegistry { senders: HashMap::new(), next_connection: 0 }
    }

    /// Register a user's connection under a fresh connection id, replacing
    /// any earlier connection of the user; the id is returned.
    pub fn register(&mut self, user_id: i64, sender: S) -> (connection: u64)
        ensures
            connection == old(self).next_connection(),
            final(self).next_connection() == next_id(connection),
            final(self)@ == old(self)@.insert(user_id, (connection, sender)),
    {
        let connection = self.next_connection;
        self.next_connection = if connection < u64::MAX {
            connection + 1
        } else {
            0
        };
        self.senders.insert(user_id, (connection, sender));
        connection
    }

    /// The exit of a user's connection: the user is removed only while that
    /// connection is still the registered one (see [`without_connection`]).
    pub fn unregister(&mut self, user_id: i64, connection: u64)
        ensures
            final(self)@ == without_connection(old(self)@, user_id, connection),
            final(self).next_connection() == old(self).next_connection(),
    {
        let current = match self.senders.get(&user_id) {
            Some(entry) => entry.0 == connection,
            None => false,
        };
        if current {
            self.senders.remove(&user_id);
        }
    }

    /// The sender of a connected user, if the user is online.
    pub fn sender(&self, user_id: i64) -> (sender: Option<&S>)
        ensures
            match sender {
                Some(s) => self@.contains_key(user_id) && *s == self@[user_id].1,
                None => !self@.contains_key(user_id),
            },
    {
        match self.senders.get(&user_id) {
            Some(entry) => Some(&entry.1),
            None => None,
        }
    }
}

/// A newer connection replaces an older one, and the older one's exit leaves
/// the newer in place; the newer one's exit removes the user.
pub proof fn lemma_newer_connection_survives_older_exit<S>(
    connections: Map<i64, (u64, S)>,
    user_id: i64,
    older: u64,
    older_sender: S,
    newer_sender: S,
)
    ensures
        without_connection(
            connections.insert(user_id, (older, older_sender)).insert(user_id, (next_id(older), newer_sender)),
            user_id,
            older,
        ) == connections.insert(user_id, (next_id(older), newer_sender)),
        without_connection(
            connections.insert(user_id, (older, older_sender)).insert(user_id, (next_id(older), newer_sender)),
            user_id,
            next_id(older),
        ) == connections.remove(user_id),
{
    let both = connections.insert(user_id, (older, older_sender)).insert(user_id, (next_id(older), newer_sender));
    assert(both =~= connections.insert(user_id, (next_id(older), newer_sender)));
    assert(both.remove(user_id) =~= connections.remove(user_id));
}

} // verus!
