//! The centre's registry of live agent connections, keyed by server id,
//! with heartbeat bookkeeping and removal of stale connections.

use std::collections::HashMap;

use vstd::prelude::*;

verus! {

broadcast use vstd::std_specs::hash::group_hash_axioms;

/// One live agent connection. Ids are UUIDs as 128-bit integers; instants
/// are nanoseconds since the Unix epoch.
#[derive(Clone, Copy, Debug)]
pub struct AgentConnection {
    pub server_id: u128,
    pub agent_id: u128,
    pub connected_at_ns: i128,
    pub last_heartbeat_at_ns: i128,
}

/// Returned by `update_heartbeat` for a server with no live connection.
#[derive(Clone, Copy, Debug, PartialEq, Eq)]
pub enum RegistryError {
    UnknownServer,
}

/// Timeouts that `chrono::TimeDelta::seconds` accepts; it panics on others.
pub open spec fn timeout_in_range(seconds: int) -> bool {
    -(i64::MAX / 1000) <= seconds <= i64::MAX / 1000
}

/// Whether `chrono::TimeDelta::seconds` accepts this timeout.
pub fn timeout_in_range_check(seconds: i64) -> (ok: bool)
    ensures
        ok == timeout_in_range(seconds as int),
{
    -(i64::MAX / 1000) <= seconds && seconds <= i64::MAX / 1000
}

/// A connection whose last heartbeat is more than `timeout_seconds` before
/// `now_ns`.
pub open spec fn is_stale(connection: AgentConnection, now_ns: int, timeout_seconds: int) -> bool {
    now_ns - connection.last_heartbeat_at_ns > timeout_seconds * 1_000_000_000
}

/// The connections of `m` that are not stale.
pub open spec fn fresh_only(m: Map<u128, AgentConnection>, now_ns: int, timeout_seconds: int) -> Map<
    u128,
    AgentConnection,
> {
    m.restrict(m.dom().filter(|k: u128| !is_stale(m[k], now_ns, timeout_seconds)))
}

/// Live agent connections by server id.
pub struct AgentConnectionManager {
    connections: HashMap<u128, AgentConnection>,
    heartbeat_timeout_seconds: i64,
}

impl View for AgentConnectionManager {
    type V = Map<u128, AgentConnection>;

    open spec fn view(&self) -> Map<u128, AgentConnection> {
        self.spec_connections()
    }
}

impl AgentConnectionManager {
    /// The registered connections.
    pub closed spec fn spec_connections(&self) -> Map<u128, AgentConnection> {
        self.connections@
    }

    /// The heartbeat timeout, in seconds.
    pub closed spec fn spec_timeout(&self) -> i64 {
        self.heartbeat_timeout_seconds
    }

    /// Every connection is filed under its own server id.
    #[verifier::type_invariant]
    closed spec fn keyed_by_server(&self) -> bool {
        forall|k: u128| #[trigger] self.connections@.contains_key(k) ==> self.connections@[k].server_id == k
    }

    /// An empty registry with the given heartbeat timeout.
    pub fn new(heartbeat_timeout_seconds: i64) -> (manager: Self)
        ensures
            manager@ == Map::<u128, AgentConnection>::empty(),
            manager.spec_timeout() == heartbeat_timeout_seconds,
            manager@.dom().finite(),
    {
        AgentConnectionManager { connections: HashMap::new(), heartbeat_timeout_seconds }
    }

    /// The heartbeat timeout, in seconds.
    pub fn heartbeat_timeout_seconds(&self) -> (seconds: i64)
        ensures
            seconds == self.spec_timeout(),
    {
        self.heartbeat_timeout_seconds
    }

    /// Records a new connection for `server_id`, replacing any earlier one;
    /// both its connection time and last heartbeat are `now_ns`.
    pub fn register_connection(&mut self, server_id: u128, agent_id: u128, now_ns: i128)
        ensures
            final(self)@ == old(self)@.insert(
                server_id,
                AgentConnection {
                    server_id,
                    agent_id,
                    connected_at_ns: now_ns,
                    last_heartbeat_at_ns: now_ns,
                },
            ),
            final(self).spec_timeout() == old(self).spec_timeout(),
            final(self)@.dom().finite(),
    {
        proof {
            use_type_invariant(&*self);
        }
        let connection = AgentConnection {
            server_id,
            agent_id,
            connected_at_ns: now_ns,
            last_heartbeat_at_ns: now_ns,
        };
        let mut connections = HashMap::new();
        std::mem::swap(&mut connections, &mut self.connections);
        connections.insert(server_id, connection);
        self.connections = connections;
    }

    /// Moves the last heartbeat of `server_id`'s connection to `now_ns`;
    /// an unknown server is an error and changes nothing.
    pub fn update_heartbeat(&mut self, server_id: u128, now_ns: i128) -> (result: Result<(), RegistryError>)
        ensures
            old(self)@.contains_key(server_id) ==> result is Ok && final(self)@ == old(self)@.insert(
                server_id,
                AgentConnection { last_heartbeat_at_ns: now_ns, ..old(self)@[server_id] },
            ),
            !old(self)@.contains_key(server_id) ==> result == Err::<(), RegistryError>(
                RegistryError::UnknownServer,
            ) && final(self)@ == old(self)@,
            final(self).spec_timeout() == old(self).spec_timeout(),
            final(self)@.dom().finite(),
    {
        proof {
            use_type_invariant(&*self);
        }
        let found = match self.connections.get(&server_id) {
            Some(c) => Some(*c),
            None => None,
        };
        match found {
            Some(c) => {
                let updated = AgentConnection { last_heartbeat_at_ns: now_ns, ..c };
                let mut connections = HashMap::new();
                std::mem::swap(&mut connections, &mut self.connections);
                connections.insert(server_id, updated);
                self.connections = connections;
                Ok(())
            },
            None => Err(RegistryError::UnknownServer),
        }
    }

    /// Forgets the connection of `server_id`, if any.
    pub fn remove_connection(&mut self, server_id: u128)
        ensures
            final(self)@ == old(self)@.remove(server_id),
            final(self).spec_timeout() == old(self).spec_timeout(),
            final(self)@.dom().finite(),
    {
        proof {
            use_type_invariant(&*self);
        }
        let mut connections = HashMap::new();
        std::mem::swap(&mut connections, &mut self.connections);
        connections.remove(&server_id);
        self.connections = connections;
    }

    /// The connection of `server_id`, if any.
    pub fn get_connection(&self, server_id: u128) -> (connection: Option<AgentConnection>)
        ensures
            connection == if self@.contains_key(server_id) {
                Some(self@[server_id])
            } else {
                None
            },
            connection matches Some(c) ==> c.server_id == server_id,
    {
        proof {
            use_type_invariant(self);
        }
        match self.connections.get(&server_id) {
            Some(c) => Some(*c),
            None => None,
        }
    }

    /// The number of live connections.
    pub fn active_connections_count(&self) -> (count: usize)
        ensures
            count == self@.len(),
            self@.dom().finite(),
    {
        self.connections.len()
    }

    /// Removes every connection whose last heartbeat lies more than the
    /// heartbeat timeout before `now_ns`, and returns the removed server ids.
    pub fn prune_stale(&mut self, now_ns: i128) -> (removed: Vec<u128>)
        requires
            timeout_in_range(old(self).spec_timeout() as int),
        ensures
            final(self)@ == fresh_only(old(self)@, now_ns as int, old(self).spec_timeout() as int),
            removed@.to_set() == old(self)@.dom().filter(
                |k: u128| is_stale(old(self)@[k], now_ns as int, old(self).spec_timeout() as int),
            ),
            final(self).spec_timeout() == old(self).spec_timeout(),
            final(self)@.dom().finite(),
    {
        proof {
            use_type_invariant(&*self);
        }
        let ghost t = self.heartbeat_timeout_seconds as int;
        let ghost m = self.connections@;
        let timeout_ns: i128 = (self.heartbeat_timeout_seconds as i128) * 1_000_000_000;
        let mut connections = HashMap::new();
        std::mem::swap(&mut connections, &mut self.connections);
        let mut stale: Vec<u128> = Vec::new();
        let mut keys = vstd::std_specs::iter::VerusForLoopWrapper::new(
            connections.keys(),
            Ghost(None),
        );
        assert(keys.seq().unref().to_set() == m.dom());
        loop
            invariant
                connections@ == m,
                timeout_ns == t * 1_000_000_000,
                keys.wf(),
                vstd::std_specs::iter::IteratorSpec::decrease(&keys.iter) is Some,
                keys.seq().unref().to_set() == m.dom(),
                forall|j: int|
                    0 <= j < stale@.len() ==> m.contains_key(#[trigger] stale@[j]) && is_stale(
                        m[stale@[j]],
                        now_ns as int,
                        t,
                    ),
                forall|i: int|
                    0 <= i < keys.index() && is_stale(m[*keys.seq()[i]], now_ns as int, t)
                        ==> stale@.contains(*#[trigger] keys.seq()[i]),
            ensures
                keys.index() == keys.seq().len(),
            decreases vstd::std_specs::iter::IteratorSpec::decrease(&keys.iter)->0,
        {
            let ghost before = stale@;
            let ghost at = keys.index();
            match keys.next() {
                Some(k) => {
                    proof {
                        assert(*k == keys.seq().unref()[at]);
                        assert(keys.seq().unref().to_set().contains(*k));
                        assert(m.contains_key(*k));
                    }
                    let last = match connections.get(k) {
                        Some(c) => c.last_heartbeat_at_ns,
                        None => now_ns,
                    };
                    let is_old = match now_ns.checked_sub(last) {
                        Some(elapsed) => elapsed > timeout_ns,
                        None => now_ns > last,
                    };
                    assert(is_old == is_stale(m[*k], now_ns as int, t));
                    if is_old {
                        stale.push(*k);
                    }
                    proof {
                        assert forall|i: int|
                            0 <= i < keys.index() && is_stale(m[*keys.seq()[i]], now_ns as int, t)
                                implies stale@.contains(*#[trigger] keys.seq()[i]) by {
                            if i < keys.index() - 1 {
                                assert(before.contains(*keys.seq()[i]));
                                let w = choose|w: int|
                                    0 <= w < before.len() && before[w] == *keys.seq()[i];
                                assert(stale@[w] == before[w]);
                            } else {
                                assert(stale@[stale@.len() - 1] == *k);
                            }
                        }
                    }
                },
                None => {
                    break;
                },
            }
        }
        proof {
            assert forall|k: u128|
                m.contains_key(k) && is_stale(m[k], now_ns as int, t) implies stale@.contains(k) by {
                assert(keys.seq().unref().to_set().contains(k));
                let i = choose|i: int| 0 <= i < keys.seq().unref().len() && keys.seq().unref()[i] == k;
                assert(*keys.seq()[i] == k);
            }
        }
        let mut j: usize = 0;
        while j < stale.len()
            invariant
                j <= stale@.len(),
                forall|i: int|
                    0 <= i < stale@.len() ==> m.contains_key(#[trigger] stale@[i]) && is_stale(
                        m[stale@[i]],
                        now_ns as int,
                        t,
                    ),
                connections@ == m.remove_keys(stale@.take(j as int).to_set()),
            decreases stale@.len() - j,
        {
            let key = stale[j];
            connections.remove(&key);
            assert(stale@.take(j + 1) =~= stale@.take(j as int).push(key));
            proof {
                stale@.take(j as int).lemma_push_to_set_commute(key);
            }
            assert(connections@ =~= m.remove_keys(stale@.take(j + 1).to_set()));
            j = j + 1;
        }
        assert(stale@.take(stale@.len() as int) =~= stale@);
        assert(connections@ =~= fresh_only(m, now_ns as int, t));
        self.connections = connections;
        stale
    }

    /// Follows a database sweep that marked `marked_offline` servers offline:
    /// when it marked any, stale connections are pruned too (and their ids
    /// returned); otherwise nothing changes.
    pub fn after_offline_sweep(&mut self, marked_offline: i64, now_ns: i128) -> (removed: Vec<u128>)
        requires
            marked_offline > 0 ==> timeout_in_range(old(self).spec_timeout() as int),
        ensures
            marked_offline > 0 ==> final(self)@ == fresh_only(
                old(self)@,
                now_ns as int,
                old(self).spec_timeout() as int,
            ) && removed@.to_set() == old(self)@.dom().filter(
                |k: u128| is_stale(old(self)@[k], now_ns as int, old(self).spec_timeout() as int),
            ),
            marked_offline <= 0 ==> final(self)@ == old(self)@ && removed@.len() == 0,
            final(self).spec_timeout() == old(self).spec_timeout(),
            final(self)@.dom().finite(),
    {
        if marked_offline > 0 {
            self.prune_stale(now_ns)
        } else {
            Vec::new()
        }
    }
}


/// Pruning keeps exactly the connections that are not stale, unchanged.
pub proof fn law_prune_keeps_exactly_fresh(m: Map<u128, AgentConnection>, now_ns: int, timeout_seconds: int)
    ensures
        forall|k: u128|
            #[trigger] fresh_only(m, now_ns, timeout_seconds).contains_key(k) <==> (m.contains_key(k)
                && !is_stale(m[k], now_ns, timeout_seconds)),
        forall|k: u128|
            #[trigger] fresh_only(m, now_ns, timeout_seconds).contains_key(k) ==> fresh_only(
                m,
                now_ns,
                timeout_seconds,
            )[k] == m[k],
{
}

/// A connection registered at `now_ns` is found with the given ids and
/// that instant as its connection time and last heartbeat.
pub proof fn law_register_then_get(
    m: Map<u128, AgentConnection>,
    server_id: u128,
    agent_id: u128,
    now_ns: int,
)
    requires
        i128::MIN <= now_ns <= i128::MAX,
    ensures
        ({
            let c = AgentConnection {
                server_id,
                agent_id,
                connected_at_ns: now_ns as i128,
                last_heartbeat_at_ns: now_ns as i128,
            };
            m.insert(server_id, c).contains_key(server_id) && m.insert(server_id, c)[server_id] == c
        }),
{
}

/// Registering a server that had no connection adds one to the count of
/// live connections; registering one that had a connection keeps the count.
pub proof fn law_register_counts(m: Map<u128, AgentConnection>, server_id: u128, c: AgentConnection)
    requires
        m.dom().finite(),
    ensures
        !m.contains_key(server_id) ==> m.insert(server_id, c).len() == m.len() + 1,
        m.contains_key(server_id) ==> m.insert(server_id, c).len() == m.len(),
        m.insert(server_id, c).dom().finite(),
{
    if m.contains_key(server_id) {
        assert(m.insert(server_id, c).dom() =~= m.dom());
    } else {
        assert(m.insert(server_id, c).dom() =~= m.dom().insert(server_id));
    }
}

/// Removing a registered server's connection takes one off the count.
pub proof fn law_remove_counts(m: Map<u128, AgentConnection>, server_id: u128)
    requires
        m.dom().finite(),
    ensures
        m.contains_key(server_id) ==> m.remove(server_id).len() == m.len() - 1,
        !m.contains_key(server_id) ==> m.remove(server_id).len() == m.len(),
{
    if !m.contains_key(server_id) {
        assert(m.remove(server_id).dom() =~= m.dom());
    }
}

/// A removed connection is gone; the others stay.
pub proof fn law_remove_then_get(m: Map<u128, AgentConnection>, server_id: u128, other: u128)
    requires
        other != server_id,
    ensures
        !m.remove(server_id).contains_key(server_id),
        m.remove(server_id).contains_key(other) == m.contains_key(other),
        m.contains_key(other) ==> m.remove(server_id)[other] == m[other],
{
}

/// A connection whose heartbeat was refreshed no longer than the timeout
/// before a pruning survives that pruning.
pub proof fn law_recent_heartbeat_survives_pruning(
    m: Map<u128, AgentConnection>,
    server_id: u128,
    heartbeat_ns: i128,
    now_ns: int,
    timeout_seconds: int,
)
    requires
        m.contains_key(server_id),
        now_ns - heartbeat_ns <= timeout_seconds * 1_000_000_000,
    ensures
        fresh_only(
            m.insert(server_id, AgentConnection { last_heartbeat_at_ns: heartbeat_ns, ..m[server_id] }),
            now_ns,
            timeout_seconds,
        ).contains_key(server_id),
{
    let m2 = m.insert(
        server_id,
        AgentConnection { last_heartbeat_at_ns: heartbeat_ns, ..m[server_id] },
    );
    assert(m2.dom().filter(|k: u128| !is_stale(m2[k], now_ns, timeout_seconds)).contains(server_id));
}

} // verus!
