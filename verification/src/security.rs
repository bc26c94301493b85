//! Per-address connection limits.

use vstd::prelude::*;
use dashmap::DashMap;
use std::collections::hash_map::RandomState;

verus! {

/// A peer address as plain values: the address family (4 or 6) and the
/// address bits (an IPv4 address in the low 32 bits).
pub type PeerKey = (u8, u128);

#[verifier::external_type_specification]
#[verifier::external_body]
#[verifier::reject_recursive_types(K)]
#[verifier::reject_recursive_types(V)]
#[verifier::reject_recursive_types(S)]
pub struct ExDashMap<K, V, S>(DashMap<K, V, S>);

/// The concurrent table that holds the connection counts.
pub type ConnectionTable = DashMap<PeerKey, usize, RandomState>;

/// The entries of a connection-count table: each peer and the number of its
/// open connections.
pub uninterp spec fn connection_counts(table: ConnectionTable) -> Map<PeerKey, usize>;

/// Calls `DashMap::new`. Believed: the new table has no entries.
#[verifier::external_body]
fn table_new() -> (fresh: ConnectionTable)
    ensures
        connection_counts(fresh) == no_counts(),
{
    DashMap::new()
}

/// Calls `DashMap::entry` and `Entry::or_insert`, and reads the value found.
/// Believed: an entry already there is kept and its value returned; otherwise
/// `default` is inserted for the key and returned.
#[verifier::external_body]
fn table_entry_or_insert(table: &mut ConnectionTable, key: PeerKey, default: usize) -> (value: usize)
    ensures
        connection_counts(*old(table)).dom().contains(key) ==> {
            &&& connection_counts(*final(table)) == connection_counts(*old(table))
            &&& value == connection_counts(*old(table))[key]
        },
        !connection_counts(*old(table)).dom().contains(key) ==> {
            &&& connection_counts(*final(table)) == connection_counts(*old(table)).insert(key, default)
            &&& value == default
        },
{
    *table.entry(key).or_insert(default)
}

/// Calls `DashMap::get` and reads the value found. Believed: the value stored
/// for the key, if any; the table is unchanged.
#[verifier::external_body]
fn table_get(table: &ConnectionTable, key: PeerKey) -> (value: Option<usize>)
    ensures
        value == (if connection_counts(*table).dom().contains(key) {
            Some(connection_counts(*table)[key])
        } else {
            None
        }),
{
    match table.get(&key) {
        Some(entry) => Some(*entry),
        None => None,
    }
}

/// Calls `DashMap::insert`. Believed: afterwards the key maps to `value` and
/// every other entry is unchanged.
#[verifier::external_body]
fn table_insert(table: &mut ConnectionTable, key: PeerKey, value: usize)
    ensures
        connection_counts(*final(table)) == connection_counts(*old(table)).insert(key, value),
{
    table.insert(key, value);
}

/// Whether a connection count marks a peer that still has open connections.
pub fn count_is_live(count: usize) -> (live: bool)
    ensures
        live == (count > 0),
{
    count > 0
}

/// Calls `DashMap::retain` with `count_is_live` as the predicate. Believed:
/// exactly the entries whose count is live stay, with their values.
#[verifier::external_body]
fn table_retain_live(table: &mut ConnectionTable)
    ensures
        connection_counts(*final(table)) == live_entries(connection_counts(*old(table))),
{
    table.retain(|_, count| count_is_live(*count));
}

/// A table with no entries.
pub open spec fn no_counts() -> Map<PeerKey, usize> {
    Map::empty()
}

/// The number of open connections recorded for `peer` (0 when it has no entry).
pub open spec fn count_of(counts: Map<PeerKey, usize>, peer: PeerKey) -> nat {
    if counts.dom().contains(peer) {
        counts[peer] as nat
    } else {
        0
    }
}

/// Whether a new connection from `peer` is admitted under the limit `max`.
pub open spec fn admits(counts: Map<PeerKey, usize>, max: usize, peer: PeerKey) -> bool {
    count_of(counts, peer) < max
}

/// The counts after a connection attempt from `peer`: its entry is created
/// with 0 if missing, and raised by one when the attempt is admitted.
pub open spec fn counts_after_attempt(counts: Map<PeerKey, usize>, max: usize, peer: PeerKey) -> Map<PeerKey, usize> {
    if admits(counts, max, peer) {
        counts.insert(peer, (count_of(counts, peer) + 1) as usize)
    } else {
        counts.insert(peer, count_of(counts, peer) as usize)
    }
}

/// The counts after a connection of `peer` closes: its count drops by one
/// unless it is missing or already 0.
pub open spec fn counts_after_release(counts: Map<PeerKey, usize>, peer: PeerKey) -> Map<PeerKey, usize> {
    if counts.dom().contains(peer) && counts[peer] > 0 {
        counts.insert(peer, (counts[peer] - 1) as usize)
    } else {
        counts
    }
}

/// The entries whose count is above 0.
pub open spec fn live_entries(counts: Map<PeerKey, usize>) -> Map<PeerKey, usize> {
    Map::new(|peer: PeerKey| counts.dom().contains(peer) && counts[peer] > 0, |peer: PeerKey| counts[peer])
}

/// No peer has more open connections than `max`.
pub open spec fn within_limit(counts: Map<PeerKey, usize>, max: usize) -> bool {
    forall|peer: PeerKey| #[trigger] counts.dom().contains(peer) ==> counts[peer] <= max
}

/// Counts the open connections of each peer address and refuses a peer that
/// already holds `max_per_ip` of them.
pub struct SecurityManager {
    /// The open connections of each address.
    pub connections: ConnectionTable,
    /// The limit of open connections per address.
    pub max_per_ip: usize,
}

impl SecurityManager {
    /// The recorded connection counts.
    pub open spec fn counts(&self) -> Map<PeerKey, usize> {
        connection_counts(self.connections)
    }

    /// The limit of open connections per address: the `max_per_ip` field.
    pub open spec fn limit(&self) -> usize {
        self.max_per_ip
    }

    /// The limit of open connections per address (the `max_per_ip` field).
    pub fn max_per_ip(&self) -> (max: usize)
        ensures
            max == self.limit(),
    {
        self.max_per_ip
    }

    /// Sets the limit of open connections per address (the `max_per_ip`
    /// field); the recorded counts stay as they are.
    pub fn set_max_per_ip(&mut self, max: usize)
        ensures
            final(self).limit() == max,
            final(self).counts() == old(self).counts(),
    {
        self.max_per_ip = max;
    }

    /// A manager with no recorded connections and a limit of 15 per address.
    pub fn new() -> (manager: Self)
        ensures
            manager.counts() == no_counts(),
            manager.limit() == 15,
    {
        SecurityManager { connections: table_new(), max_per_ip: 15 }
    }

    /// Records a connection attempt from `ip`: admitted, and counted, when
    /// the address holds fewer than `max_per_ip` connections.
    pub fn allow_connection(&mut self, ip: PeerKey) -> (allowed: bool)
        ensures
            allowed == admits(old(self).counts(), old(self).limit(), ip),
            final(self).counts() == counts_after_attempt(old(self).counts(), old(self).limit(), ip),
            final(self).limit() == old(self).limit(),
    {
        let current = table_entry_or_insert(&mut self.connections, ip, 0);
        if current < self.max_per_ip {
            table_insert(&mut self.connections, ip, current + 1);
            true
        } else {
            false
        }
    }

    /// Records that a connection of `ip` closed.
    pub fn release(&mut self, ip: PeerKey)
        ensures
            final(self).counts() == counts_after_release(old(self).counts(), ip),
            final(self).limit() == old(self).limit(),
    {
        match table_get(&self.connections, ip) {
            Some(count) => {
                if count > 0 {
                    table_insert(&mut self.connections, ip, count - 1);
                }
            },
            None => {},
        }
    }

    /// The connection count recorded for `ip`, if it has an entry.
    pub fn count(&self, ip: PeerKey) -> (count: Option<usize>)
        ensures
            count == (if self.counts().dom().contains(ip) {
                Some(self.counts()[ip])
            } else {
                None
            }),
    {
        table_get(&self.connections, ip)
    }

    /// Drops the entries of addresses with no open connection (the periodic
    /// clean-up).
    pub fn prune_idle(&mut self)
        ensures
            final(self).counts() == live_entries(old(self).counts()),
            final(self).limit() == old(self).limit(),
    {
        table_retain_live(&mut self.connections);
    }
}

/// An admitted connection that is then released leaves the address with the
/// count it had before (an address that had no entry keeps one with 0).
pub proof fn attempt_then_release_restores(counts: Map<PeerKey, usize>, max: usize, peer: PeerKey)
    requires
        admits(counts, max, peer),
    ensures
        counts_after_release(counts_after_attempt(counts, max, peer), peer)
            == counts.insert(peer, count_of(counts, peer) as usize),
{
    assert(counts_after_release(counts_after_attempt(counts, max, peer), peer)
        =~= counts.insert(peer, count_of(counts, peer) as usize));
}

/// No operation lets an address exceed the limit: attempts, releases and
/// clean-ups keep every count at most `max`.
pub proof fn limit_is_kept(counts: Map<PeerKey, usize>, max: usize, peer: PeerKey)
    requires
        within_limit(counts, max),
    ensures
        within_limit(counts_after_attempt(counts, max, peer), max),
        within_limit(counts_after_release(counts, peer), max),
        within_limit(live_entries(counts), max),
{
}

/// A refused attempt changes no count.
pub proof fn refusal_changes_no_count(counts: Map<PeerKey, usize>, max: usize, peer: PeerKey)
    requires
        !admits(counts, max, peer),
    ensures
        forall|p: PeerKey| count_of(counts_after_attempt(counts, max, peer), p) == #[trigger] count_of(counts, p),
{
}

/// The counts after `n` connection attempts from `peer`, none released.
pub open spec fn after_attempts(counts: Map<PeerKey, usize>, max: usize, peer: PeerKey, n: nat) -> Map<PeerKey, usize>
    decreases n,
{
    if n == 0 {
        counts
    } else {
        counts_after_attempt(after_attempts(counts, max, peer, (n - 1) as nat), max, peer)
    }
}

/// Starting from no connections, an address gets exactly `max_per_ip`
/// connections admitted: after `n` attempts it holds `min(n, max)` of them,
/// and the next attempt is admitted exactly when `n < max`.
pub proof fn attempts_fill_up_to_the_limit(max: usize, peer: PeerKey, n: nat)
    ensures
        count_of(after_attempts(no_counts(), max, peer, n), peer) == if n < max { n } else { max as nat },
        admits(after_attempts(no_counts(), max, peer, n), max, peer) <==> n < max,
    decreases n,
{
    if n > 0 {
        attempts_fill_up_to_the_limit(max, peer, (n - 1) as nat);
    }
}

/// One operation on a connection manager.
pub ghost enum CountOp {
    /// A connection attempt from a peer.
    Attempt(PeerKey),
    /// The close of a connection of a peer.
    Release(PeerKey),
    /// A new limit per address.
    SetLimit(usize),
}

/// The counts and the limit after one operation.
pub open spec fn after_op(state: (Map<PeerKey, usize>, usize), op: CountOp) -> (Map<PeerKey, usize>, usize) {
    match op {
        CountOp::Attempt(peer) => (counts_after_attempt(state.0, state.1, peer), state.1),
        CountOp::Release(peer) => (counts_after_release(state.0, peer), state.1),
        CountOp::SetLimit(max) => (state.0, max),
    }
}

/// The counts and the limit after the operations `ops`, in order, from
/// `state`.
pub open spec fn after_ops(state: (Map<PeerKey, usize>, usize), ops: Seq<CountOp>) -> (Map<PeerKey, usize>, usize)
    decreases ops.len(),
{
    if ops.len() == 0 {
        state
    } else {
        after_op(after_ops(state, ops.drop_last()), ops.last())
    }
}

/// No operation among `ops` lowers the limit.
pub open spec fn limit_never_lowered(state: (Map<PeerKey, usize>, usize), ops: Seq<CountOp>) -> bool
    decreases ops.len(),
{
    if ops.len() == 0 {
        true
    } else {
        &&& limit_never_lowered(state, ops.drop_last())
        &&& (ops.last() matches CountOp::SetLimit(max) ==> max >= after_ops(state, ops.drop_last()).1)
    }
}

/// How many of the attempts of `peer` among `ops` were admitted.
pub open spec fn admitted_attempts(state: (Map<PeerKey, usize>, usize), ops: Seq<CountOp>, peer: PeerKey) -> nat
    decreases ops.len(),
{
    if ops.len() == 0 {
        0
    } else {
        let before = after_ops(state, ops.drop_last());
        admitted_attempts(state, ops.drop_last(), peer) + if ops.last() == CountOp::Attempt(peer) && admits(
            before.0,
            before.1,
            peer,
        ) {
            1nat
        } else {
            0nat
        }
    }
}

/// How many of the releases of `peer` among `ops` found an open connection
/// to close.
pub open spec fn effective_releases(state: (Map<PeerKey, usize>, usize), ops: Seq<CountOp>, peer: PeerKey) -> nat
    decreases ops.len(),
{
    if ops.len() == 0 {
        0
    } else {
        let before = after_ops(state, ops.drop_last());
        effective_releases(state, ops.drop_last(), peer) + if ops.last() == CountOp::Release(peer)
            && count_of(before.0, peer) > 0 {
            1nat
        } else {
            0nat
        }
    }
}

/// Starting from a new manager with limit `max`, after any sequence of
/// attempts, releases and changes of the limit that never lower it, each
/// address holds exactly its admitted attempts less its releases that closed
/// a connection, and never more than the limit then in force.
pub proof fn count_is_admitted_less_released(max: usize, ops: Seq<CountOp>, peer: PeerKey)
    requires
        limit_never_lowered((no_counts(), max), ops),
    ensures
        count_of(after_ops((no_counts(), max), ops).0, peer) == admitted_attempts((no_counts(), max), ops, peer)
            - effective_releases((no_counts(), max), ops, peer),
        count_of(after_ops((no_counts(), max), ops).0, peer) <= after_ops((no_counts(), max), ops).1,
    decreases ops.len(),
{
    if ops.len() > 0 {
        count_is_admitted_less_released(max, ops.drop_last(), peer);
    }
}

/// The clean-up removes only idle entries: every live count survives, and
/// cleaning twice changes nothing more.
pub proof fn prune_keeps_live_counts(counts: Map<PeerKey, usize>)
    ensures
        forall|p: PeerKey| count_of(live_entries(counts), p) == #[trigger] count_of(counts, p),
        live_entries(live_entries(counts)) == live_entries(counts),
{
    assert(live_entries(live_entries(counts)) =~= live_entries(counts));
}

} // verus!
