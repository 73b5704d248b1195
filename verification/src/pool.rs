//! A fixed-size, ordered pool of backend connections for one channel, with
//! round-robin selection driven by a monotonically advancing cursor.
//!
//! The pool is fixed at construction: connections are never added, removed or
//! reconnected. Selection never blocks and never fails; it performs no
//! exclusivity check, so concurrent callers may be handed the same
//! connection.

use vstd::prelude::*;
use vstd::arithmetic::div_mod::lemma_mod_add_multiples_vanish;
use vstd::arithmetic::div_mod::lemma_small_mod;

verus! {

/// Makes Verus aware of the TCP stream type held by the gateway's pools;
/// values of it are opaque to the library and only handed out by reference.
#[verifier::external_type_specification]
#[verifier::external_body]
pub struct ExTcpStream(async_std::net::TcpStream);

/// The connection cursor after one selection: it only ever advances, and
/// wraps to zero once the machine word is exhausted.
pub open spec fn next_cursor(c: nat) -> nat {
    if c == usize::MAX as nat {
        0
    } else {
        c + 1
    }
}

/// The index selected by the j-th acquisition after a cursor value `start`,
/// over a pool of `n` connections.
pub open spec fn round_robin_index(start: nat, j: nat, n: nat) -> nat
    recommends
        n > 0,
{
    (start + j) % n
}

/// Law: from a fresh cursor, the j-th acquisition selects index `j % n`, so
/// the first `n` acquisitions walk the pool once in order, and the selection
/// is cyclic with period `n`.
pub proof fn lemma_round_robin_cycle(j: nat, n: nat)
    requires
        n > 0,
    ensures
        round_robin_index(0, j, n) == j % n,
        j < n ==> round_robin_index(0, j, n) == j,
        round_robin_index(0, j + n, n) == round_robin_index(0, j, n),
{
    if j < n {
        lemma_small_mod(j, n);
    }
    lemma_mod_add_multiples_vanish(j as int, n as int);
}

/// An ordered, fixed-size collection of connections for one backend channel.
/// The cursor is the only mutable state; the connection sequence is fixed
/// for the pool's whole lifetime.
pub struct ConnectionPool<C> {
    connections: Vec<C>,
    n_connections: usize,
    conn_index: usize,
}

/// The backend state of the gateway: the pool of pre-established TCP streams
/// for the configured channel.
pub type AppState = ConnectionPool<async_std::net::TcpStream>;

impl<C> ConnectionPool<C> {
    /// The fixed number of connections the pool was built with.
    pub closed spec fn pool_size(self) -> nat {
        self.n_connections as nat
    }

    /// The current value of the selection cursor.
    pub closed spec fn cursor(self) -> nat {
        self.conn_index as nat
    }

    /// The fixed, ordered sequence of pooled connections.
    pub closed spec fn connections_seq(self) -> Seq<C> {
        self.connections@
    }

    /// Well-formedness: the recorded size matches the sequence and the pool
    /// is not empty, so selection by `cursor % size` is always in bounds.
    pub closed spec fn wf(self) -> bool {
        &&& self.n_connections == self.connections@.len()
        &&& self.n_connections > 0
    }

    /// Builds a pool over connections that were already established, with a
    /// fresh cursor. There is no partial pool: the caller opens every
    /// connection first and aborts startup if any attempt failed.
    pub fn new(connections: Vec<C>) -> (pool: Self)
        requires
            connections@.len() > 0,
        ensures
            pool.wf(),
            pool.connections_seq() == connections@,
            pool.pool_size() == connections@.len(),
            pool.cursor() == 0,
    {
        let n_connections = connections.len();
        ConnectionPool { connections, n_connections, conn_index: 0 }
    }

    /// Advances the cursor and returns the selected index: the old cursor
    /// value modulo the pool size. Never blocks, never fails, checks no
    /// exclusivity.
    pub fn get_stream_index(&mut self) -> (i: usize)
        requires
            old(self).wf(),
        ensures
            final(self).wf(),
            i as nat == old(self).cursor() % old(self).pool_size(),
            i < old(self).pool_size(),
            final(self).cursor() == next_cursor(old(self).cursor()),
            old(self).cursor() < usize::MAX as nat ==> final(self).cursor() == old(self).cursor()
                + 1,
            final(self).connections_seq() == old(self).connections_seq(),
            final(self).pool_size() == old(self).pool_size(),
    {
        let i = self.conn_index % self.n_connections;
        if self.conn_index == usize::MAX {
            self.conn_index = 0;
        } else {
            self.conn_index = self.conn_index + 1;
        }
        i
    }

    /// Selects the next connection round-robin: the one at the old cursor
    /// value modulo the pool size. The connection is only borrowed; the pool
    /// keeps ownership and the sequence is unchanged.
    pub fn get_stream(&mut self) -> (c: &C)
        requires
            old(self).wf(),
        ensures
            final(self).wf(),
            *c == old(self).connections_seq()[(old(self).cursor() % old(self).pool_size()) as int],
            final(self).cursor() == next_cursor(old(self).cursor()),
            old(self).cursor() < usize::MAX as nat ==> final(self).cursor() == old(self).cursor()
                + 1,
            final(self).connections_seq() == old(self).connections_seq(),
            final(self).pool_size() == old(self).pool_size(),
    {
        let i = self.get_stream_index();
        &self.connections[i]
    }
}

/// Validates a configured connection count: only a strictly positive value
/// that fits the machine word yields a pool size.
pub fn connection_count_from_config(raw: i64) -> (r: Option<usize>)
    ensures
        r == if 1 <= raw as int && raw as int <= usize::MAX as int {
            Some(raw as usize)
        } else {
            None::<usize>
        },
{
    if raw >= 1 && raw as u64 <= usize::MAX as u64 {
        Some(raw as usize)
    } else {
        None
    }
}

} // verus!
