//! Index-level connection bookkeeping: populations of neuron handles and
//! the supervisor that records every declared connection.

use vstd::prelude::*;

verus! {

/// An ordered set of neuron handles created together.
pub struct Population {
    pub id: usize,
    pub neuron_ids: Vec<usize>,
}

impl Population {
    /// A population over the given handles.
    pub fn new(id: usize, neuron_ids: Vec<usize>) -> (p: Population)
        ensures
            p.id == id,
            p.neuron_ids == neuron_ids,
    {
        Population { id, neuron_ids }
    }

    /// How many neurons the population holds.
    pub fn size(&self) -> (n: usize)
        ensures
            n == self.neuron_ids@.len(),
    {
        self.neuron_ids.len()
    }

    /// The handle at one position, or nothing past the end.
    pub fn get(&self, i: usize) -> (r: Option<usize>)
        ensures
            i < self.neuron_ids@.len() ==> r == Some(self.neuron_ids@[i as int]),
            i >= self.neuron_ids@.len() ==> r is None,
    {
        if i < self.neuron_ids.len() {
            Some(self.neuron_ids[i])
        } else {
            None
        }
    }
}

/// One recorded connection: its source and target neuron handles and
/// its weight.
#[derive(Clone, Copy, Debug, PartialEq, Eq, Structural)]
pub struct ConnectionInfo {
    pub source: usize,
    pub target: usize,
    pub weight: i64,
}

/// The connection handles among the first `i` whose source is `source`,
/// in registration order.
pub open spec fn conns_of_upto(infos: Seq<ConnectionInfo>, source: usize, i: int) -> Seq<usize>
    decreases i,
{
    if i <= 0 {
        Seq::<usize>::empty()
    } else {
        let prev = conns_of_upto(infos, source, i - 1);
        if infos[i - 1].source == source {
            prev.push((i - 1) as usize)
        } else {
            prev
        }
    }
}

/// Registry of every declared connection; a connection handle is its
/// position in registration order.
pub struct ConnectionSupervisor {
    pub conn_infos: Vec<ConnectionInfo>,
}

impl ConnectionSupervisor {
    /// An empty registry.
    pub fn new() -> (s: ConnectionSupervisor)
        ensures
            s.conn_infos@.len() == 0,
    {
        ConnectionSupervisor { conn_infos: Vec::new() }
    }

    /// Forgets every recorded connection.
    pub fn clear(&mut self)
        ensures
            final(self).conn_infos@.len() == 0,
    {
        self.conn_infos.clear();
    }

    /// Records one connection and hands back its handle.
    pub fn add_connection(&mut self, source: usize, target: usize, weight: i64) -> (id: usize)
        ensures
            id == old(self).conn_infos@.len(),
            final(self).conn_infos@ == old(self).conn_infos@.push(
                ConnectionInfo { source, target, weight }),
    {
        let id = self.conn_infos.len();
        self.conn_infos.push(ConnectionInfo { source, target, weight });
        id
    }

    /// The handles of every connection leaving `source`, in registration
    /// order.
    pub fn get_connections(&self, source: usize) -> (ids: Vec<usize>)
        ensures
            ids@ == conns_of_upto(self.conn_infos@, source, self.conn_infos@.len() as int),
    {
        let mut ids: Vec<usize> = Vec::new();
        let mut i: usize = 0;
        while i < self.conn_infos.len()
            invariant
                i <= self.conn_infos@.len(),
                ids@ == conns_of_upto(self.conn_infos@, source, i as int),
            decreases self.conn_infos@.len() - i,
        {
            if self.conn_infos[i].source == source {
                ids.push(i);
            }
            i = i + 1;
        }
        ids
    }

    /// The record behind a connection handle.
    pub fn get_conn_info_by_id(&self, conn_id: usize) -> (info: ConnectionInfo)
        requires
            conn_id < self.conn_infos@.len(),
        ensures
            info == self.conn_infos@[conn_id as int],
    {
        self.conn_infos[conn_id]
    }
}

} // verus!
