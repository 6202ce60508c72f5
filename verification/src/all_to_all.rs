//! All-to-all topology: connects every neuron of one population to every
//! neuron of another.

use vstd::prelude::*;
use crate::supervisor::ConnectionInfo;
use crate::supervisor::ConnectionSupervisor;
use crate::supervisor::Population;

verus! {

/// The connections of one source towards every member of `post`, in
/// order.
pub open spec fn row_upto(src: usize, post: Seq<usize>, w: i64, j: int) -> Seq<ConnectionInfo>
    decreases j,
{
    if j <= 0 {
        Seq::<ConnectionInfo>::empty()
    } else {
        row_upto(src, post, w, j - 1).push(
            ConnectionInfo { source: src, target: post[j - 1], weight: w })
    }
}

/// The connections of the first `i` sources towards every member of
/// `post`, row by row.
pub open spec fn grid_upto(pre: Seq<usize>, post: Seq<usize>, w: i64, i: int) -> Seq<ConnectionInfo>
    decreases i,
{
    if i <= 0 {
        Seq::<ConnectionInfo>::empty()
    } else {
        grid_upto(pre, post, w, i - 1) + row_upto(pre[i - 1], post, w, post.len() as int)
    }
}

/// Connector declaring one edge from every member of the source
/// population to every member of the target population.
pub struct Connector {}

impl Default for Connector {
    /// The all-to-all connector carries no state.
    fn default() -> (c: Connector) {
        Connector {}
    }
}

impl Connector {
    /// Records, in source-major order, one connection of weight `weight`
    /// for every pair of a source and a target neuron; exactly
    /// `pre.size() * post.size()` connections are appended.
    pub fn connect(&self, pre: &Population, post: &Population, weight: i64,
        connection_supervisor: &mut ConnectionSupervisor)
        ensures
            final(connection_supervisor).conn_infos@
                == old(connection_supervisor).conn_infos@
                    + grid_upto(pre.neuron_ids@, post.neuron_ids@, weight,
                        pre.neuron_ids@.len() as int),
    {
        let mut i: usize = 0;
        while i < pre.neuron_ids.len()
            invariant
                i <= pre.neuron_ids@.len(),
                connection_supervisor.conn_infos@
                    == old(connection_supervisor).conn_infos@
                        + grid_upto(pre.neuron_ids@, post.neuron_ids@, weight, i as int),
            decreases pre.neuron_ids@.len() - i,
        {
            let src = pre.neuron_ids[i];
            let mut j: usize = 0;
            while j < post.neuron_ids.len()
                invariant
                    i < pre.neuron_ids@.len(),
                    src == pre.neuron_ids@[i as int],
                    j <= post.neuron_ids@.len(),
                    connection_supervisor.conn_infos@
                        == old(connection_supervisor).conn_infos@
                            + grid_upto(pre.neuron_ids@, post.neuron_ids@, weight, i as int)
                            + row_upto(src, post.neuron_ids@, weight, j as int),
                decreases post.neuron_ids@.len() - j,
            {
                let tgt = post.neuron_ids[j];
                let _ = connection_supervisor.add_connection(src, tgt, weight);
                j = j + 1;
            }
            i = i + 1;
        }
    }
}

} // verus!
