//! Linear topology: connects the two populations member by member, up
//! to the shorter one's size.

use vstd::prelude::*;
use crate::supervisor::ConnectionInfo;
use crate::supervisor::ConnectionSupervisor;
use crate::supervisor::Population;

verus! {

/// The first `i` member-by-member connections between two populations.
pub open spec fn pairs_upto(pre: Seq<usize>, post: Seq<usize>, w: i64, i: int) -> Seq<ConnectionInfo>
    decreases i,
{
    if i <= 0 {
        Seq::<ConnectionInfo>::empty()
    } else {
        pairs_upto(pre, post, w, i - 1).push(
            ConnectionInfo { source: pre[i - 1], target: post[i - 1], weight: w })
    }
}

/// The smaller of two lengths.
pub open spec fn min_len(a: int, b: int) -> int {
    if a < b {
        a
    } else {
        b
    }
}

/// Connector pairing the populations member by member.
pub struct Connector {}

impl Default for Connector {
    /// The linear connector carries no state.
    fn default() -> (c: Connector) {
        Connector {}
    }
}

impl Connector {
    /// Records one connection of weight `weight` for each position the
    /// two populations share, in order; exactly the smaller population
    /// size many connections are appended.
    pub fn connect(&self, pre: &Population, post: &Population, weight: i64,
        connection_supervisor: &mut ConnectionSupervisor)
        ensures
            final(connection_supervisor).conn_infos@
                == old(connection_supervisor).conn_infos@
                    + pairs_upto(pre.neuron_ids@, post.neuron_ids@, weight,
                        min_len(pre.neuron_ids@.len() as int, post.neuron_ids@.len() as int)),
    {
        let pre_n = pre.size();
        let post_n = post.size();
        let mutual_size: usize = if pre_n < post_n {
            pre_n
        } else {
            post_n
        };
        let mut i: usize = 0;
        while i < mutual_size
            invariant
                mutual_size == min_len(pre.neuron_ids@.len() as int, post.neuron_ids@.len() as int),
                i <= mutual_size,
                connection_supervisor.conn_infos@
                    == old(connection_supervisor).conn_infos@
                        + pairs_upto(pre.neuron_ids@, post.neuron_ids@, weight, i as int),
            decreases mutual_size - i,
        {
            let src = pre.neuron_ids[i];
            let tgt = post.neuron_ids[i];
            let _ = connection_supervisor.add_connection(src, tgt, weight);
            i = i + 1;
        }
    }
}

} // verus!
