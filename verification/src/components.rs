//! One-way fan collections: all edges of one kind attached to one agent.
//!
//! A fan-out component holds many producer endpoints and broadcasts
//! configuration and payloads to all of them, best-effort and
//! independently per edge: one severed edge never blocks or fails the
//! others. A fan-in component holds many consumer endpoints and drains
//! them all, concatenating the batches in endpoint-registration order.

use vstd::prelude::*;
use crate::fifo::Frame;
use crate::hub::Hub;
use crate::operation::DeviceMode;
use crate::operation::OpError;
use crate::operation::RunMode;
use crate::operation::RunningSet;
use crate::operation::TargetKind;
use crate::simple_joint::InSet;
use crate::simple_joint::OutSet;

verus! {

/// Every producer endpoint of the collection is well-formed against the
/// hub.
pub open spec fn outs_all_wf(edges: Seq<OutSet>, hub: Hub) -> bool {
    forall|j: int| 0 <= j < edges.len() ==> (#[trigger] edges[j]).wf(hub)
}

/// No two producer endpoints of the collection share a linker: every
/// edge has its own channel.
pub open spec fn outs_distinct(edges: Seq<OutSet>) -> bool {
    forall|i: int, j: int| 0 <= i < j < edges.len()
        ==> (#[trigger] edges[i]).linker != (#[trigger] edges[j]).linker
}

/// Whether one of the first `i` endpoints reaches linker `l`.
pub open spec fn outs_touch_upto(edges: Seq<OutSet>, l: int, i: int) -> bool {
    exists|j: int| 0 <= j < i && (#[trigger] edges[j]).linker == l
}

/// Whether any endpoint of the collection reaches linker `l`.
pub open spec fn outs_touch(edges: Seq<OutSet>, l: int) -> bool {
    outs_touch_upto(edges, l, edges.len() as int)
}

/// Broadcast-send of one frame to every edge of the collection,
/// best-effort and independent per edge: the outcome of each edge is
/// exactly what a lone `OutSet::feedforward` on it would answer, each
/// delivering edge's queue gets the frame appended, and no other linker
/// of the graph is touched.
fn send_all(edges: &Vec<OutSet>, hub: &mut Hub, v: Frame) -> (outcomes: Vec<Result<(), OpError>>)
    requires
        outs_all_wf(edges@, *old(hub)),
        outs_distinct(edges@),
    ensures
        outcomes@.len() == edges@.len(),
        forall|j: int| 0 <= j < edges@.len()
            ==> outcomes@[j] == (#[trigger] edges@[j]).feed_outcome(*old(hub)),
        final(hub).slots == old(hub).slots,
        final(hub).n_linkers() == old(hub).n_linkers(),
        forall|l: int| 0 <= l < old(hub).n_linkers() && !outs_touch(edges@, l)
            ==> final(hub).lnk(l) == old(hub).lnk(l),
        forall|j: int| 0 <= j < edges@.len() && !(#[trigger] edges@[j]).delivers(*old(hub))
            ==> final(hub).lnk(edges@[j].linker as int) == old(hub).lnk(edges@[j].linker as int),
        forall|j: int| 0 <= j < edges@.len() && (#[trigger] edges@[j]).delivers(*old(hub))
            ==> final(hub).lnk(edges@[j].linker as int).fwd_q()
                    == old(hub).lnk(edges@[j].linker as int).fwd_q().push(v)
                && final(hub).lnk(edges@[j].linker as int).fwd_live()
                && final(hub).lnk(edges@[j].linker as int).kind
                    == old(hub).lnk(edges@[j].linker as int).kind
                && final(hub).lnk(edges@[j].linker as int).pre_mode
                    == old(hub).lnk(edges@[j].linker as int).pre_mode
                && final(hub).lnk(edges@[j].linker as int).post_mode
                    == old(hub).lnk(edges@[j].linker as int).post_mode
                && final(hub).lnk(edges@[j].linker as int).bwd
                    == old(hub).lnk(edges@[j].linker as int).bwd,
{
    let mut outcomes: Vec<Result<(), OpError>> = Vec::new();
    let mut i: usize = 0;
    while i < edges.len()
        invariant
            i <= edges@.len(),
            outcomes@.len() == i,
            outs_all_wf(edges@, *old(hub)),
            outs_distinct(edges@),
            hub.slots == old(hub).slots,
            hub.n_linkers() == old(hub).n_linkers(),
            forall|j: int| 0 <= j < i
                ==> outcomes@[j] == (#[trigger] edges@[j]).feed_outcome(*old(hub)),
            forall|l: int| 0 <= l < old(hub).n_linkers() && !outs_touch_upto(edges@, l, i as int)
                ==> hub.lnk(l) == old(hub).lnk(l),
            forall|j: int| 0 <= j < i && !(#[trigger] edges@[j]).delivers(*old(hub))
                ==> hub.lnk(edges@[j].linker as int) == old(hub).lnk(edges@[j].linker as int),
            forall|j: int| 0 <= j < i && (#[trigger] edges@[j]).delivers(*old(hub))
                ==> hub.lnk(edges@[j].linker as int).fwd_q()
                        == old(hub).lnk(edges@[j].linker as int).fwd_q().push(v)
                    && hub.lnk(edges@[j].linker as int).fwd_live()
                    && hub.lnk(edges@[j].linker as int).kind
                        == old(hub).lnk(edges@[j].linker as int).kind
                    && hub.lnk(edges@[j].linker as int).pre_mode
                        == old(hub).lnk(edges@[j].linker as int).pre_mode
                    && hub.lnk(edges@[j].linker as int).post_mode
                        == old(hub).lnk(edges@[j].linker as int).post_mode
                    && hub.lnk(edges@[j].linker as int).bwd
                        == old(hub).lnk(edges@[j].linker as int).bwd,
        decreases edges@.len() - i,
    {
        proof {
            assert(!outs_touch_upto(edges@, edges@[i as int].linker as int, i as int));
            assert(hub.lnk(edges@[i as int].linker as int)
                == old(hub).lnk(edges@[i as int].linker as int));
        }
        let os = &edges[i];
        let r = os.feedforward(hub, v);
        outcomes.push(r);
        i = i + 1;
    }
    outcomes
}

/// Every consumer endpoint of the collection is well-formed against the
/// hub.
pub open spec fn ins_all_wf(entries: Seq<InSet>, hub: Hub) -> bool {
    forall|j: int| 0 <= j < entries.len() ==> (#[trigger] entries[j]).wf(hub)
}

/// No two consumer endpoints of the collection share a linker.
pub open spec fn ins_distinct(entries: Seq<InSet>) -> bool {
    forall|i: int, j: int| 0 <= i < j < entries.len()
        ==> (#[trigger] entries[i]).linker != (#[trigger] entries[j]).linker
}

/// Whether one of the first `i` endpoints reaches linker `l`.
pub open spec fn ins_touch_upto(entries: Seq<InSet>, l: int, i: int) -> bool {
    exists|j: int| 0 <= j < i && (#[trigger] entries[j]).linker == l
}

/// Whether any endpoint of the collection reaches linker `l`.
pub open spec fn ins_touch(entries: Seq<InSet>, l: int) -> bool {
    ins_touch_upto(entries, l, entries.len() as int)
}

/// What draining the first `i` endpoints yields: the concatenation, in
/// endpoint-registration order, of the queue of every live endpoint
/// among them.
pub open spec fn ins_accepted_upto(entries: Seq<InSet>, hub: Hub, i: int) -> Seq<Frame>
    decreases i,
{
    if i <= 0 {
        Seq::<Frame>::empty()
    } else {
        ins_accepted_upto(entries, hub, i - 1)
            + if entries[i - 1].is_live() {
                hub.lnk(entries[i - 1].linker as int).fwd_q()
            } else {
                Seq::<Frame>::empty()
            }
    }
}

/// What draining the whole collection yields.
pub open spec fn ins_accepted(entries: Seq<InSet>, hub: Hub) -> Seq<Frame> {
    ins_accepted_upto(entries, hub, entries.len() as int)
}

/// What a drain yields depends only on the linkers the collection
/// reaches: two graph states that agree on them agree on the drain.
pub proof fn lemma_ins_accepted_congruence(entries: Seq<InSet>, h1: Hub, h2: Hub, i: int)
    requires
        i <= entries.len(),
        forall|j: int| 0 <= j < entries.len()
            ==> h1.lnk((#[trigger] entries[j]).linker as int) == h2.lnk(entries[j].linker as int),
    ensures
        ins_accepted_upto(entries, h1, i) == ins_accepted_upto(entries, h2, i),
    decreases i,
{
    if i > 0 {
        lemma_ins_accepted_congruence(entries, h1, h2, i - 1);
    }
}

/// Drains every edge of the collection and concatenates the batches in
/// endpoint-registration order; every drained queue is left empty and no
/// other linker of the graph is touched.
fn drain_all(entries: &Vec<InSet>, hub: &mut Hub) -> (acc: Vec<Frame>)
    requires
        ins_all_wf(entries@, *old(hub)),
        ins_distinct(entries@),
    ensures
        acc@ == ins_accepted(entries@, *old(hub)),
        final(hub).slots == old(hub).slots,
        final(hub).n_linkers() == old(hub).n_linkers(),
        forall|l: int| 0 <= l < old(hub).n_linkers() && !ins_touch(entries@, l)
            ==> final(hub).lnk(l) == old(hub).lnk(l),
        forall|j: int| 0 <= j < entries@.len() && !(#[trigger] entries@[j]).is_live()
            ==> final(hub).lnk(entries@[j].linker as int) == old(hub).lnk(entries@[j].linker as int),
        forall|j: int| 0 <= j < entries@.len() && (#[trigger] entries@[j]).is_live()
            ==> final(hub).lnk(entries@[j].linker as int).fwd_q() == Seq::<Frame>::empty()
                && (final(hub).lnk(entries@[j].linker as int).fwd_live()
                    <==> old(hub).lnk(entries@[j].linker as int).fwd_live())
                && final(hub).lnk(entries@[j].linker as int).kind
                    == old(hub).lnk(entries@[j].linker as int).kind
                && final(hub).lnk(entries@[j].linker as int).pre_mode
                    == old(hub).lnk(entries@[j].linker as int).pre_mode
                && final(hub).lnk(entries@[j].linker as int).post_mode
                    == old(hub).lnk(entries@[j].linker as int).post_mode
                && final(hub).lnk(entries@[j].linker as int).bwd
                    == old(hub).lnk(entries@[j].linker as int).bwd,
{
    let mut acc: Vec<Frame> = Vec::new();
    let mut i: usize = 0;
    while i < entries.len()
        invariant
            i <= entries@.len(),
            acc@ == ins_accepted_upto(entries@, *old(hub), i as int),
            ins_all_wf(entries@, *old(hub)),
            ins_distinct(entries@),
            hub.slots == old(hub).slots,
            hub.n_linkers() == old(hub).n_linkers(),
            forall|l: int| 0 <= l < old(hub).n_linkers() && !ins_touch_upto(entries@, l, i as int)
                ==> hub.lnk(l) == old(hub).lnk(l),
            forall|j: int| 0 <= j < i && !(#[trigger] entries@[j]).is_live()
                ==> hub.lnk(entries@[j].linker as int) == old(hub).lnk(entries@[j].linker as int),
            forall|j: int| 0 <= j < i && (#[trigger] entries@[j]).is_live()
                ==> hub.lnk(entries@[j].linker as int).fwd_q() == Seq::<Frame>::empty()
                    && (hub.lnk(entries@[j].linker as int).fwd_live()
                        <==> old(hub).lnk(entries@[j].linker as int).fwd_live())
                    && hub.lnk(entries@[j].linker as int).kind
                        == old(hub).lnk(entries@[j].linker as int).kind
                    && hub.lnk(entries@[j].linker as int).pre_mode
                        == old(hub).lnk(entries@[j].linker as int).pre_mode
                    && hub.lnk(entries@[j].linker as int).post_mode
                        == old(hub).lnk(entries@[j].linker as int).post_mode
                    && hub.lnk(entries@[j].linker as int).bwd
                        == old(hub).lnk(entries@[j].linker as int).bwd,
        decreases entries@.len() - i,
    {
        proof {
            assert(!ins_touch_upto(entries@, entries@[i as int].linker as int, i as int));
            assert(hub.lnk(entries@[i as int].linker as int)
                == old(hub).lnk(entries@[i as int].linker as int));
        }
        let entry = &entries[i];
        match entry.ffw_accepted_iter(hub) {
            Some(mut batch) => {
                acc.append(&mut batch);
            },
            None => {},
        }
        i = i + 1;
    }
    acc
}

/// First configuration phase, broadcast to every producer endpoint of
/// the collection.
#[verifier::rlimit(50)]
fn outs_config_mode_all(edges: &mut Vec<OutSet>, hub: &mut Hub, mode: RunMode)
    requires
        outs_all_wf(old(edges)@, *old(hub)),
        outs_distinct(old(edges)@),
    ensures
        final(edges)@.len() == old(edges)@.len(),
        forall|j: int| 0 <= j < old(edges)@.len()
            ==> (#[trigger] final(edges)@[j]).target == old(edges)@[j].target
                && final(edges)@[j].target_kind == old(edges)@[j].target_kind
                && final(edges)@[j].linker == old(edges)@[j].linker,
        final(hub).slots == old(hub).slots,
        final(hub).n_linkers() == old(hub).n_linkers(),
        final(hub).n_agents() == old(hub).n_agents(),
        forall|l: int| 0 <= l < old(hub).n_linkers() && !outs_touch(old(edges)@, l)
            ==> final(hub).lnk(l) == old(hub).lnk(l),
        mode is Idle ==> forall|j: int| 0 <= j < old(edges)@.len()
            ==> !(#[trigger] final(edges)@[j]).is_live(),
        mode is Idle ==> forall|j: int| 0 <= j < old(edges)@.len()
            ==> (#[trigger] final(hub).lnk(old(edges)@[j].linker as int)).pre_mode is Idle
                && final(hub).lnk(old(edges)@[j].linker as int).post_mode is Idle,
        mode is Idle ==> forall|j: int| 0 <= j < old(edges)@.len()
            ==> !(#[trigger] final(hub).lnk(old(edges)@[j].linker as int)).fwd_live()
                && !final(hub).lnk(old(edges)@[j].linker as int).bwd_live(),
        mode is Idle ==> forall|j: int| 0 <= j < old(edges)@.len()
            ==> (#[trigger] final(hub).lnk(old(edges)@[j].linker as int)).kind
                == old(hub).lnk(old(edges)@[j].linker as int).kind,
        mode.is_running() ==> forall|j: int| 0 <= j < old(edges)@.len()
            ==> (#[trigger] final(edges)@[j]).channels == old(edges)@[j].channels,
        mode.is_running() ==> forall|j: int| 0 <= j < old(edges)@.len()
            ==> (#[trigger] final(hub).lnk(old(edges)@[j].linker as int))
                == (crate::linker::Linker { pre_mode: mode, ..old(hub).lnk(old(edges)@[j].linker as int) }),
        outs_all_wf(final(edges)@, *final(hub)),
        outs_distinct(final(edges)@),
{
    let mut i: usize = 0;
    while i < edges.len()
        invariant
            i <= old(edges)@.len(),
            edges@.len() == old(edges)@.len(),
            outs_all_wf(old(edges)@, *old(hub)),
            outs_distinct(old(edges)@),
            hub.slots == old(hub).slots,
            hub.n_linkers() == old(hub).n_linkers(),
            hub.n_agents() == old(hub).n_agents(),
            forall|j: int| 0 <= j < old(edges)@.len()
                ==> (#[trigger] edges@[j]).target == old(edges)@[j].target
                    && edges@[j].target_kind == old(edges)@[j].target_kind
                    && edges@[j].linker == old(edges)@[j].linker,
            forall|j: int| i <= j < old(edges)@.len()
                ==> (#[trigger] edges@[j]).channels == old(edges)@[j].channels,
            outs_all_wf(edges@, *hub),
            forall|l: int| 0 <= l < old(hub).n_linkers() && !outs_touch_upto(old(edges)@, l, i as int)
                ==> hub.lnk(l) == old(hub).lnk(l),
            mode is Idle ==> forall|j: int| 0 <= j < i
                ==> !(#[trigger] edges@[j]).is_live(),
            mode is Idle ==> forall|j: int| 0 <= j < i
                ==> (#[trigger] hub.lnk(old(edges)@[j].linker as int)).pre_mode is Idle
                    && hub.lnk(old(edges)@[j].linker as int).post_mode is Idle,
            mode is Idle ==> forall|j: int| 0 <= j < i
                ==> !(#[trigger] hub.lnk(old(edges)@[j].linker as int)).fwd_live()
                    && !hub.lnk(old(edges)@[j].linker as int).bwd_live(),
            mode is Idle ==> forall|j: int| 0 <= j < i
                ==> (#[trigger] hub.lnk(old(edges)@[j].linker as int)).kind
                    == old(hub).lnk(old(edges)@[j].linker as int).kind,
            mode.is_running() ==> forall|j: int| 0 <= j < i
                ==> (#[trigger] edges@[j]).channels == old(edges)@[j].channels,
            mode.is_running() ==> forall|j: int| 0 <= j < i
                ==> (#[trigger] hub.lnk(old(edges)@[j].linker as int))
                    == (crate::linker::Linker { pre_mode: mode, ..old(hub).lnk(old(edges)@[j].linker as int) }),
        decreases old(edges)@.len() - i,
    {
        proof {
            assert(!outs_touch_upto(old(edges)@, old(edges)@[i as int].linker as int, i as int));
            assert(hub.lnk(old(edges)@[i as int].linker as int)
                == old(hub).lnk(old(edges)@[i as int].linker as int));
        }
        let ghost hub0 = *hub;
        let ghost i0 = i as int;
        let os = &mut edges[i];
        os.config_mode(hub, mode);
        proof {
            assert forall|j: int| 0 <= j < i0
                implies hub.lnk(old(edges)@[j].linker as int)
                    == hub0.lnk(old(edges)@[j].linker as int) by {
                assert(old(edges)@[j].linker != old(edges)@[i0].linker);
            }
            assert forall|l: int| 0 <= l < old(hub).n_linkers()
                && !outs_touch_upto(old(edges)@, l, i0 + 1)
                implies hub.lnk(l) == old(hub).lnk(l) by {
                assert(!outs_touch_upto(old(edges)@, l, i0));
                assert(l != old(edges)@[i0].linker);
            }
        }
        i = i + 1;
    }
}

/// Second configuration phase, broadcast to every producer endpoint of
/// the collection; `Ok` exactly when every edge had been mode-configured
/// first.
#[verifier::rlimit(50)]
fn outs_config_channels_all(edges: &mut Vec<OutSet>, hub: &mut Hub) -> (r: Result<(), OpError>)
    requires
        outs_all_wf(old(edges)@, *old(hub)),
        outs_distinct(old(edges)@),
    ensures
        final(edges)@.len() == old(edges)@.len(),
        forall|j: int| 0 <= j < old(edges)@.len()
            ==> (#[trigger] final(edges)@[j]).target == old(edges)@[j].target
                && final(edges)@[j].target_kind == old(edges)@[j].target_kind
                && final(edges)@[j].linker == old(edges)@[j].linker,
        final(hub).slots == old(hub).slots,
        final(hub).n_linkers() == old(hub).n_linkers(),
        forall|l: int| 0 <= l < old(hub).n_linkers() && !outs_touch(old(edges)@, l)
            ==> final(hub).lnk(l) == old(hub).lnk(l),
        forall|j: int| 0 <= j < old(edges)@.len()
            && old(hub).lnk(old(edges)@[j].linker as int).pre_mode is Idle
            ==> !(#[trigger] final(edges)@[j]).is_live(),
        forall|j: int| 0 <= j < old(edges)@.len()
            && old(hub).lnk(old(edges)@[j].linker as int).pre_mode is Idle
            ==> (#[trigger] final(hub).lnk(old(edges)@[j].linker as int))
                == old(hub).lnk(old(edges)@[j].linker as int),
        forall|j: int| 0 <= j < old(edges)@.len()
            && old(hub).lnk(old(edges)@[j].linker as int).pre_mode.is_running()
            ==> (#[trigger] final(edges)@[j]).is_live(),
        forall|j: int| 0 <= j < old(edges)@.len()
            && old(hub).lnk(old(edges)@[j].linker as int).pre_mode.is_running()
            ==> (#[trigger] final(hub).lnk(old(edges)@[j].linker as int))
                .materialized_from(old(hub).lnk(old(edges)@[j].linker as int)),
        (r is Ok <==> forall|j: int| 0 <= j < old(edges)@.len()
            ==> (#[trigger] old(hub).lnk(old(edges)@[j].linker as int)).pre_mode.is_running()),
        r is Err ==> r == Err::<(), OpError>(OpError::NotConfigured),
        outs_all_wf(final(edges)@, *final(hub)),
        outs_distinct(final(edges)@),
{
    let mut i: usize = 0;
    let mut failed = false;
    while i < edges.len()
        invariant
            i <= old(edges)@.len(),
            edges@.len() == old(edges)@.len(),
            outs_all_wf(old(edges)@, *old(hub)),
            outs_distinct(old(edges)@),
            hub.slots == old(hub).slots,
            hub.n_linkers() == old(hub).n_linkers(),
            forall|j: int| 0 <= j < old(edges)@.len()
                ==> (#[trigger] edges@[j]).target == old(edges)@[j].target
                    && edges@[j].target_kind == old(edges)@[j].target_kind
                    && edges@[j].linker == old(edges)@[j].linker,
            forall|j: int| i <= j < old(edges)@.len()
                ==> (#[trigger] edges@[j]).channels == old(edges)@[j].channels,
            outs_all_wf(edges@, *hub),
            forall|l: int| 0 <= l < old(hub).n_linkers() && !outs_touch_upto(old(edges)@, l, i as int)
                ==> hub.lnk(l) == old(hub).lnk(l),
            forall|j: int| 0 <= j < i
                && old(hub).lnk(old(edges)@[j].linker as int).pre_mode is Idle
                ==> !(#[trigger] edges@[j]).is_live(),
            forall|j: int| 0 <= j < i
                && old(hub).lnk(old(edges)@[j].linker as int).pre_mode is Idle
                ==> (#[trigger] hub.lnk(old(edges)@[j].linker as int))
                    == old(hub).lnk(old(edges)@[j].linker as int),
            forall|j: int| 0 <= j < i
                && old(hub).lnk(old(edges)@[j].linker as int).pre_mode.is_running()
                ==> (#[trigger] edges@[j]).is_live(),
            forall|j: int| 0 <= j < i
                && old(hub).lnk(old(edges)@[j].linker as int).pre_mode.is_running()
                ==> (#[trigger] hub.lnk(old(edges)@[j].linker as int))
                    .materialized_from(old(hub).lnk(old(edges)@[j].linker as int)),
            failed <==> exists|j: int| 0 <= j < i
                && (#[trigger] old(hub).lnk(old(edges)@[j].linker as int)).pre_mode is Idle,
        decreases old(edges)@.len() - i,
    {
        proof {
            assert(!outs_touch_upto(old(edges)@, old(edges)@[i as int].linker as int, i as int));
            assert(hub.lnk(old(edges)@[i as int].linker as int)
                == old(hub).lnk(old(edges)@[i as int].linker as int));
        }
        let ghost hub0 = *hub;
        let ghost i0 = i as int;
        let os = &mut edges[i];
        let r = os.config_channels(hub);
        if r.is_err() {
            failed = true;
        }
        proof {
            assert forall|j: int| 0 <= j < i0
                implies hub.lnk(old(edges)@[j].linker as int)
                    == hub0.lnk(old(edges)@[j].linker as int) by {
                assert(old(edges)@[j].linker != old(edges)@[i0].linker);
            }
            assert forall|l: int| 0 <= l < old(hub).n_linkers()
                && !outs_touch_upto(old(edges)@, l, i0 + 1)
                implies hub.lnk(l) == old(hub).lnk(l) by {
                assert(!outs_touch_upto(old(edges)@, l, i0));
                assert(l != old(edges)@[i0].linker);
            }
        }
        i = i + 1;
    }
    if failed {
        Err(OpError::NotConfigured)
    } else {
        Ok(())
    }
}

/// First configuration phase, broadcast to every consumer endpoint of
/// the collection.
#[verifier::rlimit(50)]
fn ins_config_mode_all(entries: &mut Vec<InSet>, hub: &mut Hub, mode: RunMode)
    requires
        ins_all_wf(old(entries)@, *old(hub)),
        ins_distinct(old(entries)@),
    ensures
        final(entries)@.len() == old(entries)@.len(),
        forall|j: int| 0 <= j < old(entries)@.len()
            ==> (#[trigger] final(entries)@[j]).target == old(entries)@[j].target
                && final(entries)@[j].linker == old(entries)@[j].linker,
        final(hub).slots == old(hub).slots,
        final(hub).n_linkers() == old(hub).n_linkers(),
        final(hub).n_agents() == old(hub).n_agents(),
        forall|l: int| 0 <= l < old(hub).n_linkers() && !ins_touch(old(entries)@, l)
            ==> final(hub).lnk(l) == old(hub).lnk(l),
        mode is Idle ==> forall|j: int| 0 <= j < old(entries)@.len()
            ==> !(#[trigger] final(entries)@[j]).is_live(),
        mode is Idle ==> forall|j: int| 0 <= j < old(entries)@.len()
            ==> (#[trigger] final(hub).lnk(old(entries)@[j].linker as int)).pre_mode is Idle
                && final(hub).lnk(old(entries)@[j].linker as int).post_mode is Idle,
        mode is Idle ==> forall|j: int| 0 <= j < old(entries)@.len()
            ==> !(#[trigger] final(hub).lnk(old(entries)@[j].linker as int)).fwd_live()
                && !final(hub).lnk(old(entries)@[j].linker as int).bwd_live(),
        mode is Idle ==> forall|j: int| 0 <= j < old(entries)@.len()
            ==> (#[trigger] final(hub).lnk(old(entries)@[j].linker as int)).kind
                == old(hub).lnk(old(entries)@[j].linker as int).kind,
        mode.is_running() ==> forall|j: int| 0 <= j < old(entries)@.len()
            ==> (#[trigger] final(entries)@[j]).channels == old(entries)@[j].channels,
        mode.is_running() ==> forall|j: int| 0 <= j < old(entries)@.len()
            ==> (#[trigger] final(hub).lnk(old(entries)@[j].linker as int))
                == (crate::linker::Linker { post_mode: mode, ..old(hub).lnk(old(entries)@[j].linker as int) }),
        ins_all_wf(final(entries)@, *final(hub)),
        ins_distinct(final(entries)@),
{
    let mut i: usize = 0;
    while i < entries.len()
        invariant
            i <= old(entries)@.len(),
            entries@.len() == old(entries)@.len(),
            ins_all_wf(old(entries)@, *old(hub)),
            ins_distinct(old(entries)@),
            hub.slots == old(hub).slots,
            hub.n_linkers() == old(hub).n_linkers(),
            hub.n_agents() == old(hub).n_agents(),
            forall|j: int| 0 <= j < old(entries)@.len()
                ==> (#[trigger] entries@[j]).target == old(entries)@[j].target
                    && entries@[j].linker == old(entries)@[j].linker,
            forall|j: int| i <= j < old(entries)@.len()
                ==> (#[trigger] entries@[j]).channels == old(entries)@[j].channels,
            ins_all_wf(entries@, *hub),
            forall|l: int| 0 <= l < old(hub).n_linkers() && !ins_touch_upto(old(entries)@, l, i as int)
                ==> hub.lnk(l) == old(hub).lnk(l),
            mode is Idle ==> forall|j: int| 0 <= j < i
                ==> !(#[trigger] entries@[j]).is_live(),
            mode is Idle ==> forall|j: int| 0 <= j < i
                ==> (#[trigger] hub.lnk(old(entries)@[j].linker as int)).pre_mode is Idle
                    && hub.lnk(old(entries)@[j].linker as int).post_mode is Idle,
            mode is Idle ==> forall|j: int| 0 <= j < i
                ==> !(#[trigger] hub.lnk(old(entries)@[j].linker as int)).fwd_live()
                    && !hub.lnk(old(entries)@[j].linker as int).bwd_live(),
            mode is Idle ==> forall|j: int| 0 <= j < i
                ==> (#[trigger] hub.lnk(old(entries)@[j].linker as int)).kind
                    == old(hub).lnk(old(entries)@[j].linker as int).kind,
            mode.is_running() ==> forall|j: int| 0 <= j < i
                ==> (#[trigger] entries@[j]).channels == old(entries)@[j].channels,
            mode.is_running() ==> forall|j: int| 0 <= j < i
                ==> (#[trigger] hub.lnk(old(entries)@[j].linker as int))
                    == (crate::linker::Linker { post_mode: mode, ..old(hub).lnk(old(entries)@[j].linker as int) }),
        decreases old(entries)@.len() - i,
    {
        proof {
            assert(!ins_touch_upto(old(entries)@, old(entries)@[i as int].linker as int, i as int));
            assert(hub.lnk(old(entries)@[i as int].linker as int)
                == old(hub).lnk(old(entries)@[i as int].linker as int));
        }
        let ghost hub0 = *hub;
        let ghost i0 = i as int;
        let entry = &mut entries[i];
        entry.config_mode(hub, mode);
        proof {
            assert forall|j: int| 0 <= j < i0
                implies hub.lnk(old(entries)@[j].linker as int)
                    == hub0.lnk(old(entries)@[j].linker as int) by {
                assert(old(entries)@[j].linker != old(entries)@[i0].linker);
            }
            assert forall|l: int| 0 <= l < old(hub).n_linkers()
                && !ins_touch_upto(old(entries)@, l, i0 + 1)
                implies hub.lnk(l) == old(hub).lnk(l) by {
                assert(!ins_touch_upto(old(entries)@, l, i0));
                assert(l != old(entries)@[i0].linker);
            }
        }
        i = i + 1;
    }
}

/// Second configuration phase, broadcast to every consumer endpoint of
/// the collection; `Ok` exactly when every edge had been mode-configured
/// first.
#[verifier::rlimit(50)]
fn ins_config_channels_all(entries: &mut Vec<InSet>, hub: &mut Hub) -> (r: Result<(), OpError>)
    requires
        ins_all_wf(old(entries)@, *old(hub)),
        ins_distinct(old(entries)@),
    ensures
        final(entries)@.len() == old(entries)@.len(),
        forall|j: int| 0 <= j < old(entries)@.len()
            ==> (#[trigger] final(entries)@[j]).target == old(entries)@[j].target
                && final(entries)@[j].linker == old(entries)@[j].linker,
        final(hub).slots == old(hub).slots,
        final(hub).n_linkers() == old(hub).n_linkers(),
        forall|l: int| 0 <= l < old(hub).n_linkers() && !ins_touch(old(entries)@, l)
            ==> final(hub).lnk(l) == old(hub).lnk(l),
        forall|j: int| 0 <= j < old(entries)@.len()
            && old(hub).lnk(old(entries)@[j].linker as int).post_mode is Idle
            ==> !(#[trigger] final(entries)@[j]).is_live(),
        forall|j: int| 0 <= j < old(entries)@.len()
            && old(hub).lnk(old(entries)@[j].linker as int).post_mode is Idle
            ==> (#[trigger] final(hub).lnk(old(entries)@[j].linker as int))
                == old(hub).lnk(old(entries)@[j].linker as int),
        forall|j: int| 0 <= j < old(entries)@.len()
            && old(hub).lnk(old(entries)@[j].linker as int).post_mode.is_running()
            ==> (#[trigger] final(entries)@[j]).is_live(),
        forall|j: int| 0 <= j < old(entries)@.len()
            && old(hub).lnk(old(entries)@[j].linker as int).post_mode.is_running()
            ==> (#[trigger] final(hub).lnk(old(entries)@[j].linker as int))
                .materialized_from(old(hub).lnk(old(entries)@[j].linker as int)),
        (r is Ok <==> forall|j: int| 0 <= j < old(entries)@.len()
            ==> (#[trigger] old(hub).lnk(old(entries)@[j].linker as int)).post_mode.is_running()),
        r is Err ==> r == Err::<(), OpError>(OpError::NotConfigured),
        ins_all_wf(final(entries)@, *final(hub)),
        ins_distinct(final(entries)@),
{
    let mut i: usize = 0;
    let mut failed = false;
    while i < entries.len()
        invariant
            i <= old(entries)@.len(),
            entries@.len() == old(entries)@.len(),
            ins_all_wf(old(entries)@, *old(hub)),
            ins_distinct(old(entries)@),
            hub.slots == old(hub).slots,
            hub.n_linkers() == old(hub).n_linkers(),
            forall|j: int| 0 <= j < old(entries)@.len()
                ==> (#[trigger] entries@[j]).target == old(entries)@[j].target
                    && entries@[j].linker == old(entries)@[j].linker,
            forall|j: int| i <= j < old(entries)@.len()
                ==> (#[trigger] entries@[j]).channels == old(entries)@[j].channels,
            ins_all_wf(entries@, *hub),
            forall|l: int| 0 <= l < old(hub).n_linkers() && !ins_touch_upto(old(entries)@, l, i as int)
                ==> hub.lnk(l) == old(hub).lnk(l),
            forall|j: int| 0 <= j < i
                && old(hub).lnk(old(entries)@[j].linker as int).post_mode is Idle
                ==> !(#[trigger] entries@[j]).is_live(),
            forall|j: int| 0 <= j < i
                && old(hub).lnk(old(entries)@[j].linker as int).post_mode is Idle
                ==> (#[trigger] hub.lnk(old(entries)@[j].linker as int))
                    == old(hub).lnk(old(entries)@[j].linker as int),
            forall|j: int| 0 <= j < i
                && old(hub).lnk(old(entries)@[j].linker as int).post_mode.is_running()
                ==> (#[trigger] entries@[j]).is_live(),
            forall|j: int| 0 <= j < i
                && old(hub).lnk(old(entries)@[j].linker as int).post_mode.is_running()
                ==> (#[trigger] hub.lnk(old(entries)@[j].linker as int))
                    .materialized_from(old(hub).lnk(old(entries)@[j].linker as int)),
            failed <==> exists|j: int| 0 <= j < i
                && (#[trigger] old(hub).lnk(old(entries)@[j].linker as int)).post_mode is Idle,
        decreases old(entries)@.len() - i,
    {
        proof {
            assert(!ins_touch_upto(old(entries)@, old(entries)@[i as int].linker as int, i as int));
            assert(hub.lnk(old(entries)@[i as int].linker as int)
                == old(hub).lnk(old(entries)@[i as int].linker as int));
        }
        let ghost hub0 = *hub;
        let ghost i0 = i as int;
        let entry = &mut entries[i];
        let r = entry.config_channels(hub);
        if r.is_err() {
            failed = true;
        }
        proof {
            assert forall|j: int| 0 <= j < i0
                implies hub.lnk(old(entries)@[j].linker as int)
                    == hub0.lnk(old(entries)@[j].linker as int) by {
                assert(old(entries)@[j].linker != old(entries)@[i0].linker);
            }
            assert forall|l: int| 0 <= l < old(hub).n_linkers()
                && !ins_touch_upto(old(entries)@, l, i0 + 1)
                implies hub.lnk(l) == old(hub).lnk(l) by {
                assert(!ins_touch_upto(old(entries)@, l, i0));
                assert(l != old(entries)@[i0].linker);
            }
        }
        i = i + 1;
    }
    if failed {
        Err(OpError::NotConfigured)
    } else {
        Ok(())
    }
}

/// The scheduler handles of every edge of the collection, one outcome
/// per edge in registration order.
fn outs_running_targets(edges: &Vec<OutSet>, hub: &Hub) -> (outcomes: Vec<Result<Option<RunningSet>, OpError>>)
    ensures
        outcomes@.len() == edges@.len(),
        forall|j: int| 0 <= j < edges@.len()
            ==> outcomes@[j] == (#[trigger] edges@[j]).running_outcome(*hub),
{
    let mut outcomes: Vec<Result<Option<RunningSet>, OpError>> = Vec::new();
    let mut i: usize = 0;
    while i < edges.len()
        invariant
            i <= edges@.len(),
            outcomes@.len() == i,
            forall|j: int| 0 <= j < i
                ==> outcomes@[j] == (#[trigger] edges@[j]).running_outcome(*hub),
        decreases edges@.len() - i,
    {
        let r = edges[i].running_target(hub);
        outcomes.push(r);
        i = i + 1;
    }
    outcomes
}

/// Fan-out collection: every outgoing edge of one kind attached to one
/// agent, with the run mode the collection was last configured to.
pub struct MultiOutComponent {
    pub mode: RunMode,
    pub targets: Vec<OutSet>,
}

impl MultiOutComponent {
    /// Every edge is well-formed and has a channel of its own.
    pub open spec fn wf(self, hub: Hub) -> bool {
        &&& outs_all_wf(self.targets@, hub)
        &&& outs_distinct(self.targets@)
    }

    /// An empty fan-out, idle, with no edges yet.
    pub fn new() -> (m: MultiOutComponent)
        ensures
            m.mode is Idle,
            m.targets@.len() == 0,
    {
        MultiOutComponent { mode: RunMode::Idle, targets: Vec::new() }
    }

    /// The run mode the collection was last configured to.
    pub fn mode(&self) -> (m: RunMode)
        ensures
            m == self.mode,
    {
        self.mode
    }

    /// Registers one edge towards an active acceptor. The edge must bring
    /// a linker of its own.
    pub fn add_active_target(&mut self, target: usize, linker: usize)
        requires
            !outs_touch(old(self).targets@, linker as int),
        ensures
            final(self).mode == old(self).mode,
            final(self).targets@ == old(self).targets@.push(
                OutSet { target, target_kind: TargetKind::Active, linker, channels: DeviceMode::Idle }),
    {
        self.targets.push(OutSet::new(target, TargetKind::Active, linker));
    }

    /// Registers one edge towards a passive acceptor. The edge must bring
    /// a linker of its own.
    pub fn add_passive_target(&mut self, target: usize, linker: usize)
        requires
            !outs_touch(old(self).targets@, linker as int),
        ensures
            final(self).mode == old(self).mode,
            final(self).targets@ == old(self).targets@.push(
                OutSet { target, target_kind: TargetKind::Passive, linker, channels: DeviceMode::Idle }),
    {
        self.targets.push(OutSet::new(target, TargetKind::Passive, linker));
    }

    /// First configuration phase, broadcast to every edge; the requested
    /// mode is recorded on the collection itself.
    pub fn config_mode(&mut self, hub: &mut Hub, mode: RunMode)
        requires
            old(self).wf(*old(hub)),
        ensures
            final(self).mode == mode,
            final(self).targets@.len() == old(self).targets@.len(),
            forall|j: int| 0 <= j < old(self).targets@.len()
                ==> (#[trigger] final(self).targets@[j]).target == old(self).targets@[j].target
                    && final(self).targets@[j].target_kind == old(self).targets@[j].target_kind
                    && final(self).targets@[j].linker == old(self).targets@[j].linker,
            final(hub).slots == old(hub).slots,
            final(hub).n_linkers() == old(hub).n_linkers(),
            final(hub).n_agents() == old(hub).n_agents(),
            forall|l: int| 0 <= l < old(hub).n_linkers() && !outs_touch(old(self).targets@, l)
                ==> final(hub).lnk(l) == old(hub).lnk(l),
            mode is Idle ==> forall|j: int| 0 <= j < old(self).targets@.len()
                ==> !(#[trigger] final(self).targets@[j]).is_live(),
            mode is Idle ==> forall|j: int| 0 <= j < old(self).targets@.len()
                ==> (#[trigger] final(hub).lnk(old(self).targets@[j].linker as int)).pre_mode is Idle
                    && final(hub).lnk(old(self).targets@[j].linker as int).post_mode is Idle,
            mode is Idle ==> forall|j: int| 0 <= j < old(self).targets@.len()
                ==> !(#[trigger] final(hub).lnk(old(self).targets@[j].linker as int)).fwd_live()
                    && !final(hub).lnk(old(self).targets@[j].linker as int).bwd_live(),
            mode.is_running() ==> forall|j: int| 0 <= j < old(self).targets@.len()
                ==> (#[trigger] final(self).targets@[j]).channels == old(self).targets@[j].channels,
            mode.is_running() ==> forall|j: int| 0 <= j < old(self).targets@.len()
                ==> (#[trigger] final(hub).lnk(old(self).targets@[j].linker as int))
                    == (crate::linker::Linker { pre_mode: mode, ..old(hub).lnk(old(self).targets@[j].linker as int) }),
            final(self).wf(*final(hub)),
    {
        self.mode = mode;
        outs_config_mode_all(&mut self.targets, hub, mode);
    }

    /// Second configuration phase, broadcast to every edge; `Ok` exactly
    /// when every edge had been mode-configured first.
    pub fn config_channels(&mut self, hub: &mut Hub) -> (r: Result<(), OpError>)
        requires
            old(self).wf(*old(hub)),
        ensures
            final(self).mode == old(self).mode,
            final(self).targets@.len() == old(self).targets@.len(),
            forall|j: int| 0 <= j < old(self).targets@.len()
                ==> (#[trigger] final(self).targets@[j]).target == old(self).targets@[j].target
                    && final(self).targets@[j].target_kind == old(self).targets@[j].target_kind
                    && final(self).targets@[j].linker == old(self).targets@[j].linker,
            final(hub).slots == old(hub).slots,
            final(hub).n_linkers() == old(hub).n_linkers(),
            forall|l: int| 0 <= l < old(hub).n_linkers() && !outs_touch(old(self).targets@, l)
                ==> final(hub).lnk(l) == old(hub).lnk(l),
            forall|j: int| 0 <= j < old(self).targets@.len()
                && old(hub).lnk(old(self).targets@[j].linker as int).pre_mode is Idle
                ==> !(#[trigger] final(self).targets@[j]).is_live(),
            forall|j: int| 0 <= j < old(self).targets@.len()
                && old(hub).lnk(old(self).targets@[j].linker as int).pre_mode is Idle
                ==> (#[trigger] final(hub).lnk(old(self).targets@[j].linker as int))
                    == old(hub).lnk(old(self).targets@[j].linker as int),
            forall|j: int| 0 <= j < old(self).targets@.len()
                && old(hub).lnk(old(self).targets@[j].linker as int).pre_mode.is_running()
                ==> (#[trigger] final(self).targets@[j]).is_live(),
            forall|j: int| 0 <= j < old(self).targets@.len()
                && old(hub).lnk(old(self).targets@[j].linker as int).pre_mode.is_running()
                ==> (#[trigger] final(hub).lnk(old(self).targets@[j].linker as int))
                    .materialized_from(old(hub).lnk(old(self).targets@[j].linker as int)),
            (r is Ok <==> forall|j: int| 0 <= j < old(self).targets@.len()
                ==> (#[trigger] old(hub).lnk(old(self).targets@[j].linker as int)).pre_mode.is_running()),
            r is Err ==> r == Err::<(), OpError>(OpError::NotConfigured),
            final(self).wf(*final(hub)),
    {
        outs_config_channels_all(&mut self.targets, hub)
    }

    /// Broadcast-send of one frame to every edge, best-effort and
    /// independent per edge: one severed edge never blocks or fails the
    /// others, and the outcome of each edge is reported in registration
    /// order.
    pub fn feedforward(&self, hub: &mut Hub, v: Frame) -> (outcomes: Vec<Result<(), OpError>>)
        requires
            self.wf(*old(hub)),
        ensures
            outcomes@.len() == self.targets@.len(),
            forall|j: int| 0 <= j < self.targets@.len()
                ==> outcomes@[j] == (#[trigger] self.targets@[j]).feed_outcome(*old(hub)),
            final(hub).slots == old(hub).slots,
            final(hub).n_linkers() == old(hub).n_linkers(),
            forall|l: int| 0 <= l < old(hub).n_linkers() && !outs_touch(self.targets@, l)
                ==> final(hub).lnk(l) == old(hub).lnk(l),
            forall|j: int| 0 <= j < self.targets@.len() && !(#[trigger] self.targets@[j]).delivers(*old(hub))
                ==> final(hub).lnk(self.targets@[j].linker as int)
                    == old(hub).lnk(self.targets@[j].linker as int),
            forall|j: int| 0 <= j < self.targets@.len() && (#[trigger] self.targets@[j]).delivers(*old(hub))
                ==> final(hub).lnk(self.targets@[j].linker as int).fwd_q()
                        == old(hub).lnk(self.targets@[j].linker as int).fwd_q().push(v)
                    && final(hub).lnk(self.targets@[j].linker as int).fwd_live()
                    && final(hub).lnk(self.targets@[j].linker as int).kind
                        == old(hub).lnk(self.targets@[j].linker as int).kind
                    && final(hub).lnk(self.targets@[j].linker as int).pre_mode
                        == old(hub).lnk(self.targets@[j].linker as int).pre_mode
                    && final(hub).lnk(self.targets@[j].linker as int).post_mode
                        == old(hub).lnk(self.targets@[j].linker as int).post_mode
                    && final(hub).lnk(self.targets@[j].linker as int).bwd
                        == old(hub).lnk(self.targets@[j].linker as int).bwd,
    {
        send_all(&self.targets, hub, v)
    }

    /// The scheduler handles of every edge, one outcome per edge in
    /// registration order: which passive targets must be confirmed this
    /// generation, and which edges found their peer gone.
    pub fn running_targets(&self, hub: &Hub) -> (outcomes: Vec<Result<Option<RunningSet>, OpError>>)
        ensures
            outcomes@.len() == self.targets@.len(),
            forall|j: int| 0 <= j < self.targets@.len()
                ==> outcomes@[j] == (#[trigger] self.targets@[j]).running_outcome(*hub),
    {
        outs_running_targets(&self.targets, hub)
    }
}

/// Fan-in collection: every incoming one-way edge of one kind attached
/// to one agent, with the run mode the collection was last configured to.
pub struct MultiInComponent {
    pub mode: RunMode,
    pub entries: Vec<InSet>,
}

impl MultiInComponent {
    /// Every edge is well-formed and has a channel of its own.
    pub open spec fn wf(self, hub: Hub) -> bool {
        &&& ins_all_wf(self.entries@, hub)
        &&& ins_distinct(self.entries@)
    }

    /// An empty fan-in, idle, with no edges yet.
    pub fn new() -> (m: MultiInComponent)
        ensures
            m.mode is Idle,
            m.entries@.len() == 0,
    {
        MultiInComponent { mode: RunMode::Idle, entries: Vec::new() }
    }

    /// The run mode the collection was last configured to.
    pub fn mode(&self) -> (m: RunMode)
        ensures
            m == self.mode,
    {
        self.mode
    }

    /// Registers one edge accepting from a generator. The edge must bring
    /// a linker of its own.
    pub fn add(&mut self, target: usize, linker: usize)
        requires
            !ins_touch(old(self).entries@, linker as int),
        ensures
            final(self).mode == old(self).mode,
            final(self).entries@ == old(self).entries@.push(
                InSet { target, linker, channels: DeviceMode::Idle }),
    {
        self.entries.push(InSet::new(target, linker));
    }

    /// First configuration phase, broadcast to every edge; the requested
    /// mode is recorded on the collection itself.
    pub fn config_mode(&mut self, hub: &mut Hub, mode: RunMode)
        requires
            old(self).wf(*old(hub)),
        ensures
            final(self).mode == mode,
            final(self).entries@.len() == old(self).entries@.len(),
            forall|j: int| 0 <= j < old(self).entries@.len()
                ==> (#[trigger] final(self).entries@[j]).target == old(self).entries@[j].target
                    && final(self).entries@[j].linker == old(self).entries@[j].linker,
            final(hub).slots == old(hub).slots,
            final(hub).n_linkers() == old(hub).n_linkers(),
            final(hub).n_agents() == old(hub).n_agents(),
            forall|l: int| 0 <= l < old(hub).n_linkers() && !ins_touch(old(self).entries@, l)
                ==> final(hub).lnk(l) == old(hub).lnk(l),
            mode is Idle ==> forall|j: int| 0 <= j < old(self).entries@.len()
                ==> !(#[trigger] final(self).entries@[j]).is_live(),
            mode is Idle ==> forall|j: int| 0 <= j < old(self).entries@.len()
                ==> (#[trigger] final(hub).lnk(old(self).entries@[j].linker as int)).pre_mode is Idle
                    && final(hub).lnk(old(self).entries@[j].linker as int).post_mode is Idle,
            mode is Idle ==> forall|j: int| 0 <= j < old(self).entries@.len()
                ==> !(#[trigger] final(hub).lnk(old(self).entries@[j].linker as int)).fwd_live()
                    && !final(hub).lnk(old(self).entries@[j].linker as int).bwd_live(),
            mode.is_running() ==> forall|j: int| 0 <= j < old(self).entries@.len()
                ==> (#[trigger] final(self).entries@[j]).channels == old(self).entries@[j].channels,
            mode.is_running() ==> forall|j: int| 0 <= j < old(self).entries@.len()
                ==> (#[trigger] final(hub).lnk(old(self).entries@[j].linker as int))
                    == (crate::linker::Linker { post_mode: mode, ..old(hub).lnk(old(self).entries@[j].linker as int) }),
            final(self).wf(*final(hub)),
    {
        self.mode = mode;
        ins_config_mode_all(&mut self.entries, hub, mode);
    }

    /// Second configuration phase, broadcast to every edge; `Ok` exactly
    /// when every edge had been mode-configured first.
    pub fn config_channels(&mut self, hub: &mut Hub) -> (r: Result<(), OpError>)
        requires
            old(self).wf(*old(hub)),
        ensures
            final(self).mode == old(self).mode,
            final(self).entries@.len() == old(self).entries@.len(),
            forall|j: int| 0 <= j < old(self).entries@.len()
                ==> (#[trigger] final(self).entries@[j]).target == old(self).entries@[j].target
                    && final(self).entries@[j].linker == old(self).entries@[j].linker,
            final(hub).slots == old(hub).slots,
            final(hub).n_linkers() == old(hub).n_linkers(),
            forall|l: int| 0 <= l < old(hub).n_linkers() && !ins_touch(old(self).entries@, l)
                ==> final(hub).lnk(l) == old(hub).lnk(l),
            forall|j: int| 0 <= j < old(self).entries@.len()
                && old(hub).lnk(old(self).entries@[j].linker as int).post_mode is Idle
                ==> !(#[trigger] final(self).entries@[j]).is_live(),
            forall|j: int| 0 <= j < old(self).entries@.len()
                && old(hub).lnk(old(self).entries@[j].linker as int).post_mode is Idle
                ==> (#[trigger] final(hub).lnk(old(self).entries@[j].linker as int))
                    == old(hub).lnk(old(self).entries@[j].linker as int),
            forall|j: int| 0 <= j < old(self).entries@.len()
                && old(hub).lnk(old(self).entries@[j].linker as int).post_mode.is_running()
                ==> (#[trigger] final(self).entries@[j]).is_live(),
            forall|j: int| 0 <= j < old(self).entries@.len()
                && old(hub).lnk(old(self).entries@[j].linker as int).post_mode.is_running()
                ==> (#[trigger] final(hub).lnk(old(self).entries@[j].linker as int))
                    .materialized_from(old(hub).lnk(old(self).entries@[j].linker as int)),
            (r is Ok <==> forall|j: int| 0 <= j < old(self).entries@.len()
                ==> (#[trigger] old(hub).lnk(old(self).entries@[j].linker as int)).post_mode.is_running()),
            r is Err ==> r == Err::<(), OpError>(OpError::NotConfigured),
            final(self).wf(*final(hub)),
    {
        ins_config_channels_all(&mut self.entries, hub)
    }

    /// Drains every edge and concatenates the batches in registration
    /// order; an empty result only means nothing arrived since the last
    /// drain.
    pub fn ffw_accepted(&self, hub: &mut Hub) -> (acc: Vec<Frame>)
        requires
            self.wf(*old(hub)),
        ensures
            acc@ == ins_accepted(self.entries@, *old(hub)),
            final(hub).slots == old(hub).slots,
            final(hub).n_linkers() == old(hub).n_linkers(),
            forall|l: int| 0 <= l < old(hub).n_linkers() && !ins_touch(self.entries@, l)
                ==> final(hub).lnk(l) == old(hub).lnk(l),
            forall|j: int| 0 <= j < self.entries@.len() && !(#[trigger] self.entries@[j]).is_live()
                ==> final(hub).lnk(self.entries@[j].linker as int)
                    == old(hub).lnk(self.entries@[j].linker as int),
            forall|j: int| 0 <= j < self.entries@.len() && (#[trigger] self.entries@[j]).is_live()
                ==> final(hub).lnk(self.entries@[j].linker as int).fwd_q() == Seq::<Frame>::empty()
                    && (final(hub).lnk(self.entries@[j].linker as int).fwd_live()
                        <==> old(hub).lnk(self.entries@[j].linker as int).fwd_live())
                    && final(hub).lnk(self.entries@[j].linker as int).kind
                        == old(hub).lnk(self.entries@[j].linker as int).kind
                    && final(hub).lnk(self.entries@[j].linker as int).pre_mode
                        == old(hub).lnk(self.entries@[j].linker as int).pre_mode
                    && final(hub).lnk(self.entries@[j].linker as int).post_mode
                        == old(hub).lnk(self.entries@[j].linker as int).post_mode
                    && final(hub).lnk(self.entries@[j].linker as int).bwd
                        == old(hub).lnk(self.entries@[j].linker as int).bwd,
    {
        drain_all(&self.entries, hub)
    }
}

} // verus!
