//! The active/passive barrier protocol, driven for one edge.
//!
//! Each generation is a superstep: the driver runs the active agent
//! (which computes, and on firing feeds its fan-out forward), then
//! confirms the passive target of its edge, lets it drain its fan-in and
//! respond, and finally awaits the target's report before the generation
//! counts as complete. No agent may begin the next generation's work
//! before the previous report was observed.

use vstd::prelude::*;
use crate::fifo::Frame;
use crate::components::ins_accepted;
use crate::components::ins_accepted_upto;
use crate::hub::Hub;
use crate::neuron_t::NeuronT;
use crate::neuron_t::fires;
use crate::operation::Fired;
use crate::operation::OpError;
use crate::signals::FwdPreS1;
use crate::signals::s1_frame;
use crate::sink_t::SinkT;
use crate::sink_t::msgs_of;

verus! {

/// One observable step of a generation, in the order the driver takes
/// them.
#[derive(Clone, Copy, Debug, PartialEq, Eq, Structural)]
pub enum TickEvent {
    /// The active agent computed its generation.
    Run { agent: usize },
    /// The active agent fed its fan-out forward.
    Feedforward { agent: usize },
    /// The driver confirmed a passive target.
    Confirm { target: usize },
    /// The confirmed target drained its fan-in.
    Drain { agent: usize },
    /// The target's report was observed by the driver.
    Report { agent: usize },
}

/// The canonical event log of one generation: the active agent runs;
/// its feedforward happens exactly when it fired; and exactly when the
/// edge towards the passive target is configured, the target is
/// confirmed, drains, and reports, in that order.
pub open spec fn generation_log(a_id: usize, p_id: usize, fired: bool, confirmed: bool) -> Seq<TickEvent> {
    seq![TickEvent::Run { agent: a_id }]
        + if fired {
            seq![TickEvent::Feedforward { agent: a_id }]
        } else {
            Seq::<TickEvent>::empty()
        }
        + if confirmed {
            seq![
                TickEvent::Confirm { target: p_id },
                TickEvent::Drain { agent: p_id },
                TickEvent::Report { agent: p_id },
            ]
        } else {
            Seq::<TickEvent>::empty()
        }
}

/// Whether the one edge of the driven scenario is fully materialized on
/// both of its ends, so that a payload fed forward is owed to arrive.
pub open spec fn edge_fully_wired(hub: Hub, a: NeuronT, p: SinkT) -> bool {
    let ll = a.out_s0.targets@[0].linker as int;
    &&& a.out_s0.targets@[0].is_live()
    &&& hub.lnk(ll).fwd_live()
    &&& p.device_in.entries@.len() == 1
    &&& p.device_in.entries@[0].linker as int == ll
    &&& p.device_in.entries@[0].is_live()
}

/// Drives one generation of the barrier protocol over one edge from an
/// active agent to a passive sink: run, confirm, respond, report. The
/// report is awaited before the call returns, so the caller can never
/// start the next generation before it was observed.
///
/// On a fully wired edge the data flow is pinned down as well: the sink
/// stocks everything that was queued on the edge, followed by this
/// generation's payload exactly when the agent fired, and the edge is
/// left drained and still wired.
#[verifier::rlimit(50)]
pub fn run_generation(hub: &mut Hub, a: &mut NeuronT, p: &mut SinkT)
    -> (r: Result<(Fired, Vec<TickEvent>), OpError>)
    requires
        old(a).wf(*old(hub)),
        old(a).gen_value < i32::MAX,
        old(a).proc_value < i32::MAX,
        old(p).wf(*old(hub)),
        old(a).out_s0.targets@.len() == 1,
        old(a).out_s0.targets@[0].target == old(p).id,
        old(a).out_s0.targets@[0].target_kind is Passive,
        old(p).id != old(a).id,
        old(p).id < old(hub).n_agents(),
        old(hub).agent_live(old(p).id as int),
        old(hub).confirm_q(old(p).id as int).len() == 0,
        old(hub).report_q(old(p).id as int).len() == 0,
    ensures
        r is Ok,
        (r matches Ok((f, ev)) ==> {
            &&& f == (if fires(old(a).event_cond, (old(a).proc_value + 1) as i32) {
                Fired::Y
            } else {
                Fired::N
            })
            &&& ev@ == generation_log(
                old(a).id,
                old(p).id,
                f is Y,
                old(a).out_s0.targets@[0].is_live(),
            )
        }),
        final(a).wf(*final(hub)),
        final(p).wf(*final(hub)),
        final(a).id == old(a).id,
        final(a).event_cond == old(a).event_cond,
        final(a).gen_value == old(a).gen_value + 1,
        final(a).proc_value == old(a).proc_value + 1,
        final(a).out_s0.targets@.len() == 1,
        final(a).out_s0.targets@[0].target == old(p).id,
        final(a).out_s0.targets@[0].target_kind is Passive,
        final(a).out_s0.targets@[0].is_live() == old(a).out_s0.targets@[0].is_live(),
        final(p).id == old(p).id,
        final(p).device_in.entries@ == old(p).device_in.entries@,
        final(hub).n_agents() == old(hub).n_agents(),
        final(hub).n_linkers() == old(hub).n_linkers(),
        final(hub).agent_live(old(p).id as int),
        final(hub).confirm_q(old(p).id as int).len() == 0,
        final(hub).report_q(old(p).id as int).len() == 0,
        edge_fully_wired(*old(hub), *old(a), *old(p)) ==> ({
            let ll = old(a).out_s0.targets@[0].linker as int;
            let fed = if fires(old(a).event_cond, (old(a).proc_value + 1) as i32) {
                seq![s1_frame(FwdPreS1 { msg_gen: (old(a).gen_value + 1) as i32 })]
            } else {
                Seq::<Frame>::empty()
            };
            &&& final(p).stock@ == old(p).stock@ + msgs_of(old(hub).lnk(ll).fwd_q() + fed)
            &&& final(hub).lnk(ll).fwd_q() == Seq::<Frame>::empty()
            &&& edge_fully_wired(*final(hub), *final(a), *final(p))
        }),
{
    let mut ev: Vec<TickEvent> = Vec::new();
    ev.push(TickEvent::Run { agent: a.id });
    let f = a.evolve(hub);
    let ghost hub1 = *hub;
    if matches!(f, Fired::Y) {
        ev.push(TickEvent::Feedforward { agent: a.id });
    }
    let outcomes = a.out_s0.running_targets(hub);
    let confirmed = match &outcomes[0] {
        Ok(Some(_)) => true,
        _ => false,
    };
    proof {
        assert(confirmed == a.out_s0.targets@[0].is_live());
    }
    if confirmed {
        let c = hub.send_confirm(p.id);
        proof {
            assert(c is Ok);
        }
        let ghost hub2 = *hub;
        ev.push(TickEvent::Confirm { target: p.id });
        let ran = p.run(hub);
        proof {
            assert(ran == Ok::<bool, OpError>(true));
        }
        let ghost hub3 = *hub;
        ev.push(TickEvent::Drain { agent: p.id });
        let rep = hub.take_report(p.id);
        proof {
            assert(rep is Ok);
            assert(rep matches Ok(Some(_)));
        }
        ev.push(TickEvent::Report { agent: p.id });
        proof {
            assert forall|j: int| 0 <= j < a.post_syn_s1.entries@.len()
                implies (#[trigger] a.post_syn_s1.entries@[j]).wf(*hub) by {
                let ll = a.post_syn_s1.entries@[j].linker as int;
                assert(a.post_syn_s1.entries@[j].wf(hub1));
                assert(hub2.lnk(ll) == hub1.lnk(ll));
                assert(hub3.lnk(ll).kind == hub2.lnk(ll).kind);
                assert(hub.lnk(ll) == hub3.lnk(ll));
            }
            assert forall|j: int| 0 <= j < a.out_s0.targets@.len()
                implies (#[trigger] a.out_s0.targets@[j]).wf(*hub) by {
                assert(a.out_s0.targets@[j].wf(hub1));
            }
            assert forall|j: int| 0 <= j < a.device_in_s1.entries@.len()
                implies (#[trigger] a.device_in_s1.entries@[j]).wf(*hub) by {
                assert(a.device_in_s1.entries@[j].wf(hub1));
            }
            assert forall|j: int| 0 <= j < p.device_in.entries@.len()
                implies (#[trigger] p.device_in.entries@[j]).wf(*hub) by {
                assert(p.device_in.entries@[j].wf(hub3));
            }
            if edge_fully_wired(*old(hub), *old(a), *old(p)) {
                let ll = old(a).out_s0.targets@[0].linker as int;
                let fed = if f is Y {
                    seq![s1_frame(FwdPreS1 { msg_gen: (old(a).gen_value + 1) as i32 })]
                } else {
                    Seq::<Frame>::empty()
                };
                assert(old(a).out_s0.targets@[0].delivers(*old(hub)));
                assert(hub1.lnk(ll).fwd_q() == old(hub).lnk(ll).fwd_q() + fed) by {
                    if f is Y {
                        assert(old(hub).lnk(ll).fwd_q().push(
                            s1_frame(FwdPreS1 { msg_gen: (old(a).gen_value + 1) as i32 }))
                            =~= old(hub).lnk(ll).fwd_q() + fed);
                    } else {
                        assert(old(hub).lnk(ll).fwd_q() =~= old(hub).lnk(ll).fwd_q() + fed);
                    }
                }
                assert(hub2.lnk(ll) == hub1.lnk(ll));
                assert(ins_accepted(old(p).device_in.entries@, hub2)
                    == Seq::<Frame>::empty() + hub2.lnk(ll).fwd_q()) by {
                    assert(ins_accepted_upto(old(p).device_in.entries@, hub2, 0)
                        == Seq::<Frame>::empty());
                }
                assert(Seq::<Frame>::empty() + hub2.lnk(ll).fwd_q() =~= hub2.lnk(ll).fwd_q());
                assert(p.stock@ == old(p).stock@ + msgs_of(old(hub).lnk(ll).fwd_q() + fed));
                assert(hub3.lnk(ll).fwd_q() == Seq::<Frame>::empty());
                assert(hub.lnk(ll) == hub3.lnk(ll));
            }
        }
    }
    proof {
        assert(ev@ =~= generation_log(
            old(a).id,
            old(p).id,
            f is Y,
            old(a).out_s0.targets@[0].is_live(),
        ));
    }
    Ok((f, ev))
}

/// Within one generation's log, the active agent's feedforward always
/// precedes the passive agent's drain: a passive agent never reads a
/// fan-in queue before the upstream agent's feedforward call of the same
/// generation.
pub proof fn lemma_feedforward_before_drain(a_id: usize, p_id: usize, fired: bool, confirmed: bool)
    ensures
        forall|i: int, j: int|
            0 <= i < generation_log(a_id, p_id, fired, confirmed).len()
            && 0 <= j < generation_log(a_id, p_id, fired, confirmed).len()
            && generation_log(a_id, p_id, fired, confirmed)[i] is Feedforward
            && generation_log(a_id, p_id, fired, confirmed)[j] is Drain
            ==> i < j,
{
}

/// A generation that confirmed a passive target ends with that target's
/// report: the driver observes the report before the call returns.
pub proof fn lemma_generation_ends_with_report(a_id: usize, p_id: usize, fired: bool, confirmed: bool)
    ensures
        confirmed ==> generation_log(a_id, p_id, fired, confirmed).last()
            == (TickEvent::Report { agent: p_id }),
{
}

/// Across two consecutive generations, every confirm of the later one
/// comes strictly after the earlier one's report: no agent begins
/// generation `k + 1` work towards a passive neighbour until that
/// neighbour's generation-`k` report has been observed.
pub proof fn lemma_no_confirm_before_prior_report(a_id: usize, p_id: usize, f1: bool, c1: bool, f2: bool, c2: bool)
    ensures
        ({
            let l1 = generation_log(a_id, p_id, f1, c1);
            let l2 = generation_log(a_id, p_id, f2, c2);
            let l = l1 + l2;
            c1 ==> l[l1.len() - 1] == (TickEvent::Report { agent: p_id })
                && forall|j: int| l1.len() <= j < l.len() && #[trigger] l[j] is Confirm
                    ==> l1.len() - 1 < j
        }),
{
    let l1 = generation_log(a_id, p_id, f1, c1);
    let l2 = generation_log(a_id, p_id, f2, c2);
    if c1 {
        assert((l1 + l2)[l1.len() - 1] == l1.last());
    }
}

/// FIFO per edge: what a sequence of sends appends to a queue.
pub open spec fn sent_folded(q0: Seq<Frame>, ps: Seq<Frame>, i: int) -> Seq<Frame>
    decreases i,
{
    if i <= 0 {
        q0
    } else {
        sent_folded(q0, ps, i - 1).push(ps[i - 1])
    }
}

/// FIFO per edge: sending a sequence of payloads on one configured edge
/// appends exactly that sequence, in send order, so a drain that starts
/// from an empty queue yields exactly the payloads sent, in send order.
pub proof fn lemma_fifo_per_edge(q0: Seq<Frame>, ps: Seq<Frame>)
    ensures
        sent_folded(q0, ps, ps.len() as int) == q0 + ps,
    decreases ps.len(),
{
    if ps.len() == 0 {
        assert(sent_folded(q0, ps, 0) =~= q0 + ps);
    } else {
        lemma_fifo_per_edge(q0, ps.drop_last());
        assert forall|i: int| 0 <= i < ps.len() - 1 implies ps.drop_last()[i] == ps[i] by {}
        lemma_sent_folded_congruence(q0, ps, ps.drop_last(), ps.len() - 1);
        assert(sent_folded(q0, ps, ps.len() as int)
            == sent_folded(q0, ps, ps.len() - 1).push(ps[ps.len() - 1]));
        assert(sent_folded(q0, ps, ps.len() as int) =~= q0 + ps);
    }
}

/// Two payload sequences that agree on their first `i` items fold to
/// the same queue after `i` sends.
pub proof fn lemma_sent_folded_congruence(q0: Seq<Frame>, ps1: Seq<Frame>, ps2: Seq<Frame>, i: int)
    requires
        forall|k: int| 0 <= k < i ==> ps1[k] == ps2[k],
    ensures
        sent_folded(q0, ps1, i) == sent_folded(q0, ps2, i),
    decreases i,
{
    if i > 0 {
        lemma_sent_folded_congruence(q0, ps1, ps2, i - 1);
    }
}

} // verus!
