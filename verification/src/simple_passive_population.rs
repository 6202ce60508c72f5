//! A population of passive agents driven together: configuration calls
//! broadcast to every member, and the population records the mode it was
//! last configured to.

use vstd::prelude::*;
use crate::hub::Hub;
use crate::operation::OpError;
use crate::operation::RunMode;
use crate::synapse_dirac_v::SynapseModel;

verus! {

/// Whether one of the first `i` members reaches linker `l` with one of
/// its two edges.
pub open spec fn members_touch_upto(agents: Seq<SynapseModel>, l: int, i: int) -> bool {
    exists|j: int| 0 <= j < i && (#[trigger] agents[j]).owns_linker(l)
}

/// Whether any member of the population reaches linker `l`.
pub open spec fn members_touch(agents: Seq<SynapseModel>, l: int) -> bool {
    members_touch_upto(agents, l, agents.len() as int)
}

/// No two members of the population share a linker: every edge has a
/// channel of its own.
pub open spec fn members_distinct(agents: Seq<SynapseModel>) -> bool {
    forall|i: int, j: int, l: int| 0 <= i < j < agents.len()
        && (#[trigger] agents[i].owns_linker(l))
        ==> !(#[trigger] agents[j].owns_linker(l))
}

/// An ordered collection of passive synapse agents sharing one
/// configuration lifecycle.
pub struct SimplePassivePopulation {
    pub mode: RunMode,
    pub agents: Vec<SynapseModel>,
}

impl SimplePassivePopulation {
    /// Every member is well-formed against the hub and no two members
    /// share a linker.
    pub open spec fn wf(self, hub: Hub) -> bool {
        &&& (forall|j: int| 0 <= j < self.agents@.len() ==> (#[trigger] self.agents@[j]).wf(hub))
        &&& members_distinct(self.agents@)
    }

    /// An empty, idle population.
    pub fn new() -> (p: SimplePassivePopulation)
        ensures
            p.mode is Idle,
            p.agents@.len() == 0,
    {
        SimplePassivePopulation { mode: RunMode::Idle, agents: Vec::new() }
    }

    /// Adds one agent to the population.
    pub fn add(&mut self, agent: SynapseModel)
        ensures
            final(self).mode == old(self).mode,
            final(self).agents@ == old(self).agents@.push(agent),
    {
        self.agents.push(agent);
    }

    /// The run mode the population was last configured to.
    pub fn mode(&self) -> (m: RunMode)
        ensures
            m == self.mode,
    {
        self.mode
    }

    /// The member behind a handle.
    pub fn agent_by_id(&self, n: usize) -> (a: &SynapseModel)
        requires
            n < self.agents@.len(),
        ensures
            *a == self.agents@[n as int],
    {
        &self.agents[n]
    }

    /// One member keeps its identity and wiring across a configuration
    /// broadcast: id, weight, and both edges' targets and linkers.
    pub open spec fn member_preserved(pre: SynapseModel, nxt: SynapseModel) -> bool {
        &&& nxt.id == pre.id
        &&& nxt.w == pre.w
        &&& nxt.component.flag == pre.component.flag
        &&& nxt.component.pre.target == pre.component.pre.target
        &&& nxt.component.pre.linker == pre.component.pre.linker
        &&& nxt.component.post.target == pre.component.post.target
        &&& nxt.component.post.target_kind == pre.component.post.target_kind
        &&& nxt.component.post.linker == pre.component.post.linker
    }

    /// First configuration phase, broadcast to every member; the
    /// requested mode is recorded on the population itself.
    #[verifier::rlimit(50)]
    pub fn config_mode(&mut self, hub: &mut Hub, mode: RunMode)
        requires
            old(self).wf(*old(hub)),
        ensures
            final(self).mode == mode,
            final(self).agents@.len() == old(self).agents@.len(),
            forall|j: int| 0 <= j < old(self).agents@.len()
                ==> Self::member_preserved(old(self).agents@[j], #[trigger] final(self).agents@[j])
                    && final(self).agents@[j].component.mode == mode,
            final(hub).slots == old(hub).slots,
            final(hub).n_linkers() == old(hub).n_linkers(),
            final(hub).n_agents() == old(hub).n_agents(),
            forall|l: int| 0 <= l < old(hub).n_linkers() && !members_touch(old(self).agents@, l)
                ==> final(hub).lnk(l) == old(hub).lnk(l),
            forall|l: int| 0 <= l < old(hub).n_linkers()
                ==> (#[trigger] final(hub).lnk(l)).kind == old(hub).lnk(l).kind,
            mode.is_running() ==> forall|j: int| 0 <= j < old(self).agents@.len()
                ==> (#[trigger] final(hub).lnk(old(self).agents@[j].component.pre.linker as int))
                        .post_mode == mode
                    && final(hub).lnk(old(self).agents@[j].component.post.linker as int)
                        .pre_mode == mode,
            final(self).wf(*final(hub)),
    {
        let ghost agents0 = old(self).agents@;
        self.mode = mode;
        let mut i: usize = 0;
        while i < self.agents.len()
            invariant
                i <= agents0.len(),
                self.agents@.len() == agents0.len(),
                self.mode == mode,
                old(self).wf(*old(hub)),
                agents0 == old(self).agents@,
                hub.slots == old(hub).slots,
                hub.n_linkers() == old(hub).n_linkers(),
                hub.n_agents() == old(hub).n_agents(),
                forall|l: int| 0 <= l < old(hub).n_linkers()
                    ==> (#[trigger] hub.lnk(l)).kind == old(hub).lnk(l).kind,
                forall|l: int| 0 <= l < old(hub).n_linkers() && !members_touch_upto(agents0, l, i as int)
                    ==> hub.lnk(l) == old(hub).lnk(l),
                forall|j: int| 0 <= j < i
                    ==> Self::member_preserved(agents0[j], #[trigger] self.agents@[j])
                        && self.agents@[j].component.mode == mode,
                forall|j: int| i <= j < agents0.len()
                    ==> (#[trigger] self.agents@[j]) == agents0[j],
                mode.is_running() ==> forall|j: int| 0 <= j < i
                    ==> (#[trigger] hub.lnk(agents0[j].component.pre.linker as int))
                            .post_mode == mode
                        && hub.lnk(agents0[j].component.post.linker as int).pre_mode == mode,
                forall|j: int| 0 <= j < agents0.len()
                    ==> (#[trigger] self.agents@[j]).wf(*hub),
            decreases agents0.len() - i,
        {
            proof {
                assert(!members_touch_upto(agents0, agents0[i as int].component.pre.linker as int, i as int)) by {
                    if members_touch_upto(agents0, agents0[i as int].component.pre.linker as int, i as int) {
                        let j = choose|j: int| 0 <= j < i
                            && (#[trigger] agents0[j]).owns_linker(agents0[i as int].component.pre.linker as int);
                        assert(agents0[i as int].owns_linker(agents0[i as int].component.pre.linker as int));
                    }
                }
                assert(!members_touch_upto(agents0, agents0[i as int].component.post.linker as int, i as int)) by {
                    if members_touch_upto(agents0, agents0[i as int].component.post.linker as int, i as int) {
                        let j = choose|j: int| 0 <= j < i
                            && (#[trigger] agents0[j]).owns_linker(agents0[i as int].component.post.linker as int);
                        assert(agents0[i as int].owns_linker(agents0[i as int].component.post.linker as int));
                    }
                }
            }
            let ghost hub0 = *hub;
            let ghost i0 = i as int;
            let a = &mut self.agents[i];
            a.config_mode(hub, mode);
            proof {
                assert forall|j: int| 0 <= j < i0
                    implies hub.lnk((#[trigger] agents0[j]).component.pre.linker as int)
                            == hub0.lnk(agents0[j].component.pre.linker as int)
                        && hub.lnk(agents0[j].component.post.linker as int)
                            == hub0.lnk(agents0[j].component.post.linker as int) by {
                    assert(agents0[j].owns_linker(agents0[j].component.pre.linker as int));
                    assert(agents0[j].owns_linker(agents0[j].component.post.linker as int));
                    assert(!agents0[i0].owns_linker(agents0[j].component.pre.linker as int));
                    assert(!agents0[i0].owns_linker(agents0[j].component.post.linker as int));
                }
                assert forall|l: int| 0 <= l < old(hub).n_linkers()
                    && !members_touch_upto(agents0, l, i0 + 1)
                    implies hub.lnk(l) == old(hub).lnk(l) by {
                    assert(!members_touch_upto(agents0, l, i0));
                    assert(!agents0[i0].owns_linker(l));
                }
            }
            i = i + 1;
        }
        proof {
            assert forall|i2: int, j2: int, l: int| 0 <= i2 < j2 < self.agents@.len()
                && (#[trigger] self.agents@[i2].owns_linker(l))
                implies !(#[trigger] self.agents@[j2].owns_linker(l)) by {
                assert(agents0[i2].owns_linker(l));
                assert(!agents0[j2].owns_linker(l));
            }
        }
    }

    /// Second configuration phase, broadcast to every member: every
    /// member whose two linkers were mode-configured first has both its
    /// endpoints materialized; `Ok` exactly when that held for every
    /// member.
    #[verifier::rlimit(100)]
    pub fn config_channels(&mut self, hub: &mut Hub) -> (r: Result<(), OpError>)
        requires
            old(self).wf(*old(hub)),
        ensures
            final(self).mode == old(self).mode,
            final(self).agents@.len() == old(self).agents@.len(),
            forall|j: int| 0 <= j < old(self).agents@.len()
                ==> Self::member_preserved(old(self).agents@[j], #[trigger] final(self).agents@[j])
                    && final(self).agents@[j].component.mode == old(self).agents@[j].component.mode,
            final(hub).slots == old(hub).slots,
            final(hub).n_linkers() == old(hub).n_linkers(),
            forall|l: int| 0 <= l < old(hub).n_linkers() && !members_touch(old(self).agents@, l)
                ==> final(hub).lnk(l) == old(hub).lnk(l),
            forall|l: int| 0 <= l < old(hub).n_linkers()
                ==> (#[trigger] final(hub).lnk(l)).kind == old(hub).lnk(l).kind,
            (r is Ok <==> forall|j: int| 0 <= j < old(self).agents@.len()
                ==> (#[trigger] old(hub).lnk(old(self).agents@[j].component.pre.linker as int))
                        .post_mode.is_running()
                    && old(hub).lnk(old(self).agents@[j].component.post.linker as int)
                        .pre_mode.is_running()),
            r is Err ==> r == Err::<(), OpError>(OpError::NotConfigured),
            forall|j: int| 0 <= j < old(self).agents@.len()
                && old(hub).lnk(old(self).agents@[j].component.pre.linker as int)
                    .post_mode.is_running()
                && old(hub).lnk(old(self).agents@[j].component.post.linker as int)
                    .pre_mode.is_running()
                ==> (#[trigger] final(self).agents@[j]).component.pre.is_live()
                    && final(self).agents@[j].component.post.is_live()
                    && final(hub).lnk(old(self).agents@[j].component.pre.linker as int)
                        .materialized_from(old(hub).lnk(old(self).agents@[j].component.pre.linker as int))
                    && final(hub).lnk(old(self).agents@[j].component.post.linker as int)
                        .materialized_from(old(hub).lnk(old(self).agents@[j].component.post.linker as int)),
            final(self).wf(*final(hub)),
    {
        let ghost agents0 = old(self).agents@;
        let mut failed = false;
        let mut i: usize = 0;
        while i < self.agents.len()
            invariant
                i <= agents0.len(),
                self.agents@.len() == agents0.len(),
                self.mode == old(self).mode,
                old(self).wf(*old(hub)),
                agents0 == old(self).agents@,
                hub.slots == old(hub).slots,
                hub.n_linkers() == old(hub).n_linkers(),
                forall|l: int| 0 <= l < old(hub).n_linkers()
                    ==> (#[trigger] hub.lnk(l)).kind == old(hub).lnk(l).kind,
                forall|l: int| 0 <= l < old(hub).n_linkers() && !members_touch_upto(agents0, l, i as int)
                    ==> hub.lnk(l) == old(hub).lnk(l),
                forall|j: int| 0 <= j < i
                    ==> Self::member_preserved(agents0[j], #[trigger] self.agents@[j])
                        && self.agents@[j].component.mode == agents0[j].component.mode,
                forall|j: int| i <= j < agents0.len()
                    ==> (#[trigger] self.agents@[j]) == agents0[j],
                forall|j: int| 0 <= j < i
                    && old(hub).lnk(agents0[j].component.pre.linker as int).post_mode.is_running()
                    && old(hub).lnk(agents0[j].component.post.linker as int).pre_mode.is_running()
                    ==> (#[trigger] self.agents@[j]).component.pre.is_live()
                        && self.agents@[j].component.post.is_live()
                        && hub.lnk(agents0[j].component.pre.linker as int)
                            .materialized_from(old(hub).lnk(agents0[j].component.pre.linker as int))
                        && hub.lnk(agents0[j].component.post.linker as int)
                            .materialized_from(old(hub).lnk(agents0[j].component.post.linker as int)),
                failed <==> exists|j: int| 0 <= j < i
                    && !((#[trigger] old(hub).lnk(agents0[j].component.pre.linker as int))
                            .post_mode.is_running()
                        && old(hub).lnk(agents0[j].component.post.linker as int)
                            .pre_mode.is_running()),
                forall|j: int| 0 <= j < agents0.len()
                    ==> (#[trigger] self.agents@[j]).wf(*hub),
            decreases agents0.len() - i,
        {
            proof {
                assert(!members_touch_upto(agents0, agents0[i as int].component.pre.linker as int, i as int)) by {
                    if members_touch_upto(agents0, agents0[i as int].component.pre.linker as int, i as int) {
                        let j = choose|j: int| 0 <= j < i
                            && (#[trigger] agents0[j]).owns_linker(agents0[i as int].component.pre.linker as int);
                        assert(agents0[i as int].owns_linker(agents0[i as int].component.pre.linker as int));
                    }
                }
                assert(!members_touch_upto(agents0, agents0[i as int].component.post.linker as int, i as int)) by {
                    if members_touch_upto(agents0, agents0[i as int].component.post.linker as int, i as int) {
                        let j = choose|j: int| 0 <= j < i
                            && (#[trigger] agents0[j]).owns_linker(agents0[i as int].component.post.linker as int);
                        assert(agents0[i as int].owns_linker(agents0[i as int].component.post.linker as int));
                    }
                }
                assert(hub.lnk(agents0[i as int].component.pre.linker as int)
                    == old(hub).lnk(agents0[i as int].component.pre.linker as int));
                assert(hub.lnk(agents0[i as int].component.post.linker as int)
                    == old(hub).lnk(agents0[i as int].component.post.linker as int));
            }
            let ghost hub0 = *hub;
            let ghost i0 = i as int;
            let a = &mut self.agents[i];
            let r = a.config_channels(hub);
            if r.is_err() {
                failed = true;
            }
            proof {
                assert forall|j: int| 0 <= j < i0
                    implies hub.lnk((#[trigger] agents0[j]).component.pre.linker as int)
                            == hub0.lnk(agents0[j].component.pre.linker as int)
                        && hub.lnk(agents0[j].component.post.linker as int)
                            == hub0.lnk(agents0[j].component.post.linker as int) by {
                    assert(agents0[j].owns_linker(agents0[j].component.pre.linker as int));
                    assert(agents0[j].owns_linker(agents0[j].component.post.linker as int));
                    assert(!agents0[i0].owns_linker(agents0[j].component.pre.linker as int));
                    assert(!agents0[i0].owns_linker(agents0[j].component.post.linker as int));
                }
                assert forall|l: int| 0 <= l < old(hub).n_linkers()
                    && !members_touch_upto(agents0, l, i0 + 1)
                    implies hub.lnk(l) == old(hub).lnk(l) by {
                    assert(!members_touch_upto(agents0, l, i0));
                    assert(!agents0[i0].owns_linker(l));
                }
                if old(hub).lnk(agents0[i0].component.pre.linker as int).post_mode.is_running()
                    && old(hub).lnk(agents0[i0].component.post.linker as int).pre_mode.is_running() {
                    assert(hub0.lnk(agents0[i0].component.pre.linker as int).post_mode.is_running());
                    assert(hub0.lnk(agents0[i0].component.post.linker as int).pre_mode.is_running());
                    assert(self.agents@[i0].component.pre.is_live());
                    assert(self.agents@[i0].component.post.is_live());
                    assert(hub.lnk(agents0[i0].component.pre.linker as int)
                        .materialized_from(old(hub).lnk(agents0[i0].component.pre.linker as int)));
                    assert(hub.lnk(agents0[i0].component.post.linker as int)
                        .materialized_from(old(hub).lnk(agents0[i0].component.post.linker as int)));
                    assert(r is Ok);
                } else {
                    assert(r is Err);
                }
            }
            i = i + 1;
        }
        proof {
            assert forall|i2: int, j2: int, l: int| 0 <= i2 < j2 < self.agents@.len()
                && (#[trigger] self.agents@[i2].owns_linker(l))
                implies !(#[trigger] self.agents@[j2].owns_linker(l)) by {
                assert(agents0[i2].owns_linker(l));
                assert(!agents0[j2].owns_linker(l));
            }
        }
        if failed {
            Err(OpError::NotConfigured)
        } else {
            Ok(())
        }
    }
}

} // verus!
