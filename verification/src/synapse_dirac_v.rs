//! A passive synapse carrying Dirac-delta voltage spikes.
//!
//! Woken by a confirm signal, it drains the spikes its pre-synaptic
//! generator queued, delays each by its own delay, forwards them —
//! weighted — to its post-synaptic acceptor, and, when plastic, adapts
//! its weight from the spike timings flowing forward and backward.
//! Quantities are fixed-point values in 64-bit integers; the plasticity
//! bump decays with the timing gap.

use vstd::prelude::*;
use crate::fifo::Frame;
use crate::hub::Hub;
use crate::operation::OpError;
use crate::operation::RunMode;
use crate::operation::RunningSet;
use crate::operation::TargetKind;
use crate::components::ins_touch;
use crate::components::outs_touch;
use crate::lif::NeuronModel;
use crate::linker::EdgeKind;
use crate::post_syn_component::backs_touch;
use crate::signals::sat_add;
use crate::signals::sat_add_exec;
use crate::synapse_component::SynapseComponent;
use crate::synapse_component::SynapseFlag;

verus! {

/// Upper magnitude bound for synapse parameters and weights.
pub const PARAM_MAX: i64 = 1000000;

/// Magnitude of a mathematical integer.
pub open spec fn mag(x: int) -> int {
    if x < 0 {
        -x
    } else {
        x
    }
}

/// A value clipped to a closed interval.
pub open spec fn clamp(lo: int, hi: int, x: int) -> int {
    if x >= hi {
        hi
    } else if x <= lo {
        lo
    } else {
        x
    }
}

/// The plasticity bump for one spike pair: the full amount scaled down
/// by the timing gap between the two spikes, in units of the decay time
/// constant. The bump never exceeds the amount and never changes sign.
pub open spec fn stdp_bump(amount: i64, tau: i64, a: i64, b: i64) -> int
    recommends
        tau > 0,
        amount >= 0,
{
    (amount as int) * (tau as int) / ((tau as int) + mag(a - b))
}

/// Executable plasticity bump.
pub fn stdp_bump_exec(amount: i64, tau: i64, a: i64, b: i64) -> (r: i64)
    requires
        0 < tau <= PARAM_MAX,
        0 <= amount <= PARAM_MAX,
    ensures
        r == stdp_bump(amount, tau, a, b),
        0 <= r <= amount,
{
    let d: i128 = a as i128 - b as i128;
    let m: i128 = if d < 0 {
        -d
    } else {
        d
    };
    proof {
        assert(0 <= amount as i128 * tau as i128 <= 1000000000000i128) by (nonlinear_arith)
            requires
                0 <= amount as i128 <= 1000000,
                1 <= tau as i128 <= 1000000,
        ;
    }
    let num: i128 = amount as i128 * tau as i128;
    let den: i128 = tau as i128 + m;
    let q: i128 = num / den;
    proof {
        assert(q == stdp_bump(amount, tau, a, b));
        assert(0 <= q <= amount as i128) by (nonlinear_arith)
            requires
                q == num / den,
                num == amount as i128 * tau as i128,
                den >= tau as i128,
                tau as i128 >= 1,
                amount as i128 >= 0,
        ;
    }
    q as i64
}

/// Passive synapse agent: weight and plasticity parameters, the firing
/// histories of both sides, and its connectivity component.
pub struct SynapseModel {
    pub id: usize,
    pub w: i64,
    pub w_max: i64,
    pub w_min: i64,
    pub delay: i64,
    pub stdp_pre_amount: i64,
    pub tau_stdp_pre: i64,
    pub stdp_post_amount: i64,
    pub tau_stdp_post: i64,
    pub pre_firing_history: Vec<i64>,
    pub post_firing_history: Vec<i64>,
    pub component: SynapseComponent,
}

/// The time each spike of a drained batch acts: its emission time plus
/// the synapse's delay, saturating.
pub open spec fn acting_times(frames: Seq<Frame>, delay: i64) -> Seq<i64> {
    frames.map_values(|f: Frame| sat_add(f.1, delay))
}

/// The firing times a backward batch carries.
pub open spec fn bwd_times(frames: Seq<Frame>) -> Seq<i64> {
    frames.map_values(|f: Frame| f.0)
}

impl SynapseModel {
    /// Parameters are bounded, time constants positive, and the weight
    /// inside its bounds.
    pub open spec fn params_ok(self) -> bool {
        &&& 0 < self.tau_stdp_pre <= PARAM_MAX
        &&& 0 < self.tau_stdp_post <= PARAM_MAX
        &&& 0 <= self.stdp_pre_amount <= PARAM_MAX
        &&& 0 <= self.stdp_post_amount <= PARAM_MAX
        &&& -PARAM_MAX <= self.w_min <= self.w_max <= PARAM_MAX
        &&& self.w_min <= self.w <= self.w_max
    }

    /// The synapse is well-formed: bounded parameters and a well-formed
    /// connectivity component.
    pub open spec fn wf(self, hub: Hub) -> bool {
        &&& self.params_ok()
        &&& self.component.wf(hub)
    }

    /// Whether one of this synapse's two edges reaches linker `l`.
    pub open spec fn owns_linker(self, l: int) -> bool {
        l == self.component.pre.linker as int || l == self.component.post.linker as int
    }

    /// The weight after the pre-phase has processed the first `k` spikes
    /// of a drained batch: each spike whose timing can be compared to
    /// the last post-synaptic firing bumps the weight, clipped to its
    /// bounds.
    pub open spec fn w_after_pre(self, frames: Seq<Frame>, k: int) -> int
        decreases k,
    {
        if k <= 0 {
            self.w as int
        } else {
            let prev = self.w_after_pre(frames, k - 1);
            if self.post_firing_history@.len() == 0 {
                prev
            } else {
                clamp(
                    self.w_min as int,
                    self.w_max as int,
                    prev + stdp_bump(
                        self.stdp_pre_amount,
                        self.tau_stdp_pre,
                        self.post_firing_history@.last(),
                        sat_add(frames[k - 1].1, self.delay),
                    ),
                )
            }
        }
    }

    /// The frames the pre-phase forwards downstream for the first `k`
    /// spikes: same voltage, delayed acting time, and the weight as it
    /// stood right after that spike's bump.
    pub open spec fn forwarded(self, frames: Seq<Frame>, k: int) -> Seq<Frame>
        decreases k,
    {
        if k <= 0 {
            Seq::<Frame>::empty()
        } else {
            self.forwarded(frames, k - 1).push((
                frames[k - 1].0,
                sat_add(frames[k - 1].1, self.delay),
                self.w_after_pre(frames, k) as i64,
            ))
        }
    }

    /// The weight after the post-phase has processed the first `k`
    /// backward firing times, starting from `w0`, against a fixed
    /// pre-synaptic firing history.
    pub open spec fn w_after_post(self, w0: int, pre_hist: Seq<i64>, times: Seq<i64>, k: int) -> int
        decreases k,
    {
        if k <= 0 {
            w0
        } else {
            let prev = self.w_after_post(w0, pre_hist, times, k - 1);
            if pre_hist.len() == 0 {
                prev
            } else {
                clamp(
                    self.w_min as int,
                    self.w_max as int,
                    prev + stdp_bump(
                        self.stdp_post_amount,
                        self.tau_stdp_post,
                        pre_hist.last(),
                        times[k - 1],
                    ),
                )
            }
        }
    }

    /// Clips a proposed weight to the synapse's bounds.
    pub fn update_w(&mut self, w_new: i64)
        requires
            old(self).w_min <= old(self).w_max,
        ensures
            *final(self) == (SynapseModel {
                w: clamp(old(self).w_min as int, old(self).w_max as int, w_new as int) as i64,
                ..*old(self)
            }),
    {
        if w_new >= self.w_max {
            self.w = self.w_max;
        } else if w_new <= self.w_min {
            self.w = self.w_min;
        } else {
            self.w = w_new;
        }
    }

    /// Plasticity on a pre-synaptic spike: the weight is bumped against
    /// the last post-synaptic firing, if any.
    pub fn stdp_on_pre(&mut self, pre_t: i64)
        requires
            old(self).params_ok(),
        ensures
            final(self).params_ok(),
            old(self).post_firing_history@.len() == 0 ==> *final(self) == *old(self),
            old(self).post_firing_history@.len() > 0 ==> *final(self) == (SynapseModel {
                w: clamp(
                    old(self).w_min as int,
                    old(self).w_max as int,
                    old(self).w + stdp_bump(
                        old(self).stdp_pre_amount,
                        old(self).tau_stdp_pre,
                        old(self).post_firing_history@.last(),
                        pre_t,
                    ),
                ) as i64,
                ..*old(self)
            }),
    {
        let post_len = self.post_firing_history.len();
        if post_len > 0 {
            let last_post = self.post_firing_history[post_len - 1];
            let bump = stdp_bump_exec(self.stdp_pre_amount, self.tau_stdp_pre, last_post, pre_t);
            let w_new = self.w + bump;
            self.update_w(w_new);
        }
    }

    /// Plasticity on a post-synaptic firing: the weight is bumped
    /// against the last pre-synaptic spike, if any.
    pub fn stdp_on_post(&mut self, post_t: i64)
        requires
            old(self).params_ok(),
        ensures
            final(self).params_ok(),
            old(self).pre_firing_history@.len() == 0 ==> *final(self) == *old(self),
            old(self).pre_firing_history@.len() > 0 ==> *final(self) == (SynapseModel {
                w: clamp(
                    old(self).w_min as int,
                    old(self).w_max as int,
                    old(self).w + stdp_bump(
                        old(self).stdp_post_amount,
                        old(self).tau_stdp_post,
                        old(self).pre_firing_history@.last(),
                        post_t,
                    ),
                ) as i64,
                ..*old(self)
            }),
    {
        let pre_len = self.pre_firing_history.len();
        if pre_len > 0 {
            let last_pre = self.pre_firing_history[pre_len - 1];
            let bump = stdp_bump_exec(self.stdp_post_amount, self.tau_stdp_post, last_pre, post_t);
            let w_new = self.w + bump;
            self.update_w(w_new);
        }
    }

    /// The batch of forward spikes a respond call drains: everything the
    /// pre-synaptic generator has queued, or nothing while the pre edge
    /// is idle.
    pub open spec fn fw_batch(self, hub: Hub) -> Seq<Frame> {
        if self.component.pre.is_live() {
            hub.lnk(self.component.pre.linker as int).fwd_q()
        } else {
            Seq::<Frame>::empty()
        }
    }

    /// The batch of backward firing times a respond call drains: only a
    /// plastic synapse with a live post edge reads the feedback channel.
    pub open spec fn bw_batch(self, hub: Hub) -> Seq<Frame> {
        if self.component.flag is Stdp && self.component.post.is_live() {
            hub.lnk(self.component.post.linker as int).bwd_q()
        } else {
            Seq::<Frame>::empty()
        }
    }

    /// One passive generation: drains the pre-synaptic spikes, records
    /// and delays each, adapts the weight on each (pre-phase plasticity),
    /// forwards each — weighted — to the post-synaptic acceptor, and,
    /// when plastic, drains the backward firing times and adapts the
    /// weight on each (post-phase plasticity).
    #[verifier::rlimit(100)]
    pub fn respond(&mut self, hub: &mut Hub)
        requires
            old(self).wf(*old(hub)),
        ensures
            final(self).id == old(self).id,
            final(self).component == old(self).component,
            final(self).w_min == old(self).w_min,
            final(self).w_max == old(self).w_max,
            final(self).delay == old(self).delay,
            final(self).stdp_pre_amount == old(self).stdp_pre_amount,
            final(self).tau_stdp_pre == old(self).tau_stdp_pre,
            final(self).stdp_post_amount == old(self).stdp_post_amount,
            final(self).tau_stdp_post == old(self).tau_stdp_post,
            final(self).pre_firing_history@ == old(self).pre_firing_history@
                + acting_times(old(self).fw_batch(*old(hub)), old(self).delay),
            final(self).post_firing_history@ == old(self).post_firing_history@
                + bwd_times(old(self).bw_batch(*old(hub))),
            final(self).w as int == old(self).w_after_post(
                old(self).w_after_pre(
                    old(self).fw_batch(*old(hub)),
                    old(self).fw_batch(*old(hub)).len() as int,
                ),
                final(self).pre_firing_history@,
                bwd_times(old(self).bw_batch(*old(hub))),
                old(self).bw_batch(*old(hub)).len() as int,
            ),
            final(hub).slots == old(hub).slots,
            final(hub).n_linkers() == old(hub).n_linkers(),
            forall|l: int| 0 <= l < old(hub).n_linkers()
                && l != old(self).component.pre.linker && l != old(self).component.post.linker
                ==> final(hub).lnk(l) == old(hub).lnk(l),
            old(self).component.pre.is_live()
                ==> final(hub).lnk(old(self).component.pre.linker as int).fwd_q()
                        == Seq::<Frame>::empty()
                    && final(hub).lnk(old(self).component.pre.linker as int).bwd
                        == old(hub).lnk(old(self).component.pre.linker as int).bwd
                    && final(hub).lnk(old(self).component.pre.linker as int).kind
                        == old(hub).lnk(old(self).component.pre.linker as int).kind
                    && final(hub).lnk(old(self).component.pre.linker as int).pre_mode
                        == old(hub).lnk(old(self).component.pre.linker as int).pre_mode
                    && final(hub).lnk(old(self).component.pre.linker as int).post_mode
                        == old(hub).lnk(old(self).component.pre.linker as int).post_mode,
            !old(self).component.pre.is_live()
                ==> final(hub).lnk(old(self).component.pre.linker as int)
                    == old(hub).lnk(old(self).component.pre.linker as int),
            final(hub).lnk(old(self).component.post.linker as int).fwd_q()
                == if old(self).component.post.delivers(*old(hub)) {
                    old(hub).lnk(old(self).component.post.linker as int).fwd_q()
                        + old(self).forwarded(
                            old(self).fw_batch(*old(hub)),
                            old(self).fw_batch(*old(hub)).len() as int,
                        )
                } else {
                    old(hub).lnk(old(self).component.post.linker as int).fwd_q()
                },
            final(hub).lnk(old(self).component.post.linker as int).bwd_q()
                == if old(self).component.flag is Stdp && old(self).component.post.is_live() {
                    Seq::<Frame>::empty()
                } else {
                    old(hub).lnk(old(self).component.post.linker as int).bwd_q()
                },
            final(hub).lnk(old(self).component.post.linker as int).kind
                == old(hub).lnk(old(self).component.post.linker as int).kind,
            final(hub).lnk(old(self).component.post.linker as int).pre_mode
                == old(hub).lnk(old(self).component.post.linker as int).pre_mode,
            final(hub).lnk(old(self).component.post.linker as int).post_mode
                == old(hub).lnk(old(self).component.post.linker as int).post_mode,
            final(self).wf(*final(hub)),
    {
        let ghost self0 = *self;
        let ghost hub0 = *hub;
        let ghost fw = old(self).fw_batch(*old(hub));
        let frames_opt = self.component.ffw_accepted(hub);
        let ghost hub1 = *hub;
        let frames = match frames_opt {
            Some(v) => v,
            None => Vec::new(),
        };
        proof {
            assert(frames@ == fw);
        }
        let mut k: usize = 0;
        while k < frames.len()
            invariant
                k <= frames@.len(),
                frames@ == fw,
                self.id == self0.id,
                self.component == self0.component,
                self.w_min == self0.w_min,
                self.w_max == self0.w_max,
                self.delay == self0.delay,
                self.stdp_pre_amount == self0.stdp_pre_amount,
                self.tau_stdp_pre == self0.tau_stdp_pre,
                self.stdp_post_amount == self0.stdp_post_amount,
                self.tau_stdp_post == self0.tau_stdp_post,
                self.post_firing_history == self0.post_firing_history,
                self.pre_firing_history@ == self0.pre_firing_history@
                    + acting_times(fw, self0.delay).take(k as int),
                self.w as int == self0.w_after_pre(fw, k as int),
                self.params_ok(),
                self.component.wf(*hub),
                hub.slots == hub1.slots,
                hub.n_linkers() == hub1.n_linkers(),
                forall|l: int| 0 <= l < hub1.n_linkers() && l != self0.component.post.linker
                    ==> hub.lnk(l) == hub1.lnk(l),
                self0.component.post.delivers(hub1)
                    ==> hub.lnk(self0.component.post.linker as int).fwd_q()
                            == hub1.lnk(self0.component.post.linker as int).fwd_q()
                                + self0.forwarded(fw, k as int)
                        && hub.lnk(self0.component.post.linker as int).fwd_live()
                        && hub.lnk(self0.component.post.linker as int).bwd
                            == hub1.lnk(self0.component.post.linker as int).bwd
                        && hub.lnk(self0.component.post.linker as int).kind
                            == hub1.lnk(self0.component.post.linker as int).kind
                        && hub.lnk(self0.component.post.linker as int).pre_mode
                            == hub1.lnk(self0.component.post.linker as int).pre_mode
                        && hub.lnk(self0.component.post.linker as int).post_mode
                            == hub1.lnk(self0.component.post.linker as int).post_mode,
                !self0.component.post.delivers(hub1) ==> *hub == hub1,
            decreases frames@.len() - k,
        {
            let f = frames[k];
            let acting = sat_add_exec(f.1, self.delay);
            self.pre_firing_history.push(acting);
            self.stdp_on_pre(acting);
            let ghost hub_before_send = *hub;
            let _ = self.component.feedforward(hub, (f.0, acting, self.w));
            proof {
                assert(acting_times(fw, self0.delay).take(k as int + 1)
                    =~= acting_times(fw, self0.delay).take(k as int).push(sat_add(fw[k as int].1, self0.delay)));
                assert(self0.component.post.delivers(hub_before_send)
                    == self0.component.post.delivers(hub1));
                if self0.component.post.delivers(hub1) {
                    assert(hub.lnk(self0.component.post.linker as int).fwd_q()
                        == hub_before_send.lnk(self0.component.post.linker as int).fwd_q()
                            .push((fw[k as int].0, sat_add(fw[k as int].1, self0.delay), self.w)));
                }
            }
            k = k + 1;
        }
        proof {
            assert(acting_times(fw, self0.delay).take(fw.len() as int) =~= acting_times(fw, self0.delay));
        }
        let ghost hub_mid = *hub;
        let ghost w_mid = self.w;
        let ghost pre_hist_final = self.pre_firing_history@;
        if matches!(self.component.flag, SynapseFlag::Stdp) {
            let ghost bw = self0.bw_batch(hub0);
            proof {
                assert(hub.lnk(self0.component.post.linker as int).bwd
                    == hub0.lnk(self0.component.post.linker as int).bwd);
            }
            let bw_opt = self.component.fbw_accepted(hub);
            let bw_frames = match bw_opt {
                Some(v) => v,
                None => Vec::new(),
            };
            proof {
                assert(bw_frames@ == bw);
            }
            let mut k2: usize = 0;
            while k2 < bw_frames.len()
                invariant
                    k2 <= bw_frames@.len(),
                    bw_frames@ == bw,
                    self.id == self0.id,
                    self.component == self0.component,
                    self.w_min == self0.w_min,
                    self.w_max == self0.w_max,
                    self.delay == self0.delay,
                    self.stdp_pre_amount == self0.stdp_pre_amount,
                    self.tau_stdp_pre == self0.tau_stdp_pre,
                    self.stdp_post_amount == self0.stdp_post_amount,
                    self.tau_stdp_post == self0.tau_stdp_post,
                    self.pre_firing_history@ == pre_hist_final,
                    self.post_firing_history@ == self0.post_firing_history@
                        + bwd_times(bw).take(k2 as int),
                    self.w as int == self0.w_after_post(
                        w_mid as int,
                        pre_hist_final,
                        bwd_times(bw),
                        k2 as int,
                    ),
                    self.params_ok(),
                decreases bw_frames@.len() - k2,
            {
                let t = bw_frames[k2].0;
                self.post_firing_history.push(t);
                self.stdp_on_post(t);
                proof {
                    assert(bwd_times(bw).take(k2 as int + 1)
                        =~= bwd_times(bw).take(k2 as int).push(bw[k2 as int].0));
                }
                k2 = k2 + 1;
            }
            proof {
                assert(bwd_times(bw).take(bw.len() as int) =~= bwd_times(bw));
                assert(self.post_firing_history@ == self0.post_firing_history@ + bwd_times(bw));
            }
        } else {
            proof {
                assert(bwd_times(self0.bw_batch(hub0)) =~= Seq::<i64>::empty());
                assert(self.post_firing_history@ =~= self0.post_firing_history@
                    + bwd_times(self0.bw_batch(hub0)));
            }
        }
    }

    /// Switches the synapse between static and plastic behaviour.
    pub fn config_syn_flag(&mut self, flag: SynapseFlag)
        ensures
            final(self).component.flag == flag,
            final(self).component.mode == old(self).component.mode,
            final(self).component.pre == old(self).component.pre,
            final(self).component.post == old(self).component.post,
            final(self).id == old(self).id,
            final(self).w == old(self).w,
            final(self).pre_firing_history == old(self).pre_firing_history,
            final(self).post_firing_history == old(self).post_firing_history,
    {
        self.component.config_syn_flag(flag);
    }

    /// First configuration phase, delegated to the component.
    pub fn config_mode(&mut self, hub: &mut Hub, mode: RunMode)
        requires
            old(self).wf(*old(hub)),
        ensures
            final(self).id == old(self).id,
            final(self).w == old(self).w,
            final(self).pre_firing_history == old(self).pre_firing_history,
            final(self).post_firing_history == old(self).post_firing_history,
            final(self).component.mode == mode,
            final(self).component.flag == old(self).component.flag,
            final(self).component.pre.linker == old(self).component.pre.linker,
            final(self).component.post.linker == old(self).component.post.linker,
            final(self).component.pre.target == old(self).component.pre.target,
            final(self).component.post.target == old(self).component.post.target,
            final(self).component.post.target_kind == old(self).component.post.target_kind,
            final(hub).slots == old(hub).slots,
            final(hub).n_linkers() == old(hub).n_linkers(),
            final(hub).n_agents() == old(hub).n_agents(),
            forall|l: int| 0 <= l < old(hub).n_linkers()
                && l != old(self).component.pre.linker && l != old(self).component.post.linker
                ==> final(hub).lnk(l) == old(hub).lnk(l),
            mode is Idle ==> !final(self).component.pre.is_live()
                && !final(self).component.post.is_live(),
            forall|l: int| 0 <= l < old(hub).n_linkers()
                ==> (#[trigger] final(hub).lnk(l)).kind == old(hub).lnk(l).kind,
            mode.is_running() ==> final(hub).lnk(old(self).component.pre.linker as int)
                == (crate::linker::Linker {
                    post_mode: mode,
                    ..old(hub).lnk(old(self).component.pre.linker as int)
                })
                && final(hub).lnk(old(self).component.post.linker as int)
                == (crate::linker::Linker {
                    pre_mode: mode,
                    ..old(hub).lnk(old(self).component.post.linker as int)
                }),
            final(self).wf(*final(hub)),
    {
        self.component.config_mode(hub, mode);
    }

    /// Second configuration phase, delegated to the component; `Ok`
    /// exactly when both edges had been mode-configured first.
    pub fn config_channels(&mut self, hub: &mut Hub) -> (r: Result<(), OpError>)
        requires
            old(self).wf(*old(hub)),
        ensures
            final(self).id == old(self).id,
            final(self).w == old(self).w,
            final(self).pre_firing_history == old(self).pre_firing_history,
            final(self).post_firing_history == old(self).post_firing_history,
            final(self).component.mode == old(self).component.mode,
            final(self).component.flag == old(self).component.flag,
            final(self).component.pre.linker == old(self).component.pre.linker,
            final(self).component.post.linker == old(self).component.post.linker,
            final(self).component.pre.target == old(self).component.pre.target,
            final(self).component.post.target == old(self).component.post.target,
            final(self).component.post.target_kind == old(self).component.post.target_kind,
            final(hub).slots == old(hub).slots,
            final(hub).n_linkers() == old(hub).n_linkers(),
            forall|l: int| 0 <= l < old(hub).n_linkers()
                && l != old(self).component.pre.linker && l != old(self).component.post.linker
                ==> final(hub).lnk(l) == old(hub).lnk(l),
            (r is Ok <==> old(hub).lnk(old(self).component.pre.linker as int).post_mode.is_running()
                && old(hub).lnk(old(self).component.post.linker as int).pre_mode.is_running()),
            forall|l: int| 0 <= l < old(hub).n_linkers()
                ==> (#[trigger] final(hub).lnk(l)).kind == old(hub).lnk(l).kind,
            r is Err ==> r == Err::<(), OpError>(OpError::NotConfigured),
            r is Ok ==> final(self).component.pre.is_live() && final(self).component.post.is_live(),
            old(hub).lnk(old(self).component.pre.linker as int).post_mode is Idle
                ==> final(hub).lnk(old(self).component.pre.linker as int)
                    == old(hub).lnk(old(self).component.pre.linker as int),
            old(hub).lnk(old(self).component.pre.linker as int).post_mode.is_running()
                ==> final(hub).lnk(old(self).component.pre.linker as int)
                    .materialized_from(old(hub).lnk(old(self).component.pre.linker as int)),
            old(hub).lnk(old(self).component.post.linker as int).pre_mode is Idle
                ==> final(hub).lnk(old(self).component.post.linker as int)
                    == old(hub).lnk(old(self).component.post.linker as int),
            old(hub).lnk(old(self).component.post.linker as int).pre_mode.is_running()
                ==> final(hub).lnk(old(self).component.post.linker as int)
                    .materialized_from(old(hub).lnk(old(self).component.post.linker as int)),
            final(self).wf(*final(hub)),
    {
        self.component.config_channels(hub)
    }

    /// The run mode the synapse was last configured to.
    pub fn mode(&self) -> (m: RunMode)
        ensures
            m == self.component.mode,
    {
        self.component.mode()
    }

    /// The scheduler handle of the post edge when its acceptor is
    /// passive.
    pub fn passive_sync_chs_sets(&self, hub: &Hub) -> (r: Result<Option<RunningSet>, OpError>)
        ensures
            r == self.component.post.running_outcome(*hub),
    {
        self.component.passive_sync_chs_sets(hub)
    }
}

/// The parameter set from which Dirac-delta synapses are built.
pub struct ParamsSynapseDiracV {
    pub w: i64,
    pub w_max: i64,
    pub w_min: i64,
    pub delay: i64,
    pub stdp_pre_amount: i64,
    pub tau_stdp_pre: i64,
    pub stdp_post_amount: i64,
    pub tau_stdp_post: i64,
}

impl ParamsSynapseDiracV {
    /// The parameter set yields a well-formed synapse.
    pub open spec fn ok(self) -> bool {
        &&& 0 < self.tau_stdp_pre <= PARAM_MAX
        &&& 0 < self.tau_stdp_post <= PARAM_MAX
        &&& 0 <= self.stdp_pre_amount <= PARAM_MAX
        &&& 0 <= self.stdp_post_amount <= PARAM_MAX
        &&& -PARAM_MAX <= self.w_min <= self.w <= self.w_max <= PARAM_MAX
    }

    /// How a freshly built synapse relates to its parameter set and its
    /// two fresh linkers.
    pub open spec fn built(self, syn: SynapseModel, syn_id: int, pre_id: int, post_id: int,
        pre_l: int, post_l: int, post_kind: TargetKind) -> bool {
        &&& syn.id == syn_id
        &&& syn.w == self.w
        &&& syn.w_max == self.w_max
        &&& syn.w_min == self.w_min
        &&& syn.delay == self.delay
        &&& syn.stdp_pre_amount == self.stdp_pre_amount
        &&& syn.tau_stdp_pre == self.tau_stdp_pre
        &&& syn.stdp_post_amount == self.stdp_post_amount
        &&& syn.tau_stdp_post == self.tau_stdp_post
        &&& syn.pre_firing_history@.len() == 0
        &&& syn.post_firing_history@.len() == 0
        &&& syn.component.mode is Idle
        &&& syn.component.flag is Static
        &&& syn.component.pre.target == pre_id
        &&& syn.component.pre.linker == pre_l
        &&& !syn.component.pre.is_live()
        &&& syn.component.post.target == post_id
        &&& syn.component.post.target_kind == post_kind
        &&& syn.component.post.linker == post_l
        &&& !syn.component.post.is_live()
    }

    /// Allocates a synapse between a pre-synaptic generator and its
    /// post-synaptic acceptor: registers the synapse with the hub,
    /// creates one one-way linker for the pre edge and one two-way
    /// linker for the post edge, and registers the synapse as a passive
    /// peer with both neighbours.
    #[verifier::rlimit(50)]
    fn wire(&self, hub: &mut Hub, pre: &mut NeuronModel, post: &mut NeuronModel, post_kind: TargetKind)
        -> (syn: SynapseModel)
        requires
            self.ok(),
            old(pre).wf(*old(hub)),
            old(post).wf(*old(hub)),
        ensures
            self.built(
                syn,
                old(hub).n_agents(),
                old(pre).id as int,
                old(post).id as int,
                old(hub).n_linkers(),
                old(hub).n_linkers() + 1,
                post_kind,
            ),
            final(hub).n_agents() == old(hub).n_agents() + 1,
            final(hub).n_linkers() == old(hub).n_linkers() + 2,
            final(hub).agent_live(syn.id as int),
            final(hub).confirm_q(syn.id as int).len() == 0,
            final(hub).report_q(syn.id as int).len() == 0,
            forall|j: int| 0 <= j < old(hub).n_agents()
                ==> final(hub).slots@[j] == old(hub).slots@[j],
            forall|l: int| 0 <= l < old(hub).n_linkers()
                ==> final(hub).lnk(l) == old(hub).lnk(l),
            final(hub).lnk(syn.component.pre.linker as int).kind is OneWay,
            final(hub).lnk(syn.component.pre.linker as int).pre_mode is Idle,
            final(hub).lnk(syn.component.pre.linker as int).post_mode is Idle,
            !final(hub).lnk(syn.component.pre.linker as int).fwd_live(),
            final(hub).lnk(syn.component.post.linker as int).kind is TwoWay,
            final(hub).lnk(syn.component.post.linker as int).pre_mode is Idle,
            final(hub).lnk(syn.component.post.linker as int).post_mode is Idle,
            !final(hub).lnk(syn.component.post.linker as int).fwd_live(),
            final(pre).id == old(pre).id,
            final(pre).out_dirac_v.mode == old(pre).out_dirac_v.mode,
            final(pre).out_dirac_v.targets@ == old(pre).out_dirac_v.targets@.push(
                crate::simple_joint::OutSet {
                    target: syn.id,
                    target_kind: TargetKind::Passive,
                    linker: syn.component.pre.linker,
                    channels: crate::operation::DeviceMode::Idle,
                }),
            final(pre).post_syn_dirac_v == old(pre).post_syn_dirac_v,
            final(pre).device_in_dirac_v == old(pre).device_in_dirac_v,
            final(post).id == old(post).id,
            final(post).post_syn_dirac_v.mode == old(post).post_syn_dirac_v.mode,
            final(post).post_syn_dirac_v.entries@ == old(post).post_syn_dirac_v.entries@.push(
                crate::post_syn_joint::PostSynBackJoint {
                    target: syn.id,
                    target_kind: TargetKind::Passive,
                    linker: syn.component.post.linker,
                    channels: crate::operation::DeviceMode::Idle,
                }),
            final(post).out_dirac_v == old(post).out_dirac_v,
            final(post).device_in_dirac_v == old(post).device_in_dirac_v,
            final(pre).wf(*final(hub)),
            final(post).wf(*final(hub)),
            syn.wf(*final(hub)),
    {
        let syn_id = hub.register_agent();
        let pre_l = hub.new_linker(EdgeKind::OneWay);
        let post_l = hub.new_linker(EdgeKind::TwoWay);
        proof {
            assert(!pre.owns_linker(pre_l as int)) by {
                if outs_touch(pre.out_dirac_v.targets@, pre_l as int) {
                    let j = choose|j: int| 0 <= j < pre.out_dirac_v.targets@.len()
                        && (#[trigger] pre.out_dirac_v.targets@[j]).linker == pre_l;
                    assert(pre.out_dirac_v.targets@[j].wf(*old(hub)));
                }
                if backs_touch(pre.post_syn_dirac_v.entries@, pre_l as int) {
                    let j = choose|j: int| 0 <= j < pre.post_syn_dirac_v.entries@.len()
                        && (#[trigger] pre.post_syn_dirac_v.entries@[j]).linker == pre_l;
                    assert(pre.post_syn_dirac_v.entries@[j].wf(*old(hub)));
                }
                if ins_touch(pre.device_in_dirac_v.entries@, pre_l as int) {
                    let j = choose|j: int| 0 <= j < pre.device_in_dirac_v.entries@.len()
                        && (#[trigger] pre.device_in_dirac_v.entries@[j]).linker == pre_l;
                    assert(pre.device_in_dirac_v.entries@[j].wf(*old(hub)));
                }
            }
            assert(!post.owns_linker(post_l as int)) by {
                if outs_touch(post.out_dirac_v.targets@, post_l as int) {
                    let j = choose|j: int| 0 <= j < post.out_dirac_v.targets@.len()
                        && (#[trigger] post.out_dirac_v.targets@[j]).linker == post_l;
                    assert(post.out_dirac_v.targets@[j].wf(*old(hub)));
                }
                if backs_touch(post.post_syn_dirac_v.entries@, post_l as int) {
                    let j = choose|j: int| 0 <= j < post.post_syn_dirac_v.entries@.len()
                        && (#[trigger] post.post_syn_dirac_v.entries@[j]).linker == post_l;
                    assert(post.post_syn_dirac_v.entries@[j].wf(*old(hub)));
                }
                if ins_touch(post.device_in_dirac_v.entries@, post_l as int) {
                    let j = choose|j: int| 0 <= j < post.device_in_dirac_v.entries@.len()
                        && (#[trigger] post.device_in_dirac_v.entries@[j]).linker == post_l;
                    assert(post.device_in_dirac_v.entries@[j].wf(*old(hub)));
                }
            }
        }
        pre.add_passive_target(syn_id, pre_l);
        post.add_passive(syn_id, post_l);
        let component = if matches!(post_kind, TargetKind::Active) {
            SynapseComponent::new_on_active(pre.id, pre_l, post.id, post_l)
        } else {
            SynapseComponent::new_on_passive(pre.id, pre_l, post.id, post_l)
        };
        let syn = SynapseModel {
            id: syn_id,
            w: self.w,
            w_max: self.w_max,
            w_min: self.w_min,
            delay: self.delay,
            stdp_pre_amount: self.stdp_pre_amount,
            tau_stdp_pre: self.tau_stdp_pre,
            stdp_post_amount: self.stdp_post_amount,
            tau_stdp_post: self.tau_stdp_post,
            pre_firing_history: Vec::new(),
            post_firing_history: Vec::new(),
            component,
        };
        syn
    }

    /// Builds a synapse whose post-synaptic acceptor is an active agent,
    /// wiring the synapse as a passive peer into both neighbours.
    pub fn build_to_active(&self, hub: &mut Hub, pre: &mut NeuronModel, post: &mut NeuronModel)
        -> (syn: SynapseModel)
        requires
            self.ok(),
            old(pre).wf(*old(hub)),
            old(post).wf(*old(hub)),
        ensures
            self.built(
                syn,
                old(hub).n_agents(),
                old(pre).id as int,
                old(post).id as int,
                old(hub).n_linkers(),
                old(hub).n_linkers() + 1,
                TargetKind::Active,
            ),
            final(hub).n_agents() == old(hub).n_agents() + 1,
            final(hub).n_linkers() == old(hub).n_linkers() + 2,
            final(hub).agent_live(syn.id as int),
            forall|j: int| 0 <= j < old(hub).n_agents()
                ==> final(hub).slots@[j] == old(hub).slots@[j],
            forall|l: int| 0 <= l < old(hub).n_linkers()
                ==> final(hub).lnk(l) == old(hub).lnk(l),
            final(hub).confirm_q(syn.id as int).len() == 0,
            final(hub).report_q(syn.id as int).len() == 0,
            final(hub).lnk(syn.component.pre.linker as int).kind is OneWay,
            final(hub).lnk(syn.component.pre.linker as int).pre_mode is Idle,
            final(hub).lnk(syn.component.pre.linker as int).post_mode is Idle,
            !final(hub).lnk(syn.component.pre.linker as int).fwd_live(),
            final(hub).lnk(syn.component.post.linker as int).kind is TwoWay,
            final(hub).lnk(syn.component.post.linker as int).pre_mode is Idle,
            final(hub).lnk(syn.component.post.linker as int).post_mode is Idle,
            !final(hub).lnk(syn.component.post.linker as int).fwd_live(),
            final(pre).id == old(pre).id,
            final(pre).out_dirac_v.mode == old(pre).out_dirac_v.mode,
            final(pre).out_dirac_v.targets@ == old(pre).out_dirac_v.targets@.push(
                crate::simple_joint::OutSet {
                    target: syn.id,
                    target_kind: TargetKind::Passive,
                    linker: syn.component.pre.linker,
                    channels: crate::operation::DeviceMode::Idle,
                }),
            final(pre).post_syn_dirac_v == old(pre).post_syn_dirac_v,
            final(pre).device_in_dirac_v == old(pre).device_in_dirac_v,
            final(post).id == old(post).id,
            final(post).post_syn_dirac_v.mode == old(post).post_syn_dirac_v.mode,
            final(post).post_syn_dirac_v.entries@ == old(post).post_syn_dirac_v.entries@.push(
                crate::post_syn_joint::PostSynBackJoint {
                    target: syn.id,
                    target_kind: TargetKind::Passive,
                    linker: syn.component.post.linker,
                    channels: crate::operation::DeviceMode::Idle,
                }),
            final(post).out_dirac_v == old(post).out_dirac_v,
            final(post).device_in_dirac_v == old(post).device_in_dirac_v,
            final(pre).wf(*final(hub)),
            final(post).wf(*final(hub)),
            syn.wf(*final(hub)),
    {
        self.wire(hub, pre, post, TargetKind::Active)
    }

    /// Builds a synapse whose post-synaptic acceptor is driven as a
    /// passive agent, wiring the synapse as a passive peer into both
    /// neighbours.
    pub fn build_to_passive(&self, hub: &mut Hub, pre: &mut NeuronModel, post: &mut NeuronModel)
        -> (syn: SynapseModel)
        requires
            self.ok(),
            old(pre).wf(*old(hub)),
            old(post).wf(*old(hub)),
        ensures
            self.built(
                syn,
                old(hub).n_agents(),
                old(pre).id as int,
                old(post).id as int,
                old(hub).n_linkers(),
                old(hub).n_linkers() + 1,
                TargetKind::Passive,
            ),
            final(hub).n_agents() == old(hub).n_agents() + 1,
            final(hub).n_linkers() == old(hub).n_linkers() + 2,
            final(hub).agent_live(syn.id as int),
            forall|j: int| 0 <= j < old(hub).n_agents()
                ==> final(hub).slots@[j] == old(hub).slots@[j],
            forall|l: int| 0 <= l < old(hub).n_linkers()
                ==> final(hub).lnk(l) == old(hub).lnk(l),
            final(hub).confirm_q(syn.id as int).len() == 0,
            final(hub).report_q(syn.id as int).len() == 0,
            final(hub).lnk(syn.component.pre.linker as int).kind is OneWay,
            final(hub).lnk(syn.component.pre.linker as int).pre_mode is Idle,
            final(hub).lnk(syn.component.pre.linker as int).post_mode is Idle,
            !final(hub).lnk(syn.component.pre.linker as int).fwd_live(),
            final(hub).lnk(syn.component.post.linker as int).kind is TwoWay,
            final(hub).lnk(syn.component.post.linker as int).pre_mode is Idle,
            final(hub).lnk(syn.component.post.linker as int).post_mode is Idle,
            !final(hub).lnk(syn.component.post.linker as int).fwd_live(),
            final(pre).id == old(pre).id,
            final(pre).out_dirac_v.mode == old(pre).out_dirac_v.mode,
            final(pre).out_dirac_v.targets@ == old(pre).out_dirac_v.targets@.push(
                crate::simple_joint::OutSet {
                    target: syn.id,
                    target_kind: TargetKind::Passive,
                    linker: syn.component.pre.linker,
                    channels: crate::operation::DeviceMode::Idle,
                }),
            final(pre).post_syn_dirac_v == old(pre).post_syn_dirac_v,
            final(pre).device_in_dirac_v == old(pre).device_in_dirac_v,
            final(post).id == old(post).id,
            final(post).post_syn_dirac_v.mode == old(post).post_syn_dirac_v.mode,
            final(post).post_syn_dirac_v.entries@ == old(post).post_syn_dirac_v.entries@.push(
                crate::post_syn_joint::PostSynBackJoint {
                    target: syn.id,
                    target_kind: TargetKind::Passive,
                    linker: syn.component.post.linker,
                    channels: crate::operation::DeviceMode::Idle,
                }),
            final(post).out_dirac_v == old(post).out_dirac_v,
            final(post).device_in_dirac_v == old(post).device_in_dirac_v,
            final(pre).wf(*final(hub)),
            final(post).wf(*final(hub)),
            syn.wf(*final(hub)),
    {
        self.wire(hub, pre, post, TargetKind::Passive)
    }
}

} // verus!
