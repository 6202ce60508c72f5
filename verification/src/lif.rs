//! A leaky integrate-and-fire neuron agent.
//!
//! The membrane voltage decays towards its resting value under a
//! constant current injection, incoming Dirac-delta spikes are admitted
//! against the refractory window and bucketed into acted, void and
//! error records, and a threshold crossing fires the neuron: the voltage
//! resets, a refractory period opens, and a spike is pushed to every
//! outgoing edge. Quantities are fixed-point values in 64-bit integers.

use vstd::prelude::*;
use crate::components::MultiInComponent;
use crate::components::MultiOutComponent;
use crate::components::ins_accepted;
use crate::components::ins_touch;
use crate::components::outs_touch;
use crate::fifo::Frame;
use crate::hub::Hub;
use crate::operation::Fired;
use crate::operation::OpError;
use crate::operation::RunMode;
use crate::operation::RunningSet;
use crate::post_syn_component::NeuronPostSynComponent;
use crate::post_syn_component::backs_accepted;
use crate::post_syn_component::backs_touch;
use crate::post_syn_component::lemma_backs_accepted_congruence;
use crate::signals::PostSynDiracV;
use crate::signals::PreSynDiracV;
use crate::signals::pre_syn_frame;
use crate::signals::frame_post_syn;
use crate::signals::sat_add;
use crate::signals::sat_add_exec;
use crate::signals::sat_mul;
use crate::signals::sat_mul_exec;
use crate::signals::sat_sub;
use crate::signals::sat_sub_exec;

verus! {

/// One refractory period: the neuron admits no spike that falls inside
/// it.
#[derive(Clone, Copy, Debug, PartialEq, Eq, Structural)]
pub struct RefracDuration {
    pub begin: i64,
    pub end: i64,
}

/// The voltage delta of one leak step: the drive towards rest plus the
/// constant current injection, scaled by the step and divided by the
/// membrane time constant; division acts on the magnitude so the delta
/// keeps the drive's sign.
pub open spec fn leak_delta(v: i64, v_rest: i64, i_e: i64, r_m: i64, tau_m: i64, dt: i64) -> int
    recommends
        tau_m > 0,
{
    let num = sat_mul(sat_add(sat_sub(v_rest, v), sat_mul(i_e, r_m)), dt);
    if num >= 0 {
        (num as int) / (tau_m as int)
    } else {
        -((-(num as int)) / (tau_m as int))
    }
}

/// Clock-driven leaky integrate-and-fire neuron.
pub struct NeuronModel {
    pub id: usize,
    pub v_rest: i64,
    pub r_m: i64,
    pub tau_m: i64,
    pub tau_refrac: i64,
    pub v: i64,
    pub v_th: i64,
    pub i_e: i64,
    pub firing_history: Vec<RefracDuration>,
    pub buffer_dirac_v: Vec<PostSynDiracV>,
    pub acted_dirac_v: Vec<PostSynDiracV>,
    pub void_dirac_v: Vec<PostSynDiracV>,
    pub error_dirac_v: Vec<PostSynDiracV>,
    pub device_in_dirac_v: MultiInComponent,
    pub post_syn_dirac_v: NeuronPostSynComponent,
    pub out_dirac_v: MultiOutComponent,
}

impl NeuronModel {
    /// Whether this neuron's fan collections reach linker `l`.
    pub open spec fn owns_linker(self, l: int) -> bool {
        ||| outs_touch(self.out_dirac_v.targets@, l)
        ||| backs_touch(self.post_syn_dirac_v.entries@, l)
        ||| ins_touch(self.device_in_dirac_v.entries@, l)
    }

    /// The three fan collections are well-formed, no linker is shared
    /// between two collections, and the membrane time constant is
    /// positive.
    pub open spec fn wf(self, hub: Hub) -> bool {
        &&& self.out_dirac_v.wf(hub)
        &&& self.post_syn_dirac_v.wf(hub)
        &&& self.device_in_dirac_v.wf(hub)
        &&& (forall|l: int| !(outs_touch(self.out_dirac_v.targets@, l)
                && backs_touch(self.post_syn_dirac_v.entries@, l)))
        &&& (forall|l: int| !(outs_touch(self.out_dirac_v.targets@, l)
                && ins_touch(self.device_in_dirac_v.entries@, l)))
        &&& (forall|l: int| !(backs_touch(self.post_syn_dirac_v.entries@, l)
                && ins_touch(self.device_in_dirac_v.entries@, l)))
        &&& self.tau_m > 0
    }

    /// Registers a fresh neuron with the hub: no edges, no history, the
    /// voltage at its initial value.
    pub fn new(hub: &mut Hub, v_rest: i64, r_m: i64, tau_m: i64, tau_refrac: i64, v_th: i64, i_e: i64)
        -> (n: NeuronModel)
        requires
            tau_m > 0,
        ensures
            n.id == old(hub).n_agents(),
            n.v_rest == v_rest,
            n.r_m == r_m,
            n.tau_m == tau_m,
            n.tau_refrac == tau_refrac,
            n.v == v_rest,
            n.v_th == v_th,
            n.i_e == i_e,
            n.firing_history@.len() == 0,
            n.buffer_dirac_v@.len() == 0,
            n.acted_dirac_v@.len() == 0,
            n.void_dirac_v@.len() == 0,
            n.error_dirac_v@.len() == 0,
            n.out_dirac_v.mode is Idle,
            n.out_dirac_v.targets@.len() == 0,
            n.post_syn_dirac_v.mode is Idle,
            n.post_syn_dirac_v.entries@.len() == 0,
            n.device_in_dirac_v.mode is Idle,
            n.device_in_dirac_v.entries@.len() == 0,
            final(hub).n_agents() == old(hub).n_agents() + 1,
            final(hub).agent_live(n.id as int),
            final(hub).confirm_q(n.id as int).len() == 0,
            final(hub).report_q(n.id as int).len() == 0,
            forall|j: int| 0 <= j < old(hub).n_agents()
                ==> final(hub).slots@[j] == old(hub).slots@[j],
            final(hub).linkers == old(hub).linkers,
            n.wf(*final(hub)),
    {
        let id = hub.register_agent();
        NeuronModel {
            id,
            v_rest,
            r_m,
            tau_m,
            tau_refrac,
            v: v_rest,
            v_th,
            i_e,
            firing_history: Vec::new(),
            buffer_dirac_v: Vec::new(),
            acted_dirac_v: Vec::new(),
            void_dirac_v: Vec::new(),
            error_dirac_v: Vec::new(),
            device_in_dirac_v: MultiInComponent::new(),
            post_syn_dirac_v: NeuronPostSynComponent::new(),
            out_dirac_v: MultiOutComponent::new(),
        }
    }

    /// The end of the most recent refractory period, or the far past if
    /// the neuron never fired.
    pub open spec fn spec_last_refrac_end(self) -> i64 {
        if self.firing_history@.len() == 0 {
            i64::MIN
        } else {
            self.firing_history@.last().end
        }
    }

    /// The begin of the most recent refractory period, or the far past
    /// if the neuron never fired.
    pub open spec fn spec_last_refrac_begin(self) -> i64 {
        if self.firing_history@.len() == 0 {
            i64::MIN
        } else {
            self.firing_history@.last().begin
        }
    }

    /// The end of the most recent refractory period.
    pub fn last_refrac_end(&self) -> (t: i64)
        ensures
            t == self.spec_last_refrac_end(),
    {
        if self.firing_history.len() == 0 {
            i64::MIN
        } else {
            self.firing_history[self.firing_history.len() - 1].end
        }
    }

    /// The begin of the most recent refractory period.
    pub fn last_refrac_begin(&self) -> (t: i64)
        ensures
            t == self.spec_last_refrac_begin(),
    {
        if self.firing_history.len() == 0 {
            i64::MIN
        } else {
            self.firing_history[self.firing_history.len() - 1].begin
        }
    }

    /// The state after one leak step: only the membrane voltage moves.
    pub open spec fn leaked(self, dt: i64) -> NeuronModel {
        NeuronModel {
            v: sat_add(
                self.v,
                clamp_i64(leak_delta(self.v, self.v_rest, self.i_e, self.r_m, self.tau_m, dt)),
            ),
            ..self
        }
    }

    /// How a state after one leak step relates to the state before.
    pub open spec fn leak_applied(self, nxt: NeuronModel, dt: i64) -> bool {
        nxt == self.leaked(dt)
    }

    /// One leak step of the membrane voltage over `dt`.
    pub fn continuous_evolve(&mut self, dt: i64)
        requires
            old(self).tau_m > 0,
        ensures
            old(self).leak_applied(*final(self), dt),
    {
        let drive = sat_add_exec(sat_sub_exec(self.v_rest, self.v), sat_mul_exec(self.i_e, self.r_m));
        let num = sat_mul_exec(drive, dt);
        let wide: i128 = num as i128;
        let tw: i128 = self.tau_m as i128;
        let q: i128 = if wide >= 0 {
            wide / tw
        } else {
            -((-wide) / tw)
        };
        let delta: i64 = if q > i64::MAX as i128 {
            i64::MAX
        } else if q < i64::MIN as i128 {
            i64::MIN
        } else {
            q as i64
        };
        self.v = sat_add_exec(self.v, delta);
    }
}

/// The spikes among the first `i` of a drained batch that fall after
/// the refractory window: they wait in the buffer for their acting time.
pub open spec fn store_buf_upto(frames: Seq<Frame>, re: i64, i: int) -> Seq<PostSynDiracV>
    decreases i,
{
    if i <= 0 {
        Seq::<PostSynDiracV>::empty()
    } else {
        let prev = store_buf_upto(frames, re, i - 1);
        let s = frame_post_syn(frames[i - 1]);
        if s.t >= re {
            prev.push(s)
        } else {
            prev
        }
    }
}

/// The spikes among the first `i` of a drained batch that fall inside
/// the refractory window: they are void and act on nothing.
pub open spec fn store_void_upto(frames: Seq<Frame>, re: i64, rb: i64, i: int) -> Seq<PostSynDiracV>
    decreases i,
{
    if i <= 0 {
        Seq::<PostSynDiracV>::empty()
    } else {
        let prev = store_void_upto(frames, re, rb, i - 1);
        let s = frame_post_syn(frames[i - 1]);
        if !(s.t >= re) && s.t > rb {
            prev.push(s)
        } else {
            prev
        }
    }
}

/// The spikes among the first `i` of a drained batch that fall before
/// the last refractory period even began: they arrived out of order and
/// are recorded as errors.
pub open spec fn store_err_upto(frames: Seq<Frame>, re: i64, rb: i64, i: int) -> Seq<PostSynDiracV>
    decreases i,
{
    if i <= 0 {
        Seq::<PostSynDiracV>::empty()
    } else {
        let prev = store_err_upto(frames, re, rb, i - 1);
        let s = frame_post_syn(frames[i - 1]);
        if !(s.t >= re) && !(s.t > rb) {
            prev.push(s)
        } else {
            prev
        }
    }
}

/// Which bucket a buffered spike falls into when the neuron advances to
/// the window ending at `cutoff`: out-of-order (error), refractory
/// (void), acting now (acted), or still in the future (kept).
pub open spec fn dde_err(s: PostSynDiracV, rb: i64) -> bool {
    s.t <= rb
}

/// Whether a buffered spike is void for this window.
pub open spec fn dde_void(s: PostSynDiracV, rb: i64, re: i64) -> bool {
    !dde_err(s, rb) && s.t <= re
}

/// Whether a buffered spike acts in this window.
pub open spec fn dde_acted(s: PostSynDiracV, rb: i64, re: i64, cutoff: i64) -> bool {
    !dde_err(s, rb) && !dde_void(s, rb, re) && s.t <= cutoff
}

/// Whether a buffered spike stays buffered past this window.
pub open spec fn dde_kept(s: PostSynDiracV, rb: i64, re: i64, cutoff: i64) -> bool {
    !dde_err(s, rb) && !dde_void(s, rb, re) && !dde_acted(s, rb, re, cutoff)
}

/// The buffered spikes among the first `i` that satisfy the given
/// bucket: 0 keeps, 1 acts, 2 is void, 3 is error.
pub open spec fn dde_bucket_upto(buf: Seq<PostSynDiracV>, rb: i64, re: i64, cutoff: i64, which: int, i: int)
    -> Seq<PostSynDiracV>
    decreases i,
{
    if i <= 0 {
        Seq::<PostSynDiracV>::empty()
    } else {
        let prev = dde_bucket_upto(buf, rb, re, cutoff, which, i - 1);
        let s = buf[i - 1];
        let hit = if which == 0 {
            dde_kept(s, rb, re, cutoff)
        } else if which == 1 {
            dde_acted(s, rb, re, cutoff)
        } else if which == 2 {
            dde_void(s, rb, re)
        } else {
            dde_err(s, rb)
        };
        if hit {
            prev.push(s)
        } else {
            prev
        }
    }
}

/// The membrane voltage after the first `i` buffered spikes were
/// considered: each acting spike adds its voltage weighted by its
/// synaptic weight, saturating.
pub open spec fn dde_v_upto(buf: Seq<PostSynDiracV>, rb: i64, re: i64, cutoff: i64, v0: i64, i: int) -> i64
    decreases i,
{
    if i <= 0 {
        v0
    } else {
        let prev = dde_v_upto(buf, rb, re, cutoff, v0, i - 1);
        let s = buf[i - 1];
        if dde_acted(s, rb, re, cutoff) {
            sat_add(prev, sat_mul(s.v, s.w))
        } else {
            prev
        }
    }
}

/// The buffered spikes among the first `i` that fall inside a fresh
/// refractory period ending at `re`: they become void when the neuron
/// fires.
pub open spec fn rv_void_upto(buf: Seq<PostSynDiracV>, re: i64, i: int) -> Seq<PostSynDiracV>
    decreases i,
{
    if i <= 0 {
        Seq::<PostSynDiracV>::empty()
    } else {
        let prev = rv_void_upto(buf, re, i - 1);
        let s = buf[i - 1];
        if s.t < re {
            prev.push(s)
        } else {
            prev
        }
    }
}

/// The buffered spikes among the first `i` that survive a fresh
/// refractory period ending at `re`.
pub open spec fn rv_keep_upto(buf: Seq<PostSynDiracV>, re: i64, i: int) -> Seq<PostSynDiracV>
    decreases i,
{
    if i <= 0 {
        Seq::<PostSynDiracV>::empty()
    } else {
        let prev = rv_keep_upto(buf, re, i - 1);
        let s = buf[i - 1];
        if !(s.t < re) {
            prev.push(s)
        } else {
            prev
        }
    }
}

impl NeuronModel {
    /// Everything except the spike buffers is unchanged between two
    /// neuron states.
    pub open spec fn same_core(self, nxt: NeuronModel) -> bool {
        &&& nxt.id == self.id
        &&& nxt.v_rest == self.v_rest
        &&& nxt.r_m == self.r_m
        &&& nxt.tau_m == self.tau_m
        &&& nxt.tau_refrac == self.tau_refrac
        &&& nxt.v_th == self.v_th
        &&& nxt.i_e == self.i_e
        &&& nxt.device_in_dirac_v == self.device_in_dirac_v
        &&& nxt.post_syn_dirac_v == self.post_syn_dirac_v
        &&& nxt.out_dirac_v == self.out_dirac_v
    }

    /// How a state after `restore_void(refrac_end)` relates to the state
    /// before: buffered spikes inside the fresh refractory period moved
    /// to the void record, the others stayed, order kept, and nothing
    /// else changed.
    pub open spec fn restore_void_applied(self, nxt: NeuronModel, refrac_end: i64) -> bool {
        &&& self.same_core(nxt)
        &&& nxt.v == self.v
        &&& nxt.firing_history == self.firing_history
        &&& nxt.acted_dirac_v == self.acted_dirac_v
        &&& nxt.error_dirac_v == self.error_dirac_v
        &&& nxt.buffer_dirac_v@ == rv_keep_upto(
            self.buffer_dirac_v@,
            refrac_end,
            self.buffer_dirac_v@.len() as int,
        )
        &&& nxt.void_dirac_v@ == self.void_dirac_v@ + rv_void_upto(
            self.buffer_dirac_v@,
            refrac_end,
            self.buffer_dirac_v@.len() as int,
        )
    }

    /// How a state after `dirac_delta_evolve(begin, dt)` relates to the
    /// state before: the buffer partitioned into its four buckets, each
    /// in order, and the membrane voltage advanced by every acting
    /// spike.
    pub open spec fn dde_applied(self, nxt: NeuronModel, begin: i64, dt: i64) -> bool {
        let rb = self.spec_last_refrac_begin();
        let re = self.spec_last_refrac_end();
        let cutoff = sat_add(begin, dt);
        let n = self.buffer_dirac_v@.len() as int;
        &&& self.same_core(nxt)
        &&& nxt.firing_history == self.firing_history
        &&& nxt.buffer_dirac_v@ == dde_bucket_upto(self.buffer_dirac_v@, rb, re, cutoff, 0, n)
        &&& nxt.acted_dirac_v@ == self.acted_dirac_v@
            + dde_bucket_upto(self.buffer_dirac_v@, rb, re, cutoff, 1, n)
        &&& nxt.void_dirac_v@ == self.void_dirac_v@
            + dde_bucket_upto(self.buffer_dirac_v@, rb, re, cutoff, 2, n)
        &&& nxt.error_dirac_v@ == self.error_dirac_v@
            + dde_bucket_upto(self.buffer_dirac_v@, rb, re, cutoff, 3, n)
        &&& nxt.v == dde_v_upto(self.buffer_dirac_v@, rb, re, cutoff, self.v, n)
    }

    /// When a fresh refractory period opens, every buffered spike that
    /// falls inside it becomes void at once.
    pub fn restore_void(&mut self, refrac_end: i64)
        ensures
            old(self).restore_void_applied(*final(self), refrac_end),
    {
        let ghost buf0 = self.buffer_dirac_v@;
        let mut keep: Vec<PostSynDiracV> = Vec::new();
        let mut i: usize = 0;
        while i < self.buffer_dirac_v.len()
            invariant
                i <= buf0.len(),
                self.buffer_dirac_v@ == buf0,
                keep@ == rv_keep_upto(buf0, refrac_end, i as int),
                self.void_dirac_v@ == old(self).void_dirac_v@
                    + rv_void_upto(buf0, refrac_end, i as int),
                self.id == old(self).id,
                self.v == old(self).v,
                self.v_rest == old(self).v_rest,
                self.r_m == old(self).r_m,
                self.tau_m == old(self).tau_m,
                self.tau_refrac == old(self).tau_refrac,
                self.v_th == old(self).v_th,
                self.i_e == old(self).i_e,
                self.firing_history == old(self).firing_history,
                self.acted_dirac_v == old(self).acted_dirac_v,
                self.error_dirac_v == old(self).error_dirac_v,
                self.device_in_dirac_v == old(self).device_in_dirac_v,
                self.post_syn_dirac_v == old(self).post_syn_dirac_v,
                self.out_dirac_v == old(self).out_dirac_v,
            decreases buf0.len() - i,
        {
            let s = self.buffer_dirac_v[i];
            if s.t < refrac_end {
                self.void_dirac_v.push(s);
            } else {
                keep.push(s);
            }
            i = i + 1;
        }
        self.buffer_dirac_v = keep;
    }

    /// Advances the buffered spikes against the window ending at
    /// `begin + dt`: out-of-order spikes are recorded as errors, spikes
    /// inside the refractory window are void, spikes whose acting time
    /// has come act on the membrane voltage, and the rest stay buffered.
    pub fn dirac_delta_evolve(&mut self, begin: i64, dt: i64)
        ensures
            old(self).dde_applied(*final(self), begin, dt),
    {
        let ghost buf0 = self.buffer_dirac_v@;
        let rb = self.last_refrac_begin();
        let re = self.last_refrac_end();
        let cutoff = sat_add_exec(begin, dt);
        let mut keep: Vec<PostSynDiracV> = Vec::new();
        let mut i: usize = 0;
        while i < self.buffer_dirac_v.len()
            invariant
                i <= buf0.len(),
                self.buffer_dirac_v@ == buf0,
                rb == old(self).spec_last_refrac_begin(),
                re == old(self).spec_last_refrac_end(),
                cutoff == sat_add(begin, dt),
                keep@ == dde_bucket_upto(buf0, rb, re, cutoff, 0, i as int),
                self.acted_dirac_v@ == old(self).acted_dirac_v@
                    + dde_bucket_upto(buf0, rb, re, cutoff, 1, i as int),
                self.void_dirac_v@ == old(self).void_dirac_v@
                    + dde_bucket_upto(buf0, rb, re, cutoff, 2, i as int),
                self.error_dirac_v@ == old(self).error_dirac_v@
                    + dde_bucket_upto(buf0, rb, re, cutoff, 3, i as int),
                self.v == dde_v_upto(buf0, rb, re, cutoff, old(self).v, i as int),
                self.id == old(self).id,
                self.v_rest == old(self).v_rest,
                self.r_m == old(self).r_m,
                self.tau_m == old(self).tau_m,
                self.tau_refrac == old(self).tau_refrac,
                self.v_th == old(self).v_th,
                self.i_e == old(self).i_e,
                self.firing_history == old(self).firing_history,
                self.device_in_dirac_v == old(self).device_in_dirac_v,
                self.post_syn_dirac_v == old(self).post_syn_dirac_v,
                self.out_dirac_v == old(self).out_dirac_v,
            decreases buf0.len() - i,
        {
            let s = self.buffer_dirac_v[i];
            if s.t <= rb {
                self.error_dirac_v.push(s);
            } else if s.t <= re {
                self.void_dirac_v.push(s);
            } else if s.t <= cutoff {
                let w = sat_mul_exec(s.v, s.w);
                self.v = sat_add_exec(self.v, w);
                self.acted_dirac_v.push(s);
            } else {
                keep.push(s);
            }
            i = i + 1;
        }
        self.buffer_dirac_v = keep;
    }
}

impl NeuronModel {
    /// How a state after `store` of a drained batch relates to the state
    /// before: each spike bucketed against the refractory window, in
    /// arrival order, and nothing else changed.
    pub open spec fn store_applied(self, nxt: NeuronModel, frames: Seq<Frame>) -> bool {
        let re = self.spec_last_refrac_end();
        let rb = self.spec_last_refrac_begin();
        let n = frames.len() as int;
        &&& self.same_core(nxt)
        &&& nxt.v == self.v
        &&& nxt.firing_history == self.firing_history
        &&& nxt.acted_dirac_v == self.acted_dirac_v
        &&& nxt.buffer_dirac_v@ == self.buffer_dirac_v@ + store_buf_upto(frames, re, n)
        &&& nxt.void_dirac_v@ == self.void_dirac_v@ + store_void_upto(frames, re, rb, n)
        &&& nxt.error_dirac_v@ == self.error_dirac_v@ + store_err_upto(frames, re, rb, n)
    }

    /// Drains both fan-in collections — the simple fan-in first, then
    /// the two-way post-synaptic edges — and buckets every accepted
    /// spike against the refractory window: spikes after it wait in the
    /// buffer, spikes inside it are void, spikes from before it are
    /// recorded as errors.
    #[verifier::rlimit(50)]
    pub fn store(&mut self, hub: &mut Hub)
        requires
            old(self).wf(*old(hub)),
        ensures
            old(self).store_applied(
                *final(self),
                ins_accepted(old(self).device_in_dirac_v.entries@, *old(hub))
                    + backs_accepted(old(self).post_syn_dirac_v.entries@, *old(hub)),
            ),
            final(hub).slots == old(hub).slots,
            final(hub).n_linkers() == old(hub).n_linkers(),
            forall|l: int| 0 <= l < old(hub).n_linkers() && !old(self).owns_linker(l)
                ==> final(hub).lnk(l) == old(hub).lnk(l),
            forall|l: int| 0 <= l < old(hub).n_linkers() && outs_touch(old(self).out_dirac_v.targets@, l)
                ==> final(hub).lnk(l) == old(hub).lnk(l),
            forall|j: int| 0 <= j < old(self).post_syn_dirac_v.entries@.len()
                && (#[trigger] old(self).post_syn_dirac_v.entries@[j]).is_live()
                ==> final(hub).lnk(old(self).post_syn_dirac_v.entries@[j].linker as int).fwd_q()
                        == Seq::<Frame>::empty()
                    && final(hub).lnk(old(self).post_syn_dirac_v.entries@[j].linker as int).bwd
                        == old(hub).lnk(old(self).post_syn_dirac_v.entries@[j].linker as int).bwd
                    && final(hub).lnk(old(self).post_syn_dirac_v.entries@[j].linker as int).kind
                        == old(hub).lnk(old(self).post_syn_dirac_v.entries@[j].linker as int).kind,
            forall|j: int| 0 <= j < old(self).post_syn_dirac_v.entries@.len()
                && !(#[trigger] old(self).post_syn_dirac_v.entries@[j]).is_live()
                ==> final(hub).lnk(old(self).post_syn_dirac_v.entries@[j].linker as int)
                    == old(hub).lnk(old(self).post_syn_dirac_v.entries@[j].linker as int),
            forall|j: int| 0 <= j < old(self).device_in_dirac_v.entries@.len()
                && (#[trigger] old(self).device_in_dirac_v.entries@[j]).is_live()
                ==> final(hub).lnk(old(self).device_in_dirac_v.entries@[j].linker as int).fwd_q()
                    == Seq::<Frame>::empty(),
            final(self).wf(*final(hub)),
    {
        let ghost hub0 = *hub;
        let mut acc = self.device_in_dirac_v.ffw_accepted(hub);
        let ghost hub1 = *hub;
        proof {
            assert forall|j: int| 0 <= j < self.post_syn_dirac_v.entries@.len()
                implies hub.lnk((#[trigger] self.post_syn_dirac_v.entries@[j]).linker as int)
                    == hub0.lnk(self.post_syn_dirac_v.entries@[j].linker as int) by {
                assert(backs_touch(self.post_syn_dirac_v.entries@, self.post_syn_dirac_v.entries@[j].linker as int));
                assert(!ins_touch(old(self).device_in_dirac_v.entries@, self.post_syn_dirac_v.entries@[j].linker as int));
            }
            lemma_backs_accepted_congruence(
                self.post_syn_dirac_v.entries@,
                *hub,
                hub0,
                self.post_syn_dirac_v.entries@.len() as int,
            );
            assert forall|j: int| 0 <= j < self.out_dirac_v.targets@.len()
                implies hub.lnk((#[trigger] self.out_dirac_v.targets@[j]).linker as int)
                    == hub0.lnk(self.out_dirac_v.targets@[j].linker as int) by {
                assert(outs_touch(self.out_dirac_v.targets@, self.out_dirac_v.targets@[j].linker as int));
                assert(!ins_touch(old(self).device_in_dirac_v.entries@, self.out_dirac_v.targets@[j].linker as int));
            }
        }
        let mut acc2 = self.post_syn_dirac_v.ffw_accepted(hub);
        acc.append(&mut acc2);
        proof {
            assert forall|j: int| 0 <= j < old(self).device_in_dirac_v.entries@.len()
                implies hub.lnk((#[trigger] old(self).device_in_dirac_v.entries@[j]).linker as int)
                    == hub1.lnk(old(self).device_in_dirac_v.entries@[j].linker as int) by {
                assert(ins_touch(old(self).device_in_dirac_v.entries@, old(self).device_in_dirac_v.entries@[j].linker as int));
                assert(!backs_touch(old(self).post_syn_dirac_v.entries@, old(self).device_in_dirac_v.entries@[j].linker as int));
            }
            assert forall|j: int| 0 <= j < self.out_dirac_v.targets@.len()
                implies hub.lnk((#[trigger] self.out_dirac_v.targets@[j]).linker as int)
                    == hub1.lnk(self.out_dirac_v.targets@[j].linker as int) by {
                assert(outs_touch(self.out_dirac_v.targets@, self.out_dirac_v.targets@[j].linker as int));
                assert(!backs_touch(old(self).post_syn_dirac_v.entries@, self.out_dirac_v.targets@[j].linker as int));
            }
            assert(acc@ == ins_accepted(old(self).device_in_dirac_v.entries@, *old(hub))
                + backs_accepted(old(self).post_syn_dirac_v.entries@, *old(hub)));
        }
        let ghost total = acc@;
        let re = self.last_refrac_end();
        let rb = self.last_refrac_begin();
        let mut i: usize = 0;
        while i < acc.len()
            invariant
                i <= total.len(),
                acc@ == total,
                re == old(self).spec_last_refrac_end(),
                rb == old(self).spec_last_refrac_begin(),
                self.buffer_dirac_v@ == old(self).buffer_dirac_v@
                    + store_buf_upto(total, re, i as int),
                self.void_dirac_v@ == old(self).void_dirac_v@
                    + store_void_upto(total, re, rb, i as int),
                self.error_dirac_v@ == old(self).error_dirac_v@
                    + store_err_upto(total, re, rb, i as int),
                self.id == old(self).id,
                self.v == old(self).v,
                self.v_rest == old(self).v_rest,
                self.r_m == old(self).r_m,
                self.tau_m == old(self).tau_m,
                self.tau_refrac == old(self).tau_refrac,
                self.v_th == old(self).v_th,
                self.i_e == old(self).i_e,
                self.firing_history == old(self).firing_history,
                self.acted_dirac_v == old(self).acted_dirac_v,
                self.device_in_dirac_v == old(self).device_in_dirac_v,
                self.post_syn_dirac_v == old(self).post_syn_dirac_v,
                self.out_dirac_v == old(self).out_dirac_v,
            decreases total.len() - i,
        {
            let s = PostSynDiracV::from_frame(acc[i]);
            if s.t >= re {
                self.buffer_dirac_v.push(s);
            } else if s.t > rb {
                self.void_dirac_v.push(s);
            } else {
                self.error_dirac_v.push(s);
            }
            i = i + 1;
        }
    }
}

impl NeuronModel {
    /// How the neuron's own state after `fire(refrac_begin)` relates to
    /// the state before: the voltage resets to rest, a refractory period
    /// of length `tau_refrac` opens, and every buffered spike falling
    /// inside it becomes void.
    pub open spec fn fire_state_applied(self, nxt: NeuronModel, refrac_begin: i64) -> bool {
        let refrac_end = sat_add(refrac_begin, self.tau_refrac);
        let n = self.buffer_dirac_v@.len() as int;
        &&& self.same_core(nxt)
        &&& nxt.v == self.v_rest
        &&& nxt.firing_history@ == self.firing_history@.push(
            RefracDuration { begin: refrac_begin, end: refrac_end })
        &&& nxt.acted_dirac_v == self.acted_dirac_v
        &&& nxt.error_dirac_v == self.error_dirac_v
        &&& nxt.buffer_dirac_v@ == rv_keep_upto(self.buffer_dirac_v@, refrac_end, n)
        &&& nxt.void_dirac_v@ == self.void_dirac_v@ + rv_void_upto(self.buffer_dirac_v@, refrac_end, n)
    }

    /// Fires the neuron at `refrac_begin`: resets the voltage, opens a
    /// refractory period, voids the spikes it covers, and pushes a spike
    /// to every outgoing edge and the firing time backward on every
    /// two-way fan-in edge, best-effort and independent per edge.
    #[verifier::rlimit(50)]
    pub fn fire(&mut self, hub: &mut Hub, refrac_begin: i64)
        requires
            old(self).wf(*old(hub)),
        ensures
            old(self).fire_state_applied(*final(self), refrac_begin),
            final(hub).slots == old(hub).slots,
            final(hub).n_linkers() == old(hub).n_linkers(),
            forall|l: int| 0 <= l < old(hub).n_linkers() && !old(self).owns_linker(l)
                ==> final(hub).lnk(l) == old(hub).lnk(l),
            forall|l: int| 0 <= l < old(hub).n_linkers()
                && ins_touch(old(self).device_in_dirac_v.entries@, l)
                ==> final(hub).lnk(l) == old(hub).lnk(l),
            forall|j: int| 0 <= j < old(self).out_dirac_v.targets@.len()
                && (#[trigger] old(self).out_dirac_v.targets@[j]).delivers(*old(hub))
                ==> final(hub).lnk(old(self).out_dirac_v.targets@[j].linker as int).fwd_q()
                    == old(hub).lnk(old(self).out_dirac_v.targets@[j].linker as int).fwd_q()
                        .push(pre_syn_frame(PreSynDiracV { v: old(self).v_th, t: refrac_begin })),
            forall|j: int| 0 <= j < old(self).out_dirac_v.targets@.len()
                && !(#[trigger] old(self).out_dirac_v.targets@[j]).delivers(*old(hub))
                ==> final(hub).lnk(old(self).out_dirac_v.targets@[j].linker as int)
                    == old(hub).lnk(old(self).out_dirac_v.targets@[j].linker as int),
            forall|j: int| 0 <= j < old(self).post_syn_dirac_v.entries@.len()
                && (#[trigger] old(self).post_syn_dirac_v.entries@[j]).delivers_back(*old(hub))
                ==> final(hub).lnk(old(self).post_syn_dirac_v.entries@[j].linker as int).bwd_q()
                    == old(hub).lnk(old(self).post_syn_dirac_v.entries@[j].linker as int).bwd_q()
                        .push((refrac_begin, 0, 0)),
            forall|j: int| 0 <= j < old(self).post_syn_dirac_v.entries@.len()
                && !(#[trigger] old(self).post_syn_dirac_v.entries@[j]).delivers_back(*old(hub))
                ==> final(hub).lnk(old(self).post_syn_dirac_v.entries@[j].linker as int)
                    == old(hub).lnk(old(self).post_syn_dirac_v.entries@[j].linker as int),
            final(self).wf(*final(hub)),
    {
        let refrac_end = sat_add_exec(refrac_begin, self.tau_refrac);
        self.v = self.v_rest;
        self.firing_history.push(RefracDuration { begin: refrac_begin, end: refrac_end });
        self.restore_void(refrac_end);
        let spike = PreSynDiracV { v: self.v_th, t: refrac_begin };
        let _ = self.out_dirac_v.feedforward(hub, spike.to_frame());
        let ghost hub1 = *hub;
        proof {
            assert forall|j: int| 0 <= j < self.post_syn_dirac_v.entries@.len()
                implies hub.lnk((#[trigger] self.post_syn_dirac_v.entries@[j]).linker as int)
                    == old(hub).lnk(self.post_syn_dirac_v.entries@[j].linker as int) by {
                assert(backs_touch(self.post_syn_dirac_v.entries@, self.post_syn_dirac_v.entries@[j].linker as int));
                assert(!outs_touch(self.out_dirac_v.targets@, self.post_syn_dirac_v.entries@[j].linker as int));
            }
        }
        let _ = self.post_syn_dirac_v.feedbackward(hub, (refrac_begin, 0, 0));
        proof {
            assert forall|j: int| 0 <= j < self.out_dirac_v.targets@.len()
                implies hub.lnk((#[trigger] self.out_dirac_v.targets@[j]).linker as int)
                    == hub1.lnk(self.out_dirac_v.targets@[j].linker as int) by {
                assert(outs_touch(self.out_dirac_v.targets@, self.out_dirac_v.targets@[j].linker as int));
                assert(!backs_touch(self.post_syn_dirac_v.entries@, self.out_dirac_v.targets@[j].linker as int));
            }
        }
    }

    /// How a whole generation relates the neuron's state before and
    /// after: the drained batch is stored, and, if the generation begins
    /// after the refractory window, the membrane leaks, the buffered
    /// spikes act, and a threshold crossing fires the neuron.
    pub open spec fn evolve_applied(self, nxt: NeuronModel, frames: Seq<Frame>, dt: i64, begin: i64, fired: bool) -> bool {
        exists|s1: NeuronModel|
            #[trigger] self.store_applied(s1, frames)
            && if begin > s1.spec_last_refrac_end() {
                exists|s3: NeuronModel|
                    #[trigger] s1.leaked(dt).dde_applied(s3, begin, dt)
                    && if s3.v > s3.v_th {
                        fired && s3.fire_state_applied(nxt, begin)
                    } else {
                        !fired && nxt == s3
                    }
            } else {
                !fired && nxt == s1
            }
    }

    /// One clock-driven generation: stores everything queued on the
    /// fan-ins and, outside the refractory window, advances the membrane
    /// and fires on a threshold crossing. `Fired::Y` exactly when the
    /// neuron crossed threshold and reset this generation.
    #[verifier::rlimit(100)]
    pub fn evolve(&mut self, hub: &mut Hub, dt: i64, begin: i64) -> (f: Fired)
        requires
            old(self).wf(*old(hub)),
        ensures
            old(self).evolve_applied(
                *final(self),
                ins_accepted(old(self).device_in_dirac_v.entries@, *old(hub))
                    + backs_accepted(old(self).post_syn_dirac_v.entries@, *old(hub)),
                dt,
                begin,
                f is Y,
            ),
            final(hub).slots == old(hub).slots,
            final(hub).n_linkers() == old(hub).n_linkers(),
            forall|l: int| 0 <= l < old(hub).n_linkers() && !old(self).owns_linker(l)
                ==> final(hub).lnk(l) == old(hub).lnk(l),
            forall|j: int| 0 <= j < old(self).device_in_dirac_v.entries@.len()
                && (#[trigger] old(self).device_in_dirac_v.entries@[j]).is_live()
                ==> final(hub).lnk(old(self).device_in_dirac_v.entries@[j].linker as int).fwd_q()
                    == Seq::<Frame>::empty(),
            f is N ==> forall|j: int| 0 <= j < old(self).out_dirac_v.targets@.len()
                ==> final(hub).lnk((#[trigger] old(self).out_dirac_v.targets@[j]).linker as int)
                    == old(hub).lnk(old(self).out_dirac_v.targets@[j].linker as int),
            f is Y ==> forall|j: int| 0 <= j < old(self).out_dirac_v.targets@.len()
                && (#[trigger] old(self).out_dirac_v.targets@[j]).delivers(*old(hub))
                ==> final(hub).lnk(old(self).out_dirac_v.targets@[j].linker as int).fwd_q()
                    == old(hub).lnk(old(self).out_dirac_v.targets@[j].linker as int).fwd_q()
                        .push(pre_syn_frame(PreSynDiracV { v: old(self).v_th, t: begin })),
            final(self).wf(*final(hub)),
    {
        let ghost self0 = *self;
        self.store(hub);
        let ghost s1 = *self;
        let ghost hub_store = *hub;
        let re = self.last_refrac_end();
        let f = if begin > re {
            self.continuous_evolve(dt);
            let ghost s2 = *self;
            self.dirac_delta_evolve(begin, dt);
            let ghost s3 = *self;
            if self.v > self.v_th {
                self.fire(hub, begin);
                proof {
                    assert(self0.store_applied(s1, ins_accepted(self0.device_in_dirac_v.entries@, *old(hub))
                        + backs_accepted(self0.post_syn_dirac_v.entries@, *old(hub))));
                    assert(s2 == s1.leaked(dt));
                    assert(s1.leaked(dt).dde_applied(s3, begin, dt));
                }
                Fired::Y
            } else {
                proof {
                    assert(self0.store_applied(s1, ins_accepted(self0.device_in_dirac_v.entries@, *old(hub))
                        + backs_accepted(self0.post_syn_dirac_v.entries@, *old(hub))));
                    assert(s2 == s1.leaked(dt));
                    assert(s1.leaked(dt).dde_applied(s3, begin, dt));
                }
                Fired::N
            }
        } else {
            proof {
                assert(self0.store_applied(s1, ins_accepted(self0.device_in_dirac_v.entries@, *old(hub))
                    + backs_accepted(self0.post_syn_dirac_v.entries@, *old(hub))));
            }
            Fired::N
        };
        proof {
            assert forall|l: int| 0 <= l < old(hub).n_linkers() && !old(self).owns_linker(l)
                implies hub.lnk(l) == old(hub).lnk(l) by {
                assert(!self0.owns_linker(l));
                assert(hub_store.lnk(l) == old(hub).lnk(l));
            }
            assert forall|j: int| 0 <= j < old(self).device_in_dirac_v.entries@.len()
                && (#[trigger] old(self).device_in_dirac_v.entries@[j]).is_live()
                implies hub.lnk(old(self).device_in_dirac_v.entries@[j].linker as int).fwd_q()
                    == Seq::<Frame>::empty() by {
                assert(ins_touch(self0.device_in_dirac_v.entries@, old(self).device_in_dirac_v.entries@[j].linker as int));
                assert(hub.lnk(old(self).device_in_dirac_v.entries@[j].linker as int)
                    == hub_store.lnk(old(self).device_in_dirac_v.entries@[j].linker as int));
            }
            if f is Y {
                assert forall|j: int| 0 <= j < old(self).out_dirac_v.targets@.len()
                    && (#[trigger] old(self).out_dirac_v.targets@[j]).delivers(*old(hub))
                    implies hub.lnk(old(self).out_dirac_v.targets@[j].linker as int).fwd_q()
                        == old(hub).lnk(old(self).out_dirac_v.targets@[j].linker as int).fwd_q()
                            .push(pre_syn_frame(PreSynDiracV { v: old(self).v_th, t: begin })) by {
                    assert(hub_store.lnk(old(self).out_dirac_v.targets@[j].linker as int)
                        == old(hub).lnk(old(self).out_dirac_v.targets@[j].linker as int));
                    assert(old(self).out_dirac_v.targets@[j].delivers(hub_store));
                }
            } else {
                assert forall|j: int| 0 <= j < old(self).out_dirac_v.targets@.len()
                    implies hub.lnk((#[trigger] old(self).out_dirac_v.targets@[j]).linker as int)
                        == old(hub).lnk(old(self).out_dirac_v.targets@[j].linker as int) by {
                    assert(outs_touch(self0.out_dirac_v.targets@, old(self).out_dirac_v.targets@[j].linker as int));
                    assert(hub_store.lnk(old(self).out_dirac_v.targets@[j].linker as int)
                        == old(hub).lnk(old(self).out_dirac_v.targets@[j].linker as int));
                }
            }
        }
        f
    }

    /// Registers one incoming one-way edge. The edge must bring a linker
    /// this neuron does not already use.
    pub fn add(&mut self, target: usize, linker: usize)
        requires
            !old(self).owns_linker(linker as int),
        ensures
            *final(self) == (NeuronModel {
                device_in_dirac_v: MultiInComponent {
                    mode: old(self).device_in_dirac_v.mode,
                    entries: final(self).device_in_dirac_v.entries,
                },
                ..*old(self)
            }),
            final(self).device_in_dirac_v.entries@ == old(self).device_in_dirac_v.entries@.push(
                crate::simple_joint::InSet {
                    target,
                    linker,
                    channels: crate::operation::DeviceMode::Idle,
                }),
    {
        self.device_in_dirac_v.add(target, linker);
    }

    /// Registers one incoming two-way edge from an active generator.
    pub fn add_active(&mut self, target: usize, linker: usize)
        requires
            !old(self).owns_linker(linker as int),
        ensures
            *final(self) == (NeuronModel {
                post_syn_dirac_v: NeuronPostSynComponent {
                    mode: old(self).post_syn_dirac_v.mode,
                    entries: final(self).post_syn_dirac_v.entries,
                },
                ..*old(self)
            }),
            final(self).post_syn_dirac_v.entries@ == old(self).post_syn_dirac_v.entries@.push(
                crate::post_syn_joint::PostSynBackJoint {
                    target,
                    target_kind: crate::operation::TargetKind::Active,
                    linker,
                    channels: crate::operation::DeviceMode::Idle,
                }),
    {
        self.post_syn_dirac_v.add_active(target, linker);
    }

    /// Registers one incoming two-way edge from a passive generator.
    pub fn add_passive(&mut self, target: usize, linker: usize)
        requires
            !old(self).owns_linker(linker as int),
        ensures
            *final(self) == (NeuronModel {
                post_syn_dirac_v: NeuronPostSynComponent {
                    mode: old(self).post_syn_dirac_v.mode,
                    entries: final(self).post_syn_dirac_v.entries,
                },
                ..*old(self)
            }),
            final(self).post_syn_dirac_v.entries@ == old(self).post_syn_dirac_v.entries@.push(
                crate::post_syn_joint::PostSynBackJoint {
                    target,
                    target_kind: crate::operation::TargetKind::Passive,
                    linker,
                    channels: crate::operation::DeviceMode::Idle,
                }),
    {
        self.post_syn_dirac_v.add_passive(target, linker);
    }

    /// Registers one outgoing edge towards an active acceptor.
    pub fn add_active_target(&mut self, target: usize, linker: usize)
        requires
            !old(self).owns_linker(linker as int),
        ensures
            *final(self) == (NeuronModel {
                out_dirac_v: MultiOutComponent {
                    mode: old(self).out_dirac_v.mode,
                    targets: final(self).out_dirac_v.targets,
                },
                ..*old(self)
            }),
            final(self).out_dirac_v.targets@ == old(self).out_dirac_v.targets@.push(
                crate::simple_joint::OutSet {
                    target,
                    target_kind: crate::operation::TargetKind::Active,
                    linker,
                    channels: crate::operation::DeviceMode::Idle,
                }),
    {
        self.out_dirac_v.add_active_target(target, linker);
    }

    /// Registers one outgoing edge towards a passive acceptor.
    pub fn add_passive_target(&mut self, target: usize, linker: usize)
        requires
            !old(self).owns_linker(linker as int),
        ensures
            *final(self) == (NeuronModel {
                out_dirac_v: MultiOutComponent {
                    mode: old(self).out_dirac_v.mode,
                    targets: final(self).out_dirac_v.targets,
                },
                ..*old(self)
            }),
            final(self).out_dirac_v.targets@ == old(self).out_dirac_v.targets@.push(
                crate::simple_joint::OutSet {
                    target,
                    target_kind: crate::operation::TargetKind::Passive,
                    linker,
                    channels: crate::operation::DeviceMode::Idle,
                }),
    {
        self.out_dirac_v.add_passive_target(target, linker);
    }

    /// First configuration phase: propagates the requested mode to every
    /// owned fan collection. `Idle` tears down every materialized channel
    /// at once; a running mode only records the wish on each edge's
    /// linker.
    #[verifier::rlimit(50)]
    pub fn config_mode(&mut self, hub: &mut Hub, mode: RunMode)
        requires
            old(self).wf(*old(hub)),
        ensures
            final(self).id == old(self).id,
            final(self).v == old(self).v,
            final(self).firing_history == old(self).firing_history,
            final(self).buffer_dirac_v == old(self).buffer_dirac_v,
            final(self).out_dirac_v.mode == mode,
            final(self).post_syn_dirac_v.mode == mode,
            final(self).device_in_dirac_v.mode == mode,
            final(self).out_dirac_v.targets@.len() == old(self).out_dirac_v.targets@.len(),
            final(self).post_syn_dirac_v.entries@.len() == old(self).post_syn_dirac_v.entries@.len(),
            final(self).device_in_dirac_v.entries@.len() == old(self).device_in_dirac_v.entries@.len(),
            forall|j: int| 0 <= j < old(self).out_dirac_v.targets@.len()
                ==> (#[trigger] final(self).out_dirac_v.targets@[j]).target == old(self).out_dirac_v.targets@[j].target
                    && final(self).out_dirac_v.targets@[j].target_kind == old(self).out_dirac_v.targets@[j].target_kind
                    && final(self).out_dirac_v.targets@[j].linker == old(self).out_dirac_v.targets@[j].linker,
            forall|j: int| 0 <= j < old(self).post_syn_dirac_v.entries@.len()
                ==> (#[trigger] final(self).post_syn_dirac_v.entries@[j]).target == old(self).post_syn_dirac_v.entries@[j].target
                    && final(self).post_syn_dirac_v.entries@[j].target_kind == old(self).post_syn_dirac_v.entries@[j].target_kind
                    && final(self).post_syn_dirac_v.entries@[j].linker == old(self).post_syn_dirac_v.entries@[j].linker,
            forall|j: int| 0 <= j < old(self).device_in_dirac_v.entries@.len()
                ==> (#[trigger] final(self).device_in_dirac_v.entries@[j]).target == old(self).device_in_dirac_v.entries@[j].target
                    && final(self).device_in_dirac_v.entries@[j].linker == old(self).device_in_dirac_v.entries@[j].linker,
            final(hub).slots == old(hub).slots,
            final(hub).n_linkers() == old(hub).n_linkers(),
            final(hub).n_agents() == old(hub).n_agents(),
            forall|l: int| 0 <= l < old(hub).n_linkers() && !old(self).owns_linker(l)
                ==> final(hub).lnk(l) == old(hub).lnk(l),
            mode is Idle ==> (forall|j: int| 0 <= j < old(self).out_dirac_v.targets@.len()
                ==> !(#[trigger] final(self).out_dirac_v.targets@[j]).is_live()),
            mode is Idle ==> (forall|j: int| 0 <= j < old(self).post_syn_dirac_v.entries@.len()
                ==> !(#[trigger] final(self).post_syn_dirac_v.entries@[j]).is_live()),
            mode is Idle ==> (forall|j: int| 0 <= j < old(self).device_in_dirac_v.entries@.len()
                ==> !(#[trigger] final(self).device_in_dirac_v.entries@[j]).is_live()),
            mode.is_running() ==> (forall|j: int| 0 <= j < old(self).out_dirac_v.targets@.len()
                ==> (#[trigger] final(hub).lnk(old(self).out_dirac_v.targets@[j].linker as int))
                    == (crate::linker::Linker {
                        pre_mode: mode,
                        ..old(hub).lnk(old(self).out_dirac_v.targets@[j].linker as int)
                    })),
            mode.is_running() ==> (forall|j: int| 0 <= j < old(self).post_syn_dirac_v.entries@.len()
                ==> (#[trigger] final(hub).lnk(old(self).post_syn_dirac_v.entries@[j].linker as int))
                    == (crate::linker::Linker {
                        post_mode: mode,
                        ..old(hub).lnk(old(self).post_syn_dirac_v.entries@[j].linker as int)
                    })),
            mode.is_running() ==> (forall|j: int| 0 <= j < old(self).device_in_dirac_v.entries@.len()
                ==> (#[trigger] final(hub).lnk(old(self).device_in_dirac_v.entries@[j].linker as int))
                    == (crate::linker::Linker {
                        post_mode: mode,
                        ..old(hub).lnk(old(self).device_in_dirac_v.entries@[j].linker as int)
                    })),
            final(self).wf(*final(hub)),
    {
        let ghost hub0 = *hub;
        self.post_syn_dirac_v.config_mode(hub, mode);
        let ghost hub1 = *hub;
        proof {
            assert forall|j: int| 0 <= j < self.device_in_dirac_v.entries@.len()
                implies hub.lnk((#[trigger] self.device_in_dirac_v.entries@[j]).linker as int)
                    == hub0.lnk(self.device_in_dirac_v.entries@[j].linker as int) by {
                assert(ins_touch(self.device_in_dirac_v.entries@, self.device_in_dirac_v.entries@[j].linker as int));
                assert(!backs_touch(old(self).post_syn_dirac_v.entries@, self.device_in_dirac_v.entries@[j].linker as int));
            }
            assert forall|j: int| 0 <= j < self.out_dirac_v.targets@.len()
                implies hub.lnk((#[trigger] self.out_dirac_v.targets@[j]).linker as int)
                    == hub0.lnk(self.out_dirac_v.targets@[j].linker as int) by {
                assert(outs_touch(self.out_dirac_v.targets@, self.out_dirac_v.targets@[j].linker as int));
                assert(!backs_touch(old(self).post_syn_dirac_v.entries@, self.out_dirac_v.targets@[j].linker as int));
            }
        }
        self.device_in_dirac_v.config_mode(hub, mode);
        let ghost hub2 = *hub;
        proof {
            assert forall|j: int| 0 <= j < self.out_dirac_v.targets@.len()
                implies hub.lnk((#[trigger] self.out_dirac_v.targets@[j]).linker as int)
                    == hub1.lnk(self.out_dirac_v.targets@[j].linker as int) by {
                assert(outs_touch(self.out_dirac_v.targets@, self.out_dirac_v.targets@[j].linker as int));
                assert(!ins_touch(old(self).device_in_dirac_v.entries@, self.out_dirac_v.targets@[j].linker as int));
            }
        }
        self.out_dirac_v.config_mode(hub, mode);
        proof {
            assert forall|j: int| 0 <= j < old(self).post_syn_dirac_v.entries@.len()
                implies hub.lnk((#[trigger] old(self).post_syn_dirac_v.entries@[j]).linker as int)
                    == hub1.lnk(old(self).post_syn_dirac_v.entries@[j].linker as int) by {
                assert(backs_touch(old(self).post_syn_dirac_v.entries@, old(self).post_syn_dirac_v.entries@[j].linker as int));
                assert(!ins_touch(old(self).device_in_dirac_v.entries@, old(self).post_syn_dirac_v.entries@[j].linker as int));
                assert(!outs_touch(old(self).out_dirac_v.targets@, old(self).post_syn_dirac_v.entries@[j].linker as int));
            }
            assert forall|j: int| 0 <= j < old(self).device_in_dirac_v.entries@.len()
                implies hub.lnk((#[trigger] old(self).device_in_dirac_v.entries@[j]).linker as int)
                    == hub2.lnk(old(self).device_in_dirac_v.entries@[j].linker as int) by {
                assert(ins_touch(old(self).device_in_dirac_v.entries@, old(self).device_in_dirac_v.entries@[j].linker as int));
                assert(!outs_touch(old(self).out_dirac_v.targets@, old(self).device_in_dirac_v.entries@[j].linker as int));
            }
            assert forall|l: int| #[trigger] outs_touch(self.out_dirac_v.targets@, l)
                implies outs_touch(old(self).out_dirac_v.targets@, l) by {
                let j = choose|j: int| 0 <= j < self.out_dirac_v.targets@.len()
                    && (#[trigger] self.out_dirac_v.targets@[j]).linker == l;
                assert(old(self).out_dirac_v.targets@[j].linker == l);
            }
            assert forall|l: int| #[trigger] backs_touch(self.post_syn_dirac_v.entries@, l)
                implies backs_touch(old(self).post_syn_dirac_v.entries@, l) by {
                let j = choose|j: int| 0 <= j < self.post_syn_dirac_v.entries@.len()
                    && (#[trigger] self.post_syn_dirac_v.entries@[j]).linker == l;
                assert(old(self).post_syn_dirac_v.entries@[j].linker == l);
            }
            assert forall|l: int| #[trigger] ins_touch(self.device_in_dirac_v.entries@, l)
                implies ins_touch(old(self).device_in_dirac_v.entries@, l) by {
                let j = choose|j: int| 0 <= j < self.device_in_dirac_v.entries@.len()
                    && (#[trigger] self.device_in_dirac_v.entries@[j]).linker == l;
                assert(old(self).device_in_dirac_v.entries@[j].linker == l);
            }
        }
    }

    /// Second configuration phase: asks every owned edge's linker to
    /// materialize its channels. `Ok` exactly when `config_mode` had run
    /// on every edge first; `NotConfigured` otherwise, with every
    /// already-configured edge still materialized.
    #[verifier::rlimit(50)]
    pub fn config_channels(&mut self, hub: &mut Hub) -> (r: Result<(), OpError>)
        requires
            old(self).wf(*old(hub)),
        ensures
            final(self).id == old(self).id,
            final(self).v == old(self).v,
            final(self).firing_history == old(self).firing_history,
            final(self).buffer_dirac_v == old(self).buffer_dirac_v,
            final(self).out_dirac_v.mode == old(self).out_dirac_v.mode,
            final(self).post_syn_dirac_v.mode == old(self).post_syn_dirac_v.mode,
            final(self).device_in_dirac_v.mode == old(self).device_in_dirac_v.mode,
            final(self).out_dirac_v.targets@.len() == old(self).out_dirac_v.targets@.len(),
            final(self).post_syn_dirac_v.entries@.len() == old(self).post_syn_dirac_v.entries@.len(),
            final(self).device_in_dirac_v.entries@.len() == old(self).device_in_dirac_v.entries@.len(),
            forall|j: int| 0 <= j < old(self).out_dirac_v.targets@.len()
                ==> (#[trigger] final(self).out_dirac_v.targets@[j]).target == old(self).out_dirac_v.targets@[j].target
                    && final(self).out_dirac_v.targets@[j].target_kind == old(self).out_dirac_v.targets@[j].target_kind
                    && final(self).out_dirac_v.targets@[j].linker == old(self).out_dirac_v.targets@[j].linker,
            forall|j: int| 0 <= j < old(self).post_syn_dirac_v.entries@.len()
                ==> (#[trigger] final(self).post_syn_dirac_v.entries@[j]).target == old(self).post_syn_dirac_v.entries@[j].target
                    && final(self).post_syn_dirac_v.entries@[j].target_kind == old(self).post_syn_dirac_v.entries@[j].target_kind
                    && final(self).post_syn_dirac_v.entries@[j].linker == old(self).post_syn_dirac_v.entries@[j].linker,
            forall|j: int| 0 <= j < old(self).device_in_dirac_v.entries@.len()
                ==> (#[trigger] final(self).device_in_dirac_v.entries@[j]).target == old(self).device_in_dirac_v.entries@[j].target
                    && final(self).device_in_dirac_v.entries@[j].linker == old(self).device_in_dirac_v.entries@[j].linker,
            final(hub).slots == old(hub).slots,
            final(hub).n_linkers() == old(hub).n_linkers(),
            final(hub).n_agents() == old(hub).n_agents(),
            forall|l: int| 0 <= l < old(hub).n_linkers() && !old(self).owns_linker(l)
                ==> final(hub).lnk(l) == old(hub).lnk(l),
            (r is Ok <==> (forall|j: int| 0 <= j < old(self).out_dirac_v.targets@.len()
                    ==> (#[trigger] old(hub).lnk(old(self).out_dirac_v.targets@[j].linker as int))
                        .pre_mode.is_running())
                && (forall|j: int| 0 <= j < old(self).post_syn_dirac_v.entries@.len()
                    ==> (#[trigger] old(hub).lnk(old(self).post_syn_dirac_v.entries@[j].linker as int))
                        .post_mode.is_running())
                && (forall|j: int| 0 <= j < old(self).device_in_dirac_v.entries@.len()
                    ==> (#[trigger] old(hub).lnk(old(self).device_in_dirac_v.entries@[j].linker as int))
                        .post_mode.is_running())),
            r is Err ==> r == Err::<(), OpError>(OpError::NotConfigured),
            r is Ok ==> (forall|j: int| 0 <= j < old(self).out_dirac_v.targets@.len()
                ==> (#[trigger] final(self).out_dirac_v.targets@[j]).is_live()),
            r is Ok ==> (forall|j: int| 0 <= j < old(self).out_dirac_v.targets@.len()
                ==> (#[trigger] final(hub).lnk(old(self).out_dirac_v.targets@[j].linker as int))
                    .materialized_from(old(hub).lnk(old(self).out_dirac_v.targets@[j].linker as int))),
            r is Ok ==> (forall|j: int| 0 <= j < old(self).post_syn_dirac_v.entries@.len()
                ==> (#[trigger] final(self).post_syn_dirac_v.entries@[j]).is_live()),
            r is Ok ==> (forall|j: int| 0 <= j < old(self).post_syn_dirac_v.entries@.len()
                ==> (#[trigger] final(hub).lnk(old(self).post_syn_dirac_v.entries@[j].linker as int))
                    .materialized_from(old(hub).lnk(old(self).post_syn_dirac_v.entries@[j].linker as int))),
            r is Ok ==> (forall|j: int| 0 <= j < old(self).device_in_dirac_v.entries@.len()
                ==> (#[trigger] final(self).device_in_dirac_v.entries@[j]).is_live()),
            r is Ok ==> (forall|j: int| 0 <= j < old(self).device_in_dirac_v.entries@.len()
                ==> (#[trigger] final(hub).lnk(old(self).device_in_dirac_v.entries@[j].linker as int))
                    .materialized_from(old(hub).lnk(old(self).device_in_dirac_v.entries@[j].linker as int))),
            final(self).wf(*final(hub)),
    {
        let ghost hub0 = *hub;
        let r1 = self.post_syn_dirac_v.config_channels(hub);
        let ghost hub1 = *hub;
        proof {
            assert forall|j: int| 0 <= j < self.device_in_dirac_v.entries@.len()
                implies hub.lnk((#[trigger] self.device_in_dirac_v.entries@[j]).linker as int)
                    == hub0.lnk(self.device_in_dirac_v.entries@[j].linker as int) by {
                assert(ins_touch(self.device_in_dirac_v.entries@, self.device_in_dirac_v.entries@[j].linker as int));
                assert(!backs_touch(old(self).post_syn_dirac_v.entries@, self.device_in_dirac_v.entries@[j].linker as int));
            }
            assert forall|j: int| 0 <= j < self.out_dirac_v.targets@.len()
                implies hub.lnk((#[trigger] self.out_dirac_v.targets@[j]).linker as int)
                    == hub0.lnk(self.out_dirac_v.targets@[j].linker as int) by {
                assert(outs_touch(self.out_dirac_v.targets@, self.out_dirac_v.targets@[j].linker as int));
                assert(!backs_touch(old(self).post_syn_dirac_v.entries@, self.out_dirac_v.targets@[j].linker as int));
            }
        }
        let r2 = self.device_in_dirac_v.config_channels(hub);
        let ghost hub2 = *hub;
        proof {
            assert forall|j: int| 0 <= j < self.out_dirac_v.targets@.len()
                implies hub.lnk((#[trigger] self.out_dirac_v.targets@[j]).linker as int)
                    == hub1.lnk(self.out_dirac_v.targets@[j].linker as int) by {
                assert(outs_touch(self.out_dirac_v.targets@, self.out_dirac_v.targets@[j].linker as int));
                assert(!ins_touch(old(self).device_in_dirac_v.entries@, self.out_dirac_v.targets@[j].linker as int));
            }
        }
        let r3 = self.out_dirac_v.config_channels(hub);
        proof {
            assert forall|j: int| 0 <= j < old(self).post_syn_dirac_v.entries@.len()
                implies hub.lnk((#[trigger] old(self).post_syn_dirac_v.entries@[j]).linker as int)
                    == hub1.lnk(old(self).post_syn_dirac_v.entries@[j].linker as int) by {
                assert(backs_touch(old(self).post_syn_dirac_v.entries@, old(self).post_syn_dirac_v.entries@[j].linker as int));
                assert(!ins_touch(old(self).device_in_dirac_v.entries@, old(self).post_syn_dirac_v.entries@[j].linker as int));
                assert(!outs_touch(old(self).out_dirac_v.targets@, old(self).post_syn_dirac_v.entries@[j].linker as int));
            }
            assert forall|j: int| 0 <= j < old(self).device_in_dirac_v.entries@.len()
                implies hub.lnk((#[trigger] old(self).device_in_dirac_v.entries@[j]).linker as int)
                    == hub2.lnk(old(self).device_in_dirac_v.entries@[j].linker as int) by {
                assert(ins_touch(old(self).device_in_dirac_v.entries@, old(self).device_in_dirac_v.entries@[j].linker as int));
                assert(!outs_touch(old(self).out_dirac_v.targets@, old(self).device_in_dirac_v.entries@[j].linker as int));
            }
            assert forall|l: int| #[trigger] outs_touch(self.out_dirac_v.targets@, l)
                implies outs_touch(old(self).out_dirac_v.targets@, l) by {
                let j = choose|j: int| 0 <= j < self.out_dirac_v.targets@.len()
                    && (#[trigger] self.out_dirac_v.targets@[j]).linker == l;
                assert(old(self).out_dirac_v.targets@[j].linker == l);
            }
            assert forall|l: int| #[trigger] backs_touch(self.post_syn_dirac_v.entries@, l)
                implies backs_touch(old(self).post_syn_dirac_v.entries@, l) by {
                let j = choose|j: int| 0 <= j < self.post_syn_dirac_v.entries@.len()
                    && (#[trigger] self.post_syn_dirac_v.entries@[j]).linker == l;
                assert(old(self).post_syn_dirac_v.entries@[j].linker == l);
            }
            assert forall|l: int| #[trigger] ins_touch(self.device_in_dirac_v.entries@, l)
                implies ins_touch(old(self).device_in_dirac_v.entries@, l) by {
                let j = choose|j: int| 0 <= j < self.device_in_dirac_v.entries@.len()
                    && (#[trigger] self.device_in_dirac_v.entries@[j]).linker == l;
                assert(old(self).device_in_dirac_v.entries@[j].linker == l);
            }
        }
        if r1.is_err() || r2.is_err() || r3.is_err() {
            Err(OpError::NotConfigured)
        } else {
            Ok(())
        }
    }


    /// The scheduler handles of every edge towards a passive peer, from
    /// the fan-out first and the two-way fan-in second, one outcome per
    /// edge in registration order.
    pub fn passive_sync_chs_sets(&self, hub: &Hub) -> (outcomes: Vec<Result<Option<RunningSet>, OpError>>)
        ensures
            outcomes@.len() == self.out_dirac_v.targets@.len() + self.post_syn_dirac_v.entries@.len(),
            forall|j: int| 0 <= j < self.out_dirac_v.targets@.len()
                ==> outcomes@[j] == (#[trigger] self.out_dirac_v.targets@[j]).running_outcome(*hub),
            forall|j: int| 0 <= j < self.post_syn_dirac_v.entries@.len()
                ==> outcomes@[self.out_dirac_v.targets@.len() + j]
                    == (#[trigger] self.post_syn_dirac_v.entries@[j]).running_outcome(*hub),
    {
        let mut v1 = self.out_dirac_v.running_targets(hub);
        let mut v2 = self.post_syn_dirac_v.running_targets(hub);
        v1.append(&mut v2);
        v1
    }

    /// The mode this composite agent is in: all three fan collections
    /// must agree, and a disagreement is surfaced as an explicit
    /// `InconsistentMode` error, never silently resolved.
    pub fn mode(&self) -> (r: Result<RunMode, OpError>)
        ensures
            self.out_dirac_v.mode == self.post_syn_dirac_v.mode && self.out_dirac_v.mode == self.device_in_dirac_v.mode
                ==> r == Ok::<RunMode, OpError>(self.out_dirac_v.mode),
            !(self.out_dirac_v.mode == self.post_syn_dirac_v.mode && self.out_dirac_v.mode == self.device_in_dirac_v.mode)
                ==> r == Err::<RunMode, OpError>(OpError::InconsistentMode),
    {
        let a = self.out_dirac_v.mode();
        let b = self.post_syn_dirac_v.mode();
        let c = self.device_in_dirac_v.mode();
        if a == b && a == c {
            Ok(a)
        } else {
            Err(OpError::InconsistentMode)
        }
    }
}

/// A mathematical integer clipped to the 64-bit range.
pub open spec fn clamp_i64(x: int) -> i64 {
    if x > i64::MAX {
        i64::MAX
    } else if x < i64::MIN {
        i64::MIN
    } else {
        x as i64
    }
}

} // verus!
