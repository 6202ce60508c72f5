//! Payload types carried over the kernel's channels, and their encoding
//! into the fixed three-word frame of the wire.
//!
//! Continuous quantities (voltages, times, weights) are fixed-point
//! values held in 64-bit integers.

use vstd::prelude::*;
use crate::fifo::Frame;

verus! {

/// Simple forward payload of the test family: one generated message
/// value.
#[derive(Clone, Copy, Debug, PartialEq, Eq, Structural)]
pub struct FwdPreS1 {
    pub msg_gen: i32,
}

/// The frame a simple forward payload encodes to.
pub open spec fn s1_frame(s: FwdPreS1) -> Frame {
    (s.msg_gen as i64, 0, 0)
}

/// The simple forward payload a frame decodes to.
pub open spec fn frame_s1(f: Frame) -> FwdPreS1 {
    FwdPreS1 { msg_gen: f.0 as i32 }
}

impl FwdPreS1 {
    /// Encodes the payload for the wire.
    pub fn to_frame(self) -> (f: Frame)
        ensures
            f == s1_frame(self),
    {
        (self.msg_gen as i64, 0, 0)
    }

    /// Decodes a payload from the wire.
    pub fn from_frame(f: Frame) -> (s: FwdPreS1)
        ensures
            s == frame_s1(f),
    {
        FwdPreS1 { msg_gen: f.0 as i32 }
    }
}

/// Decoding inverts encoding: the wire is lossless for simple forward
/// payloads.
pub proof fn lemma_s1_roundtrip(s: FwdPreS1)
    ensures
        frame_s1(s1_frame(s)) == s,
{
}

/// Pre-synaptic spike payload: the spike's voltage and the time it was
/// emitted.
#[derive(Clone, Copy, Debug, PartialEq, Eq, Structural)]
pub struct PreSynDiracV {
    pub v: i64,
    pub t: i64,
}

/// The frame a pre-synaptic spike encodes to.
pub open spec fn pre_syn_frame(s: PreSynDiracV) -> Frame {
    (s.v, s.t, 0)
}

/// The pre-synaptic spike a frame decodes to.
pub open spec fn frame_pre_syn(f: Frame) -> PreSynDiracV {
    PreSynDiracV { v: f.0, t: f.1 }
}

impl PreSynDiracV {
    /// Encodes the payload for the wire.
    pub fn to_frame(self) -> (f: Frame)
        ensures
            f == pre_syn_frame(self),
    {
        (self.v, self.t, 0)
    }

    /// Decodes a payload from the wire.
    pub fn from_frame(f: Frame) -> (s: PreSynDiracV)
        ensures
            s == frame_pre_syn(f),
    {
        PreSynDiracV { v: f.0, t: f.1 }
    }
}

/// Decoding inverts encoding for pre-synaptic spikes.
pub proof fn lemma_pre_syn_roundtrip(s: PreSynDiracV)
    ensures
        frame_pre_syn(pre_syn_frame(s)) == s,
{
}

/// Post-synaptic spike payload: voltage, the time the spike acts, and
/// the synaptic weight it acts with.
#[derive(Clone, Copy, Debug, PartialEq, Eq, Structural)]
pub struct PostSynDiracV {
    pub v: i64,
    pub t: i64,
    pub w: i64,
}

/// The frame a post-synaptic spike encodes to.
pub open spec fn post_syn_frame(s: PostSynDiracV) -> Frame {
    (s.v, s.t, s.w)
}

/// The post-synaptic spike a frame decodes to.
pub open spec fn frame_post_syn(f: Frame) -> PostSynDiracV {
    PostSynDiracV { v: f.0, t: f.1, w: f.2 }
}

impl PostSynDiracV {
    /// Encodes the payload for the wire.
    pub fn to_frame(self) -> (f: Frame)
        ensures
            f == post_syn_frame(self),
    {
        (self.v, self.t, self.w)
    }

    /// Decodes a payload from the wire.
    pub fn from_frame(f: Frame) -> (s: PostSynDiracV)
        ensures
            s == frame_post_syn(f),
    {
        PostSynDiracV { v: f.0, t: f.1, w: f.2 }
    }
}

/// Decoding inverts encoding for post-synaptic spikes; the wire is a
/// bijection on this payload.
pub proof fn lemma_post_syn_roundtrip(s: PostSynDiracV)
    ensures
        frame_post_syn(post_syn_frame(s)) == s,
{
}

/// Saturating addition: the mathematical sum clipped to the 64-bit
/// range. Continuous quantities saturate instead of wrapping.
pub open spec fn sat_add(a: i64, b: i64) -> i64 {
    if a + b > i64::MAX {
        i64::MAX
    } else if a + b < i64::MIN {
        i64::MIN
    } else {
        (a + b) as i64
    }
}

/// Saturating subtraction: the mathematical difference clipped to the
/// 64-bit range.
pub open spec fn sat_sub(a: i64, b: i64) -> i64 {
    if a - b > i64::MAX {
        i64::MAX
    } else if a - b < i64::MIN {
        i64::MIN
    } else {
        (a - b) as i64
    }
}

/// Saturating multiplication: the mathematical product clipped to the
/// 64-bit range.
pub open spec fn sat_mul(a: i64, b: i64) -> i64 {
    if a * b > i64::MAX {
        i64::MAX
    } else if a * b < i64::MIN {
        i64::MIN
    } else {
        (a * b) as i64
    }
}

/// Executable saturating addition.
pub fn sat_add_exec(a: i64, b: i64) -> (r: i64)
    ensures
        r == sat_add(a, b),
{
    let wide: i128 = a as i128 + b as i128;
    if wide > i64::MAX as i128 {
        i64::MAX
    } else if wide < i64::MIN as i128 {
        i64::MIN
    } else {
        wide as i64
    }
}

/// Executable saturating subtraction.
pub fn sat_sub_exec(a: i64, b: i64) -> (r: i64)
    ensures
        r == sat_sub(a, b),
{
    let wide: i128 = a as i128 - b as i128;
    if wide > i64::MAX as i128 {
        i64::MAX
    } else if wide < i64::MIN as i128 {
        i64::MIN
    } else {
        wide as i64
    }
}

/// Executable saturating multiplication.
pub fn sat_mul_exec(a: i64, b: i64) -> (r: i64)
    ensures
        r == sat_mul(a, b),
{
    proof {
        assert((a as int) * (b as int) <= 170141183460469231731687303715884105727
            && -170141183460469231731687303715884105728 <= (a as int) * (b as int))
            by (nonlinear_arith)
            requires
                -9223372036854775808 <= a as int <= 9223372036854775807,
                -9223372036854775808 <= b as int <= 9223372036854775807,
        ;
    }
    let wide: i128 = a as i128 * b as i128;
    if wide > i64::MAX as i128 {
        i64::MAX
    } else if wide < i64::MIN as i128 {
        i64::MIN
    } else {
        wide as i64
    }
}

} // verus!
