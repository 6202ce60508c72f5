//! The one channel primitive of the kernel: an owned FIFO cell.
//!
//! A `FifoCell` owns both ends of one unbounded channel. The kernel never
//! clones either end and never shares a cell between threads, so a cell
//! behaves exactly as a first-in-first-out queue of frames: a send appends
//! at the tail, a receive pops the head. Every linker channel and every
//! agent control channel of the kernel is such a cell.

use vstd::prelude::*;
use crossbeam_channel::Receiver;
use crossbeam_channel::Sender;
use crossbeam_channel::unbounded;

verus! {

/// The fixed wire value carried by every channel of the kernel. Payload
/// types encode into a frame on send and decode on drain.
pub type Frame = (i64, i64, i64);

/// One unbounded channel, holding both its send end and its receive end.
#[verifier::external_body]
pub struct FifoCell {
    tx: Sender<Frame>,
    rx: Receiver<Frame>,
}

/// The frames queued in a cell, oldest first.
pub uninterp spec fn fifo_queue(c: FifoCell) -> Seq<Frame>;

/// Relies on `crossbeam_channel::unbounded`: a fresh channel holds no
/// messages.
#[verifier::external_body]
pub(crate) fn fifo_new() -> (c: FifoCell)
    ensures
        fifo_queue(c) == Seq::<Frame>::empty(),
{
    let (tx, rx) = unbounded();
    FifoCell { tx, rx }
}

/// Relies on `crossbeam_channel::Sender::send` on an unbounded channel:
/// it never blocks and appends the message at the tail; it cannot fail
/// here because the cell owns the receive end, so the channel is never
/// disconnected.
#[verifier::external_body]
pub(crate) fn fifo_send(c: &mut FifoCell, v: Frame)
    ensures
        fifo_queue(*final(c)) == fifo_queue(*old(c)).push(v),
{
    let _ = c.tx.send(v);
}

/// Relies on `crossbeam_channel::Receiver::try_recv`: it never blocks and
/// pops the oldest queued message, or reports an empty channel.
#[verifier::external_body]
pub(crate) fn fifo_try_recv(c: &mut FifoCell) -> (r: Option<Frame>)
    ensures
        fifo_queue(*old(c)).len() == 0 ==> r is None && *final(c) == *old(c),
        fifo_queue(*old(c)).len() > 0 ==> r == Some(fifo_queue(*old(c))[0])
            && fifo_queue(*final(c)) == fifo_queue(*old(c)).drop_first(),
{
    match c.rx.try_recv() {
        Ok(v) => Some(v),
        Err(_) => None,
    }
}

/// Drains a cell: pops every queued frame, oldest first, and leaves the
/// cell empty.
pub(crate) fn fifo_drain(c: &mut FifoCell) -> (v: Vec<Frame>)
    ensures
        v@ == fifo_queue(*old(c)),
        fifo_queue(*final(c)) == Seq::<Frame>::empty(),
{
    let mut out: Vec<Frame> = Vec::new();
    loop
        invariant
            out@ + fifo_queue(*c) == fifo_queue(*old(c)),
        decreases fifo_queue(*c).len(),
    {
        match fifo_try_recv(c) {
            Some(f) => {
                out.push(f);
            },
            None => {
                assert(out@ =~= fifo_queue(*old(c)));
                return out;
            },
        }
    }
}

} // verus!
