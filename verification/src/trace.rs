//! Histories of a relay: what any sequence of publishes, reads and shutdowns
//! leaves behind, and the laws that hold of every such sequence.
//!
//! Under a lock, calls from several threads take effect one after another in
//! some order. A law stated for every order therefore holds of every
//! interleaving.

use crate::frame::CapturedFrame;
use crate::relay::RelayState;
use vstd::prelude::*;

verus! {

/// One call on a relay.
pub enum RelayOp<H> {
    Publish(CapturedFrame<H>),
    Read,
    Shutdown,
}

impl<H> RelayState<H> {
    /// The state after one call.
    pub open spec fn step(self, op: RelayOp<H>) -> Self {
        match op {
            RelayOp::Publish(frame) => self.publish(frame),
            RelayOp::Read => self,
            RelayOp::Shutdown => self.shutdown(),
        }
    }

    /// The state after the calls `ops`, made in order.
    pub open spec fn run(self, ops: Seq<RelayOp<H>>) -> Self
        decreases ops.len(),
    {
        if ops.len() == 0 {
            self
        } else {
            self.run(ops.drop_last()).step(ops.last())
        }
    }

    /// The state after the frames `frames` are published in order, with
    /// nothing in between.
    pub open spec fn publish_all(self, frames: Seq<CapturedFrame<H>>) -> Self
        decreases frames.len(),
    {
        if frames.len() == 0 {
            self
        } else {
            self.publish_all(frames.drop_last()).publish(frames.last())
        }
    }
}

/// The history in which the frames `frames` are published in order.
pub open spec fn publishes<H>(frames: Seq<CapturedFrame<H>>) -> Seq<RelayOp<H>> {
    Seq::new(frames.len(), |i: int| RelayOp::Publish(frames[i]))
}

/// `ops` with every read taken out.
pub open spec fn without_reads<H>(ops: Seq<RelayOp<H>>) -> Seq<RelayOp<H>>
    decreases ops.len(),
{
    if ops.len() == 0 {
        ops
    } else if ops.last() is Read {
        without_reads(ops.drop_last())
    } else {
        without_reads(ops.drop_last()).push(ops.last())
    }
}

/// No two frames of `frames` share an identifier.
pub open spec fn distinct_ids<H>(frames: Seq<CapturedFrame<H>>) -> bool {
    forall|i: int, j: int|
        0 <= i < frames.len() && 0 <= j < frames.len() && i != j
            ==> frames[i].frame_id != frames[j].frame_id
}

/// Publishing never closes a relay and never reopens one.
pub proof fn publishing_keeps_openness<H>(state: RelayState<H>, frames: Seq<CapturedFrame<H>>)
    ensures
        state.publish_all(frames).accepts() == state.accepts(),
    decreases frames.len(),
{
    if frames.len() > 0 {
        publishing_keeps_openness(state, frames.drop_last());
    }
}

/// Publishing frames one after another is the history of those publishes.
pub proof fn publish_all_is_a_history<H>(state: RelayState<H>, frames: Seq<CapturedFrame<H>>)
    ensures
        state.run(publishes(frames)) == state.publish_all(frames),
    decreases frames.len(),
{
    if frames.len() > 0 {
        publish_all_is_a_history(state, frames.drop_last());
        assert(publishes(frames).drop_last() == publishes(frames.drop_last()));
    }
}

/// Last write wins: after any run of publishes into an open relay, with no
/// call in between, a read returns the frame published last and no earlier
/// one.
pub proof fn last_publish_wins<H>(state: RelayState<H>, frames: Seq<CapturedFrame<H>>)
    requires
        state.accepts(),
        frames.len() > 0,
    ensures
        state.publish_all(frames).read() == Some(frames.last()),
{
    publishing_keeps_openness(state, frames.drop_last());
}

/// A closed relay ignores every publish: whatever is published, it stays
/// closed.
pub proof fn closed_relay_ignores_publishes<H>(
    state: RelayState<H>,
    frames: Seq<CapturedFrame<H>>,
)
    requires
        !state.accepts(),
    ensures
        state.publish_all(frames) == state,
    decreases frames.len(),
{
    if frames.len() > 0 {
        closed_relay_ignores_publishes(state, frames.drop_last());
    }
}

/// Frames stay whole: let the frames `frames`, with distinct identifiers, be
/// published into an open relay in any order `order`. A read then returns one
/// of those frames, entire. Its identifier belongs to exactly one published
/// frame, and the texture that comes with it is that frame's texture.
pub proof fn one_whole_frame_survives<H>(
    state: RelayState<H>,
    frames: Seq<CapturedFrame<H>>,
    order: Seq<CapturedFrame<H>>,
)
    requires
        state.accepts(),
        frames.len() > 0,
        distinct_ids(frames),
        order.to_multiset() == frames.to_multiset(),
    ensures
        state.publish_all(order).read() matches Some(got) && {
            &&& exists|i: int| 0 <= i < frames.len() && frames[i] == got
            &&& forall|j: int|
                0 <= j < frames.len() && frames[j].frame_id == got.frame_id ==> frames[j] == got
        },
{
    frames.to_multiset_ensures();
    order.to_multiset_ensures();
    assert(order.len() > 0);
    last_publish_wins(state, order);
    let got = order.last();
    assert(order.contains(got));
    assert(order.to_multiset().count(got) > 0);
    assert(frames.contains(got));
    let i = choose|i: int| 0 <= i < frames.len() && frames[i] == got;
    assert(0 <= i < frames.len() && frames[i] == got);
    assert forall|j: int|
        0 <= j < frames.len() && frames[j].frame_id == got.frame_id implies frames[j] == got by {
        if j != i {
            assert(frames[i].frame_id != frames[j].frame_id);
        }
    }
}

/// Reads have no effect on the relay: any history leaves the state that the
/// same history without its reads leaves.
pub proof fn reads_leave_no_trace<H>(state: RelayState<H>, ops: Seq<RelayOp<H>>)
    ensures
        state.run(ops) == state.run(without_reads(ops)),
    decreases ops.len(),
{
    if ops.len() > 0 {
        reads_leave_no_trace(state, ops.drop_last());
        if !(ops.last() is Read) {
            let kept = without_reads(ops.drop_last()).push(ops.last());
            assert(kept.drop_last() == without_reads(ops.drop_last()));
            assert(kept.last() == ops.last());
        }
    }
}

/// The pace of reading does not matter: after `frame` is published into an
/// open relay, every read made before the next publish or shutdown returns
/// `frame`, be there none, one or many of them, and the relay still holds
/// `frame` afterwards.
pub proof fn every_read_sees_latest<H>(
    state: RelayState<H>,
    frame: CapturedFrame<H>,
    reads: Seq<RelayOp<H>>,
)
    requires
        state.accepts(),
        forall|i: int| 0 <= i < reads.len() ==> reads[i] is Read,
    ensures
        state.publish(frame).run(reads) == state.publish(frame),
        forall|k: int|
            0 <= k <= reads.len() ==> (#[trigger] state.publish(frame).run(reads.take(k))).read()
                == Some(frame),
{
    assert forall|k: int| 0 <= k <= reads.len() implies (#[trigger] state.publish(frame).run(
        reads.take(k),
    )) == state.publish(frame) by {
        only_reads_change_nothing(state.publish(frame), reads.take(k));
    }
    assert(reads.take(reads.len() as int) == reads);
}

/// A history made of reads alone leaves the state it started from.
pub proof fn only_reads_change_nothing<H>(state: RelayState<H>, reads: Seq<RelayOp<H>>)
    requires
        forall|i: int| 0 <= i < reads.len() ==> reads[i] is Read,
    ensures
        state.run(reads) == state,
    decreases reads.len(),
{
    if reads.len() > 0 {
        only_reads_change_nothing(state, reads.drop_last());
    }
}

/// A relay only ever gains a frame: while it is not shut down, a relay that
/// holds a frame holds a frame after any history. It returns to empty in no
/// way, and a read never takes the frame away.
pub proof fn held_frame_stays_until_shutdown<H>(state: RelayState<H>, ops: Seq<RelayOp<H>>)
    requires
        state is Holding,
        forall|i: int| 0 <= i < ops.len() ==> !(ops[i] is Shutdown),
    ensures
        state.run(ops) is Holding,
    decreases ops.len(),
{
    if ops.len() > 0 {
        held_frame_stays_until_shutdown(state, ops.drop_last());
    }
}

/// Shutdown is final: once a relay is shut down, no history brings a frame
/// back. It stays closed and empty, so every later publish is refused and
/// every later read finds nothing.
pub proof fn shutdown_is_final<H>(state: RelayState<H>, ops: Seq<RelayOp<H>>)
    ensures
        state.shutdown().run(ops) == state.shutdown(),
        !state.shutdown().run(ops).accepts(),
        state.shutdown().run(ops).read() is None,
    decreases ops.len(),
{
    if ops.len() > 0 {
        shutdown_is_final(state, ops.drop_last());
    }
}

} // verus!
