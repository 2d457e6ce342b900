//! The frame buffer: a bounded first-in first-out queue between the capture
//! device and the export path.
//!
//! Two policies decide which frames are lost, and both are part of the
//! contract of [`FrameBuffer::push`]:
//!
//! * overflow drops the oldest frame, so the producer is never blocked and the
//!   consumer sees a gap instead of skewed timestamps;
//! * a frame that is not newer than the newest buffered frame is refused, so
//!   what comes out is in capture order and holds no frame twice.

use crate::frame::Frame;
use std::collections::VecDeque;
use vstd::prelude::*;

verus! {

/// Number of frames a buffer holds unless told otherwise: five seconds at
/// sixty frames per second.
pub const DEFAULT_CAPACITY: usize = 300;

/// What became of a frame handed to [`FrameBuffer::push`].
#[derive(Clone, Copy, Debug, PartialEq, Eq, Structural)]
pub enum PushOutcome {
    /// The frame was appended and nothing was lost.
    Stored,
    /// The frame was appended and the oldest frame was dropped to make room.
    DroppedOldest,
    /// The frame was not newer than the newest buffered frame and was refused.
    Rejected,
}

/// Timestamps grow strictly from each frame to every later one.
pub open spec fn ascending(frames: Seq<Frame>) -> bool {
    forall|i: int, j: int| 0 <= i < j < frames.len() ==> frames[i].timestamp < frames[j].timestamp
}

/// Whether a buffer holding `frames` accepts `frame`: it must be newer than
/// the newest frame held.
pub open spec fn admits(frames: Seq<Frame>, frame: Frame) -> bool {
    frames.len() == 0 || frames.last().timestamp < frame.timestamp
}

/// The last `n` frames of `frames`, or all of them if there are fewer.
pub open spec fn newest(frames: Seq<Frame>, n: nat) -> Seq<Frame> {
    if frames.len() <= n {
        frames
    } else {
        frames.subrange(frames.len() - n, frames.len() as int)
    }
}

/// Contents of a buffer of capacity `capacity` that held `frames`, after
/// `frame` was pushed.
pub open spec fn after_push(frames: Seq<Frame>, capacity: nat, frame: Frame) -> Seq<Frame> {
    if admits(frames, frame) {
        newest(frames.push(frame), capacity)
    } else {
        frames
    }
}

/// What `push` reports for `frame` on a buffer of capacity `capacity` that
/// holds `frames`.
pub open spec fn push_outcome(frames: Seq<Frame>, capacity: nat, frame: Frame) -> PushOutcome {
    if !admits(frames, frame) {
        PushOutcome::Rejected
    } else if frames.len() < capacity {
        PushOutcome::Stored
    } else {
        PushOutcome::DroppedOldest
    }
}

/// Contents after pushing every frame of `pushed`, first to last.
pub open spec fn after_pushes(frames: Seq<Frame>, capacity: nat, pushed: Seq<Frame>) -> Seq<Frame>
    decreases pushed.len(),
{
    if pushed.len() == 0 {
        frames
    } else {
        after_push(after_pushes(frames, capacity, pushed.drop_last()), capacity, pushed.last())
    }
}

/// Bounded queue of frames in capture order.
pub struct FrameBuffer {
    frames: VecDeque<Frame>,
    capacity: usize,
}

impl View for FrameBuffer {
    type V = Seq<Frame>;

    closed spec fn view(&self) -> Seq<Frame> {
        self.frames@
    }
}

impl FrameBuffer {
    /// The largest number of frames the buffer holds.
    pub closed spec fn limit(&self) -> nat {
        self.capacity as nat
    }

    /// The buffer holds at most `limit()` frames, in strictly ascending
    /// timestamp order.
    pub open spec fn wf(&self) -> bool {
        &&& self@.len() <= self.limit()
        &&& ascending(self@)
    }

    /// An empty buffer that holds up to `capacity` frames.
    pub fn new(capacity: usize) -> (buffer: FrameBuffer)
        ensures
            buffer.wf(),
            buffer@ == Seq::<Frame>::empty(),
            buffer.limit() == capacity,
    {
        FrameBuffer { frames: VecDeque::new(), capacity }
    }

    /// The largest number of frames the buffer holds.
    pub fn capacity(&self) -> (capacity: usize)
        ensures
            capacity == self.limit(),
    {
        self.capacity
    }

    /// Number of frames held.
    pub fn len(&self) -> (len: usize)
        ensures
            len == self@.len(),
    {
        self.frames.len()
    }

    /// Whether no frame is held.
    pub fn is_empty(&self) -> (empty: bool)
        ensures
            empty == (self@.len() == 0),
    {
        self.frames.len() == 0
    }

    /// Timestamp of the newest frame held.
    pub fn newest_timestamp(&self) -> (stamp: Option<u64>)
        ensures
            stamp == (if self@.len() == 0 {
                None
            } else {
                Some(self@.last().timestamp)
            }),
    {
        let len: usize = self.frames.len();
        if len == 0 {
            None
        } else {
            Some(self.frames[len - 1].timestamp)
        }
    }

    /// Appends `frame` unless it is not newer than the newest frame held; a
    /// full buffer drops its oldest frame to make room. Never blocks.
    pub fn push(&mut self, frame: Frame) -> (outcome: PushOutcome)
        requires
            old(self).wf(),
        ensures
            final(self).wf(),
            final(self).limit() == old(self).limit(),
            final(self)@ == after_push(old(self)@, old(self).limit(), frame),
            outcome == push_outcome(old(self)@, old(self).limit(), frame),
    {
        let len: usize = self.frames.len();
        if len > 0 && self.frames[len - 1].timestamp >= frame.timestamp {
            return PushOutcome::Rejected;
        }
        if len < self.capacity {
            self.frames.push_back(frame);
            PushOutcome::Stored
        } else if self.capacity == 0 {
            proof {
                assert(old(self)@.push(frame).subrange(1, 1) =~= old(self)@);
            }
            PushOutcome::DroppedOldest
        } else {
            let _ = self.frames.pop_front();
            self.frames.push_back(frame);
            proof {
                assert(self.frames@ =~= old(self)@.push(frame).subrange(1, len + 1));
            }
            PushOutcome::DroppedOldest
        }
    }

    /// Hands out every frame held, oldest first, and leaves the buffer empty.
    pub fn drain(&mut self) -> (frames: Vec<Frame>)
        requires
            old(self).wf(),
        ensures
            final(self).wf(),
            final(self).limit() == old(self).limit(),
            final(self)@ == Seq::<Frame>::empty(),
            frames@ == old(self)@,
            ascending(frames@),
    {
        let mut out: Vec<Frame> = Vec::new();
        loop
            invariant
                self.capacity == old(self).capacity,
                self.frames@.len() <= self.capacity,
                out@ + self.frames@ == old(self)@,
                ascending(old(self)@),
            ensures
                self.frames@.len() == 0,
                out@ == old(self)@,
            decreases self.frames@.len(),
        {
            match self.frames.pop_front() {
                Some(frame) => {
                    proof {
                        assert(out@.push(frame) + self.frames@ =~= old(self)@);
                    }
                    out.push(frame);
                },
                None => {
                    proof {
                        assert(out@ =~= out@ + self.frames@);
                    }
                    break ;
                },
            }
        }
        out
    }

    /// Discards every frame held.
    pub fn clear(&mut self)
        requires
            old(self).wf(),
        ensures
            final(self).wf(),
            final(self).limit() == old(self).limit(),
            final(self)@ == Seq::<Frame>::empty(),
    {
        self.frames.clear();
    }
}

/// Frames in strictly ascending timestamp order are in non-decreasing order,
/// and no frame occurs twice among them.
pub proof fn lemma_ascending_distinct(frames: Seq<Frame>)
    requires
        ascending(frames),
    ensures
        forall|i: int, j: int|
            0 <= i <= j < frames.len() ==> frames[i].timestamp <= frames[j].timestamp,
        forall|i: int, j: int|
            0 <= i < frames.len() && 0 <= j < frames.len() && i != j ==> frames[i] != frames[j],
{
    assert forall|i: int, j: int|
        0 <= i < frames.len() && 0 <= j < frames.len() && i != j implies frames[i] != frames[j] by {
        if i < j {
            assert(frames[i].timestamp < frames[j].timestamp);
        } else {
            assert(frames[j].timestamp < frames[i].timestamp);
        }
    }
}

/// One push keeps a buffer within its capacity and in ascending order.
pub proof fn lemma_push_keeps_order(frames: Seq<Frame>, capacity: nat, frame: Frame)
    requires
        ascending(frames),
        frames.len() <= capacity,
    ensures
        ascending(after_push(frames, capacity, frame)),
        after_push(frames, capacity, frame).len() <= capacity,
{
    if admits(frames, frame) {
        let grown = frames.push(frame);
        assert(ascending(grown)) by {
            assert forall|i: int, j: int| 0 <= i < j < grown.len() implies grown[i].timestamp
                < grown[j].timestamp by {
                if j == frames.len() && i < frames.len() - 1 {
                    assert(frames[i].timestamp < frames[frames.len() - 1].timestamp);
                }
            }
        }
    }
}

/// Buffer ordering: whatever frames are pushed, in whatever order they
/// arrive, the buffer stays within its capacity and holds its frames in
/// strictly ascending, hence non-decreasing, timestamp order with no frame
/// twice. `drain` hands out exactly these frames.
pub proof fn lemma_pushes_keep_order(frames: Seq<Frame>, capacity: nat, pushed: Seq<Frame>)
    requires
        ascending(frames),
        frames.len() <= capacity,
    ensures
        ascending(after_pushes(frames, capacity, pushed)),
        after_pushes(frames, capacity, pushed).len() <= capacity,
        forall|i: int, j: int|
            #![trigger after_pushes(frames, capacity, pushed)[i], after_pushes(frames, capacity, pushed)[j]]
            0 <= i <= j < after_pushes(frames, capacity, pushed).len() ==> after_pushes(
                frames,
                capacity,
                pushed,
            )[i].timestamp <= after_pushes(frames, capacity, pushed)[j].timestamp,
        forall|i: int, j: int|
            #![trigger after_pushes(frames, capacity, pushed)[i], after_pushes(frames, capacity, pushed)[j]]
            0 <= i < j < after_pushes(frames, capacity, pushed).len() ==> after_pushes(
                frames,
                capacity,
                pushed,
            )[i] != after_pushes(frames, capacity, pushed)[j],
    decreases pushed.len(),
{
    if pushed.len() > 0 {
        lemma_pushes_keep_order(frames, capacity, pushed.drop_last());
        lemma_push_keeps_order(
            after_pushes(frames, capacity, pushed.drop_last()),
            capacity,
            pushed.last(),
        );
    }
    lemma_ascending_distinct(after_pushes(frames, capacity, pushed));
}

/// Overflow policy: after frames with ascending timestamps are pushed into an
/// empty buffer of capacity `capacity`, the buffer holds the newest `capacity`
/// of them in the order of their arrival, or all of them if they are fewer.
pub proof fn lemma_overflow_keeps_newest(capacity: nat, pushed: Seq<Frame>)
    requires
        ascending(pushed),
    ensures
        after_pushes(Seq::empty(), capacity, pushed) == newest(pushed, capacity),
        pushed.len() >= capacity ==> after_pushes(Seq::empty(), capacity, pushed)
            == pushed.subrange(pushed.len() - capacity, pushed.len() as int),
    decreases pushed.len(),
{
    if pushed.len() == 0 {
        assert(pushed.subrange(0, 0) =~= pushed);
    } else {
        let earlier = pushed.drop_last();
        let frame = pushed.last();
        assert(ascending(earlier));
        lemma_overflow_keeps_newest(capacity, earlier);
        let held = newest(earlier, capacity);
        assert(admits(held, frame)) by {
            if held.len() > 0 {
                assert(held.last() == earlier[earlier.len() - 1]);
                assert(pushed[earlier.len() - 1].timestamp < pushed[pushed.len() - 1].timestamp);
            }
        }
        assert(earlier.push(frame) =~= pushed);
        assert(newest(held.push(frame), capacity) =~= newest(pushed, capacity));
        if pushed.len() == capacity {
            assert(pushed.subrange(0, pushed.len() as int) =~= pushed);
        }
    }
}

} // verus!
