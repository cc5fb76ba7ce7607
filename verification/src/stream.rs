//! The decision core of the background frame source and the model of the
//! bounded frame channel between it and the display loop.

use vstd::prelude::*;
use crate::frame::Frame;

verus! {

/// The frame source's control state: a consecutive-failure counter, the
/// failure limit, and whether the capture loop has stopped for good. The
/// device reads themselves happen outside; this type makes every decision
/// of the capture loop.
pub struct FrameSource {
    /// Consecutive decode failures seen since the last success.
    pub fails: u32,
    /// Number of consecutive decode failures that stops the loop.
    pub limit: u32,
    /// Whether the loop has stopped; once set it never clears.
    pub stopped: bool,
}

impl FrameSource {
    /// A running source is always strictly below its failure limit.
    pub open spec fn wf(self) -> bool {
        &&& self.limit >= 1
        &&& !self.stopped ==> self.fails < self.limit
    }

    /// A fresh source with no failures seen.
    pub fn new(limit: u32) -> (r: Self)
        requires
            limit >= 1,
        ensures
            r.wf(),
            r.limit == limit,
            r.fails == 0,
            !r.stopped,
    {
        Self { fails: 0, limit, stopped: false }
    }

    /// The state after one capture iteration: `decoded` says whether the
    /// device produced a decodable frame, `delivered` whether the send of
    /// the processed frame was accepted. A stopped source never changes.
    pub open spec fn step_state(s: FrameSource, decoded: bool, delivered: bool) -> FrameSource {
        if s.stopped {
            s
        } else if decoded {
            FrameSource { fails: 0, limit: s.limit, stopped: !delivered }
        } else {
            FrameSource {
                fails: (s.fails + 1) as u32,
                limit: s.limit,
                stopped: s.fails + 1 >= s.limit,
            }
        }
    }

    /// Whether one capture iteration hands a frame to the consumer: only a
    /// running source with a decoded frame and an accepted send does.
    pub open spec fn step_publishes(s: FrameSource, decoded: bool, delivered: bool) -> bool {
        !s.stopped && decoded && delivered
    }

    /// Applies one capture iteration's outcome: a decode success resets
    /// the failure counter and publishes, a rejected send stops the loop
    /// cleanly, and a decode failure counts toward the limit, stopping the
    /// loop when the limit is reached.
    pub fn step(&mut self, decoded: bool, delivered: bool) -> (published: bool)
        requires
            old(self).wf(),
        ensures
            final(self).wf(),
            *final(self) == Self::step_state(*old(self), decoded, delivered),
            published == Self::step_publishes(*old(self), decoded, delivered),
    {
        if self.stopped {
            return false;
        }
        if decoded {
            self.fails = 0;
            if !delivered {
                self.stopped = true;
                return false;
            }
            true
        } else {
            self.fails = self.fails + 1;
            if self.fails >= self.limit {
                self.stopped = true;
            }
            false
        }
    }

    /// The state after a whole sequence of capture iterations.
    pub open spec fn run(s: FrameSource, events: Seq<(bool, bool)>) -> FrameSource
        decreases events.len(),
    {
        if events.len() == 0 {
            s
        } else {
            Self::step_state(Self::run(s, events.drop_last()), events.last().0, events.last().1)
        }
    }

    /// Whether any iteration of a sequence publishes a frame.
    pub open spec fn any_published(s: FrameSource, events: Seq<(bool, bool)>) -> bool
        decreases events.len(),
    {
        if events.len() == 0 {
            false
        } else {
            Self::any_published(s, events.drop_last())
                || Self::step_publishes(Self::run(s, events.drop_last()), events.last().0, events.last().1)
        }
    }

    /// Law: a stopped source is stopped for good. Whatever the device and
    /// the channel do afterwards, the state never changes and no further
    /// frame is ever published.
    pub proof fn lemma_stopped_is_permanent(s: FrameSource, events: Seq<(bool, bool)>)
        requires
            s.stopped,
        ensures
            Self::run(s, events) == s,
            !Self::any_published(s, events),
        decreases events.len(),
    {
        if events.len() > 0 {
            Self::lemma_stopped_is_permanent(s, events.drop_last());
        }
    }
}

/// A bounded in-order frame queue with non-blocking receive, as the hand-
/// off between the capture thread and the render loop. A full queue makes
/// room by dropping the newest frame's predecessor; a closed channel is
/// how the producer's permanent stop reaches the consumer.
pub struct FrameChannel {
    queue: Vec<Frame>,
    capacity: usize,
    closed: bool,
}

impl FrameChannel {
    /// The frames waiting to be received, oldest first.
    pub closed spec fn frames_waiting(self) -> Seq<Frame> {
        self.queue@
    }

    /// The bound on how many frames may wait.
    pub closed spec fn cap(self) -> int {
        self.capacity as int
    }

    /// Whether the producer side is gone for good.
    pub closed spec fn is_closed(self) -> bool {
        self.closed
    }

    /// The queue never exceeds its positive capacity.
    pub open spec fn wf(self) -> bool {
        &&& self.cap() >= 1
        &&& self.frames_waiting().len() <= self.cap()
    }

    /// An empty open channel of the given capacity.
    pub fn new(capacity: usize) -> (r: Self)
        requires
            capacity >= 1,
        ensures
            r.wf(),
            r.cap() == capacity,
            r.frames_waiting().len() == 0,
            !r.is_closed(),
    {
        Self { queue: Vec::new(), capacity, closed: false }
    }

    /// Offers a frame to the queue. A closed channel rejects it; an open
    /// one accepts it, making room in a full queue by dropping the newest
    /// frame's predecessor.
    pub fn send(&mut self, f: Frame) -> (accepted: bool)
        requires
            old(self).wf(),
        ensures
            final(self).wf(),
            final(self).cap() == old(self).cap(),
            final(self).is_closed() == old(self).is_closed(),
            accepted == !old(self).is_closed(),
            old(self).is_closed()
                ==> final(self).frames_waiting() == old(self).frames_waiting(),
            !old(self).is_closed() ==> final(self).frames_waiting()
                == (if old(self).frames_waiting().len() < old(self).cap() {
                    old(self).frames_waiting().push(f)
                } else {
                    old(self).frames_waiting()
                        .subrange(0, old(self).frames_waiting().len() - 1).push(f)
                }),
    {
        if self.closed {
            return false;
        }
        if self.queue.len() >= self.capacity {
            self.queue.pop();
            proof {
                assert(old(self).frames_waiting().drop_last()
                    =~= old(self).frames_waiting()
                        .subrange(0, old(self).frames_waiting().len() - 1));
            }
        }
        self.queue.push(f);
        true
    }

    /// Receives the oldest waiting frame without blocking; an empty queue
    /// yields nothing and leaves the channel as it is.
    pub fn try_recv(&mut self) -> (r: Option<Frame>)
        requires
            old(self).wf(),
        ensures
            final(self).wf(),
            final(self).cap() == old(self).cap(),
            final(self).is_closed() == old(self).is_closed(),
            r is Some <==> old(self).frames_waiting().len() > 0,
            old(self).frames_waiting().len() > 0 ==> {
                &&& r->Some_0 == old(self).frames_waiting()[0]
                &&& final(self).frames_waiting() == old(self).frames_waiting()
                    .subrange(1, old(self).frames_waiting().len() as int)
            },
            old(self).frames_waiting().len() == 0
                ==> final(self).frames_waiting() == old(self).frames_waiting(),
    {
        if self.queue.len() == 0 {
            return None;
        }
        let f = self.queue.remove(0);
        Some(f)
    }

    /// Marks the producer side gone. Frames already waiting stay
    /// receivable; nothing can be queued afterwards.
    pub fn close(&mut self)
        requires
            old(self).wf(),
        ensures
            final(self).wf(),
            final(self).cap() == old(self).cap(),
            final(self).is_closed(),
            final(self).frames_waiting() == old(self).frames_waiting(),
    {
        self.closed = true;
    }

    /// Whether the stream has permanently ended for the consumer: the
    /// producer is gone and nothing is left to drain.
    pub fn is_disconnected(&self) -> (r: bool)
        ensures
            r == (self.is_closed() && self.frames_waiting().len() == 0),
    {
        self.closed && self.queue.len() == 0
    }
}

/// The queue contents after a number of non-blocking polls with no
/// intervening sends.
pub open spec fn drained(q: Seq<Frame>, polls: nat) -> Seq<Frame>
    decreases polls,
{
    if polls == 0 || q.len() == 0 {
        q
    } else {
        drained(q.subrange(1, q.len() as int), (polls - 1) as nat)
    }
}

/// Law: after the producer stops sending, polls observe the already
/// queued frames in order and nothing else; once at least queue-length
/// polls have happened, the channel is empty and every further poll
/// observes it empty, permanently.
pub proof fn lemma_queue_drains(q: Seq<Frame>, polls: nat)
    ensures
        polls >= q.len() ==> drained(q, polls) =~= Seq::<Frame>::empty(),
        polls <= q.len() ==> drained(q, polls) =~= q.subrange(polls as int, q.len() as int),
    decreases polls,
{
    if polls > 0 && q.len() > 0 {
        lemma_queue_drains(q.subrange(1, q.len() as int), (polls - 1) as nat);
    }
}

} // verus!
