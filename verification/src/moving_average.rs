//! Temporal moving average: a bounded buffer of the most recent frames and
//! the pixel-wise mean over its current occupancy.

use vstd::prelude::*;
use crate::frame::Frame;

verus! {

use vstd::arithmetic::div_mod::lemma_div_is_ordered;
use vstd::arithmetic::div_mod::lemma_div_by_multiple;
use vstd::arithmetic::div_mod::lemma_div_pos_is_pos;

/// Sum of byte `i` over the first `j` frames of a batch.
pub open spec fn sum_prefix_at(frames: Seq<Frame>, i: int, j: int) -> int
    decreases j,
{
    if j <= 0 {
        0
    } else {
        sum_prefix_at(frames, i, j - 1) + frames[j - 1].data@[i]
    }
}

/// Pixel-wise sum of byte `i` over a whole batch of frames.
pub open spec fn sum_at(frames: Seq<Frame>, i: int) -> int {
    sum_prefix_at(frames, i, frames.len() as int)
}

/// The pixel-wise arithmetic mean of byte `i` over a batch: the sum divided
/// by the batch's occupancy, truncating towards zero.
pub open spec fn mean_at(frames: Seq<Frame>, i: int) -> int {
    sum_at(frames, i) / frames.len() as int
}

/// A prefix sum of bytes is nonnegative and at most 255 per summand.
proof fn lemma_sum_prefix_bounds(frames: Seq<Frame>, i: int, j: int)
    requires
        j >= 0,
    ensures
        0 <= sum_prefix_at(frames, i, j) <= 255 * j,
    decreases j,
{
    if j > 0 {
        lemma_sum_prefix_bounds(frames, i, j - 1);
    }
}

/// A moving average over the last `size` frames pushed. Frames of equal
/// dimensions accumulate in a bounded buffer; the average is taken over
/// however many frames the buffer currently holds.
pub struct MatMovingAverage {
    size: usize,
    buffer: Vec<Frame>,
}

impl MatMovingAverage {
    /// The bound on how many frames are retained.
    pub closed spec fn capacity(self) -> int {
        self.size as int
    }

    /// The frames currently retained, oldest first.
    pub closed spec fn frames(self) -> Seq<Frame> {
        self.buffer@
    }

    /// The retained frames never exceed the capacity and all share one
    /// well-formed geometry.
    pub open spec fn wf(self) -> bool {
        &&& self.capacity() >= 1
        &&& self.frames().len() <= self.capacity()
        &&& forall|k: int| 0 <= k < self.frames().len() ==> {
            &&& (#[trigger] self.frames()[k]).wf()
            &&& self.frames()[k].width == self.frames()[0].width
            &&& self.frames()[k].height == self.frames()[0].height
            &&& self.frames()[k].channels == self.frames()[0].channels
        }
    }

    /// What one push does to the retained window: a full buffer first lets
    /// its oldest frame go.
    pub open spec fn push_step(buf: Seq<Frame>, cap: int, f: Frame) -> Seq<Frame> {
        if buf.len() == cap {
            buf.subrange(1, buf.len() as int).push(f)
        } else {
            buf.push(f)
        }
    }

    /// Creates an empty moving average retaining at most `size` frames.
    pub fn new(size: usize) -> (r: Self)
        requires
            size >= 1,
        ensures
            r.wf(),
            r.capacity() == size,
            r.frames().len() == 0,
    {
        Self { size, buffer: Vec::new() }
    }

    /// Pushes one frame, evicting the oldest retained frame if the buffer
    /// is full.
    pub fn push(&mut self, mat: Frame)
        requires
            old(self).wf(),
            mat.wf(),
            old(self).frames().len() > 0 ==> {
                &&& mat.width == old(self).frames()[0].width
                &&& mat.height == old(self).frames()[0].height
                &&& mat.channels == old(self).frames()[0].channels
            },
        ensures
            final(self).wf(),
            final(self).capacity() == old(self).capacity(),
            final(self).frames()
                == Self::push_step(old(self).frames(), old(self).capacity(), mat),
    {
        if self.buffer.len() == self.size {
            self.buffer.remove(0);
        }
        self.buffer.push(mat);
        proof {
            assert(self.frames()
                == Self::push_step(old(self).frames(), old(self).capacity(), mat)) by {
                if old(self).frames().len() == old(self).capacity() {
                    assert(old(self).frames().remove(0)
                        =~= old(self).frames().subrange(1, old(self).frames().len() as int));
                }
            }
        }
    }

    /// The pixel-wise mean over the currently retained frames, truncating
    /// towards zero. Returns `Some` exactly when at least one frame has
    /// been retained.
    pub fn average(&self) -> (r: Option<Frame>)
        requires
            self.wf(),
        ensures
            r is Some <==> self.frames().len() > 0,
            r is Some ==> {
                let out = r->Some_0;
                &&& out.wf()
                &&& out.width == self.frames()[0].width
                &&& out.height == self.frames()[0].height
                &&& out.channels == self.frames()[0].channels
                &&& out.data@.len() == self.frames()[0].data@.len()
                &&& forall|i: int| 0 <= i < out.data@.len()
                    ==> #[trigger] out.data@[i] == mean_at(self.frames(), i)
            },
    {
        let k = self.buffer.len();
        if k == 0 {
            return None;
        }
        let len = self.buffer[0].data.len();
        let mut data: Vec<u8> = Vec::new();
        let mut i: usize = 0;
        while i < len
            invariant
                self.wf(),
                k == self.frames().len(),
                k >= 1,
                len == self.frames()[0].data@.len(),
                i <= len,
                data@.len() == i as int,
                forall|j: int| 0 <= j < i as int
                    ==> #[trigger] data@[j] == mean_at(self.frames(), j),
            decreases len - i,
        {
            let mut sum: u128 = 0;
            let mut j: usize = 0;
            while j < k
                invariant
                    self.wf(),
                    k == self.frames().len(),
                    k >= 1,
                    i < len,
                    len == self.frames()[0].data@.len(),
                    j <= k,
                    sum == sum_prefix_at(self.frames(), i as int, j as int),
                    sum <= 255 * j as int,
                decreases k - j,
            {
                let v = self.buffer[j].data[i];
                proof {
                    lemma_sum_prefix_bounds(self.frames(), i as int, j as int + 1);
                }
                sum = sum + v as u128;
                j = j + 1;
            }
            proof {
                lemma_sum_prefix_bounds(self.frames(), i as int, k as int);
                lemma_div_pos_is_pos(sum as int, k as int);
                lemma_div_is_ordered(sum as int, 255 * k as int, k as int);
                lemma_div_by_multiple(255, k as int);
            }
            let m = (sum / (k as u128)) as u8;
            data.push(m);
            i = i + 1;
        }
        Some(Frame {
            width: self.buffer[0].width,
            height: self.buffer[0].height,
            channels: self.buffer[0].channels,
            data,
        })
    }
}

/// The last `cap` frames of a push history, or all of it while it is still
/// shorter than the capacity.
pub open spec fn recent_window(history: Seq<Frame>, cap: int) -> Seq<Frame> {
    if history.len() <= cap {
        history
    } else {
        history.subrange(history.len() - cap, history.len() as int)
    }
}

/// The buffer contents after pushing a whole history in order, starting
/// from an empty moving average.
pub open spec fn buffer_after(history: Seq<Frame>, cap: int) -> Seq<Frame>
    decreases history.len(),
{
    if history.len() == 0 {
        Seq::empty()
    } else {
        MatMovingAverage::push_step(buffer_after(history.drop_last(), cap), cap, history.last())
    }
}

/// Law: after any sequence of pushes into an empty moving average of
/// capacity `cap`, the buffer holds exactly the last `min(cap, pushes)`
/// frames of the history, in push order. Together with the contract of
/// [`MatMovingAverage::average`], the reported frame is the pixel-wise
/// arithmetic mean of exactly those frames.
pub proof fn lemma_buffer_holds_recent_window(history: Seq<Frame>, cap: int)
    requires
        cap >= 1,
    ensures
        buffer_after(history, cap) == recent_window(history, cap),
    decreases history.len(),
{
    if history.len() == 0 {
        assert(buffer_after(history, cap) =~= recent_window(history, cap));
    } else {
        lemma_buffer_holds_recent_window(history.drop_last(), cap);
        assert(history.drop_last().push(history.last()) =~= history);
        assert(buffer_after(history, cap) =~= recent_window(history, cap));
    }
}

} // verus!
