//! The frame model: an owned rectangular pixel buffer with an explicit
//! width, height and channel count, eight bits per channel.

use vstd::prelude::*;

verus! {

use vstd::arithmetic::div_mod::lemma_fundamental_div_mod_converse;

/// One decoded image buffer. `channels` is 1 for intensity frames, 3 for
/// color frames and 4 for color frames with an alpha channel; the pixel at
/// column `x` of row `y` occupies the `channels` bytes starting at
/// `(y * width + x) * channels`.
#[derive(Clone, Debug)]
pub struct Frame {
    pub width: u32,
    pub height: u32,
    pub channels: u32,
    pub data: Vec<u8>,
}

/// Flat index of channel `c` of the pixel at column `x` of row `y` in a
/// buffer that is `w` pixels wide with `ch` channels.
pub open spec fn flat_idx(w: int, ch: int, x: int, y: int, c: int) -> int {
    (y * w + x) * ch + c
}

impl Frame {
    /// A frame is well formed when its channel count is one of the supported
    /// layouts and its buffer holds exactly one byte per channel per pixel.
    pub open spec fn wf(self) -> bool {
        &&& (self.channels == 1 || self.channels == 3 || self.channels == 4)
        &&& self.data@.len() == self.width as int * self.height as int * self.channels as int
    }

    /// The byte of channel `c` of the pixel at column `x` of row `y`.
    pub open spec fn at(self, x: int, y: int, c: int) -> u8 {
        self.data@[flat_idx(self.width as int, self.channels as int, x, y, c)]
    }

    /// Builds a frame filled with one byte value, such as a solid-color test
    /// frame. Returns `None` exactly when the requested buffer would not fit
    /// in memory.
    pub fn solid(width: u32, height: u32, channels: u32, value: u8) -> (r: Option<Frame>)
        requires
            channels == 1 || channels == 3 || channels == 4,
        ensures
            r is Some <==> width as int * height as int * channels as int <= usize::MAX,
            r is Some ==> {
                let f = r->Some_0;
                &&& f.wf()
                &&& f.width == width
                &&& f.height == height
                &&& f.channels == channels
                &&& forall|i: int| 0 <= i < f.data@.len() ==> f.data@[i] == value
            },
    {
        let pixels = match (width as usize).checked_mul(height as usize) {
            Some(p) => p,
            None => {
                proof {
                    lemma_mul_at_least(width as int * height as int, channels as int);
                }
                return None;
            },
        };
        let total = match pixels.checked_mul(channels as usize) {
            Some(t) => t,
            None => {
                return None;
            },
        };
        let mut data: Vec<u8> = Vec::new();
        let mut i: usize = 0;
        while i < total
            invariant
                i <= total,
                data@.len() == i as int,
                forall|j: int| 0 <= j < i as int ==> data@[j] == value,
            decreases total - i,
        {
            data.push(value);
            i = i + 1;
        }
        Some(Frame { width, height, channels, data })
    }

    /// Wraps a raw byte buffer as a frame, mirroring how a decoded camera
    /// image is adopted. Returns `None` exactly when the buffer length does
    /// not match the dimensions or the channel count is unsupported.
    pub fn from_raw(width: u32, height: u32, channels: u32, data: Vec<u8>) -> (r: Option<Frame>)
        ensures
            r is Some <==> {
                &&& (channels == 1 || channels == 3 || channels == 4)
                &&& data@.len() == width as int * height as int * channels as int
            },
            r is Some ==> {
                let f = r->Some_0;
                &&& f.wf()
                &&& f.width == width
                &&& f.height == height
                &&& f.channels == channels
                &&& f.data@ == data@
            },
    {
        if !(channels == 1 || channels == 3 || channels == 4) {
            return None;
        }
        let n = data.len();
        let pixels = match (width as usize).checked_mul(height as usize) {
            Some(p) => p,
            None => {
                proof {
                    lemma_mul_at_least(width as int * height as int, channels as int);
                }
                return None;
            },
        };
        let total = match pixels.checked_mul(channels as usize) {
            Some(t) => t,
            None => {
                return None;
            },
        };
        if n != total {
            return None;
        }
        Some(Frame { width, height, channels, data })
    }

    /// Mirrors a frame across its vertical center line: the pixel at column
    /// `x` of the result is the pixel at column `width - 1 - x` of the input.
    pub fn flip_horizontal(f: &Frame) -> (r: Frame)
        requires
            f.wf(),
        ensures
            r.wf(),
            r.width == f.width,
            r.height == f.height,
            r.channels == f.channels,
            forall|x: int, y: int, c: int|
                0 <= x < f.width && 0 <= y < f.height && 0 <= c < f.channels
                    ==> #[trigger] r.at(x, y, c) == f.at(f.width as int - 1 - x, y, c),
    {
        let w = f.width as usize;
        let h = f.height as usize;
        let ch = f.channels as usize;
        let n = f.data.len();
        let mut data: Vec<u8> = Vec::new();
        let mut y: usize = 0;
        proof {
            assert(flat_idx(w as int, ch as int, 0, 0, 0) == 0) by (nonlinear_arith);
        }
        while y < h
            invariant
                f.wf(),
                w == f.width as usize,
                h == f.height as usize,
                ch == f.channels as usize,
                n == f.data@.len(),
                y <= h,
                data@.len() == flat_idx(w as int, ch as int, 0, y as int, 0),
                data@.len() <= n,
                forall|xx: int, yy: int, cc: int|
                    0 <= xx < w && 0 <= yy < h && 0 <= cc < ch
                        && #[trigger] flat_idx(w as int, ch as int, xx, yy, cc) < data@.len()
                        ==> data@[flat_idx(w as int, ch as int, xx, yy, cc)]
                            == f.data@[flat_idx(w as int, ch as int, w - 1 - xx, yy, cc)],
            decreases h - y,
        {
            let mut x: usize = 0;
            while x < w
                invariant
                    f.wf(),
                    w == f.width as usize,
                    h == f.height as usize,
                    ch == f.channels as usize,
                    n == f.data@.len(),
                    y < h,
                    x <= w,
                    data@.len() == flat_idx(w as int, ch as int, x as int, y as int, 0),
                    data@.len() <= n,
                    forall|xx: int, yy: int, cc: int|
                        0 <= xx < w && 0 <= yy < h && 0 <= cc < ch
                            && #[trigger] flat_idx(w as int, ch as int, xx, yy, cc) < data@.len()
                            ==> data@[flat_idx(w as int, ch as int, xx, yy, cc)]
                                == f.data@[flat_idx(w as int, ch as int, w - 1 - xx, yy, cc)],
                decreases w - x,
            {
                let mut c: usize = 0;
                while c < ch
                    invariant
                        f.wf(),
                        w == f.width as usize,
                        h == f.height as usize,
                        ch == f.channels as usize,
                        n == f.data@.len(),
                        y < h,
                        x < w,
                        c <= ch,
                        data@.len() == flat_idx(w as int, ch as int, x as int, y as int, c as int),
                        data@.len() <= n,
                        forall|xx: int, yy: int, cc: int|
                            0 <= xx < w && 0 <= yy < h && 0 <= cc < ch
                                && #[trigger] flat_idx(w as int, ch as int, xx, yy, cc) < data@.len()
                                ==> data@[flat_idx(w as int, ch as int, xx, yy, cc)]
                                    == f.data@[flat_idx(w as int, ch as int, w - 1 - xx, yy, cc)],
                    decreases ch - c,
                {
                    proof {
                        lemma_flat_idx_bounds(w as int, h as int, ch as int, x as int, y as int, c as int);
                        lemma_flat_idx_bounds(
                            w as int, h as int, ch as int, w as int - 1 - x as int, y as int, c as int);
                        lemma_mul_at_least(y as int * w as int + (w as int - 1 - x as int), ch as int);
                        lemma_mul_at_least(y as int * w as int + x as int, ch as int);
                    }
                    let src = (y * w + (w - 1 - x)) * ch + c;
                    let v = f.data[src];
                    data.push(v);
                    proof {
                        assert forall|xx: int, yy: int, cc: int|
                            0 <= xx < w && 0 <= yy < h && 0 <= cc < ch
                                && #[trigger] flat_idx(w as int, ch as int, xx, yy, cc) < data@.len()
                                implies data@[flat_idx(w as int, ch as int, xx, yy, cc)]
                                    == f.data@[flat_idx(w as int, ch as int, w - 1 - xx, yy, cc)]
                        by {
                            if flat_idx(w as int, ch as int, xx, yy, cc)
                                == flat_idx(w as int, ch as int, x as int, y as int, c as int) {
                                lemma_flat_idx_injective(
                                    w as int, ch as int, xx, yy, cc, x as int, y as int, c as int);
                            }
                        }
                    }
                    c = c + 1;
                }
                proof {
                    assert((y as int * w as int + x as int) * ch as int + ch as int
                        == (y as int * w as int + (x as int + 1)) * ch as int) by (nonlinear_arith);
                }
                x = x + 1;
            }
            proof {
                assert((y as int * w as int + w as int) * ch as int
                    == ((y as int + 1) * w as int) * ch as int) by (nonlinear_arith);
            }
            y = y + 1;
        }
        proof {
            assert((h as int * w as int) * ch as int == (w as int * h as int) * ch as int)
                by (nonlinear_arith);
            assert forall|x: int, y: int, c: int|
                0 <= x < f.width && 0 <= y < f.height && 0 <= c < f.channels
                    implies flat_idx(w as int, ch as int, x, y, c) < data@.len()
            by {
                lemma_flat_idx_bounds(w as int, h as int, ch as int, x, y, c);
            }
        }
        Frame { width: f.width, height: f.height, channels: f.channels, data }
    }

    /// Expands a one-channel intensity frame to four-channel RGBA with a
    /// gray palette: every color channel repeats the intensity byte and the
    /// alpha channel is fully opaque.
    pub fn expand_gray_to_rgba(f: &Frame) -> (r: Frame)
        requires
            f.wf(),
            f.channels == 1,
            4 * f.data@.len() <= usize::MAX,
        ensures
            r.wf(),
            r.width == f.width,
            r.height == f.height,
            r.channels == 4,
            forall|i: int| 0 <= i < f.data@.len() ==> {
                &&& r.data@[4 * i] == #[trigger] f.data@[i]
                &&& r.data@[4 * i + 1] == f.data@[i]
                &&& r.data@[4 * i + 2] == f.data@[i]
                &&& r.data@[4 * i + 3] == 255
            },
    {
        let n = f.data.len();
        let mut data: Vec<u8> = Vec::new();
        let mut i: usize = 0;
        while i < n
            invariant
                f.wf(),
                n == f.data@.len(),
                4 * n <= usize::MAX,
                i <= n,
                data@.len() == 4 * i as int,
                forall|j: int| 0 <= j < i as int ==> {
                    &&& data@[4 * j] == #[trigger] f.data@[j]
                    &&& data@[4 * j + 1] == f.data@[j]
                    &&& data@[4 * j + 2] == f.data@[j]
                    &&& data@[4 * j + 3] == 255
                },
            decreases n - i,
        {
            let v = f.data[i];
            data.push(v);
            data.push(v);
            data.push(v);
            data.push(255);
            proof {
                assert(data@[4 * (i as int)] == v);
                assert(data@[4 * (i as int) + 1] == v);
                assert(data@[4 * (i as int) + 2] == v);
                assert(data@[4 * (i as int) + 3] == 255);
            }
            i = i + 1;
        }
        Frame { width: f.width, height: f.height, channels: 4, data }
    }
}

/// An in-range (column, row, channel) triple maps to a flat index inside
/// the buffer, and its row prefix stays below the pixel count.
proof fn lemma_flat_idx_bounds(w: int, h: int, ch: int, x: int, y: int, c: int)
    requires
        0 <= x < w,
        0 <= y < h,
        0 <= c < ch,
    ensures
        0 <= y * w + x < w * h,
        0 <= flat_idx(w, ch, x, y, c) < (w * h) * ch,
{
    assert(0 <= y * w + x < w * h && 0 <= (y * w + x) * ch + c < (w * h) * ch)
        by (nonlinear_arith)
        requires
            0 <= x < w,
            0 <= y < h,
            0 <= c < ch,
    ;
}

/// Distinct in-range (column, row, channel) triples occupy distinct flat
/// indices, by uniqueness of quotient and remainder.
proof fn lemma_flat_idx_injective(w: int, ch: int, x1: int, y1: int, c1: int, x2: int, y2: int, c2: int)
    requires
        0 <= x1 < w,
        0 <= c1 < ch,
        0 <= y1,
        0 <= x2 < w,
        0 <= c2 < ch,
        0 <= y2,
        flat_idx(w, ch, x1, y1, c1) == flat_idx(w, ch, x2, y2, c2),
    ensures
        x1 == x2,
        y1 == y2,
        c1 == c2,
{
    let i = flat_idx(w, ch, x1, y1, c1);
    lemma_fundamental_div_mod_converse(i, ch, y1 * w + x1, c1);
    lemma_fundamental_div_mod_converse(i, ch, y2 * w + x2, c2);
    let q = y1 * w + x1;
    lemma_fundamental_div_mod_converse(q, w, y1, x1);
    lemma_fundamental_div_mod_converse(q, w, y2, x2);
}

/// Multiplying a nonnegative value by a factor of at least one never
/// shrinks it; a pixel count whose product already overflows therefore
/// stays above any machine bound once the channel count is folded in.
proof fn lemma_mul_at_least(a: int, c: int)
    requires
        a >= 0,
        c >= 1,
    ensures
        a <= a * c,
{
    assert(a <= a * c) by (nonlinear_arith)
        requires
            a >= 0,
            c >= 1,
    ;
}

} // verus!
