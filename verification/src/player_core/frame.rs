//! Decoded frames and what is known of a media.
//!
//! A decoded row is usually longer than its pixels: the decoder pads rows for alignment. Whoever
//! copies pixels has to go by [`DecodedFrame::stride`], or the picture comes out slanted.

use crate::time::{nearest, Duration, MAX_NANOS, NANOS_PER_SEC};
use vstd::arithmetic::mul::{lemma_mul_inequality, lemma_mul_is_distributive_add_other_way};
use vstd::prelude::*;

verus! {

/// A fraction, as containers give their time bases and frame rates.
#[derive(Debug, Clone, Copy, PartialEq, Eq, Structural)]
pub struct Rational {
    pub num: i32,
    pub den: i32,
}

impl Rational {
    /// `ticks` times this fraction is more than nothing. A fraction without a denominator is
    /// endless.
    pub open spec fn is_ahead(self, ticks: int) -> bool {
        if self.den < 0 {
            ticks * self.num < 0
        } else {
            ticks * self.num > 0
        }
    }

    /// `ticks` times this fraction is a number, and not negative.
    pub open spec fn is_time(self, ticks: int) -> bool {
        &&& self.den != 0
        &&& ticks * self.num == 0 || self.is_ahead(ticks)
    }

    /// The fraction is a positive number.
    pub open spec fn positive(self) -> bool {
        &&& self.den != 0
        &&& self.num != 0
        &&& (self.num > 0) == (self.den > 0)
    }

    /// The size of the numerator.
    pub open spec fn abs_num(self) -> int {
        if self.num < 0 {
            -self.num
        } else {
            self.num as int
        }
    }

    /// The size of the denominator.
    pub open spec fn abs_den(self) -> int {
        if self.den < 0 {
            -self.den
        } else {
            self.den as int
        }
    }

    /// The nanoseconds closest to `ticks` times this fraction of a second, signs left out.
    pub open spec fn nanos(self, ticks: int) -> int {
        nearest(
            (if ticks < 0 {
                -ticks
            } else {
                ticks
            }) * self.abs_num() * NANOS_PER_SEC,
            self.abs_den(),
        )
    }

    /// Numerator and denominator without their signs.
    pub fn sizes(self) -> (r: (u32, u32))
        ensures
            r.0 == self.abs_num(),
            r.1 == self.abs_den(),
    {
        (size_of_i32(self.num), size_of_i32(self.den))
    }

    /// Whether the fraction is a positive number.
    pub fn is_positive(self) -> (r: bool)
        ensures
            r == self.positive(),
    {
        self.den != 0 && self.num != 0 && (self.num > 0) == (self.den > 0)
    }

    /// The nanoseconds closest to `ticks` times this fraction of a second, signs left out.
    pub fn nanos_of(self, ticks: u64) -> (n: u128)
        requires
            self.den != 0,
        ensures
            n == self.nanos(ticks as int),
    {
        let (num, den): (u32, u32) = self.sizes();
        assert(ticks * num <= u64::MAX * u32::MAX) by (nonlinear_arith)
            requires
                ticks <= u64::MAX,
                num <= u32::MAX,
        ;
        let scaled: u128 = ticks as u128 * num as u128;
        let total: u128 = scaled * 1_000_000_000;
        let twice: u128 = 2 * den as u128;
        (2 * total + den as u128) / twice
    }

    /// `ticks` times this fraction of a second, signs left out.
    pub fn time_of(self, ticks: u64) -> (d: Duration)
        requires
            self.den != 0,
            self.nanos(ticks as int) <= MAX_NANOS,
        ensures
            d@ == self.nanos(ticks as int),
    {
        Duration::of_nanos(self.nanos_of(ticks))
    }

    /// Whether `ticks` times this fraction of a second is a span of time.
    pub fn is_span(self, ticks: u64) -> (r: bool)
        ensures
            r == (self.is_time(ticks as int) && self.nanos(ticks as int) <= MAX_NANOS),
    {
        let num: i32 = self.num;
        assert(ticks * num == 0 <==> ticks == 0 || num == 0) by (nonlinear_arith);
        assert(ticks * num > 0 <==> ticks > 0 && num > 0) by (nonlinear_arith)
            requires
                ticks >= 0,
        ;
        self.den != 0 && (ticks == 0 || num == 0 || (num > 0) == (self.den > 0)) && self.nanos_of(
            ticks,
        ) <= MAX_NANOS
    }
}

/// The size of `x`.
fn size_of_i32(x: i32) -> (r: u32)
    ensures
        r == (if x < 0 {
            -x
        } else {
            x as int
        }),
{
    if x < 0 {
        let up: i32 = x + i32::MAX;
        if up < 0 {
            0x8000_0000
        } else {
            (-x) as u32
        }
    } else {
        x as u32
    }
}

/// The size of `x`.
pub fn size_of_i64(x: i64) -> (r: u64)
    ensures
        r == (if x < 0 {
            -x
        } else {
            x as int
        }),
{
    if x < 0 {
        if x == i64::MIN {
            0x8000_0000_0000_0000
        } else {
            (-x) as u64
        }
    } else {
        x as u64
    }
}

/// The length of a stream that counts `duration` ticks of `base`, whatever the sign of the count.
pub fn stream_duration(duration: i64, base: Rational) -> (d: Duration)
    requires
        base.is_time(
            if duration < 0 {
                -duration
            } else {
                duration as int
            },
        ),
        base.nanos(duration as int) <= MAX_NANOS,
    ensures
        d@ == base.nanos(duration as int),
{
    base.time_of(size_of_i64(duration))
}

/// A frame with this time stamp has a presentation time.
pub open spec fn has_pts(timestamp: Option<i64>, base: Rational) -> bool {
    timestamp matches Some(ts) ==> base.is_ahead(ts as int) ==> base.den != 0 && base.nanos(
        ts as int,
    ) <= MAX_NANOS
}

/// Whether a frame with this time stamp has a presentation time.
pub fn can_time(timestamp: Option<i64>, base: Rational) -> (r: bool)
    ensures
        r == has_pts(timestamp, base),
{
    match timestamp {
        Some(ts) => !is_ahead(ts, base) || (base.den != 0 && base.nanos_of(size_of_i64(ts))
            <= MAX_NANOS),
        None => true,
    }
}

/// The presentation time of a video frame: a frame without a time stamp, or with one that is not
/// behind the start of the media, is shown at its start.
pub fn video_pts(timestamp: Option<i64>, base: Rational) -> (d: Duration)
    requires
        has_pts(timestamp, base),
    ensures
        d@ == (match timestamp {
            Some(ts) => if base.is_ahead(ts as int) {
                base.nanos(ts as int)
            } else {
                0
            },
            None => 0,
        }),
{
    match timestamp {
        Some(ts) => if is_ahead(ts, base) {
            base.time_of(size_of_i64(ts))
        } else {
            Duration::zero()
        },
        None => Duration::zero(),
    }
}

/// Whether `ticks` times the fraction is more than nothing.
pub fn is_ahead(ticks: i64, base: Rational) -> (r: bool)
    ensures
        r == base.is_ahead(ticks as int),
{
    let num: i32 = base.num;
    if ticks == 0 || num == 0 {
        assert(ticks * num == 0) by (nonlinear_arith)
            requires
                ticks == 0 || num == 0,
        ;
        false
    } else if (ticks > 0) == (num > 0) {
        assert(ticks * num > 0) by (nonlinear_arith)
            requires
                ticks > 0 && num > 0 || ticks < 0 && num < 0,
        ;
        base.den >= 0
    } else {
        assert(ticks * num < 0) by (nonlinear_arith)
            requires
                ticks > 0 && num < 0 || ticks < 0 && num > 0,
        ;
        base.den < 0
    }
}

/// The rows `0..rows` of a picture of `width` bytes a row, cut out of rows of `stride` bytes.
pub open spec fn tight_rows(data: Seq<u8>, stride: int, width: int, rows: nat) -> Seq<u8>
    decreases rows,
{
    if rows == 0 {
        Seq::empty()
    } else {
        tight_rows(data, stride, width, (rows - 1) as nat) + data.subrange(
            (rows - 1) * stride,
            (rows - 1) * stride + width,
        )
    }
}

/// One decoded video frame, four bytes a pixel in the order blue, green, red, alpha.
#[derive(Debug, Clone)]
pub struct DecodedFrame {
    /// The pixels, padding of the rows included.
    pub data: Vec<u8>,
    /// Bytes from one row to the next.
    pub stride: usize,
    /// Pixels in a row.
    pub width: u32,
    /// Rows.
    pub height: u32,
    /// When the frame is shown, from the start of the media.
    pub pts: Duration,
}

impl DecodedFrame {
    /// Every row of pixels lies inside the data.
    pub open spec fn rows_inside(self) -> bool {
        &&& self.width * 4 <= usize::MAX
        &&& self.height > 0 ==> (self.height - 1) * self.stride + self.width * 4 <= self.data@.len()
    }

    /// The data holds exactly `height` rows of `stride` bytes.
    pub open spec fn exact(self) -> bool {
        &&& self.width * 4 <= self.stride
        &&& self.data@.len() == self.stride * self.height
    }

    /// Where row `row` starts in the data.
    pub fn row_offset(&self, row: usize) -> (r: usize)
        requires
            row * self.stride <= usize::MAX,
        ensures
            r == row * self.stride,
    {
        row * self.stride
    }

    /// The pixels without the padding of the rows.
    pub fn to_tight_bgra(&self) -> (out: Vec<u8>)
        requires
            self.stride != self.width * 4 ==> self.rows_inside(),
            self.width * 4 <= usize::MAX,
        ensures
            self.stride == self.width * 4 ==> out@ == self.data@,
            self.stride != self.width * 4 ==> out@ == tight_rows(
                self.data@,
                self.stride as int,
                self.width * 4,
                self.height as nat,
            ),
    {
        let w: usize = self.width as usize * 4;
        let mut out: Vec<u8> = Vec::new();
        if self.stride == w {
            let mut i: usize = 0;
            while i < self.data.len()
                invariant
                    i <= self.data@.len(),
                    out@ == self.data@.take(i as int),
                decreases self.data@.len() - i,
            {
                out.push(self.data[i]);
                i = i + 1;
                assert(out@ =~= self.data@.take(i as int));
            }
            assert(out@ =~= self.data@);
            return out;
        }
        let len: usize = self.data.len();
        let mut row: u32 = 0;
        while row < self.height
            invariant
                row <= self.height,
                len == self.data@.len(),
                w == self.width * 4,
                self.rows_inside(),
                out@ == tight_rows(self.data@, self.stride as int, w as int, row as nat),
            decreases self.height - row,
        {
            proof {
                lemma_mul_inequality(row as int, self.height - 1, self.stride as int);
            }
            let start: usize = row as usize * self.stride;
            let ghost before = out@;
            let mut col: usize = 0;
            while col < w
                invariant
                    col <= w,
                    len == self.data@.len(),
                    start + w <= len,
                    out@ == before + self.data@.subrange(start as int, start + col),
                decreases w - col,
            {
                out.push(self.data[start + col]);
                col = col + 1;
                assert(out@ =~= before + self.data@.subrange(start as int, start + col));
            }
            row = row + 1;
        }
        out
    }
}

/// The pixels without padding are exactly `height` rows of `width` bytes, and the byte in column
/// `col` of row `row` is the one that stands there in the padded picture.
pub proof fn law_tight_rows_keep_pixels(
    data: Seq<u8>,
    stride: int,
    width: int,
    height: nat,
    row: int,
    col: int,
)
    requires
        0 <= width,
        0 <= stride,
        height > 0 ==> (height - 1) * stride + width <= data.len(),
        0 <= row < height,
        0 <= col < width,
    ensures
        tight_rows(data, stride, width, height).len() == height * width,
        0 <= row * width + col < height * width,
        tight_rows(data, stride, width, height)[row * width + col] == data[row * stride + col],
    decreases height,
{
    lemma_tight_len(data, stride, width, height);
    if height > 1 {
        lemma_mul_inequality(height - 2, height - 1, stride);
    }
    lemma_tight_len(data, stride, width, (height - 1) as nat);
    lemma_mul_inequality(row + 1, height as int, width);
    lemma_mul_is_distributive_add_other_way(width, row, 1);
    assert(0 <= row * width) by (nonlinear_arith)
        requires
            0 <= row,
            0 <= width,
    ;
    assert(0 <= (height - 1) * stride) by (nonlinear_arith)
        requires
            0 < height,
            0 <= stride,
    ;
    if row < height - 1 {
        lemma_mul_inequality(row + 1, height - 1, width);
        law_tight_rows_keep_pixels(data, stride, width, (height - 1) as nat, row, col);
    } else {
        assert(tight_rows(data, stride, width, height)[row * width + col] == data.subrange(
            row * stride,
            row * stride + width,
        )[col]);
    }
}

/// Cutting `rows` rows of `width` bytes out of a picture that holds them gives that many bytes.
pub proof fn lemma_tight_len(data: Seq<u8>, stride: int, width: int, rows: nat)
    requires
        0 <= width,
        0 <= stride,
        rows > 0 ==> (rows - 1) * stride + width <= data.len(),
    ensures
        tight_rows(data, stride, width, rows).len() == rows * width,
    decreases rows,
{
    if rows > 0 {
        assert(0 <= (rows - 1) * stride) by (nonlinear_arith)
            requires
                0 < rows,
                0 <= stride,
        ;
        if rows > 1 {
            lemma_mul_inequality(rows - 2, rows - 1, stride);
        }
        lemma_tight_len(data, stride, width, (rows - 1) as nat);
        lemma_mul_is_distributive_add_other_way(width, rows - 1, 1);
    } else {
        assert(rows * width == 0) by (nonlinear_arith)
            requires
                rows == 0,
        ;
    }
}

/// A frame that holds exactly its rows loses nothing but the padding: without padding it has
/// `width * height` pixels of four bytes.
pub proof fn law_tight_size(frame: DecodedFrame)
    requires
        frame.exact(),
    ensures
        tight_rows(
            frame.data@,
            frame.stride as int,
            frame.width * 4,
            frame.height as nat,
        ).len() == frame.width * 4 * frame.height,
        frame.stride == frame.width * 4 ==> frame.data@.len() == frame.width * 4 * frame.height,
{
    let h = frame.height as int;
    let s = frame.stride as int;
    if h > 0 {
        assert((h - 1) * s + s == s * h) by (nonlinear_arith);
    }
    lemma_tight_len(frame.data@, s, frame.width * 4, frame.height as nat);
    assert(h * (frame.width * 4) == frame.width * 4 * h) by (nonlinear_arith);
}

/// What is known of the video stream of a media.
#[derive(Debug, Clone, Copy, PartialEq, Eq, Structural)]
pub struct VideoInfo {
    pub width: u32,
    pub height: u32,
    /// Total length; empty where the stream does not tell.
    pub duration: Duration,
    /// Frames per second; zero where the stream does not tell.
    pub fps: Rational,
}

/// A stretch of sound, the samples of the channels interleaved.
#[derive(Debug, Clone)]
pub struct AudioChunk<S> {
    /// The samples: one for each channel, then the next one for each channel.
    pub samples: Vec<S>,
    pub channels: u16,
    /// Samples per second and channel.
    pub sample_rate: u32,
    /// When the stretch starts, from the start of the media.
    pub pts: Duration,
}

/// `x`, or one where `x` is zero.
pub open spec fn at_least_one(x: int) -> int {
    if x < 1 {
        1
    } else {
        x
    }
}

impl<S> AudioChunk<S> {
    /// Samples per channel.
    pub fn frames(&self) -> (n: usize)
        ensures
            n == self.samples@.len() / at_least_one(self.channels as int) as nat,
    {
        let channels: usize = if self.channels == 0 {
            1
        } else {
            self.channels as usize
        };
        self.samples.len() / channels
    }

    /// How long the stretch plays.
    pub fn duration(&self) -> (d: Duration)
        ensures
            d@ == crate::time::ticks_to_nanos(
                (self.samples@.len() / at_least_one(self.channels as int) as nat) as int,
                at_least_one(self.sample_rate as int),
            ),
    {
        let rate: u32 = if self.sample_rate == 0 {
            1
        } else {
            self.sample_rate
        };
        Duration::from_ticks(self.frames() as u64, rate)
    }
}

} // verus!
