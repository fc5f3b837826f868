//! From an arrived frame to the display: background subtraction, the display
//! range, the frame rate, overlays and the zoom window.

use crate::layout::ScaleMode;
use crate::pixels::Pixels;
use crate::text;
use vstd::prelude::*;
use vstd::string::*;

verus! {

// ---------------------------------------------------------------------------
// Background subtraction

/// Is `out` the pixels minus the background, pixel by pixel?
pub open spec fn subtracted<F, S: Fn(F, F) -> F>(
    pixels: Seq<F>,
    background: Seq<F>,
    minus: S,
    out: Seq<F>,
) -> bool {
    out.len() == pixels.len() && forall|i: int|
        0 <= i < pixels.len() ==> call_ensures(
            minus,
            (pixels[i], background[i]),
            #[trigger] out[i],
        )
}

/// Subtracts a background from a frame, which becomes a float frame because
/// the result can go negative. A background of another size is left alone.
/// Returns whether anything was subtracted.
pub fn subtract_background<F: Copy, W: Fn(u16) -> F, S: Fn(F, F) -> F>(
    frame: &mut Pixels<F>,
    background: &Vec<F>,
    widen: W,
    minus: S,
) -> (r: bool)
    requires
        forall|x: u16| call_requires(widen, (x,)),
        forall|a: F, b: F| call_requires(minus, (a, b)),
    ensures
        r == (background@.len() == old(frame).count()),
        !r ==> *final(frame) == *old(frame),
        r ==> {
            &&& *final(frame) matches Pixels::F32(out)
            &&& exists|wide: Seq<F>|
                old(frame).is_f32(widen, wide) && #[trigger] subtracted(
                    wide,
                    background@,
                    minus,
                    out@,
                )
        },
{
    if background.len() != frame.len() {
        return false;
    }
    let ghost before = *frame;
    let pixels: &mut Vec<F> = frame.make_f32_mut(widen);
    let ghost wide = pixels@;
    let n: usize = pixels.len();
    for i in 0..n
        invariant
            n == wide.len(),
            n == background@.len(),
            pixels@.len() == n,
            forall|a: F, b: F| call_requires(minus, (a, b)),
            forall|j: int|
                0 <= j < i ==> call_ensures(minus, (wide[j], background@[j]), #[trigger] pixels@[j]),
            forall|j: int| i <= j < n ==> #[trigger] pixels@[j] == wide[j],
    {
        let v: F = minus(pixels[i], background[i]);
        pixels.set(i, v);
    }
    assert(subtracted(wide, background@, minus, pixels@));
    true
}

/// The range of subtracted frames only grows: it spans what was seen before
/// and what the frame at hand holds. `lower` and `upper` are the lesser and the
/// greater of two numbers.
pub fn grow_range<F: Copy, Lo: Fn(F, F) -> F, Hi: Fn(F, F) -> F>(
    seen: Option<(F, F)>,
    frame: (F, F),
    lower: Lo,
    upper: Hi,
) -> (r: (F, F))
    requires
        forall|a: F, b: F| call_requires(lower, (a, b)),
        forall|a: F, b: F| call_requires(upper, (a, b)),
    ensures
        match seen {
            Some(s) => call_ensures(lower, (s.0, frame.0), r.0) && call_ensures(
                upper,
                (s.1, frame.1),
                r.1,
            ),
            None => r == frame,
        },
{
    match seen {
        Some(s) => (lower(s.0, frame.0), upper(s.1, frame.1)),
        None => frame,
    }
}

// ---------------------------------------------------------------------------
// The display range

/// Where the display range of a frame comes from.
#[derive(Clone, Copy, PartialEq, Eq, Structural, Debug)]
pub enum RangeRule {
    /// It stays as it is.
    Keep,
    /// The span of the data, widened to multiples of 100.
    SnappedData,
    /// The ZScale range of the pixels.
    ZScaled,
    /// The span of the data.
    Data,
    /// From 0 to the full scale of the bit depth.
    FullScale,
}

/// Where the display range comes from in a scale mode. The full range of a
/// frame follows its data while a background is subtracted, because the bit
/// depth then no longer bounds the values.
pub open spec fn range_rule_of(mode: ScaleMode, follows_data: bool) -> RangeRule {
    match mode {
        ScaleMode::Auto => RangeRule::SnappedData,
        ScaleMode::ZScale => RangeRule::ZScaled,
        ScaleMode::Full => if follows_data {
            RangeRule::Data
        } else {
            RangeRule::FullScale
        },
        ScaleMode::Manual => RangeRule::Keep,
    }
}

/// Where the display range comes from in a scale mode.
pub fn range_rule(mode: ScaleMode, follows_data: bool) -> (r: RangeRule)
    ensures
        r == range_rule_of(mode, follows_data),
{
    match mode {
        ScaleMode::Auto => RangeRule::SnappedData,
        ScaleMode::ZScale => RangeRule::ZScaled,
        ScaleMode::Full => if follows_data {
            RangeRule::Data
        } else {
            RangeRule::FullScale
        },
        ScaleMode::Manual => RangeRule::Keep,
    }
}

/// A range that the user set stays put, and only that one does.
pub proof fn law_only_manual_keeps_the_range(mode: ScaleMode, follows_data: bool)
    ensures
        range_rule_of(mode, follows_data) == RangeRule::Keep <==> mode == ScaleMode::Manual,
{
}

// ---------------------------------------------------------------------------
// Rates

/// How many arrivals the frame rate is taken over.
pub const RATE_FRAMES: usize = 30;

/// When the last frames arrived, in microseconds of a clock that does not run
/// backwards.
pub struct FrameClock {
    times: Vec<u64>,
}

/// The last `n` of some arrivals.
pub open spec fn last_of(times: Seq<u64>, n: nat) -> Seq<u64> {
    if times.len() <= n {
        times
    } else {
        times.skip(times.len() - n)
    }
}

impl View for FrameClock {
    type V = Seq<u64>;

    closed spec fn view(&self) -> Seq<u64> {
        self.times@
    }
}

impl FrameClock {
    /// No frame has arrived.
    pub fn new() -> (r: FrameClock)
        ensures
            r@ == Seq::<u64>::empty(),
    {
        FrameClock { times: Vec::new() }
    }

    /// A frame arrived.
    pub fn tick(&mut self, now: u64)
        requires
            old(self)@.len() <= RATE_FRAMES,
        ensures
            final(self)@ == last_of(old(self)@.push(now), RATE_FRAMES as nat),
            final(self)@.len() <= RATE_FRAMES,
    {
        let ghost before = self.times@;
        self.times.push(now);
        if self.times.len() > RATE_FRAMES {
            self.times.remove(0);
            assert(self.times@ =~= before.push(now).skip(1));
        }
    }

    /// The rate as a number of frames and the microseconds they took, once two
    /// frames have arrived.
    pub fn rate(&self) -> (r: Option<(u64, u64)>)
        requires
            self@.len() <= RATE_FRAMES,
        ensures
            match r {
                Some((frames, micros)) => self@.len() >= 2 && frames == self@.len() - 1 && micros == (
                if self@.last() >= self@[0] {
                    self@.last() - self@[0]
                } else {
                    0
                }),
                None => self@.len() < 2,
            },
    {
        let n: usize = self.times.len();
        if n < 2 {
            return None;
        }
        let first: u64 = self.times[0];
        let last: u64 = self.times[n - 1];
        let micros: u64 = if last >= first {
            last - first
        } else {
            0
        };
        Some(((n - 1) as u64, micros))
    }
}

/// The receive rate of a network camera, taken from a running byte counter over
/// windows of a second or more.
#[derive(Clone, Copy, PartialEq, Eq, Structural, Debug)]
pub struct ByteRate {
    /// The counter at the end of the last window.
    pub bytes: u64,
    /// When the last window ended, in microseconds.
    pub at: u64,
    /// Bytes received in the last window.
    pub delta: u64,
    /// Its length in microseconds; 0 before the first.
    pub span: u64,
}

impl ByteRate {
    /// A counter that starts at `now`.
    pub fn new(now: u64) -> (r: ByteRate)
        ensures
            r == (ByteRate { bytes: 0, at: now, delta: 0, span: 0 }),
    {
        ByteRate { bytes: 0, at: now, delta: 0, span: 0 }
    }

    /// The counter stands at `bytes`, or no camera is streaming (`None`). A
    /// window that is a second old closes; without a camera a rate that is not
    /// 0 goes back to it.
    pub fn update(&mut self, bytes: Option<u64>, now: u64)
        requires
            now >= old(self).at,
        ensures
            *final(self) == (match bytes {
                Some(b) => if now - old(self).at >= 1000000 {
                    ByteRate {
                        bytes: b,
                        at: now,
                        delta: (if b >= old(self).bytes {
                            (b - old(self).bytes) as u64
                        } else {
                            0
                        }),
                        span: (now - old(self).at) as u64,
                    }
                } else {
                    *old(self)
                },
                None => if old(self).delta != 0 {
                    ByteRate { bytes: 0, at: now, delta: 0, span: 0 }
                } else {
                    *old(self)
                },
            }),
    {
        match bytes {
            Some(b) => {
                let span: u64 = now - self.at;
                if span >= 1000000 {
                    self.delta = if b >= self.bytes {
                        b - self.bytes
                    } else {
                        0
                    };
                    self.span = span;
                    self.bytes = b;
                    self.at = now;
                }
            },
            None => {
                if self.delta != 0 {
                    *self = ByteRate::new(now);
                }
            },
        }
    }
}

/// Repaints are coalesced to about the display rate: at most one in this many
/// microseconds.
pub const REPAINT_INTERVAL_US: u64 = 16000;

/// How long after a frame arrived the display is repainted, where the last
/// repaint was `since` microseconds ago: at once, or at the end of the window
/// that is under way.
pub open spec fn repaint_wait(since: u64) -> int {
    if since >= REPAINT_INTERVAL_US {
        0
    } else {
        REPAINT_INTERVAL_US - since
    }
}

/// How long after a frame arrived the display is repainted.
pub fn repaint_after(since: u64) -> (r: u64)
    ensures
        r == repaint_wait(since),
{
    if since >= REPAINT_INTERVAL_US {
        0
    } else {
        REPAINT_INTERVAL_US - since
    }
}

/// A frame is on screen within one window of its arrival, and no two repaints
/// are closer than that.
pub proof fn law_repaints_keep_the_interval(since: u64)
    ensures
        0 <= repaint_wait(since) <= REPAINT_INTERVAL_US,
        since + repaint_wait(since) >= REPAINT_INTERVAL_US,
{
}

// ---------------------------------------------------------------------------
// Overlays

/// How many centroids are drawn at most. The brightest come first; extraction
/// and solving still see the full list.
pub const MAX_CENTROID_OVERLAYS: usize = 4000;

/// What overlays the user has switched on.
#[derive(Clone, Copy, PartialEq, Eq, Structural, Debug)]
pub struct OverlaySwitches {
    pub centroids: bool,
    pub matched: bool,
    pub names: bool,
}

/// How many of `found` centroids are drawn, brightest first.
pub open spec fn drawn_of(found: nat, solving: bool, on: OverlaySwitches) -> nat {
    if !solving || !on.centroids {
        0
    } else if found < MAX_CENTROID_OVERLAYS {
        found
    } else {
        MAX_CENTROID_OVERLAYS as nat
    }
}

impl OverlaySwitches {
    /// How many of `found` centroids are drawn: the first ones, while the
    /// pipeline runs and they are switched on.
    pub fn drawn_centroids(self, found: usize, solving: bool) -> (r: usize)
        ensures
            r as nat == drawn_of(found as nat, solving, self),
    {
        if !solving || !self.centroids {
            0
        } else if found < MAX_CENTROID_OVERLAYS {
            found
        } else {
            MAX_CENTROID_OVERLAYS
        }
    }

    /// The centroids that get a cross-hair: those that the last solution
    /// matched (`None` without one), as far as they are drawn.
    pub fn marked_centroids(self, drawn: usize, matched: Option<&Vec<usize>>) -> (r: Vec<usize>)
        ensures
            r@ == (match matched {
                Some(m) => if self.matched {
                    m@.filter(|i: usize| i < drawn)
                } else {
                    Seq::empty()
                },
                None => Seq::empty(),
            }),
    {
        let mut out: Vec<usize> = Vec::new();
        if !self.matched {
            return out;
        }
        match matched {
            Some(m) => {
                let ghost pick = |i: usize| i < drawn;
                proof {
                    reveal(Seq::filter);
                    assert(m@.take(0) =~= Seq::<usize>::empty());
                }
                for k in 0..m.len()
                    invariant
                        pick == (|i: usize| i < drawn),
                        out@ == m@.take(k as int).filter(pick),
                {
                    proof {
                        reveal(Seq::filter);
                        assert(m@.take(k as int + 1).drop_last() =~= m@.take(k as int));
                        assert(m@.take(k as int + 1).last() == m@[k as int]);
                    }
                    if m[k] < drawn {
                        out.push(m[k]);
                    }
                }
                assert(m@.take(m@.len() as int) =~= m@);
                out
            },
            None => out,
        }
    }

    /// Are the names of bright stars shown? They need a solution, and the
    /// overlays of centroids and matched stars.
    pub fn shows_names(self, locked: bool) -> (r: bool)
        ensures
            r == (self.names && self.matched && self.centroids && locked),
    {
        self.names && self.matched && self.centroids && locked
    }
}

/// A cross-hair always stands on a drawn centroid, and no more are drawn than
/// allowed.
pub proof fn law_marks_stand_on_drawn_centroids(
    found: nat,
    solving: bool,
    on: OverlaySwitches,
    matched: Seq<usize>,
    k: int,
)
    requires
        0 <= k < matched.filter(|i: usize| i < drawn_of(found, solving, on)).len(),
    ensures
        matched.filter(|i: usize| i < drawn_of(found, solving, on))[k] < found,
        drawn_of(found, solving, on) <= MAX_CENTROID_OVERLAYS,
        matched.contains(matched.filter(|i: usize| i < drawn_of(found, solving, on))[k]),
{
    let pick = |i: usize| i < drawn_of(found, solving, on);
    matched.lemma_filter_pred(pick, k);
    matched.lemma_filter_contains_rev(pick, matched.filter(pick)[k]);
}

// ---------------------------------------------------------------------------
// The zoom window

/// A rectangle of pixels, all four bounds part of it.
#[derive(Clone, Copy, PartialEq, Eq, Structural, Debug)]
pub struct ZoomRoi {
    pub x0: u32,
    pub y0: u32,
    pub x1: u32,
    pub y1: u32,
}

impl ZoomRoi {
    /// Are the bounds in order, with sides that can be counted?
    pub open spec fn wf(&self) -> bool {
        self.x0 <= self.x1 && self.y0 <= self.y1 && self.x1 - self.x0 < u32::MAX && self.y1
            - self.y0 < u32::MAX
    }

    pub open spec fn columns(&self) -> int {
        self.x1 - self.x0 + 1
    }

    pub open spec fn rows(&self) -> int {
        self.y1 - self.y0 + 1
    }

    /// Width and height; `None` for a rectangle that is too small to open a
    /// window for.
    pub fn size(&self) -> (r: Option<(u32, u32)>)
        requires
            self.wf(),
        ensures
            r == (if self.columns() < 2 || self.rows() < 2 {
                None
            } else {
                Some((self.columns() as u32, self.rows() as u32))
            }),
    {
        let w: u32 = self.x1 - self.x0 + 1;
        let h: u32 = self.y1 - self.y0 + 1;
        if w < 2 || h < 2 {
            None
        } else {
            Some((w, h))
        }
    }

    /// The title of the window.
    pub fn title(&self) -> (r: String)
        requires
            self.wf(),
        ensures
            r@ == "Zoom  ("@ + text::decimal(self.x0 as int) + ","@ + text::decimal(self.y0 as int)
                + ")\u{2013}("@ + text::decimal(self.x1 as int) + ","@ + text::decimal(
                self.y1 as int,
            ) + ")  "@ + text::decimal(self.columns()) + "\u{d7}"@ + text::decimal(self.rows()),
    {
        let x0: String = text::int_text(self.x0 as i128);
        let y0: String = text::int_text(self.y0 as i128);
        let x1: String = text::int_text(self.x1 as i128);
        let y1: String = text::int_text(self.y1 as i128);
        let w: String = text::int_text((self.x1 - self.x0 + 1) as i128);
        let h: String = text::int_text((self.y1 - self.y0 + 1) as i128);
        let a: String = text::join5("Zoom  (", x0.as_str(), ",", y0.as_str(), ")\u{2013}(");
        let b: String = text::join5(a.as_str(), x1.as_str(), ",", y1.as_str(), ")  ");
        text::join4(b.as_str(), w.as_str(), "\u{d7}", h.as_str())
    }

    /// The index in a frame of the zoom pixel with index `i`.
    pub open spec fn source_index(&self, width: u32, i: int) -> int {
        (self.y0 + i / self.columns()) * width + self.x0 + i % self.columns()
    }

    /// The pixels under the rectangle, row by row; `outside` stands where the
    /// frame has none.
    pub fn pixels<F: Copy, W: Fn(u16) -> F>(
        &self,
        frame: &Pixels<F>,
        width: u32,
        outside: F,
        widen: W,
    ) -> (r: Vec<F>)
        requires
            self.wf(),
            (self.y1 + 1) * width + self.x1 <= usize::MAX,
            self.columns() * self.rows() <= usize::MAX,
            forall|x: u16| call_requires(widen, (x,)),
        ensures
            r@.len() == self.columns() * self.rows(),
            forall|i: int|
                0 <= i < r@.len() ==> zoom_pixel(
                    *frame,
                    self.source_index(width, i),
                    outside,
                    widen,
                    #[trigger] r@[i],
                ),
    {
        let w: u32 = self.x1 - self.x0 + 1;
        let h: u32 = self.y1 - self.y0 + 1;
        let mut out: Vec<F> = Vec::new();
        assert(0 * w == 0);
        for ry in 0..h
            invariant
                self.wf(),
                w == self.columns(),
                h == self.rows(),
                (self.y1 + 1) * width + self.x1 <= usize::MAX,
                forall|x: u16| call_requires(widen, (x,)),
                out@.len() == ry * w,
                forall|i: int|
                    0 <= i < out@.len() ==> zoom_pixel(
                        *frame,
                        self.source_index(width, i),
                        outside,
                        widen,
                        #[trigger] out@[i],
                    ),
        {
            for rx in 0..w
                invariant
                    self.wf(),
                    w == self.columns(),
                    h == self.rows(),
                    ry < h,
                    (self.y1 + 1) * width + self.x1 <= usize::MAX,
                    forall|x: u16| call_requires(widen, (x,)),
                    out@.len() == ry * w + rx,
                    forall|i: int|
                        0 <= i < out@.len() ==> zoom_pixel(
                            *frame,
                            self.source_index(width, i),
                            outside,
                            widen,
                            #[trigger] out@[i],
                        ),
            {
                let y: u32 = self.y0 + ry;
                let x: u32 = self.x0 + rx;
                proof {
                    let (yi, wi, y1) = (y as int, width as int, self.y1 as int);
                    assert(yi * wi <= (y1 + 1) * wi) by (nonlinear_arith)
                        requires
                            0 <= yi <= y1 + 1,
                            wi >= 0,
                    ;
                    assert(yi * wi >= 0) by (nonlinear_arith)
                        requires
                            yi >= 0,
                            wi >= 0,
                    ;
                    vstd::arithmetic::div_mod::lemma_fundamental_div_mod_converse(
                        out@.len() as int,
                        w as int,
                        ry as int,
                        rx as int,
                    );
                }
                let idx: usize = y as usize * width as usize + x as usize;
                let v: F = match frame.value_at(idx, &widen) {
                    Some(v) => v,
                    None => outside,
                };
                assert(self.source_index(width, out@.len() as int) == idx);
                out.push(v);
            }
            proof {
                assert(ry * w + w == (ry + 1) * w) by (nonlinear_arith);
            }
        }
        assert(h * w == w * h) by (nonlinear_arith);
        out
    }
}

/// Is `v` the pixel of a frame at an index, or `outside` where it has none?
pub open spec fn zoom_pixel<F: Copy, W: Fn(u16) -> F>(
    frame: Pixels<F>,
    idx: int,
    outside: F,
    widen: W,
    v: F,
) -> bool {
    if idx < frame.count() {
        match frame {
            Pixels::U16(p) => call_ensures(widen, (p@[idx],), v),
            Pixels::F32(p) => v == p@[idx],
        }
    } else {
        v == outside
    }
}

/// Does a key press close the zoom window? Escape always does, a bare X only
/// while nothing takes typed text.
pub fn zoom_closes(escape: bool, x_key: bool, typing: bool) -> (r: bool)
    ensures
        r == (escape || (x_key && !typing)),
{
    escape || (!typing && x_key)
}

/// The index of the pixel that the pointer is on, if it is on the image.
pub fn pixel_index(px: u32, py: u32, width: u32, height: u32) -> (r: Option<usize>)
    requires
        width * height <= usize::MAX,
    ensures
        r == (if px < width && py < height {
            Some((py * width + px) as usize)
        } else {
            None
        }),
{
    if px < width && py < height {
        proof {
            let (x, y, w, h) = (px as int, py as int, width as int, height as int);
            assert(y * w + x < w * h) by (nonlinear_arith)
                requires
                    0 <= x < w,
                    0 <= y < h,
            ;
            assert(y * w >= 0) by (nonlinear_arith)
                requires
                    y >= 0,
                    w >= 0,
            ;
        }
        Some(py as usize * width as usize + px as usize)
    } else {
        None
    }
}

// ---------------------------------------------------------------------------
// What the display keeps to

/// Each scale mode has its own source of the range. Auto goes by the frame's
/// own span and ZScale by its pixels, background or not; only the full range
/// depends on whether a background is subtracted.
pub proof fn law_each_mode_has_its_own_range(mode: ScaleMode, follows_data: bool, r: RangeRule)
    requires
        call_ensures(range_rule, (mode, follows_data), r),
    ensures
        r == RangeRule::SnappedData <==> mode == ScaleMode::Auto,
        r == RangeRule::ZScaled <==> mode == ScaleMode::ZScale,
        r == RangeRule::Keep <==> mode == ScaleMode::Manual,
        r == RangeRule::FullScale <==> mode == ScaleMode::Full && !follows_data,
        r == RangeRule::Data <==> mode == ScaleMode::Full && follows_data,
{
}

/// A background of the frame's own size is taken off pixel by pixel, each pixel
/// less the background at its own place. One of any other size changes nothing.
pub proof fn law_background_comes_off_in_place<F: Copy, W: Fn(u16) -> F, S: Fn(F, F) -> F>(
    frame: &mut Pixels<F>,
    background: Vec<F>,
    widen: W,
    minus: S,
    r: bool,
    i: int,
)
    requires
        forall|x: u16| call_requires(widen, (x,)),
        forall|a: F, b: F| call_requires(minus, (a, b)),
        call_ensures(subtract_background::<F, W, S>, (frame, &background, widen, minus), r),
    ensures
        r <==> background@.len() == (match *old(frame) {
            Pixels::U16(v) => v@.len(),
            Pixels::F32(v) => v@.len(),
        }),
        !r ==> *final(frame) == *old(frame),
        r ==> (*final(frame) matches Pixels::F32(out) && out@.len() == background@.len() && (0 <= i
            < background@.len() ==> match *old(frame) {
            Pixels::F32(v) => call_ensures(minus, (v@[i], background@[i]), out@[i]),
            Pixels::U16(v) => exists|x: F|
                #[trigger] call_ensures(widen, (v@[i],), x) && call_ensures(
                    minus,
                    (x, background@[i]),
                    out@[i],
                ),
        })),
{
    if r && 0 <= i < background@.len() {
        if let Pixels::F32(out) = *final(frame) {
            let wide = choose|wide: Seq<F>|
                old(frame).is_f32(widen, wide) && #[trigger] subtracted(
                    wide,
                    background@,
                    minus,
                    out@,
                );
            assert(call_ensures(minus, (wide[i], background@[i]), out@[i]));
            if let Pixels::U16(v) = *old(frame) {
                assert(call_ensures(widen, (v@[i],), wide[i]));
            }
        }
    }
}

/// The range of subtracted frames takes its lower end from the lower ends and
/// its upper end from the upper ends, and starts as that of the first frame.
pub proof fn law_seen_range_spans_both<F: Copy, Lo: Fn(F, F) -> F, Hi: Fn(F, F) -> F>(
    seen: Option<(F, F)>,
    frame: (F, F),
    lower: Lo,
    upper: Hi,
    r: (F, F),
)
    requires
        forall|a: F, b: F| call_requires(lower, (a, b)),
        forall|a: F, b: F| call_requires(upper, (a, b)),
        call_ensures(grow_range::<F, Lo, Hi>, (seen, frame, lower, upper), r),
    ensures
        seen is None ==> r.0 == frame.0 && r.1 == frame.1,
        seen matches Some(s) ==> call_ensures(lower, (s.0, frame.0), r.0) && call_ensures(
            upper,
            (s.1, frame.1),
            r.1,
        ),
{
}

/// The frame rate is taken over the newest arrivals, at most 30 of them, in the
/// order in which they came.
pub proof fn law_rate_is_of_the_newest_frames(c: &mut FrameClock, now: u64, r: Option<(u64, u64)>)
    requires
        old(c)@.len() <= 30,
        call_ensures(FrameClock::tick, (c, now), ()),
        call_ensures(FrameClock::rate, (&*final(c),), r),
    ensures
        final(c)@.last() == now,
        final(c)@.len() == (if old(c)@.len() < 30 {
            old(c)@.len() + 1
        } else {
            30
        }),
        forall|i: int|
            0 <= i < final(c)@.len() - 1 ==> #[trigger] final(c)@[i] == old(c)@[i + old(c)@.len() - (
            final(c)@.len() - 1)],
        r is Some <==> old(c)@.len() >= 1,
        r matches Some((frames, us)) ==> frames == final(c)@.len() - 1 && (now >= final(c)@[0]
            ==> us == now - final(c)@[0]),
{
}

/// The receive rate counts the bytes of whole windows of a second or more; a
/// shorter one goes on, and without a camera there is none.
pub proof fn law_receive_rate_is_of_whole_windows(b: &mut ByteRate, bytes: Option<u64>, now: u64)
    requires
        now >= old(b).at,
        call_ensures(ByteRate::update, (b, bytes, now), ()),
    ensures
        bytes matches Some(n) ==> {
            &&& now < old(b).at + 1_000_000 ==> *final(b) == *old(b)
            &&& now >= old(b).at + 1_000_000 ==> final(b).at == now && final(b).bytes == n && final(b).span == now - old(b).at && (n >= old(b).bytes ==> final(b).delta == n - old(b).bytes)
                && (n < old(b).bytes ==> final(b).delta == 0)
        },
        bytes is None ==> final(b).delta == 0,
        bytes is None && old(b).delta == 0 ==> *final(b) == *old(b),
        bytes is None && old(b).delta != 0 ==> final(b).at == now && final(b).bytes == 0
            && final(b).span == 0,
{
}

/// A frame is on screen at most 16 milliseconds after it arrived, at once if the
/// last repaint is that long ago, and never sooner after it than that.
pub proof fn law_repaints_are_spaced(since: u64, r: u64)
    requires
        call_ensures(repaint_after, (since,), r),
    ensures
        since >= 16_000 ==> r == 0,
        since < 16_000 ==> since + r == 16_000,
{
}

/// Centroids are drawn only while the pipeline runs and they are switched on,
/// all of them up to 4000 and no more.
pub proof fn law_drawn_centroids(on: OverlaySwitches, found: usize, solving: bool, r: usize)
    requires
        call_ensures(OverlaySwitches::drawn_centroids, (on, found, solving), r),
    ensures
        !solving || !on.centroids ==> r == 0,
        solving && on.centroids && found <= 4000 ==> r == found,
        solving && on.centroids && found > 4000 ==> r == 4000,
{
}

/// A cross-hair stands on exactly the matched centroids that are drawn.
pub proof fn law_marked_centroids(
    on: OverlaySwitches,
    drawn: usize,
    matched: Vec<usize>,
    r: Vec<usize>,
    none: Vec<usize>,
    i: usize,
)
    requires
        call_ensures(OverlaySwitches::marked_centroids, (on, drawn, Some(&matched)), r),
        call_ensures(OverlaySwitches::marked_centroids, (on, drawn, None), none),
    ensures
        r@.contains(i) <==> on.matched && i < drawn && matched@.contains(i),
        none@.len() == 0,
{
    let pick = |k: usize| k < drawn;
    if on.matched {
        assert(r@ == matched@.filter(pick));
        if matched@.contains(i) && i < drawn {
            let k = choose|k: int| 0 <= k < matched@.len() && matched@[k] == i;
            matched@.lemma_filter_contains(pick, k);
        }
        if r@.contains(i) {
            let k = choose|k: int| 0 <= k < r@.len() && r@[k] == i;
            matched@.lemma_filter_pred(pick, k);
            matched@.lemma_filter_contains_rev(pick, i);
        }
    }
}

/// Names are shown only with all that they stand on: a solution, and the
/// overlays below them.
pub proof fn law_names_need_their_overlays(on: OverlaySwitches, locked: bool, r: bool)
    requires
        call_ensures(OverlaySwitches::shows_names, (on, locked), r),
    ensures
        r ==> locked && on.names && on.matched && on.centroids,
        locked && on.names && on.matched && on.centroids ==> r,
{
}

/// The zoom window is as wide and as high as its rectangle, both ends counted,
/// and opens only for one of at least two by two pixels.
pub proof fn law_zoom_size_counts_both_ends(z: ZoomRoi, r: Option<(u32, u32)>)
    requires
        z.wf(),
        call_ensures(ZoomRoi::size, (&z,), r),
    ensures
        r is Some <==> z.x0 < z.x1 && z.y0 < z.y1,
        r matches Some((w, h)) ==> z.x0 + w == z.x1 + 1 && z.y0 + h == z.y1 + 1,
{
}

/// The zoom window shows the frame as it is, from its top left corner: column
/// `x` of row `y` is the pixel that stands so far right of and below it.
pub proof fn law_zoom_shows_the_frame<F: Copy, W: Fn(u16) -> F>(
    z: ZoomRoi,
    frame: Pixels<F>,
    width: u32,
    outside: F,
    widen: W,
    r: Vec<F>,
    x: int,
    y: int,
)
    requires
        z.wf(),
        (z.y1 + 1) * width + z.x1 <= usize::MAX,
        z.columns() * z.rows() <= usize::MAX,
        forall|v: u16| call_requires(widen, (v,)),
        call_ensures(ZoomRoi::pixels::<F, W>, (&z, &frame, width, outside, widen), r),
        0 <= x <= z.x1 - z.x0,
        0 <= y <= z.y1 - z.y0,
    ensures
        r@.len() == (z.x1 - z.x0 + 1) * (z.y1 - z.y0 + 1),
        ({
            let v = r@[y * (z.x1 - z.x0 + 1) + x];
            let at = (z.y0 + y) * width + (z.x0 + x);
            match frame {
                Pixels::U16(p) => if at < p@.len() {
                    call_ensures(widen, (p@[at],), v)
                } else {
                    v == outside
                },
                Pixels::F32(p) => if at < p@.len() {
                    v == p@[at]
                } else {
                    v == outside
                },
            }
        }),
{
    let c = z.columns();
    let i = y * c + x;
    assert(0 <= i < c * z.rows()) by (nonlinear_arith)
        requires
            i == y * c + x,
            0 <= x < c,
            0 <= y < z.rows(),
    ;
    vstd::arithmetic::div_mod::lemma_fundamental_div_mod_converse(i, c, y, x);
    assert(zoom_pixel(frame, z.source_index(width, i), outside, widen, r@[i]));
}

/// Escape closes the zoom window, and so does X unless it is typed as text.
pub proof fn law_zoom_closes(escape: bool, x_key: bool, typing: bool, r: bool)
    requires
        call_ensures(zoom_closes, (escape, x_key, typing), r),
    ensures
        escape ==> r,
        !escape && !x_key ==> !r,
        !escape && typing ==> !r,
        x_key && !typing ==> r,
{
}

/// The pixel under the pointer is found again from its index: by its column and
/// its row. Off the image there is none.
pub proof fn law_pixel_index_is_row_by_row(
    px: u32,
    py: u32,
    width: u32,
    height: u32,
    r: Option<usize>,
)
    requires
        width * height <= usize::MAX,
        call_ensures(pixel_index, (px, py, width, height), r),
    ensures
        r is Some <==> px < width && py < height,
        r matches Some(i) ==> i as int % width as int == px && i as int / width as int == py && i
            < width * height,
{
    if px < width && py < height {
        let (x, y, w, h) = (px as int, py as int, width as int, height as int);
        assert(0 <= y * w + x < w * h) by (nonlinear_arith)
            requires
                0 <= x < w,
                0 <= y < h,
        ;
        vstd::arithmetic::div_mod::lemma_fundamental_div_mod_converse(y * w + x, w, y, x);
    }
}

/// A clock that has seen no frame has no rate; one frame alone gives none, two
/// give the time between them.
pub proof fn law_rate_takes_two_frames(
    fresh: FrameClock,
    a: &mut FrameClock,
    b: &mut FrameClock,
    t: u64,
    u: u64,
    none: Option<(u64, u64)>,
    one: Option<(u64, u64)>,
    two: Option<(u64, u64)>,
    rate: ByteRate,
)
    requires
        call_ensures(FrameClock::new, (), fresh),
        call_ensures(FrameClock::rate, (&fresh,), none),
        *old(a) == fresh,
        call_ensures(FrameClock::tick, (a, t), ()),
        call_ensures(FrameClock::rate, (&*final(a),), one),
        *old(b) == *final(a),
        t <= u,
        call_ensures(FrameClock::tick, (b, u), ()),
        call_ensures(FrameClock::rate, (&*final(b),), two),
        call_ensures(ByteRate::new, (t,), rate),
    ensures
        none is None && one is None,
        two matches Some(r) && r.0 == 1 && r.1 == u - t,
        rate.at == t && rate.bytes == 0 && rate.delta == 0 && rate.span == 0,
{
}

/// The zoom window is titled by its corners, both of which it shows, and its
/// size.
pub proof fn law_zoom_is_titled_by_its_corners(z: ZoomRoi, r: String)
    requires
        z.wf(),
        call_ensures(ZoomRoi::title, (&z,), r),
    ensures
        r@ == "Zoom  ("@ + text::decimal(z.x0 as int) + ","@ + text::decimal(z.y0 as int)
            + ")\u{2013}("@ + text::decimal(z.x1 as int) + ","@ + text::decimal(z.y1 as int)
            + ")  "@ + text::decimal(z.x1 - z.x0 + 1) + "\u{d7}"@ + text::decimal(
            z.y1 - z.y0 + 1,
        ),
{
}

} // verus!
