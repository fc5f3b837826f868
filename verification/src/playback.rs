//! FITS playback: the temporal background and when it is recomputed, and what
//! is read off a file.

use crate::text;
use vstd::prelude::*;
use vstd::string::*;

verus! {

/// The background that is subtracted from the frames of a FITS file: a
/// percentile of each pixel across all frames, computed on first use.
#[derive(Clone, Copy, PartialEq, Eq, Structural, Debug)]
pub struct Background {
    pub enabled: bool,
    /// The percentile, 10 to 50.
    pub percent: u8,
    /// Percentile of the background image at hand; a mismatch with `percent`
    /// means that a computation is owed.
    pub computed: Option<u8>,
    /// Percentile of the computation in flight. There is one at a time.
    pub pending: Option<u8>,
    /// Number of frames of the loaded file; 0 without one.
    pub frames: usize,
}

/// What follows from a change of the background settings.
#[derive(Clone, Copy, PartialEq, Eq, Structural, Debug)]
pub struct BackgroundStep {
    /// Start computing the background at this percentile.
    pub compute: Option<u8>,
    /// The histogram range of subtracted frames starts anew.
    pub reset_range: bool,
    /// Go to automatic scaling.
    pub auto_scale: bool,
}

impl Background {
    /// A background takes at least two frames.
    pub open spec fn possible(&self) -> bool {
        self.frames >= 2
    }

    /// The percentile is one that is offered; and where subtraction is on and
    /// possible, the background for it is at hand or on its way.
    pub open spec fn wf(&self) -> bool {
        &&& 10 <= self.percent <= 50
        &&& self.enabled && self.possible() ==> self.pending is Some || self.computed == Some(
            self.percent,
        )
    }

    /// Nothing loaded, subtraction off, 35th percentile.
    pub fn new() -> (r: Background)
        ensures
            r.wf(),
            r == (Background {
                enabled: false,
                percent: 35,
                computed: None,
                pending: None,
                frames: 0,
            }),
    {
        Background { enabled: false, percent: 35, computed: None, pending: None, frames: 0 }
    }

    /// The state after asking for a computation: it starts unless one is in
    /// flight or the file has too few frames.
    pub open spec fn asked(self) -> Background {
        if self.possible() && self.pending is None {
            Background { pending: Some(self.percent), ..self }
        } else {
            self
        }
    }

    /// Asks for the background to be computed. If the percentile moves while a
    /// computation runs, its landing notices and starts another.
    fn recompute(&mut self) -> (r: Option<u8>)
        ensures
            *final(self) == old(self).asked(),
            r == (if old(self).possible() && old(self).pending is None {
                Some(old(self).percent)
            } else {
                None
            }),
    {
        if self.frames < 2 || self.pending.is_some() {
            return None;
        }
        self.pending = Some(self.percent);
        Some(self.percent)
    }

    /// The capture was stopped: the frames go, and with them a computation in
    /// flight.
    pub fn unload(&mut self)
        requires
            old(self).wf(),
        ensures
            final(self).wf(),
            *final(self) == (Background { frames: 0, pending: None, ..*old(self) }),
    {
        self.frames = 0;
        self.pending = None;
    }

    /// The state after a file was loaded.
    pub open spec fn after_load(self, frames: usize) -> Background {
        let fresh = Background {
            frames,
            computed: None,
            enabled: self.enabled && frames >= 2,
            ..self
        };
        if fresh.enabled {
            fresh.asked()
        } else {
            fresh
        }
    }

    /// What follows from a file being loaded.
    pub open spec fn load_step(self, frames: usize) -> BackgroundStep {
        BackgroundStep {
            compute: if self.enabled && frames >= 2 && self.pending is None {
                Some(self.percent)
            } else {
                None
            },
            reset_range: true,
            auto_scale: false,
        }
    }

    /// A file was loaded. The old background goes; a file with a single frame
    /// switches subtraction off; subtraction left on from the previous file
    /// needs the new file's background.
    pub fn loaded(&mut self, frames: usize) -> (r: BackgroundStep)
        requires
            old(self).wf(),
        ensures
            final(self).wf(),
            *final(self) == old(self).after_load(frames),
            r == old(self).load_step(frames),
    {
        self.frames = frames;
        self.computed = None;
        let mut compute: Option<u8> = None;
        if frames < 2 {
            self.enabled = false;
        } else if self.enabled {
            compute = self.recompute();
        }
        BackgroundStep { compute, reset_range: true, auto_scale: false }
    }

    /// A computation landed.
    pub fn landed(&mut self, percent: u8) -> (r: BackgroundStep)
        requires
            old(self).wf(),
        ensures
            final(self).wf(),
            ({
                let got = Background { pending: None, computed: Some(percent), ..*old(self) };
                *final(self) == (if got.percent != percent {
                    got.asked()
                } else {
                    got
                })
            }),
            r == (BackgroundStep {
                compute: if old(self).percent != percent && old(self).possible() {
                    Some(old(self).percent)
                } else {
                    None
                },
                reset_range: true,
                auto_scale: false,
            }),
    {
        self.pending = None;
        self.computed = Some(percent);
        let mut compute: Option<u8> = None;
        if self.percent != percent {
            compute = self.recompute();
        }
        BackgroundStep { compute, reset_range: true, auto_scale: false }
    }

    /// Sets the percentile, moved into the range from 10 to 50. Only offered
    /// while subtraction is on and possible.
    pub fn set_percent(&mut self, percent: u8) -> (r: BackgroundStep)
        requires
            old(self).wf(),
        ensures
            final(self).wf(),
            ({
                let p = if percent < 10 {
                    10u8
                } else if percent > 50 {
                    50u8
                } else {
                    percent
                };
                let offered = old(self).enabled && old(self).possible();
                let moved = Background { percent: p, ..*old(self) };
                &&& *final(self) == (if !offered || p == old(self).percent {
                    *old(self)
                } else {
                    moved.asked()
                })
                &&& r == (BackgroundStep {
                    compute: if offered && p != old(self).percent && old(self).pending is None {
                        Some(p)
                    } else {
                        None
                    },
                    reset_range: false,
                    auto_scale: false,
                })
            }),
    {
        let mut compute: Option<u8> = None;
        if self.enabled && self.frames >= 2 {
            let p: u8 = if percent < 10 {
                10
            } else if percent > 50 {
                50
            } else {
                percent
            };
            if p != self.percent {
                self.percent = p;
                compute = self.recompute();
            }
        }
        BackgroundStep { compute, reset_range: false, auto_scale: false }
    }

    /// Switches subtraction, where it is possible. Switching it on goes to
    /// automatic scaling, and computes the background unless the one at hand
    /// fits.
    pub fn set_enabled(&mut self, on: bool) -> (r: BackgroundStep)
        requires
            old(self).wf(),
        ensures
            final(self).wf(),
            ({
                let change = old(self).possible() && on != old(self).enabled;
                let owed = change && on && old(self).computed != Some(old(self).percent);
                let switched = Background { enabled: on, ..*old(self) };
                &&& *final(self) == (if !change {
                    *old(self)
                } else if owed {
                    switched.asked()
                } else {
                    switched
                })
                &&& r == (BackgroundStep {
                    compute: if owed && old(self).pending is None {
                        Some(old(self).percent)
                    } else {
                        None
                    },
                    reset_range: change,
                    auto_scale: change && on,
                })
            }),
    {
        if self.frames < 2 || on == self.enabled {
            return BackgroundStep { compute: None, reset_range: false, auto_scale: false };
        }
        self.enabled = on;
        let mut compute: Option<u8> = None;
        if on {
            let fits: bool = match self.computed {
                Some(p) => p == self.percent,
                None => false,
            };
            if !fits {
                compute = self.recompute();
            }
        }
        BackgroundStep { compute, reset_range: true, auto_scale: on }
    }

    /// Is the background to be subtracted from a frame of `len` pixels, where
    /// the background image has `image_len`?
    pub fn subtracts(&self, image_len: usize, len: usize) -> (r: bool)
        ensures
            r == (self.enabled && self.computed is Some && image_len == len),
    {
        self.enabled && self.computed.is_some() && image_len == len
    }

    /// Does the display range of full scaling follow the data?
    pub fn full_scale_follows_data(&self) -> (r: bool)
        ensures
            r == (self.enabled && self.computed is Some),
    {
        self.enabled && self.computed.is_some()
    }

    /// The log line on a computed background.
    pub fn landed_note(&self, percent: u8, millis: u64) -> (r: String)
        ensures
            r@ == "Background: "@ + text::decimal(percent as int) + "th percentile of "@
                + text::decimal(self.frames as int) + " frames in "@ + (text::decimal(
                millis as int,
            ) + " ms"@),
    {
        let p: String = text::int_text(percent as i128);
        let n: String = text::int_text(self.frames as i128);
        let ms: String = text::int_text(millis as i128);
        let head: String = text::join5(
            "Background: ",
            p.as_str(),
            "th percentile of ",
            n.as_str(),
            " frames in ",
        );
        let tail: String = text::join2(ms.as_str(), " ms");
        text::join2(head.as_str(), tail.as_str())
    }
}

/// A landing never leaves the background wrong for good: with subtraction on,
/// either the image at hand is for the chosen percentile, or a computation for
/// it has just been started.
pub proof fn law_landing_settles(before: Background, percent: u8, after: Background)
    requires
        before.wf(),
        before.possible(),
        after == ({
            let got = Background { pending: None, computed: Some(percent), ..before };
            if got.percent != percent {
                got.asked()
            } else {
                got
            }
        }),
    ensures
        after.computed == Some(after.percent) || after.pending == Some(after.percent),
{
}

/// The playback rate, frames per second, moved into the range that is offered.
pub fn clamp_playback_fps(fps: u32) -> (r: u32)
    ensures
        r == (if fps < 1 {
            1
        } else if fps > 60 {
            60
        } else {
            fps
        }),
{
    if fps < 1 {
        1
    } else if fps > 60 {
        60
    } else {
        fps
    }
}

/// The log line on a loaded file.
pub fn loaded_note(
    file_name: &str,
    width: u32,
    height: u32,
    bit_depth: u8,
    frames: usize,
) -> (r: String)
    ensures
        r@ == "FITS: "@ + file_name@ + " ("@ + text::decimal(width as int) + "x"@ + (text::decimal(
            height as int,
        ) + ", "@ + text::decimal(bit_depth as int) + "-bit, "@ + text::decimal(frames as int))
            + " frames)"@,
{
    let w: String = text::int_text(width as i128);
    let h: String = text::int_text(height as i128);
    let d: String = text::int_text(bit_depth as i128);
    let n: String = text::int_text(frames as i128);
    let head: String = text::join5("FITS: ", file_name, " (", w.as_str(), "x");
    let tail: String = text::join5(h.as_str(), ", ", d.as_str(), "-bit, ", n.as_str());
    text::join3(head.as_str(), tail.as_str(), " frames)")
}

/// The bit depth at which a FITS file is shown: what its `BITDEPTH` keyword
/// says, where it has one, or else the width of its integers. Only a file of
/// floating-point numbers falls back to the depth inferred from its pixels.
pub open spec fn depth_of_file(keyword: Option<u8>, integer_bits: Option<u8>, inferred: u8) -> u8 {
    match (keyword, integer_bits) {
        (Some(d), _) => d,
        (None, Some(d)) => d,
        (None, None) => inferred,
    }
}

/// The bit depth at which a FITS file is shown.
pub fn file_bit_depth(keyword: Option<u8>, integer_bits: Option<u8>, inferred: u8) -> (r: u8)
    ensures
        r == depth_of_file(keyword, integer_bits, inferred),
{
    match keyword {
        Some(d) => d,
        None => match integer_bits {
            Some(d) => d,
            None => inferred,
        },
    }
}

// ---------------------------------------------------------------------------
// Laws of the transitions

/// A new background is off, at the 35th percentile, with nothing loaded.
pub proof fn law_new_background_is_off(r: Background)
    requires
        call_ensures(Background::new, (), r),
    ensures
        !r.enabled && r.percent == 35 && r.frames == 0,
        r.computed is None && r.pending is None,
{
}

/// Stopping drops the frames and the computation, and keeps the settings.
pub proof fn law_unloading_keeps_the_settings(b: &mut Background)
    requires
        old(b).wf(),
        call_ensures(Background::unload, (b,), ()),
    ensures
        final(b).frames == 0 && final(b).pending is None,
        final(b).enabled == old(b).enabled && final(b).percent == old(b).percent
            && final(b).computed == old(b).computed,
{
}

/// A newly loaded file has no background yet. Subtraction that was on stays on
/// and has its background computed, at the chosen percentile and once, unless
/// the file has a single frame, which switches it off.
pub proof fn law_new_file_needs_its_own_background(
    b: &mut Background,
    frames: usize,
    r: BackgroundStep,
)
    requires
        old(b).wf(),
        call_ensures(Background::loaded, (b, frames), r),
    ensures
        final(b).frames == frames,
        final(b).computed is None,
        final(b).percent == old(b).percent,
        final(b).enabled <==> old(b).enabled && frames >= 2,
        r.reset_range && !r.auto_scale,
        r.compute is Some <==> old(b).enabled && frames >= 2 && old(b).pending is None,
        r.compute matches Some(p) ==> p == old(b).percent && final(b).pending == Some(p),
        r.compute is None ==> final(b).pending == old(b).pending,
{
}

/// A background that landed is the one at hand. Where the percentile has moved
/// on meanwhile, the one that is now chosen is computed.
pub proof fn law_landed_background_is_used(
    b: &mut Background,
    percent: u8,
    r: BackgroundStep,
    len: usize,
    used: bool,
    follows: bool,
)
    requires
        old(b).wf(),
        call_ensures(Background::landed, (b, percent), r),
        call_ensures(Background::subtracts, (&*final(b), len, len), used),
        call_ensures(Background::full_scale_follows_data, (&*final(b),), follows),
    ensures
        final(b).computed == Some(percent),
        final(b).enabled == old(b).enabled && final(b).percent == old(b).percent
            && final(b).frames == old(b).frames,
        r.reset_range && !r.auto_scale,
        percent == old(b).percent ==> r.compute is None && final(b).pending is None,
        percent != old(b).percent && old(b).frames >= 2 ==> r.compute == Some(old(b).percent)
            && final(b).pending == Some(old(b).percent),
        percent != old(b).percent && old(b).frames < 2 ==> r.compute is None && final(b).pending
            is None,
        used <==> old(b).enabled,
        follows <==> old(b).enabled,
{
}

/// A percentile is brought into the range from 10 to 50, is taken where
/// subtraction is on and possible, and a changed one is computed unless a
/// computation runs, whose landing then sees to it.
pub proof fn law_chosen_percentile_is_computed(b: &mut Background, percent: u8, r: BackgroundStep)
    requires
        old(b).wf(),
        call_ensures(Background::set_percent, (b, percent), r),
    ensures
        !old(b).enabled || old(b).frames < 2 ==> *final(b) == *old(b) && r.compute is None,
        old(b).enabled && old(b).frames >= 2 ==> {
            &&& 10 <= percent <= 50 ==> final(b).percent == percent
            &&& percent < 10 ==> final(b).percent == 10
            &&& percent > 50 ==> final(b).percent == 50
            &&& r.compute is Some <==> final(b).percent != old(b).percent && old(b).pending is None
            &&& r.compute matches Some(p) ==> p == final(b).percent && final(b).pending == Some(p)
            &&& r.compute is None ==> final(b).pending == old(b).pending
        },
        !r.reset_range && !r.auto_scale,
        final(b).enabled == old(b).enabled && final(b).computed == old(b).computed
            && final(b).frames == old(b).frames,
{
}

/// Subtraction can be switched where the file has two frames or more. Switching
/// it on goes to automatic scaling and computes the background unless the one
/// at hand is for the chosen percentile; switching it off computes nothing.
pub proof fn law_subtraction_is_switched(b: &mut Background, on: bool, r: BackgroundStep)
    requires
        old(b).wf(),
        call_ensures(Background::set_enabled, (b, on), r),
    ensures
        old(b).frames < 2 ==> *final(b) == *old(b),
        old(b).frames >= 2 ==> final(b).enabled == on,
        final(b).percent == old(b).percent && final(b).computed == old(b).computed
            && final(b).frames == old(b).frames,
        r.reset_range <==> final(b).enabled != old(b).enabled,
        r.auto_scale <==> final(b).enabled && !old(b).enabled,
        r.compute is Some <==> final(b).enabled && !old(b).enabled && old(b).computed != Some(
            old(b).percent,
        ) && old(b).pending is None,
        r.compute matches Some(p) ==> p == old(b).percent && final(b).pending == Some(p),
        r.compute is None ==> final(b).pending == old(b).pending,
{
}

/// The background is subtracted where it is on, at hand and of the frame's own
/// size, and full scaling follows the data where it is on and at hand.
pub proof fn law_background_is_subtracted_where_it_fits(
    b: Background,
    image_len: usize,
    len: usize,
    r: bool,
    follows: bool,
)
    requires
        call_ensures(Background::subtracts, (&b, image_len, len), r),
        call_ensures(Background::full_scale_follows_data, (&b,), follows),
    ensures
        r <==> b.enabled && b.computed is Some && image_len == len,
        follows <==> b.enabled && b.computed is Some,
{
}

/// The log names the percentile, the frames and the time that a background
/// took, and of a file its size, its depth and its frames.
pub proof fn law_playback_notes(
    b: Background,
    percent: u8,
    millis: u64,
    a: String,
    file_name: &str,
    width: u32,
    height: u32,
    bit_depth: u8,
    frames: usize,
    c: String,
)
    requires
        call_ensures(Background::landed_note, (&b, percent, millis), a),
        call_ensures(loaded_note, (file_name, width, height, bit_depth, frames), c),
    ensures
        a@ == "Background: "@ + text::decimal(percent as int) + "th percentile of "@
            + text::decimal(b.frames as int) + " frames in "@ + (text::decimal(millis as int)
            + " ms"@),
        c@ == "FITS: "@ + file_name@ + " ("@ + text::decimal(width as int) + "x"@ + (text::decimal(
            height as int,
        ) + ", "@ + text::decimal(bit_depth as int) + "-bit, "@ + text::decimal(frames as int))
            + " frames)"@,
{
}

/// The playback rate stays between 1 and 60 frames per second, and a rate in
/// that range is kept.
pub proof fn law_playback_rate_is_kept_in_range(fps: u32, r: u32)
    requires
        call_ensures(clamp_playback_fps, (fps,), r),
    ensures
        1 <= r <= 60,
        1 <= fps <= 60 ==> r == fps,
        fps < 1 ==> r == 1,
        fps > 60 ==> r == 60,
{
}

/// What the header says of the depth goes before the width of the integers, and
/// that before what the pixels suggest.
pub proof fn law_header_depth_comes_first(
    keyword: Option<u8>,
    integer_bits: Option<u8>,
    inferred: u8,
    r: u8,
)
    requires
        call_ensures(file_bit_depth, (keyword, integer_bits, inferred), r),
    ensures
        keyword matches Some(d) ==> r == d,
        keyword is None ==> (integer_bits matches Some(d) ==> r == d),
        keyword is None && integer_bits is None ==> r == inferred,
{
}

} // verus!
