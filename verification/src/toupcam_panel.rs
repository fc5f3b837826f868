//! The ToupTek controls panel: what it shows, and what each edit does to the
//! control mirror and sends to the capture thread.

use crate::histogram_view;
use crate::text;
use crate::toupcam_camera as camera;
use crate::toupcam_camera::{
    AdvControl, AdvKind, CorrectionAction, CorrectionState, FilterWheelState, FocuserState,
    GuideDirection, Opt, Roi, ToupCmd, ToupControls,
};
use vstd::prelude::*;
use vstd::string::*;

verus! {

/// The rows of the main grid.
#[derive(Clone, Copy, PartialEq, Eq, Structural, Debug)]
pub enum PanelRow {
    Exposure,
    AeTarget,
    Gain,
    Speed,
    CaptureMode,
    Resolution,
    Superpixel,
    Cooler,
    TargetTemp,
    SensorTemp,
    PowerDraw,
    TecDrive,
    Chamber,
    Ambient,
}

/// The collapsible groups below the main grid.
#[derive(Clone, Copy, PartialEq, Eq, Structural, Debug)]
pub enum PanelGroup {
    Advanced,
    SensorRoi,
    Corrections,
    FilterWheel,
    Focuser,
    Guide,
    CameraInfo,
}

/// The title of a group.
pub open spec fn group_title(g: PanelGroup) -> &'static str {
    match g {
        PanelGroup::Advanced => "Advanced",
        PanelGroup::SensorRoi => "Sensor ROI",
        PanelGroup::Corrections => "Corrections",
        PanelGroup::FilterWheel => "Filter Wheel",
        PanelGroup::Focuser => "Focuser",
        PanelGroup::Guide => "Guide (ST4)",
        PanelGroup::CameraInfo => "Camera Info",
    }
}

impl PanelGroup {
    /// The title of the group.
    pub fn title(self) -> (r: &'static str)
        ensures
            r == group_title(self),
    {
        match self {
            PanelGroup::Advanced => "Advanced",
            PanelGroup::SensorRoi => "Sensor ROI",
            PanelGroup::Corrections => "Corrections",
            PanelGroup::FilterWheel => "Filter Wheel",
            PanelGroup::Focuser => "Focuser",
            PanelGroup::Guide => "Guide (ST4)",
            PanelGroup::CameraInfo => "Camera Info",
        }
    }

    /// Is the group open at first? What moves is: the wheel and the focuser.
    pub fn default_open(self) -> (r: bool)
        ensures
            r == (self == PanelGroup::FilterWheel || self == PanelGroup::Focuser),
    {
        match self {
            PanelGroup::FilterWheel => true,
            PanelGroup::Focuser => true,
            _ => false,
        }
    }
}

/// Every row, in display order.
pub open spec fn row_order() -> Seq<PanelRow> {
    seq![
        PanelRow::Exposure,
        PanelRow::AeTarget,
        PanelRow::Gain,
        PanelRow::Speed,
        PanelRow::CaptureMode,
        PanelRow::Resolution,
        PanelRow::Superpixel,
        PanelRow::Cooler,
        PanelRow::TargetTemp,
        PanelRow::SensorTemp,
        PanelRow::PowerDraw,
        PanelRow::TecDrive,
        PanelRow::Chamber,
        PanelRow::Ambient,
    ]
}

/// Every group, in display order.
pub open spec fn group_order() -> Seq<PanelGroup> {
    seq![
        PanelGroup::Advanced,
        PanelGroup::SensorRoi,
        PanelGroup::Corrections,
        PanelGroup::FilterWheel,
        PanelGroup::Focuser,
        PanelGroup::Guide,
        PanelGroup::CameraInfo,
    ]
}

/// Is a row shown for these controls? The auto-exposure target only means
/// something in auto; the others follow what the camera has.
pub open spec fn row_shown<F>(c: ToupControls<F>, r: PanelRow) -> bool {
    match r {
        PanelRow::Exposure => true,
        PanelRow::AeTarget => c.auto_exposure,
        PanelRow::Gain => true,
        PanelRow::Speed => c.max_speed > 0,
        PanelRow::CaptureMode => c.has_soft_trigger,
        PanelRow::Resolution => c.resolutions@.len() > 1,
        PanelRow::Superpixel => c.is_color,
        PanelRow::Cooler => c.has_tec,
        PanelRow::TargetTemp => c.has_tec,
        PanelRow::SensorTemp => c.temperature is Some,
        PanelRow::PowerDraw => c.power_mw is Some,
        PanelRow::TecDrive => c.tec_voltage is Some,
        PanelRow::Chamber => c.chamber_ht is Some,
        PanelRow::Ambient => c.env_ht is Some,
    }
}

/// Is a group shown for these controls?
pub open spec fn group_shown<F>(c: ToupControls<F>, g: PanelGroup) -> bool {
    match g {
        PanelGroup::Advanced => c.advanced@.len() > 0,
        PanelGroup::SensorRoi => true,
        PanelGroup::Corrections => c.corrections@.len() > 0,
        PanelGroup::FilterWheel => c.filter_wheel is Some,
        PanelGroup::Focuser => c.focuser is Some,
        PanelGroup::Guide => c.has_st4,
        PanelGroup::CameraInfo => c.info_rows@.len() > 0,
    }
}

fn shows_row<F>(c: &ToupControls<F>, r: PanelRow) -> (b: bool)
    ensures
        b == row_shown(*c, r),
{
    match r {
        PanelRow::Exposure => true,
        PanelRow::AeTarget => c.auto_exposure,
        PanelRow::Gain => true,
        PanelRow::Speed => c.max_speed > 0,
        PanelRow::CaptureMode => c.has_soft_trigger,
        PanelRow::Resolution => c.resolutions.len() > 1,
        PanelRow::Superpixel => c.is_color,
        PanelRow::Cooler => c.has_tec,
        PanelRow::TargetTemp => c.has_tec,
        PanelRow::SensorTemp => c.temperature.is_some(),
        PanelRow::PowerDraw => c.power_mw.is_some(),
        PanelRow::TecDrive => c.tec_voltage.is_some(),
        PanelRow::Chamber => c.chamber_ht.is_some(),
        PanelRow::Ambient => c.env_ht.is_some(),
    }
}

fn shows_group<F>(c: &ToupControls<F>, g: PanelGroup) -> (b: bool)
    ensures
        b == group_shown(*c, g),
{
    match g {
        PanelGroup::Advanced => c.advanced.len() > 0,
        PanelGroup::SensorRoi => true,
        PanelGroup::Corrections => c.corrections.len() > 0,
        PanelGroup::FilterWheel => c.filter_wheel.is_some(),
        PanelGroup::Focuser => c.focuser.is_some(),
        PanelGroup::Guide => c.has_st4,
        PanelGroup::CameraInfo => c.info_rows.len() > 0,
    }
}

/// The rows of the main grid, in display order.
pub fn panel_rows<F>(c: &ToupControls<F>) -> (r: Vec<PanelRow>)
    ensures
        r@ == row_order().filter(|x: PanelRow| row_shown(*c, x)),
{
    let order: [PanelRow; 14] = [
        PanelRow::Exposure,
        PanelRow::AeTarget,
        PanelRow::Gain,
        PanelRow::Speed,
        PanelRow::CaptureMode,
        PanelRow::Resolution,
        PanelRow::Superpixel,
        PanelRow::Cooler,
        PanelRow::TargetTemp,
        PanelRow::SensorTemp,
        PanelRow::PowerDraw,
        PanelRow::TecDrive,
        PanelRow::Chamber,
        PanelRow::Ambient,
    ];
    let ghost f = |x: PanelRow| row_shown(*c, x);
    let mut out: Vec<PanelRow> = Vec::new();
    proof {
        reveal(Seq::filter);
        assert(order@ =~= row_order());
        assert(order@.take(0) =~= Seq::<PanelRow>::empty());
    }
    for i in 0..14
        invariant
            order@ == row_order(),
            f == (|x: PanelRow| row_shown(*c, x)),
            out@ == order@.take(i as int).filter(f),
    {
        proof {
            reveal(Seq::filter);
            assert(order@.take(i as int + 1).drop_last() =~= order@.take(i as int));
            assert(order@.take(i as int + 1).last() == order@[i as int]);
        }
        if shows_row(c, order[i]) {
            out.push(order[i]);
        }
    }
    assert(order@.take(14) =~= order@);
    out
}

/// The groups below the main grid, in display order.
pub fn panel_groups<F>(c: &ToupControls<F>) -> (r: Vec<PanelGroup>)
    ensures
        r@ == group_order().filter(|x: PanelGroup| group_shown(*c, x)),
{
    let order: [PanelGroup; 7] = [
        PanelGroup::Advanced,
        PanelGroup::SensorRoi,
        PanelGroup::Corrections,
        PanelGroup::FilterWheel,
        PanelGroup::Focuser,
        PanelGroup::Guide,
        PanelGroup::CameraInfo,
    ];
    let ghost f = |x: PanelGroup| group_shown(*c, x);
    let mut out: Vec<PanelGroup> = Vec::new();
    proof {
        reveal(Seq::filter);
        assert(order@ =~= group_order());
        assert(order@.take(0) =~= Seq::<PanelGroup>::empty());
    }
    for i in 0..7
        invariant
            order@ == group_order(),
            f == (|x: PanelGroup| group_shown(*c, x)),
            out@ == order@.take(i as int).filter(f),
    {
        proof {
            reveal(Seq::filter);
            assert(order@.take(i as int + 1).drop_last() =~= order@.take(i as int));
            assert(order@.take(i as int + 1).last() == order@[i as int]);
        }
        if shows_group(c, order[i]) {
            out.push(order[i]);
        }
    }
    assert(order@.take(7) =~= order@);
    out
}

/// A command where there is something to send, else none.
pub open spec fn if_due(due: bool, cmd: ToupCmd) -> Option<ToupCmd> {
    if due {
        Some(cmd)
    } else {
        None
    }
}

impl<F: Copy> ToupControls<F> {
    /// Sets the exposure, moved into the camera's range.
    pub fn edit_exposure(&mut self, us: u32) -> (r: Option<ToupCmd>)
        requires
            old(self).wf(),
        ensures
            final(self).wf(),
            *final(self) == (ToupControls {
                exposure_us: camera::clamped(
                    us as int,
                    old(self).exposure_min as int,
                    old(self).exposure_max as int,
                ) as u32,
                ..*old(self)
            }),
            r == if_due(
                final(self).exposure_us != old(self).exposure_us,
                ToupCmd::SetExposure(final(self).exposure_us),
            ),
    {
        let v: u32 = camera::clamp_u32(us, self.exposure_min, self.exposure_max);
        let changed: bool = v != self.exposure_us;
        self.exposure_us = v;
        if changed {
            Some(ToupCmd::SetExposure(v))
        } else {
            None
        }
    }

    /// Switches auto-exposure.
    pub fn edit_auto_exposure(&mut self, on: bool) -> (r: ToupCmd)
        requires
            old(self).wf(),
        ensures
            final(self).wf(),
            *final(self) == (ToupControls { auto_exposure: on, ..*old(self) }),
            r == ToupCmd::SetAutoExposure(on),
    {
        self.auto_exposure = on;
        ToupCmd::SetAutoExposure(on)
    }

    /// Sets the auto-exposure target brightness, moved into its range of 16 to
    /// 220. Outside auto-exposure it stays as it is.
    pub fn edit_ae_target(&mut self, target: u16) -> (r: Option<ToupCmd>)
        requires
            old(self).wf(),
        ensures
            final(self).wf(),
            *final(self) == (if row_shown(*old(self), PanelRow::AeTarget) {
                ToupControls {
                    auto_expo_target: camera::clamped(target as int, 16, 220) as u16,
                    ..*old(self)
                }
            } else {
                *old(self)
            }),
            r == if_due(
                final(self).auto_expo_target != old(self).auto_expo_target,
                ToupCmd::SetAutoExpoTarget(final(self).auto_expo_target),
            ),
    {
        if !shows_row(self, PanelRow::AeTarget) {
            return None;
        }
        let v: u16 = camera::clamp_u32(target as u32, 16, 220) as u16;
        let changed: bool = v != self.auto_expo_target;
        self.auto_expo_target = v;
        if changed {
            Some(ToupCmd::SetAutoExpoTarget(v))
        } else {
            None
        }
    }

    /// The largest gain that the panel offers: at least one above the minimum,
    /// so that there is something to slide.
    pub fn max_gain(&self) -> (r: u16)
        requires
            self.wf(),
        ensures
            r == camera::gain_limit(self.gain_min, self.gain_max),
    {
        if self.gain_max > self.gain_min {
            self.gain_max
        } else {
            self.gain_min + 1
        }
    }

    /// Sets the gain, moved into its range.
    pub fn edit_gain(&mut self, gain: u16) -> (r: Option<ToupCmd>)
        requires
            old(self).wf(),
        ensures
            final(self).wf(),
            *final(self) == (ToupControls {
                gain: camera::clamped(
                    gain as int,
                    old(self).gain_min as int,
                    camera::gain_limit(old(self).gain_min, old(self).gain_max),
                ) as u16,
                ..*old(self)
            }),
            r == if_due(
                final(self).gain != old(self).gain,
                ToupCmd::SetGain(final(self).gain),
            ),
    {
        let hi: u16 = self.max_gain();
        let v: u16 = camera::clamp_u32(gain as u32, self.gain_min as u32, hi as u32) as u16;
        let changed: bool = v != self.gain;
        self.gain = v;
        if changed {
            Some(ToupCmd::SetGain(v))
        } else {
            None
        }
    }

    /// Sets the frame-speed level, up to the model's maximum.
    pub fn edit_speed(&mut self, speed: u16) -> (r: Option<ToupCmd>)
        requires
            old(self).wf(),
        ensures
            final(self).wf(),
            *final(self) == (ToupControls {
                speed: camera::clamped(speed as int, 0, old(self).max_speed as int) as u16,
                ..*old(self)
            }),
            r == if_due(
                final(self).speed != old(self).speed,
                ToupCmd::SetSpeed(final(self).speed),
            ),
    {
        let v: u16 = if speed > self.max_speed {
            self.max_speed
        } else {
            speed
        };
        let changed: bool = v != self.speed;
        self.speed = v;
        if changed {
            Some(ToupCmd::SetSpeed(v))
        } else {
            None
        }
    }

    /// Switches between free-running video and software trigger, on a camera
    /// that has one.
    pub fn edit_trigger_mode(&mut self, triggered: bool) -> (r: Option<ToupCmd>)
        requires
            old(self).wf(),
        ensures
            final(self).wf(),
            if row_shown(*old(self), PanelRow::CaptureMode) {
                &&& *final(self) == (ToupControls { trigger_mode: triggered, ..*old(self) })
                &&& r == Some(ToupCmd::SetTriggerMode(triggered))
            } else {
                r is None && *final(self) == *old(self)
            },
    {
        if !shows_row(self, PanelRow::CaptureMode) {
            return None;
        }
        self.trigger_mode = triggered;
        Some(ToupCmd::SetTriggerMode(triggered))
    }

    /// Fires one exposure; only in trigger mode.
    pub fn snap(&self) -> (r: Option<ToupCmd>)
        ensures
            r == if_due(
                row_shown(*self, PanelRow::CaptureMode) && self.trigger_mode,
                ToupCmd::Snap,
            ),
    {
        if shows_row(self, PanelRow::CaptureMode) && self.trigger_mode {
            Some(ToupCmd::Snap)
        } else {
            None
        }
    }

    /// Selects one of the preview resolutions, where there is a choice. The
    /// region resets to the new full frame, until telemetry corrects it.
    pub fn edit_resolution(&mut self, index: u32) -> (r: Option<ToupCmd>)
        requires
            old(self).wf(),
        ensures
            final(self).wf(),
            ({
                let sizes = old(self).resolutions@;
                if row_shown(*old(self), PanelRow::Resolution) && index < sizes.len() {
                    let roi = Roi {
                        x: 0,
                        y: 0,
                        width: sizes[index as int].0,
                        height: sizes[index as int].1,
                    };
                    &&& r == Some(ToupCmd::SetResolution(index))
                    &&& *final(self) == (ToupControls {
                        resolution_index: index,
                        roi,
                        roi_edit: roi,
                        ..*old(self)
                    })
                } else {
                    r is None && *final(self) == *old(self)
                }
            }),
    {
        if !shows_row(self, PanelRow::Resolution) || index as usize >= self.resolutions.len() {
            return None;
        }
        let (width, height) = self.resolutions[index as usize];
        let roi: Roi = Roi { x: 0, y: 0, width, height };
        self.resolution_index = index;
        self.roi = roi;
        self.roi_edit = roi;
        Some(ToupCmd::SetResolution(index))
    }

    /// Switches superpixel averaging, on a color sensor.
    pub fn edit_superpixel(&mut self, on: bool) -> (r: Option<ToupCmd>)
        requires
            old(self).wf(),
        ensures
            final(self).wf(),
            if row_shown(*old(self), PanelRow::Superpixel) {
                &&& *final(self) == (ToupControls { superpixel: on, ..*old(self) })
                &&& r == Some(ToupCmd::SetSuperpixel(on))
            } else {
                r is None && *final(self) == *old(self)
            },
    {
        if !shows_row(self, PanelRow::Superpixel) {
            return None;
        }
        self.superpixel = on;
        Some(ToupCmd::SetSuperpixel(on))
    }

    /// Switches the cooler, where there is one.
    pub fn edit_tec(&mut self, on: bool) -> (r: Option<ToupCmd>)
        requires
            old(self).wf(),
        ensures
            final(self).wf(),
            if row_shown(*old(self), PanelRow::Cooler) {
                &&& *final(self) == (ToupControls { tec_on: on, ..*old(self) })
                &&& r == Some(ToupCmd::SetOption(Opt(camera::OPTION_TEC), camera::on_off(on)))
            } else {
                r is None && *final(self) == *old(self)
            },
    {
        if !shows_row(self, PanelRow::Cooler) {
            return None;
        }
        self.tec_on = on;
        let v: i32 = if on {
            1
        } else {
            0
        };
        Some(ToupCmd::SetOption(Opt(camera::OPTION_TEC), v))
    }

    /// Sets the cooler target in degrees, moved into its range by `lower` and
    /// `upper`, the lesser and the greater of two numbers. It is sent in tenths
    /// (`in_tenths`). A move that is too small to count (`moved` says so of a new
    /// and the present target) changes nothing, and neither does one without a
    /// cooler.
    pub fn edit_tec_target<
        Lo: Fn(F, F) -> F,
        Hi: Fn(F, F) -> F,
        M: Fn(F, F) -> bool,
        T: Fn(F) -> i32,
    >(&mut self, entered: F, lower: Lo, upper: Hi, moved: M, in_tenths: T) -> (r: Option<ToupCmd>)
        requires
            old(self).wf(),
            forall|a: F, b: F| call_requires(lower, (a, b)),
            forall|a: F, b: F| call_requires(upper, (a, b)),
            forall|a: F, b: F| call_requires(moved, (a, b)),
            forall|a: F| call_requires(in_tenths, (a,)),
        ensures
            final(self).wf(),
            !row_shown(*old(self), PanelRow::TargetTemp) ==> r is None && *final(self) == *old(
                self,
            ),
            row_shown(*old(self), PanelRow::TargetTemp) ==> exists|t: F|
                #[trigger] histogram_view::kept_between(
                    entered,
                    old(self).tec_range.0,
                    old(self).tec_range.1,
                    lower,
                    upper,
                    t,
                ) && match r {
                    Some(cmd) => {
                        &&& call_ensures(moved, (t, old(self).tec_target), true)
                        &&& *final(self) == (ToupControls { tec_target: t, ..*old(self) })
                        &&& sends_target(cmd, t, in_tenths)
                    },
                    None => call_ensures(moved, (t, old(self).tec_target), false) && *final(self)
                        == *old(self),
                },
    {
        if !shows_row(self, PanelRow::TargetTemp) {
            return None;
        }
        let raised: F = upper(entered, self.tec_range.0);
        let t: F = lower(raised, self.tec_range.1);
        assert(histogram_view::kept_between(entered, self.tec_range.0, self.tec_range.1, lower, upper, t));
        if !moved(t, self.tec_target) {
            return None;
        }
        self.tec_target = t;
        let v: i32 = in_tenths(t);
        Some(ToupCmd::SetOption(Opt(camera::OPTION_TECTARGET), v))
    }
}

/// Does a command send a cooler target in tenths of a degree?
pub open spec fn sends_target<F, T: Fn(F) -> i32>(cmd: ToupCmd, t: F, in_tenths: T) -> bool {
    match cmd {
        ToupCmd::SetOption(opt, v) => opt == Opt(camera::OPTION_TECTARGET) && call_ensures(
            in_tenths,
            (t,),
            v,
        ),
        _ => false,
    }
}

// ---------------------------------------------------------------------------
// Advanced options

/// The value that a row of this kind takes for an entered one: 0 or 1, moved
/// between the limits, or one of the choices; else it stays as it is.
pub open spec fn fitted(kind: AdvKind, entered: i32, kept: i32) -> i32 {
    match kind {
        AdvKind::Bool => if entered != 0 {
            1
        } else {
            0
        },
        AdvKind::Int { min, max } => camera::between(
            entered as int,
            min as int,
            max as int,
        ) as i32,
        AdvKind::Enum(set) => if exists|k: int|
            0 <= k < camera::choices(set).len() && #[trigger] camera::choices(set)[k].0
                == entered {
            entered
        } else {
            kept
        },
    }
}

fn fit(kind: AdvKind, entered: i32, kept: i32) -> (r: i32)
    ensures
        r == fitted(kind, entered, kept),
{
    match kind {
        AdvKind::Bool => if entered != 0 {
            1
        } else {
            0
        },
        AdvKind::Int { min, max } => if min <= max {
            camera::clamp_i32(entered, min, max)
        } else {
            camera::clamp_i32(entered, max, min)
        },
        AdvKind::Enum(set) => {
            let list: Vec<(i32, &'static str)> = set.entries();
            for k in 0..list.len()
                invariant
                    kind == AdvKind::Enum(set),
                    list@ == camera::choices(set),
                    forall|j: int| 0 <= j < k ==> (#[trigger] list@[j]).0 != entered,
            {
                if list[k].0 == entered {
                    assert(camera::choices(set)[k as int].0 == entered);
                    return entered;
                }
            }
            kept
        },
    }
}

impl<F: Copy> ToupControls<F> {
    /// Edits the `i`th advanced option.
    pub fn edit_advanced(&mut self, i: usize, value: i32) -> (r: Option<ToupCmd>)
        requires
            old(self).wf(),
            i < old(self).advanced.len(),
        ensures
            final(self).wf(),
            ({
                let c = old(self).advanced@[i as int];
                let v = fitted(c.kind, value, c.value);
                &&& final(self).advanced@ == old(self).advanced@.update(
                    i as int,
                    AdvControl { value: v, ..c },
                )
                &&& *final(self) == (ToupControls {
                    advanced: final(self).advanced,
                    ..*old(self)
                })
                &&& r == if_due(v != c.value, ToupCmd::SetOption(c.opt, v))
            }),
    {
        let c: AdvControl = self.advanced[i];
        let v: i32 = fit(c.kind, value, c.value);
        self.advanced.set(i, AdvControl { label: c.label, opt: c.opt, kind: c.kind, value: v });
        if v != c.value {
            Some(ToupCmd::SetOption(c.opt, v))
        } else {
            None
        }
    }
}

// ---------------------------------------------------------------------------
// Sensor region

/// The largest even number up to `n`.
pub open spec fn even(n: int) -> int {
    n - n % 2
}

fn round_even(n: u32) -> (r: u32)
    ensures
        r == even(n as int),
{
    n - n % 2
}

/// The full frame of the selected resolution; what the camera last reported
/// where the selection is not in the list.
pub open spec fn frame_size_of<F>(c: ToupControls<F>) -> (u32, u32) {
    if c.resolution_index < c.resolutions@.len() {
        c.resolutions@[c.resolution_index as int]
    } else {
        (c.roi.width, c.roi.height)
    }
}

/// The offset nearest to `offset` at which a region of at least 8 fits.
pub open spec fn fitted_offset(offset: u32, full: u32) -> int {
    if even(offset as int) < even(full - 8) {
        even(offset as int)
    } else {
        even(full - 8)
    }
}

/// The size nearest to `size` that fits behind the offset.
pub open spec fn fitted_size(size: u32, offset: int, full: u32) -> int {
    camera::clamped(even(size as int), 8, even(full - offset))
}

/// A staged region fitted into the frame.
pub open spec fn fitted_roi(e: Roi, full: (u32, u32)) -> Roi {
    let x = fitted_offset(e.x, full.0);
    let y = fitted_offset(e.y, full.1);
    Roi {
        x: x as u32,
        y: y as u32,
        width: fitted_size(e.width, x, full.0) as u32,
        height: fitted_size(e.height, y, full.1) as u32,
    }
}

/// A region that the camera takes: offsets and sizes even, at least 8 by 8,
/// inside the frame.
pub open spec fn valid_roi(r: Roi, full: (u32, u32)) -> bool {
    &&& r.x % 2 == 0 && r.y % 2 == 0 && r.width % 2 == 0 && r.height % 2 == 0
    &&& r.width >= 8 && r.height >= 8
    &&& r.x + r.width <= full.0
    &&& r.y + r.height <= full.1
}

/// Fitting gives a region that the camera takes, and leaves one as it is that
/// the camera takes already.
pub proof fn law_fitted_roi(e: Roi, full: (u32, u32))
    requires
        full.0 >= 8,
        full.1 >= 8,
    ensures
        valid_roi(fitted_roi(e, full), full),
        valid_roi(e, full) ==> fitted_roi(e, full) == e,
{
}

/// Moves a staged value between the limits of its field.
fn stage(v: u32, a: u32, b: u32) -> (r: u32)
    ensures
        r == camera::between(v as int, a as int, b as int),
{
    if a <= b {
        camera::clamp_u32(v, a, b)
    } else {
        camera::clamp_u32(v, b, a)
    }
}

/// `full` less 8, not below 0.
pub open spec fn offset_limit(full: u32) -> u32 {
    if full >= 8 {
        (full - 8) as u32
    } else {
        0
    }
}

impl<F: Copy> ToupControls<F> {
    /// The full frame of the selected resolution.
    pub fn frame_size(&self) -> (r: (u32, u32))
        ensures
            r == frame_size_of(*self),
    {
        if (self.resolution_index as usize) < self.resolutions.len() {
            self.resolutions[self.resolution_index as usize]
        } else {
            (self.roi.width, self.roi.height)
        }
    }

    /// Stages a region in the editor: each field in the range that it offers,
    /// a size between 8 and that of the frame.
    pub fn stage_roi(&mut self, e: Roi)
        requires
            old(self).wf(),
        ensures
            final(self).wf(),
            ({
                let full = frame_size_of(*old(self));
                *final(self) == (ToupControls {
                    roi_edit: Roi {
                        x: camera::clamped(e.x as int, 0, offset_limit(full.0) as int) as u32,
                        y: camera::clamped(e.y as int, 0, offset_limit(full.1) as int) as u32,
                        width: camera::between(e.width as int, 8, full.0 as int) as u32,
                        height: camera::between(e.height as int, 8, full.1 as int) as u32,
                    },
                    ..*old(self)
                })
            }),
    {
        let full: (u32, u32) = self.frame_size();
        let max_x: u32 = if full.0 >= 8 {
            full.0 - 8
        } else {
            0
        };
        let max_y: u32 = if full.1 >= 8 {
            full.1 - 8
        } else {
            0
        };
        let x: u32 = stage(e.x, 0, max_x);
        let y: u32 = stage(e.y, 0, max_y);
        let width: u32 = stage(e.width, 8, full.0);
        let height: u32 = stage(e.height, 8, full.1);
        self.roi_edit = Roi { x, y, width, height };
    }

    /// Applies the staged region: fits it into the frame as the camera needs
    /// it, and sends it.
    pub fn apply_roi(&mut self) -> (r: ToupCmd)
        requires
            old(self).wf(),
            frame_size_of(*old(self)).0 >= 8,
            frame_size_of(*old(self)).1 >= 8,
        ensures
            final(self).wf(),
            ({
                let e = fitted_roi(old(self).roi_edit, frame_size_of(*old(self)));
                &&& *final(self) == (ToupControls { roi_edit: e, ..*old(self) })
                &&& r == ToupCmd::SetRoi(e.x, e.y, e.width, e.height)
                &&& valid_roi(e, frame_size_of(*old(self)))
            }),
    {
        let full: (u32, u32) = self.frame_size();
        let e: Roi = self.roi_edit;
        proof {
            law_fitted_roi(e, full);
        }
        let max_x: u32 = round_even(full.0 - 8);
        let max_y: u32 = round_even(full.1 - 8);
        let ex: u32 = round_even(e.x);
        let ey: u32 = round_even(e.y);
        let x: u32 = if ex < max_x {
            ex
        } else {
            max_x
        };
        let y: u32 = if ey < max_y {
            ey
        } else {
            max_y
        };
        let width: u32 = camera::clamp_u32(round_even(e.width), 8, round_even(full.0 - x));
        let height: u32 = camera::clamp_u32(round_even(e.height), 8, round_even(full.1 - y));
        self.roi_edit = Roi { x, y, width, height };
        ToupCmd::SetRoi(x, y, width, height)
    }

    /// Goes back to the full frame.
    pub fn full_frame_roi(&mut self) -> (r: ToupCmd)
        requires
            old(self).wf(),
        ensures
            final(self).wf(),
            *final(self) == (ToupControls {
                roi_edit: Roi {
                    x: 0,
                    y: 0,
                    width: frame_size_of(*old(self)).0,
                    height: frame_size_of(*old(self)).1,
                },
                ..*old(self)
            }),
            r == ToupCmd::SetRoi(0, 0, 0, 0),
    {
        let full: (u32, u32) = self.frame_size();
        self.roi_edit = Roi { x: 0, y: 0, width: full.0, height: full.1 };
        ToupCmd::SetRoi(0, 0, 0, 0)
    }

    /// The region in use, as text.
    pub fn active_roi_text(&self) -> (r: String)
        ensures
            r@ == text::decimal(self.roi.width as int) + " \u{d7} "@ + text::decimal(
                self.roi.height as int,
            ) + " @ ("@ + text::decimal(self.roi.x as int) + ", "@ + text::decimal(
                self.roi.y as int,
            ) + ")"@,
    {
        let w: String = text::int_text(self.roi.width as i128);
        let h: String = text::int_text(self.roi.height as i128);
        let x: String = text::int_text(self.roi.x as i128);
        let y: String = text::int_text(self.roi.y as i128);
        let head: String = text::join5(w.as_str(), " \u{d7} ", h.as_str(), " @ (", x.as_str());
        text::join4(head.as_str(), ", ", y.as_str(), ")")
    }
}

// ---------------------------------------------------------------------------
// Corrections

impl<F: Copy> ToupControls<F> {
    /// The controls with the `i`th correction switched.
    pub open spec fn with_correction(self, i: int, enabled: bool, r: ToupControls<F>) -> bool {
        &&& r.corrections@ == self.corrections@.update(
            i,
            CorrectionState { enabled, ..self.corrections@[i] },
        )
        &&& r == (ToupControls { corrections: r.corrections, ..self })
    }

    fn set_correction(&mut self, i: usize, enabled: bool)
        requires
            old(self).wf(),
            i < old(self).corrections.len(),
        ensures
            final(self).wf(),
            old(self).with_correction(i as int, enabled, *final(self)),
    {
        let kind: camera::Correction = self.corrections[i].kind;
        self.corrections.set(i, CorrectionState { kind, enabled });
    }

    /// Switches the `i`th correction.
    pub fn switch_correction(&mut self, i: usize, on: bool) -> (r: ToupCmd)
        requires
            old(self).wf(),
            i < old(self).corrections.len(),
        ensures
            final(self).wf(),
            old(self).with_correction(i as int, on, *final(self)),
            r == ToupCmd::Correction(
                old(self).corrections@[i as int].kind,
                CorrectionAction::Enable(on),
            ),
    {
        let kind: camera::Correction = self.corrections[i].kind;
        self.set_correction(i, on);
        ToupCmd::Correction(kind, CorrectionAction::Enable(on))
    }

    /// Captures the `i`th correction; a successful capture applies itself. The
    /// second result tells the user what the camera needs to see.
    pub fn capture_correction(&mut self, i: usize) -> (r: (ToupCmd, String))
        requires
            old(self).wf(),
            i < old(self).corrections.len(),
        ensures
            final(self).wf(),
            old(self).with_correction(i as int, true, *final(self)),
            r.0 == ToupCmd::Correction(
                old(self).corrections@[i as int].kind,
                CorrectionAction::Capture,
            ),
            r.1@ == camera::correction_label(old(self).corrections@[i as int].kind)@ + ": "@
                + camera::correction_hint(old(self).corrections@[i as int].kind)@,
    {
        let kind: camera::Correction = self.corrections[i].kind;
        let note: String = text::join3(kind.label(), ": ", kind.capture_hint());
        self.set_correction(i, true);
        (ToupCmd::Correction(kind, CorrectionAction::Capture), note)
    }

    /// Imports the `i`th correction from a file, and applies it.
    pub fn import_correction(&mut self, i: usize, path: String) -> (r: ToupCmd)
        requires
            old(self).wf(),
            i < old(self).corrections.len(),
        ensures
            final(self).wf(),
            old(self).with_correction(i as int, true, *final(self)),
            r == ToupCmd::Correction(
                old(self).corrections@[i as int].kind,
                CorrectionAction::Import(path),
            ),
    {
        let kind: camera::Correction = self.corrections[i].kind;
        self.set_correction(i, true);
        ToupCmd::Correction(kind, CorrectionAction::Import(path))
    }

    /// Exports the `i`th correction to a file.
    pub fn export_correction(&self, i: usize, path: String) -> (r: ToupCmd)
        requires
            i < self.corrections.len(),
        ensures
            r == ToupCmd::Correction(
                self.corrections@[i as int].kind,
                CorrectionAction::Export(path),
            ),
    {
        ToupCmd::Correction(self.corrections[i].kind, CorrectionAction::Export(path))
    }
}

// ---------------------------------------------------------------------------
// Filter wheel, focuser, guiding

/// A resolution as text.
pub open spec fn resolution_label(size: (u32, u32)) -> Seq<char> {
    text::decimal(size.0 as int) + " \u{d7} "@ + text::decimal(size.1 as int)
}

/// The labels of some resolutions.
pub fn resolution_labels(sizes: &Vec<(u32, u32)>) -> (r: Vec<String>)
    ensures
        r.len() == sizes.len(),
        forall|i: int|
            0 <= i < sizes.len() ==> (#[trigger] r@[i])@ == resolution_label(sizes@[i]),
{
    let mut out: Vec<String> = Vec::new();
    for i in 0..sizes.len()
        invariant
            out.len() == i,
            forall|j: int| 0 <= j < i ==> (#[trigger] out@[j])@ == resolution_label(sizes@[j]),
    {
        let w: String = text::int_text(sizes[i].0 as i128);
        let h: String = text::int_text(sizes[i].1 as i128);
        out.push(text::join3(w.as_str(), " \u{d7} ", h.as_str()));
    }
    out
}

/// The labels of the slots of a filter wheel, counted from 1.
pub fn slot_labels(slots: u32) -> (r: Vec<String>)
    ensures
        r.len() == slots,
        forall|i: int|
            0 <= i < slots ==> (#[trigger] r@[i])@ == "Slot "@ + text::decimal(i + 1),
{
    let mut out: Vec<String> = Vec::new();
    let mut i: u32 = 0;
    while i < slots
        invariant
            i <= slots,
            out.len() == i,
            forall|j: int|
                0 <= j < i ==> (#[trigger] out@[j])@ == "Slot "@ + text::decimal(j + 1),
        decreases slots - i,
    {
        let n: String = text::int_text(i as i128 + 1);
        out.push(text::join2("Slot ", n.as_str()));
        i = i + 1;
    }
    out
}

impl FilterWheelState {
    /// The slot that the picker shows while the wheel stands still.
    pub fn shown_slot(&self) -> (r: Option<u32>)
        requires
            self.slots > 0,
        ensures
            r == (match self.position {
                Some(p) => Some(
                    if p < self.slots {
                        p
                    } else {
                        (self.slots - 1) as u32
                    },
                ),
                None => None,
            }),
    {
        match self.position {
            Some(p) => if p < self.slots {
                Some(p)
            } else {
                Some(self.slots - 1)
            },
            None => None,
        }
    }
}

impl FocuserState {
    /// The position, and whether the focuser moves, as text.
    pub fn position_text(&self) -> (r: String)
        ensures
            r@ == text::decimal(self.position as int) + (if self.moving {
                " (moving)"@
            } else {
                ""@
            }),
    {
        let n: String = text::int_text(self.position as i128);
        if self.moving {
            text::join2(n.as_str(), " (moving)")
        } else {
            text::join2(n.as_str(), "")
        }
    }
}

/// The filter wheel in motion.
pub open spec fn in_motion(w: FilterWheelState) -> FilterWheelState {
    FilterWheelState { slots: w.slots, position: None }
}

impl<F: Copy> ToupControls<F> {
    /// Moves the filter wheel to one of its slots, which shows it in motion
    /// until telemetry says otherwise. Only a wheel that stands still can be
    /// moved.
    pub fn select_filter(&mut self, slot: u32) -> (r: Option<ToupCmd>)
        requires
            old(self).wf(),
        ensures
            final(self).wf(),
            match old(self).filter_wheel {
                Some(w) => if w.position is Some && slot < w.slots {
                    &&& r == Some(ToupCmd::SetFilterPosition(slot))
                    &&& *final(self) == (ToupControls {
                        filter_wheel: Some(in_motion(w)),
                        ..*old(self)
                    })
                } else {
                    r is None && *final(self) == *old(self)
                },
                None => r is None && *final(self) == *old(self),
            },
    {
        match self.filter_wheel {
            Some(w) => {
                if w.position.is_some() && slot < w.slots {
                    self.filter_wheel = Some(FilterWheelState { slots: w.slots, position: None });
                    Some(ToupCmd::SetFilterPosition(slot))
                } else {
                    None
                }
            },
            None => None,
        }
    }

    /// Re-homes the filter wheel.
    pub fn home_filter_wheel(&mut self) -> (r: Option<ToupCmd>)
        requires
            old(self).wf(),
        ensures
            final(self).wf(),
            match old(self).filter_wheel {
                Some(w) => {
                    &&& r == Some(ToupCmd::ResetFilterWheel)
                    &&& *final(self) == (ToupControls {
                        filter_wheel: Some(in_motion(w)),
                        ..*old(self)
                    })
                },
                None => r is None && *final(self) == *old(self),
            },
    {
        match self.filter_wheel {
            Some(w) => {
                self.filter_wheel = Some(FilterWheelState { slots: w.slots, position: None });
                Some(ToupCmd::ResetFilterWheel)
            },
            None => None,
        }
    }

    /// Edits the focuser's target, from 0 to its last step.
    pub fn edit_focuser_target(&mut self, target: i32)
        requires
            old(self).wf(),
        ensures
            final(self).wf(),
            *final(self) == (ToupControls {
                focuser: match old(self).focuser {
                    Some(f) => Some(
                        FocuserState {
                            target: camera::clamped(target as int, 0, f.max_step as int) as i32,
                            ..f
                        },
                    ),
                    None => None,
                },
                ..*old(self)
            }),
    {
        match self.focuser {
            Some(f) => {
                let t: i32 = camera::clamp_i32(target, 0, f.max_step);
                self.focuser =
                Some(
                    FocuserState {
                        position: f.position,
                        target: t,
                        max_step: f.max_step,
                        moving: f.moving,
                    },
                );
            },
            None => {},
        }
    }

    /// Sends the focuser to its target.
    pub fn move_focuser(&self) -> (r: Option<ToupCmd>)
        ensures
            r == (match self.focuser {
                Some(f) => Some(ToupCmd::SetFocuserPosition(f.target)),
                None => None,
            }),
    {
        match self.focuser {
            Some(f) => Some(ToupCmd::SetFocuserPosition(f.target)),
            None => None,
        }
    }

    /// Stops the focuser.
    pub fn halt_focuser(&self) -> (r: Option<ToupCmd>)
        ensures
            r == if_due(self.focuser is Some, ToupCmd::FocuserHalt),
    {
        if self.focuser.is_some() {
            Some(ToupCmd::FocuserHalt)
        } else {
            None
        }
    }

    /// Edits the guide pulse length, 10 to 10000 milliseconds. Without a guide
    /// port it stays as it is.
    pub fn edit_guide_ms(&mut self, ms: u32)
        requires
            old(self).wf(),
        ensures
            final(self).wf(),
            *final(self) == (if group_shown(*old(self), PanelGroup::Guide) {
                ToupControls {
                    guide_ms: camera::clamped(ms as int, 10, 10_000) as u32,
                    ..*old(self)
                }
            } else {
                *old(self)
            }),
    {
        if shows_group(self, PanelGroup::Guide) {
            self.guide_ms = camera::clamp_u32(ms, 10, 10_000);
        }
    }

    /// A guide pulse of the set length, stopping takes none; only through a
    /// guide port.
    pub fn guide(&self, dir: GuideDirection) -> (r: Option<ToupCmd>)
        ensures
            r == if_due(
                group_shown(*self, PanelGroup::Guide),
                ToupCmd::Guide(
                    dir,
                    if dir == GuideDirection::Stop {
                        0
                    } else {
                        self.guide_ms
                    },
                ),
            ),
    {
        if !shows_group(self, PanelGroup::Guide) {
            return None;
        }
        match dir {
            GuideDirection::Stop => Some(ToupCmd::Guide(dir, 0)),
            _ => Some(ToupCmd::Guide(dir, self.guide_ms)),
        }
    }
}

// ---------------------------------------------------------------------------
// Readings as text

/// A temperature in tenths of a degree, as text.
pub fn temperature_text(t: i32) -> (r: String)
    ensures
        r@ == text::tenths(t as int) + " \u{b0}C"@,
{
    let n: String = text::tenths_text(t as i64);
    text::join2(n.as_str(), " \u{b0}C")
}

/// The cooler's drive voltage with its maximum, where there is one.
pub fn tec_drive_text(v: i32, max: Option<i32>) -> (r: String)
    ensures
        r@ == (match max {
            Some(m) => text::tenths(v as int) + " V / "@ + text::tenths(m as int) + " V max"@,
            None => text::tenths(v as int) + " V"@,
        }),
{
    let n: String = text::tenths_text(v as i64);
    match max {
        Some(m) => {
            let top: String = text::tenths_text(m as i64);
            text::join4(n.as_str(), " V / ", top.as_str(), " V max")
        },
        None => text::join2(n.as_str(), " V"),
    }
}

/// Humidity and temperature, as text.
pub fn humidity_text(ht: (i16, i16)) -> (r: String)
    ensures
        r@ == text::tenths(ht.0 as int) + " %RH  "@ + text::tenths(ht.1 as int) + " \u{b0}C"@,
{
    let rh: String = text::tenths_text(ht.0 as i64);
    let t: String = text::tenths_text(ht.1 as i64);
    text::join4(rh.as_str(), " %RH  ", t.as_str(), " \u{b0}C")
}

// ---------------------------------------------------------------------------
// What edits keep to

/// An exposure in the camera's range is set as entered, any other at the end of
/// the range that it passed. It is sent when it changed, and nothing else
/// changes.
pub proof fn law_exposure_edit<F: Copy>(c: &mut ToupControls<F>, us: u32, r: Option<ToupCmd>)
    requires
        old(c).wf(),
        call_ensures(ToupControls::<F>::edit_exposure, (c, us), r),
    ensures
        old(c).exposure_min <= us <= old(c).exposure_max ==> final(c).exposure_us == us,
        us < old(c).exposure_min ==> final(c).exposure_us == old(c).exposure_min,
        us > old(c).exposure_max ==> final(c).exposure_us == old(c).exposure_max,
        r is Some <==> final(c).exposure_us != old(c).exposure_us,
        r matches Some(cmd) ==> cmd == ToupCmd::SetExposure(final(c).exposure_us),
        *final(c) == (ToupControls { exposure_us: final(c).exposure_us, ..*old(c) }),
{
}

/// A gain in the camera's range is set as entered and sent when it changed.
pub proof fn law_gain_edit<F: Copy>(c: &mut ToupControls<F>, gain: u16, r: Option<ToupCmd>)
    requires
        old(c).wf(),
        call_ensures(ToupControls::<F>::edit_gain, (c, gain), r),
    ensures
        old(c).gain_min <= gain <= old(c).gain_max ==> final(c).gain == gain,
        gain < old(c).gain_min ==> final(c).gain == old(c).gain_min,
        gain > old(c).gain_max && old(c).gain_max > old(c).gain_min ==> final(c).gain
            == old(c).gain_max,
        gain > old(c).gain_min && old(c).gain_max <= old(c).gain_min ==> final(c).gain
            == old(c).gain_min + 1,
        r is Some <==> final(c).gain != old(c).gain,
        r matches Some(cmd) ==> cmd == ToupCmd::SetGain(final(c).gain),
        *final(c) == (ToupControls { gain: final(c).gain, ..*old(c) }),
{
}

/// A speed level up to the model's is set as entered and sent when it changed.
pub proof fn law_speed_edit<F: Copy>(c: &mut ToupControls<F>, speed: u16, r: Option<ToupCmd>)
    requires
        old(c).wf(),
        call_ensures(ToupControls::<F>::edit_speed, (c, speed), r),
    ensures
        speed <= old(c).max_speed ==> final(c).speed == speed,
        speed > old(c).max_speed ==> final(c).speed == old(c).max_speed,
        r is Some <==> final(c).speed != old(c).speed,
        r matches Some(cmd) ==> cmd == ToupCmd::SetSpeed(final(c).speed),
        *final(c) == (ToupControls { speed: final(c).speed, ..*old(c) }),
{
}

/// The auto-exposure target is set from 16 to 220, while auto-exposure runs.
pub proof fn law_target_edit<F: Copy>(c: &mut ToupControls<F>, t: u16, r: Option<ToupCmd>)
    requires
        old(c).wf(),
        call_ensures(ToupControls::<F>::edit_ae_target, (c, t), r),
    ensures
        !old(c).auto_exposure ==> r is None && *final(c) == *old(c),
        old(c).auto_exposure ==> {
            &&& 16 <= t <= 220 ==> final(c).auto_expo_target == t
            &&& t < 16 ==> final(c).auto_expo_target == 16
            &&& t > 220 ==> final(c).auto_expo_target == 220
            &&& r is Some <==> final(c).auto_expo_target != old(c).auto_expo_target
        },
        r matches Some(cmd) ==> cmd == ToupCmd::SetAutoExpoTarget(final(c).auto_expo_target),
        *final(c) == (ToupControls { auto_expo_target: final(c).auto_expo_target, ..*old(c) }),
{
}

/// A switch is set as it was thrown and sent as it was set, on a camera that
/// has it; on any other it stays.
pub proof fn law_switches_are_set_as_thrown<F: Copy>(
    c: &mut ToupControls<F>,
    d: &mut ToupControls<F>,
    e: &mut ToupControls<F>,
    g: &mut ToupControls<F>,
    on: bool,
    a: ToupCmd,
    t: Option<ToupCmd>,
    s: Option<ToupCmd>,
    k: Option<ToupCmd>,
)
    requires
        old(c).wf() && old(d).wf() && old(e).wf() && old(g).wf(),
        call_ensures(ToupControls::<F>::edit_auto_exposure, (c, on), a),
        call_ensures(ToupControls::<F>::edit_trigger_mode, (d, on), t),
        call_ensures(ToupControls::<F>::edit_superpixel, (e, on), s),
        call_ensures(ToupControls::<F>::edit_tec, (g, on), k),
    ensures
        a == ToupCmd::SetAutoExposure(on) && *final(c) == (ToupControls {
            auto_exposure: on,
            ..*old(c)
        }),
        old(d).has_soft_trigger ==> t == Some(ToupCmd::SetTriggerMode(on)) && *final(d) == (
        ToupControls { trigger_mode: on, ..*old(d) }),
        !old(d).has_soft_trigger ==> t is None && *final(d) == *old(d),
        old(e).is_color ==> s == Some(ToupCmd::SetSuperpixel(on)) && *final(e) == (ToupControls {
            superpixel: on,
            ..*old(e)
        }),
        !old(e).is_color ==> s is None && *final(e) == *old(e),
        old(g).has_tec ==> k == Some(
            ToupCmd::SetOption(
                Opt(0x08),
                if on {
                    1i32
                } else {
                    0i32
                },
            ),
        ) && *final(g) == (ToupControls { tec_on: on, ..*old(g) }),
        !old(g).has_tec ==> k is None && *final(g) == *old(g),
{
}

/// One exposure is fired only in trigger mode.
pub proof fn law_snap_needs_trigger_mode<F: Copy>(c: ToupControls<F>, r: Option<ToupCmd>)
    requires
        call_ensures(ToupControls::<F>::snap, (&c,), r),
    ensures
        r is Some <==> c.trigger_mode && c.has_soft_trigger,
        r matches Some(cmd) ==> cmd == ToupCmd::Snap,
{
}

/// A resolution that is picked from the list is selected, sent by its place in
/// the list, and its full frame is the region.
pub proof fn law_resolution_edit<F: Copy>(c: &mut ToupControls<F>, i: u32, r: Option<ToupCmd>)
    requires
        old(c).wf(),
        call_ensures(ToupControls::<F>::edit_resolution, (c, i), r),
    ensures
        r is Some <==> old(c).resolutions@.len() > 1 && i < old(c).resolutions@.len(),
        r is None ==> *final(c) == *old(c),
        r matches Some(cmd) ==> {
            let (w, h) = old(c).resolutions@[i as int];
            &&& cmd == ToupCmd::SetResolution(i)
            &&& final(c).resolution_index == i
            &&& final(c).roi == Roi { x: 0, y: 0, width: w, height: h }
            &&& final(c).roi_edit == final(c).roi
        },
        *final(c) == (ToupControls {
            resolution_index: final(c).resolution_index,
            roi: final(c).roi,
            roi_edit: final(c).roi_edit,
            ..*old(c)
        }),
{
}

/// A cooler target that moved far enough is kept as it is and sent in tenths; a
/// smaller move, or one without a cooler, changes nothing.
pub proof fn law_cooler_target_edit<
    F: Copy,
    Lo: Fn(F, F) -> F,
    Hi: Fn(F, F) -> F,
    M: Fn(F, F) -> bool,
    T: Fn(F) -> i32,
>(
    c: &mut ToupControls<F>,
    entered: F,
    lower: Lo,
    upper: Hi,
    moved: M,
    in_tenths: T,
    r: Option<ToupCmd>,
)
    requires
        old(c).wf(),
        forall|a: F, b: F| call_requires(lower, (a, b)),
        forall|a: F, b: F| call_requires(upper, (a, b)),
        forall|a: F, b: F| call_requires(moved, (a, b)),
        forall|a: F| call_requires(in_tenths, (a,)),
        call_ensures(
            ToupControls::<F>::edit_tec_target::<Lo, Hi, M, T>,
            (c, entered, lower, upper, moved, in_tenths),
            r,
        ),
    ensures
        !old(c).has_tec ==> r is None,
        r is None ==> *final(c) == *old(c),
        r matches Some(cmd) ==> {
            &&& cmd matches ToupCmd::SetOption(opt, v) && opt.0 == 0x0f && call_ensures(
                in_tenths,
                (final(c).tec_target,),
                v,
            )
            &&& call_ensures(moved, (final(c).tec_target, old(c).tec_target), true)
            &&& exists|raised: F|
                #[trigger] call_ensures(upper, (entered, old(c).tec_range.0), raised)
                    && call_ensures(lower, (raised, old(c).tec_range.1), final(c).tec_target)
        },
        *final(c) == (ToupControls { tec_target: final(c).tec_target, ..*old(c) }),
        old(c).has_tec && (forall|a: F, b: F| !#[trigger] call_ensures(moved, (a, b), false))
            ==> r is Some,
{
}

/// An advanced option takes a value that its row offers, sends it under its own
/// key when it changed, and leaves every other row alone.
pub proof fn law_advanced_edit<F: Copy>(
    c: &mut ToupControls<F>,
    i: usize,
    value: i32,
    r: Option<ToupCmd>,
    j: int,
)
    requires
        old(c).wf(),
        i < old(c).advanced.len(),
        call_ensures(ToupControls::<F>::edit_advanced, (c, i, value), r),
    ensures
        final(c).advanced@.len() == old(c).advanced@.len(),
        ({
            let a = old(c).advanced@[i as int];
            let b = final(c).advanced@[i as int];
            &&& b.opt == a.opt && b.label == a.label && b.kind == a.kind
            &&& r is Some <==> b.value != a.value
            &&& r matches Some(cmd) ==> cmd == ToupCmd::SetOption(a.opt, b.value)
            &&& match a.kind {
                AdvKind::Bool => b.value == (if value == 0 {
                    0int
                } else {
                    1
                }),
                AdvKind::Int { min, max } => {
                    &&& min <= value <= max ==> b.value == value
                    &&& min <= max && value < min ==> b.value == min
                    &&& min <= max && value > max ==> b.value == max
                    &&& max < min ==> max <= b.value <= min
                },
                AdvKind::Enum(_) => b.value == value || b.value == a.value,
            }
        }),
        0 <= j < old(c).advanced@.len() && j != i ==> final(c).advanced@[j] == old(c).advanced@[j],
        *final(c) == (ToupControls { advanced: final(c).advanced, ..*old(c) }),
{
}

/// A one-of row takes exactly the values on its list.
pub proof fn law_choice_edit<F: Copy>(
    c: &mut ToupControls<F>,
    i: usize,
    value: i32,
    r: Option<ToupCmd>,
    set: camera::AdvChoices,
    list: Vec<(i32, &'static str)>,
)
    requires
        old(c).wf(),
        i < old(c).advanced.len(),
        old(c).advanced@[i as int].kind == AdvKind::Enum(set),
        call_ensures(camera::AdvChoices::entries, (set,), list),
        call_ensures(ToupControls::<F>::edit_advanced, (c, i, value), r),
    ensures
        (exists|k: int| 0 <= k < list@.len() && (#[trigger] list@[k]).0 == value) ==> final(c).advanced@[i as int].value == value,
        (forall|k: int| 0 <= k < list@.len() ==> (#[trigger] list@[k]).0 != value) ==> final(c).advanced@[i as int].value == old(c).advanced@[i as int].value && r is None,
{
}

/// A region that is applied is even, at least 8 by 8 and inside the frame. It is
/// sent as it then stands in the editor, and one that already was all that is
/// sent as it was staged.
pub proof fn law_region_is_sent_as_staged<F: Copy>(c: &mut ToupControls<F>, r: ToupCmd)
    requires
        old(c).wf(),
        frame_size_of(*old(c)).0 >= 8,
        frame_size_of(*old(c)).1 >= 8,
        call_ensures(ToupControls::<F>::apply_roi, (c,), r),
    ensures
        ({
            let e = final(c).roi_edit;
            let full = if old(c).resolution_index < old(c).resolutions@.len() {
                old(c).resolutions@[old(c).resolution_index as int]
            } else {
                (old(c).roi.width, old(c).roi.height)
            };
            let s = old(c).roi_edit;
            &&& r == ToupCmd::SetRoi(e.x, e.y, e.width, e.height)
            &&& e.x % 2 == 0 && e.y % 2 == 0 && e.width % 2 == 0 && e.height % 2 == 0
            &&& e.width >= 8 && e.height >= 8
            &&& e.x + e.width <= full.0 && e.y + e.height <= full.1
            &&& s.x % 2 == 0 && s.y % 2 == 0 && s.width % 2 == 0 && s.height % 2 == 0 && s.width
                >= 8 && s.height >= 8 && s.x + s.width <= full.0 && s.y + s.height <= full.1
                ==> e == s
            &&& e.x <= s.x && e.y <= s.y
            &&& s.x + 8 <= full.0 ==> e.x == s.x - s.x % 2
            &&& s.y + 8 <= full.1 ==> e.y == s.y - s.y % 2
        }),
        *final(c) == (ToupControls { roi_edit: final(c).roi_edit, ..*old(c) }),
{
    law_fitted_roi(old(c).roi_edit, frame_size_of(*old(c)));
}

/// What the panel applies is what the camera reads out: the region of the
/// editor after the click.
pub proof fn law_applied_region_reaches_the_camera<F: Copy>(
    c: &mut ToupControls<F>,
    cmd: ToupCmd,
    call: camera::SdkCall,
    m: camera::CameraModel,
)
    requires
        old(c).wf(),
        frame_size_of(*old(c)).0 >= 8,
        frame_size_of(*old(c)).1 >= 8,
        call_ensures(ToupControls::<F>::apply_roi, (c,), cmd),
        call_ensures(camera::apply_cmd, (cmd,), call),
    ensures
        camera::after_call(m, call).roi == final(c).roi_edit,
{
    camera::law_command_sets_what_it_names(cmd, call, m);
}

/// Going back to the full frame stages all of it, and asks the camera for it in
/// its own way: with a region of nothing.
pub proof fn law_full_frame<F: Copy>(c: &mut ToupControls<F>, r: ToupCmd, size: (u32, u32))
    requires
        old(c).wf(),
        call_ensures(ToupControls::<F>::full_frame_roi, (c,), r),
        call_ensures(ToupControls::<F>::frame_size, (&*old(c),), size),
    ensures
        r == ToupCmd::SetRoi(0, 0, 0, 0),
        final(c).roi_edit == (Roi { x: 0, y: 0, width: size.0, height: size.1 }),
        *final(c) == (ToupControls { roi_edit: final(c).roi_edit, ..*old(c) }),
        old(c).resolution_index < old(c).resolutions@.len() ==> size
            == old(c).resolutions@[old(c).resolution_index as int],
        old(c).resolution_index >= old(c).resolutions@.len() ==> size == (
            old(c).roi.width,
            old(c).roi.height,
        ),
{
}

/// What is staged lies in the frame: a value that does is staged as entered.
pub proof fn law_staged_region_lies_in_the_frame<F: Copy>(
    c: &mut ToupControls<F>,
    e: Roi,
    size: (u32, u32),
)
    requires
        old(c).wf(),
        call_ensures(ToupControls::<F>::stage_roi, (c, e), ()),
        call_ensures(ToupControls::<F>::frame_size, (&*old(c),), size),
    ensures
        e.x + 8 <= size.0 ==> final(c).roi_edit.x == e.x,
        e.y + 8 <= size.1 ==> final(c).roi_edit.y == e.y,
        8 <= e.width <= size.0 ==> final(c).roi_edit.width == e.width,
        8 <= e.height <= size.1 ==> final(c).roi_edit.height == e.height,
        size.0 >= 8 ==> final(c).roi_edit.x + 8 <= size.0 && 8 <= final(c).roi_edit.width <= size.0,
        size.1 >= 8 ==> final(c).roi_edit.y + 8 <= size.1 && 8 <= final(c).roi_edit.height
            <= size.1,
        *final(c) == (ToupControls { roi_edit: final(c).roi_edit, ..*old(c) }),
{
}

/// Switching, capturing and importing act on the correction of their row alone;
/// what was captured or imported applies.
pub proof fn law_correction_edits<F: Copy>(
    c: &mut ToupControls<F>,
    d: &mut ToupControls<F>,
    e: &mut ToupControls<F>,
    i: usize,
    on: bool,
    path: String,
    a: ToupCmd,
    b: (ToupCmd, String),
    g: ToupCmd,
    j: int,
)
    requires
        old(c).wf() && old(d).wf() && old(e).wf(),
        i < old(c).corrections.len() && i < old(d).corrections.len() && i
            < old(e).corrections.len(),
        call_ensures(ToupControls::<F>::switch_correction, (c, i, on), a),
        call_ensures(ToupControls::<F>::capture_correction, (d, i), b),
        call_ensures(ToupControls::<F>::import_correction, (e, i, path), g),
    ensures
        ({
            let k = old(c).corrections@[i as int].kind;
            &&& a == ToupCmd::Correction(k, CorrectionAction::Enable(on))
            &&& final(c).corrections@[i as int].enabled == on
            &&& final(c).corrections@[i as int].kind == k
        }),
        b.0 == ToupCmd::Correction(old(d).corrections@[i as int].kind, CorrectionAction::Capture),
        final(d).corrections@[i as int].enabled,
        g == ToupCmd::Correction(
            old(e).corrections@[i as int].kind,
            CorrectionAction::Import(path),
        ),
        final(e).corrections@[i as int].enabled,
        0 <= j < old(c).corrections@.len() && j != i ==> final(c).corrections@[j]
            == old(c).corrections@[j],
        0 <= j < old(d).corrections@.len() && j != i ==> final(d).corrections@[j]
            == old(d).corrections@[j],
        0 <= j < old(e).corrections@.len() && j != i ==> final(e).corrections@[j]
            == old(e).corrections@[j],
        *final(c) == (ToupControls { corrections: final(c).corrections, ..*old(c) }),
        *final(d) == (ToupControls { corrections: final(d).corrections, ..*old(d) }),
        *final(e) == (ToupControls { corrections: final(e).corrections, ..*old(e) }),
{
}

/// Exporting writes the correction of its row to the path that was chosen.
pub proof fn law_correction_export<F: Copy>(
    c: ToupControls<F>,
    i: usize,
    path: String,
    r: ToupCmd,
)
    requires
        i < c.corrections.len(),
        call_ensures(ToupControls::<F>::export_correction, (&c, i, path), r),
    ensures
        r == ToupCmd::Correction(c.corrections@[i as int].kind, CorrectionAction::Export(path)),
{
}

/// The wheel is sent to the slot that was picked if it stands still and has
/// that slot, and is homed whenever there is one. Either way it then counts as
/// moving until the camera says otherwise.
pub proof fn law_wheel_moves_once<F: Copy>(
    c: &mut ToupControls<F>,
    d: &mut ToupControls<F>,
    slot: u32,
    r: Option<ToupCmd>,
    h: Option<ToupCmd>,
)
    requires
        old(c).wf() && old(d).wf(),
        call_ensures(ToupControls::<F>::select_filter, (c, slot), r),
        call_ensures(ToupControls::<F>::home_filter_wheel, (d,), h),
    ensures
        r is Some <==> old(c).filter_wheel is Some && old(c).filter_wheel->0.position is Some && slot
            < old(c).filter_wheel->0.slots,
        r matches Some(cmd) ==> cmd == ToupCmd::SetFilterPosition(slot) && final(c).filter_wheel->0.position is None,
        h is Some <==> old(d).filter_wheel is Some,
        h matches Some(cmd) ==> cmd == ToupCmd::ResetFilterWheel && final(d).filter_wheel->0.position is None,
        old(c).filter_wheel matches Some(w) ==> final(c).filter_wheel is Some && final(c).filter_wheel->0.slots == w.slots,
        old(d).filter_wheel matches Some(w) ==> final(d).filter_wheel is Some && final(d).filter_wheel->0.slots == w.slots,
        r is None ==> *final(c) == *old(c),
        h is None ==> *final(d) == *old(d),
        *final(c) == (ToupControls { filter_wheel: final(c).filter_wheel, ..*old(c) }),
        *final(d) == (ToupControls { filter_wheel: final(d).filter_wheel, ..*old(d) }),
{
}

/// The focuser is sent to the target that was set, which lies on its track, and
/// halted on request. A camera without one does neither.
pub proof fn law_focuser_goes_to_its_target<F: Copy>(
    c: &mut ToupControls<F>,
    target: i32,
    go: Option<ToupCmd>,
    halt: Option<ToupCmd>,
)
    requires
        old(c).wf(),
        call_ensures(ToupControls::<F>::edit_focuser_target, (c, target), ()),
        call_ensures(ToupControls::<F>::move_focuser, (&*final(c),), go),
        call_ensures(ToupControls::<F>::halt_focuser, (&*final(c),), halt),
    ensures
        old(c).focuser is None ==> go is None && halt is None && *final(c) == *old(c),
        old(c).focuser matches Some(f) ==> {
            &&& go matches Some(ToupCmd::SetFocuserPosition(at)) && (0 <= target <= f.max_step
                ==> at == target) && 0 <= at <= f.max_step && (target < 0 ==> at == 0) && (target
                > f.max_step ==> at == f.max_step)
            &&& halt == Some(ToupCmd::FocuserHalt)
            &&& final(c).focuser->0.position == f.position && final(c).focuser->0.moving
                == f.moving && final(c).focuser->0.max_step == f.max_step
        },
        *final(c) == (ToupControls { focuser: final(c).focuser, ..*old(c) }),
{
}

/// A guide pulse goes in the direction that was pressed for the length that was
/// set; stopping takes no time. It needs a guide port.
pub proof fn law_guide_pulse<F: Copy>(
    c: &mut ToupControls<F>,
    ms: u32,
    dir: GuideDirection,
    r: Option<ToupCmd>,
)
    requires
        old(c).wf(),
        call_ensures(ToupControls::<F>::edit_guide_ms, (c, ms), ()),
        call_ensures(ToupControls::<F>::guide, (&*final(c), dir), r),
    ensures
        r is Some <==> old(c).has_st4,
        r matches Some(cmd) ==> (cmd matches ToupCmd::Guide(d, n) && d == dir && (dir
            == GuideDirection::Stop ==> n == 0) && (dir != GuideDirection::Stop ==> n == (if ms
            < 10 {
            10
        } else if ms > 10_000 {
            10_000
        } else {
            ms as int
        }))),
        *final(c) == (ToupControls { guide_ms: final(c).guide_ms, ..*old(c) }),
{
}

/// A row is in the panel exactly when the camera has what it is about.
pub proof fn law_rows_follow_the_camera<F>(c: ToupControls<F>, rows: Vec<PanelRow>, row: PanelRow)
    requires
        call_ensures(panel_rows::<F>, (&c,), rows),
    ensures
        rows@.contains(row) <==> match row {
            PanelRow::Exposure => true,
            PanelRow::Gain => true,
            PanelRow::AeTarget => c.auto_exposure,
            PanelRow::Speed => c.max_speed != 0,
            PanelRow::CaptureMode => c.has_soft_trigger,
            PanelRow::Resolution => c.resolutions@.len() >= 2,
            PanelRow::Superpixel => c.is_color,
            PanelRow::Cooler => c.has_tec,
            PanelRow::TargetTemp => c.has_tec,
            PanelRow::SensorTemp => c.temperature is Some,
            PanelRow::PowerDraw => c.power_mw is Some,
            PanelRow::TecDrive => c.tec_voltage is Some,
            PanelRow::Chamber => c.chamber_ht is Some,
            PanelRow::Ambient => c.env_ht is Some,
        },
{
    let f = |x: PanelRow| row_shown(c, x);
    let o = row_order();
    let k: int = match row {
        PanelRow::Exposure => 0,
        PanelRow::AeTarget => 1,
        PanelRow::Gain => 2,
        PanelRow::Speed => 3,
        PanelRow::CaptureMode => 4,
        PanelRow::Resolution => 5,
        PanelRow::Superpixel => 6,
        PanelRow::Cooler => 7,
        PanelRow::TargetTemp => 8,
        PanelRow::SensorTemp => 9,
        PanelRow::PowerDraw => 10,
        PanelRow::TecDrive => 11,
        PanelRow::Chamber => 12,
        PanelRow::Ambient => 13,
    };
    assert(o[k] == row);
    if f(row) {
        o.lemma_filter_contains(f, k);
    }
    if rows@.contains(row) {
        let i = choose|i: int| 0 <= i < rows@.len() && rows@[i] == row;
        o.lemma_filter_pred(f, i);
    }
}

/// A group is in the panel exactly when the camera has what it is about, under
/// its own title; the wheel and the focuser start open.
pub proof fn law_groups_follow_the_camera<F>(
    c: ToupControls<F>,
    groups: Vec<PanelGroup>,
    g: PanelGroup,
    title: &'static str,
    open: bool,
)
    requires
        call_ensures(panel_groups::<F>, (&c,), groups),
        call_ensures(PanelGroup::title, (g,), title),
        call_ensures(PanelGroup::default_open, (g,), open),
    ensures
        groups@.contains(g) <==> match g {
            PanelGroup::Advanced => c.advanced@.len() > 0,
            PanelGroup::SensorRoi => true,
            PanelGroup::Corrections => c.corrections@.len() > 0,
            PanelGroup::FilterWheel => c.filter_wheel is Some,
            PanelGroup::Focuser => c.focuser is Some,
            PanelGroup::Guide => c.has_st4,
            PanelGroup::CameraInfo => c.info_rows@.len() > 0,
        },
        match g {
            PanelGroup::Advanced => title@ == "Advanced"@ && !open,
            PanelGroup::SensorRoi => title@ == "Sensor ROI"@ && !open,
            PanelGroup::Corrections => title@ == "Corrections"@ && !open,
            PanelGroup::FilterWheel => title@ == "Filter Wheel"@ && open,
            PanelGroup::Focuser => title@ == "Focuser"@ && open,
            PanelGroup::Guide => title@ == "Guide (ST4)"@ && !open,
            PanelGroup::CameraInfo => title@ == "Camera Info"@ && !open,
        },
{
    let f = |x: PanelGroup| group_shown(c, x);
    let o = group_order();
    let k: int = match g {
        PanelGroup::Advanced => 0,
        PanelGroup::SensorRoi => 1,
        PanelGroup::Corrections => 2,
        PanelGroup::FilterWheel => 3,
        PanelGroup::Focuser => 4,
        PanelGroup::Guide => 5,
        PanelGroup::CameraInfo => 6,
    };
    assert(o[k] == g);
    if f(g) {
        o.lemma_filter_contains(f, k);
    }
    if groups@.contains(g) {
        let i = choose|i: int| 0 <= i < groups@.len() && groups@[i] == g;
        o.lemma_filter_pred(f, i);
    }
}

/// The gain can be slid up to the camera's maximum, and over one step at least.
pub proof fn law_gain_can_be_slid<F: Copy>(c: ToupControls<F>, r: u16)
    requires
        c.wf(),
        call_ensures(ToupControls::<F>::max_gain, (&c,), r),
    ensures
        r > c.gain_min,
        c.gain_max > c.gain_min ==> r == c.gain_max,
        c.gain_max <= c.gain_min ==> r == c.gain_min + 1,
{
}

/// The region in use reads as its size and its corner, and a resolution as its
/// width and its height.
pub proof fn law_sizes_are_labeled<F: Copy>(
    c: ToupControls<F>,
    roi: String,
    sizes: Vec<(u32, u32)>,
    labels: Vec<String>,
    i: int,
)
    requires
        call_ensures(ToupControls::<F>::active_roi_text, (&c,), roi),
        call_ensures(resolution_labels, (&sizes,), labels),
    ensures
        roi@ == text::decimal(c.roi.width as int) + " \u{d7} "@ + text::decimal(
            c.roi.height as int,
        ) + " @ ("@ + text::decimal(c.roi.x as int) + ", "@ + text::decimal(c.roi.y as int)
            + ")"@,
        labels.len() == sizes.len(),
        0 <= i < sizes.len() ==> labels@[i]@ == text::decimal(sizes@[i].0 as int) + " \u{d7} "@
            + text::decimal(sizes@[i].1 as int),
{
}

/// The slots of a wheel are counted from 1. The picker shows the slot that the
/// wheel stands at, the last one for a position beyond it, and none while the
/// wheel moves.
pub proof fn law_wheel_shows_its_slot(
    w: FilterWheelState,
    labels: Vec<String>,
    i: int,
    r: Option<u32>,
)
    requires
        w.slots > 0,
        call_ensures(slot_labels, (w.slots,), labels),
        call_ensures(FilterWheelState::shown_slot, (&w,), r),
    ensures
        labels.len() == w.slots,
        0 <= i < w.slots ==> labels@[i]@ == "Slot "@ + text::decimal(i + 1),
        w.position is None ==> r is None,
        w.position matches Some(p) ==> (p < w.slots ==> r == Some(p)),
        w.position matches Some(p) ==> (p >= w.slots ==> (r matches Some(q) && q + 1 == w.slots)),
{
}

/// A focuser reads as its position, and as moving where it does.
pub proof fn law_focuser_shows_its_position(f: FocuserState, r: String)
    requires
        call_ensures(FocuserState::position_text, (&f,), r),
    ensures
        f.moving ==> r@ == text::decimal(f.position as int) + " (moving)"@,
        !f.moving ==> r@ == text::decimal(f.position as int) + ""@,
{
}

/// Temperatures, voltages and humidity read in tenths of their unit, humidity
/// before temperature.
pub proof fn law_readings_are_told(
    t: i32,
    v: i32,
    max: Option<i32>,
    ht: (i16, i16),
    a: String,
    b: String,
    c: String,
)
    requires
        call_ensures(temperature_text, (t,), a),
        call_ensures(tec_drive_text, (v, max), b),
        call_ensures(humidity_text, (ht,), c),
    ensures
        a@ == text::tenths(t as int) + " \u{b0}C"@,
        max matches Some(m) ==> b@ == text::tenths(v as int) + " V / "@ + text::tenths(m as int)
            + " V max"@,
        max is None ==> b@ == text::tenths(v as int) + " V"@,
        c@ == text::tenths(ht.0 as int) + " %RH  "@ + text::tenths(ht.1 as int) + " \u{b0}C"@,
{
}

/// A staged region that does not fit comes as near as it can: its corner moves
/// up and left until 8 pixels fit, and its size is cut at the frame's edge,
/// each at an even number. One that is too small grows to 8.
pub proof fn law_applied_region_is_the_nearest<F: Copy>(
    c: &mut ToupControls<F>,
    r: ToupCmd,
    size: (u32, u32),
)
    requires
        old(c).wf(),
        frame_size_of(*old(c)).0 >= 8,
        frame_size_of(*old(c)).1 >= 8,
        call_ensures(ToupControls::<F>::apply_roi, (c,), r),
        call_ensures(ToupControls::<F>::frame_size, (&*old(c),), size),
    ensures
        ({
            let s = old(c).roi_edit;
            let e = final(c).roi_edit;
            &&& s.x + 8 > size.0 ==> e.x == (size.0 - 8) - (size.0 - 8) % 2
            &&& s.y + 8 > size.1 ==> e.y == (size.1 - 8) - (size.1 - 8) % 2
            &&& s.width < 8 ==> e.width == 8
            &&& s.height < 8 ==> e.height == 8
            &&& s.width >= 8 && e.x + s.width <= size.0 ==> e.width == s.width - s.width % 2
            &&& s.height >= 8 && e.y + s.height <= size.1 ==> e.height == s.height - s.height % 2
            &&& s.width >= 8 && e.x + s.width > size.0 ==> e.width == (size.0 - e.x) - (size.0
                - e.x) % 2
            &&& s.height >= 8 && e.y + s.height > size.1 ==> e.height == (size.1 - e.y) - (size.1
                - e.y) % 2
        }),
{
}

/// What is staged beyond the frame comes to the nearer end of its field.
pub proof fn law_staged_region_comes_to_the_edge<F: Copy>(
    c: &mut ToupControls<F>,
    e: Roi,
    size: (u32, u32),
)
    requires
        old(c).wf(),
        call_ensures(ToupControls::<F>::stage_roi, (c, e), ()),
        call_ensures(ToupControls::<F>::frame_size, (&*old(c),), size),
    ensures
        size.0 >= 8 && e.x + 8 > size.0 ==> final(c).roi_edit.x == size.0 - 8,
        size.1 >= 8 && e.y + 8 > size.1 ==> final(c).roi_edit.y == size.1 - 8,
        size.0 < 8 ==> final(c).roi_edit.x == 0 && size.0 <= final(c).roi_edit.width <= 8,
        size.1 < 8 ==> final(c).roi_edit.y == 0 && size.1 <= final(c).roi_edit.height <= 8,
        size.0 >= 8 && e.width < 8 ==> final(c).roi_edit.width == 8,
        size.1 >= 8 && e.height < 8 ==> final(c).roi_edit.height == 8,
        size.0 >= 8 && e.width > size.0 ==> final(c).roi_edit.width == size.0,
        size.1 >= 8 && e.height > size.1 ==> final(c).roi_edit.height == size.1,
{
}

/// Capturing a correction tells how to, and neither capturing nor importing
/// changes which corrections there are.
pub proof fn law_capture_is_explained<F: Copy>(
    c: &mut ToupControls<F>,
    d: &mut ToupControls<F>,
    i: usize,
    path: String,
    a: (ToupCmd, String),
    b: ToupCmd,
    label: &'static str,
    hint: &'static str,
)
    requires
        old(c).wf() && old(d).wf(),
        i < old(c).corrections.len() && i < old(d).corrections.len(),
        call_ensures(ToupControls::<F>::capture_correction, (c, i), a),
        call_ensures(ToupControls::<F>::import_correction, (d, i, path), b),
        call_ensures(camera::Correction::label, (old(c).corrections@[i as int].kind,), label),
        call_ensures(
            camera::Correction::capture_hint,
            (old(c).corrections@[i as int].kind,),
            hint,
        ),
    ensures
        a.1@ == label@ + ": "@ + hint@,
        final(c).corrections@.len() == old(c).corrections@.len(),
        final(d).corrections@.len() == old(d).corrections@.len(),
        final(c).corrections@[i as int].kind == old(c).corrections@[i as int].kind,
        final(d).corrections@[i as int].kind == old(d).corrections@[i as int].kind,
{
}

} // verus!
