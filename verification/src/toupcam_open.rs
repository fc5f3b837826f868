//! What opening a ToupTek camera settles: the pixel pipeline, the initial
//! control values, the identity rows, and what telemetry to poll.

use crate::text;
use crate::toupcam_camera as camera;
use crate::toupcam_camera::{
    FilterWheelState, FocuserState, ModelInfo, Readings, Roi, TelemetryCfg,
    ToupControls,
};
use vstd::prelude::*;
use vstd::string::*;

verus! {

/// Everything read from a camera while it is being opened. A field is `None`
/// where the camera could not say. Temperatures are in tenths.
#[derive(PartialEq, Eq, Debug)]
pub struct OpenProbe {
    pub display_name: String,
    pub mono: Option<bool>,
    pub max_bit_depth: Option<u32>,
    /// Bayer pattern of the raw format ("RGGB", ...), where it is recognized.
    pub pattern: Option<&'static str>,
    /// Minimum, maximum and default.
    pub exposure_range: Option<(u32, u32, u32)>,
    pub exposure: Option<u32>,
    pub auto_expo_target: Option<u16>,
    /// Minimum, maximum and default.
    pub gain_range: Option<(u16, u16, u16)>,
    pub gain: Option<u16>,
    pub speed: Option<u16>,
    pub tec_target_range: Option<(i32, i32)>,
    pub temperature: Option<i32>,
    pub power_mw: Option<i32>,
    /// The camera's own list of preview resolutions.
    pub resolutions: Vec<(u32, u32)>,
    pub resolution_index: Option<u32>,
    pub roi: Option<Roi>,
    pub serial: Option<String>,
    pub firmware: Option<String>,
    pub hardware: Option<String>,
    pub produced: Option<String>,
    /// Pixel size as text, where the model gives one.
    pub pixel_size: Option<String>,
    pub sdk_version: String,
    pub filter_slots: Option<i32>,
    /// Slot of the filter wheel, where it could be read and stands still.
    pub filter_position: Option<u32>,
    pub focuser_position: Option<i32>,
    pub focuser_max_step: Option<i32>,
    pub options: Readings,
}

/// The sensor is mono: the camera's own word, else the model's.
pub open spec fn mono_of(p: OpenProbe, model: ModelInfo) -> bool {
    match p.mono {
        Some(m) => m,
        None => camera::flagged(model.flags, camera::FLAG_MONO),
    }
}

/// The Bayer pattern in use: none on a mono sensor.
pub open spec fn cfa_of(p: OpenProbe, model: ModelInfo) -> Option<&'static str> {
    if mono_of(p, model) {
        None
    } else {
        p.pattern
    }
}

/// Sixteen-bit samples, and the native bit depth.
pub open spec fn pipeline_of(max_bit_depth: Option<u32>) -> (bool, u8) {
    let depth = match max_bit_depth {
        Some(d) => if d > 16 {
            16
        } else {
            d as int
        },
        None => 8,
    };
    if depth > 8 {
        (true, depth as u8)
    } else {
        (false, 8u8)
    }
}

/// Decides on the pixel pipeline: RAW at native bit depth, in 16-bit samples
/// where the sensor has more than 8 bits.
pub fn pixel_pipeline(max_bit_depth: Option<u32>) -> (r: (bool, u8))
    ensures
        r == pipeline_of(max_bit_depth),
        8 <= r.1 <= 16,
        r.0 == (r.1 > 8),
{
    let depth: u32 = match max_bit_depth {
        Some(d) => if d > 16 {
            16
        } else {
            d
        },
        None => 8,
    };
    if depth > 8 {
        (true, depth as u8)
    } else {
        (false, 8)
    }
}

/// Is the sensor mono?
pub fn is_mono(p: &OpenProbe, model: &ModelInfo) -> (r: bool)
    ensures
        r == mono_of(*p, *model),
{
    match p.mono {
        Some(m) => m,
        None => model.has_flag(camera::FLAG_MONO),
    }
}

/// The Bayer pattern in use.
pub fn live_cfa(p: &OpenProbe, model: &ModelInfo) -> (r: Option<&'static str>)
    ensures
        r == cfa_of(*p, *model),
{
    if is_mono(p, model) {
        None
    } else {
        p.pattern
    }
}

/// The warning about a USB3 camera on a USB2 link.
pub fn usb2_warning(p: &OpenProbe, model: &ModelInfo) -> (r: Option<String>)
    ensures
        r is Some <==> camera::flagged(model.flags, camera::FLAG_USB30_OVER_USB20),
        r matches Some(m) ==> m@ == p.display_name@
            + ": USB3 camera on a USB2 link \u{2014} bandwidth limited"@,
{
    if model.has_flag(camera::FLAG_USB30_OVER_USB20) {
        Some(
            text::join2(
                p.display_name.as_str(),
                ": USB3 camera on a USB2 link \u{2014} bandwidth limited",
            ),
        )
    } else {
        None
    }
}

/// What the log says of the mosaic.
pub open spec fn mosaic_note(mono: bool, cfa: Option<&'static str>) -> Seq<char> {
    match cfa {
        Some(p) => ", "@ + p@ + " mosaic"@,
        None => if mono {
            ""@
        } else {
            " \u{2014} unrecognized CFA, treating as mono"@
        },
    }
}

/// The log line on the pixel pipeline.
pub fn pipeline_note(p: &OpenProbe, model: &ModelInfo, bit_depth: u8) -> (r: String)
    ensures
        r@ == p.display_name@ + ": RAW "@ + (if mono_of(*p, *model) {
            "mono"@
        } else {
            "color (Bayer)"@
        }) + " capture, "@ + text::decimal(bit_depth as int) + ("-bit"@ + mosaic_note(
            mono_of(*p, *model),
            cfa_of(*p, *model),
        )),
{
    let mono: bool = is_mono(p, model);
    let sensor: &str = if mono {
        "mono"
    } else {
        "color (Bayer)"
    };
    let depth: String = text::int_text(bit_depth as i128);
    let head: String = text::join5(
        p.display_name.as_str(),
        ": RAW ",
        sensor,
        " capture, ",
        depth.as_str(),
    );
    let note: String = match live_cfa(p, model) {
        Some(pattern) => text::join3(", ", pattern, " mosaic"),
        None => if mono {
            "".to_string()
        } else {
            " \u{2014} unrecognized CFA, treating as mono".to_string()
        },
    };
    let tail: String = text::join2("-bit", note.as_str());
    text::join2(head.as_str(), tail.as_str())
}

// ---------------------------------------------------------------------------
// Identity rows

/// A row of the info panel.
pub open spec fn row(label: Seq<char>, value: Seq<char>) -> Seq<(Seq<char>, Seq<char>)> {
    seq![(label, value)]
}

/// A row of the info panel where there is a value for it.
pub open spec fn optional_row(label: Seq<char>, value: Option<String>) -> Seq<
    (Seq<char>, Seq<char>),
> {
    match value {
        Some(v) => row(label, v@),
        None => Seq::empty(),
    }
}

/// The contents of info rows.
pub open spec fn row_views(v: Seq<(&'static str, String)>) -> Seq<(Seq<char>, Seq<char>)> {
    v.map_values(|r: (&'static str, String)| (r.0@, r.1@))
}

/// `"<width> x <height>, <depth>-bit"`, with a multiplication sign.
pub open spec fn sensor_text(width: u32, height: u32, depth: u8) -> Seq<char> {
    text::decimal(width as int) + " \u{d7} "@ + text::decimal(height as int) + ", "@
        + text::decimal(depth as int) + "-bit"@
}

/// The info rows of a camera, in order.
pub open spec fn info_rows_of(
    p: OpenProbe,
    model: ModelInfo,
    full: (u32, u32),
    depth: u8,
) -> Seq<(Seq<char>, Seq<char>)> {
    row("Model"@, model.name@) + optional_row("Serial"@, p.serial) + optional_row(
        "Firmware"@,
        p.firmware,
    ) + optional_row("Hardware"@, p.hardware) + optional_row("Produced"@, p.produced)
        + optional_row("Pixel Size"@, p.pixel_size) + row(
        "Sensor"@,
        sensor_text(full.0, full.1, depth),
    ) + (match cfa_of(p, model) {
        Some(c) => row("CFA"@, c@),
        None => Seq::empty(),
    }) + row("SDK"@, p.sdk_version@)
}

fn push_row(rows: &mut Vec<(&'static str, String)>, label: &'static str, value: String)
    ensures
        row_views(final(rows)@) == row_views(old(rows)@) + row(label@, value@),
{
    let ghost before = rows@;
    rows.push((label, value));
    assert(row_views(rows@) =~= row_views(before) + row(label@, value@));
}

fn push_optional(
    rows: &mut Vec<(&'static str, String)>,
    label: &'static str,
    value: &Option<String>,
)
    ensures
        row_views(final(rows)@) == row_views(old(rows)@) + optional_row(label@, *value),
{
    match value {
        Some(v) => push_row(rows, label, v.clone()),
        None => {
            assert(row_views(rows@) + Seq::<(Seq<char>, Seq<char>)>::empty() =~= row_views(rows@));
        },
    }
}

/// The static identity of a camera for the info panel.
pub fn info_rows(p: &OpenProbe, model: &ModelInfo, full: (u32, u32), depth: u8) -> (r: Vec<
    (&'static str, String),
>)
    ensures
        row_views(r@) == info_rows_of(*p, *model, full, depth),
{
    let mut rows: Vec<(&'static str, String)> = Vec::new();
    assert(row_views(rows@) + row("Model"@, model.name@) =~= row("Model"@, model.name@));
    push_row(&mut rows, "Model", model.name.clone());
    push_optional(&mut rows, "Serial", &p.serial);
    push_optional(&mut rows, "Firmware", &p.firmware);
    push_optional(&mut rows, "Hardware", &p.hardware);
    push_optional(&mut rows, "Produced", &p.produced);
    push_optional(&mut rows, "Pixel Size", &p.pixel_size);
    let w: String = text::int_text(full.0 as i128);
    let h: String = text::int_text(full.1 as i128);
    let d: String = text::int_text(depth as i128);
    let size: String = text::join5(w.as_str(), " \u{d7} ", h.as_str(), ", ", d.as_str());
    push_row(&mut rows, "Sensor", text::join2(size.as_str(), "-bit"));
    match live_cfa(p, model) {
        Some(c) => push_row(&mut rows, "CFA", c.to_string()),
        None => {
            assert(row_views(rows@) + Seq::<(Seq<char>, Seq<char>)>::empty() =~= row_views(rows@));
        },
    }
    push_row(&mut rows, "SDK", p.sdk_version.clone());
    rows
}

// ---------------------------------------------------------------------------
// Initial controls

/// The value, or `other` where there is none.
pub open spec fn or_else<T>(value: Option<T>, other: T) -> T {
    match value {
        Some(v) => v,
        None => other,
    }
}

fn value_or<T: Copy>(value: Option<T>, other: T) -> (r: T)
    ensures
        r == or_else(value, other),
{
    match value {
        Some(v) => v,
        None => other,
    }
}

/// The preview resolutions: the model's table, else the camera's own list.
pub open spec fn resolutions_of(p: OpenProbe, model: ModelInfo) -> Seq<(u32, u32)> {
    if model.preview_resolutions@.len() == 0 {
        p.resolutions@
    } else {
        model.preview_resolutions@
    }
}

/// The full frame at a resolution index; empty for an index out of range.
pub open spec fn full_frame(resolutions: Seq<(u32, u32)>, index: u32) -> (u32, u32) {
    if index < resolutions.len() {
        resolutions[index as int]
    } else {
        (0, 0)
    }
}

/// The filter wheel of a camera that has one with at least one slot.
pub open spec fn wheel_of(p: OpenProbe, model: ModelInfo) -> Option<FilterWheelState> {
    match p.filter_slots {
        Some(n) => if camera::flagged(model.flags, camera::FLAG_FILTERWHEEL) && n > 0 {
            Some(FilterWheelState { slots: n as u32, position: p.filter_position })
        } else {
            None
        },
        None => None,
    }
}

/// The focuser of a camera that has one whose position can be read.
pub open spec fn focuser_of(p: OpenProbe, model: ModelInfo) -> Option<FocuserState> {
    match p.focuser_position {
        Some(position) => if camera::flagged(model.flags, camera::FLAG_AUTOFOCUSER) {
            Some(
                FocuserState {
                    position,
                    target: position,
                    max_step: if or_else(p.focuser_max_step, 100_000i32) < 1 {
                        1
                    } else {
                        or_else(p.focuser_max_step, 100_000i32)
                    },
                    moving: false,
                },
            )
        } else {
            None
        },
        None => None,
    }
}

impl OpenProbe {
    /// The ranges that the camera reports are ordered.
    pub open spec fn ranges_ordered(&self) -> bool {
        &&& self.exposure_range matches Some(r) ==> r.0 <= r.1
        &&& self.gain_range matches Some(r) ==> r.0 <= r.1 && r.0 < u16::MAX
        &&& self.tec_target_range matches Some(r) ==> r.0 <= r.1
    }

    /// Are the ranges that the camera reports ordered?
    pub fn has_ordered_ranges(&self) -> (r: bool)
        ensures
            r == self.ranges_ordered(),
    {
        let exposure: bool = match self.exposure_range {
            Some(r) => r.0 <= r.1,
            None => true,
        };
        let gain: bool = match self.gain_range {
            Some(r) => r.0 <= r.1 && r.0 < u16::MAX,
            None => true,
        };
        let tec: bool = match self.tec_target_range {
            Some(r) => r.0 <= r.1,
            None => true,
        };
        exposure && gain && tec
    }
}

/// Is this one of the mosaics of red, green and blue sites, by the colors of a
/// two by two cell, row by row?
pub open spec fn is_mosaic(p: Seq<char>) -> bool {
    p == "RGGB"@ || p == "BGGR"@ || p == "GRBG"@ || p == "GBRG"@
}

/// Four letters as one number, the first in its lowest byte.
pub open spec fn letters_code(s: Seq<char>) -> int {
    s[0] as int + 0x100 * (s[1] as int) + 0x1_0000 * (s[2] as int) + 0x100_0000 * (s[3] as int)
}

/// The mosaic that a camera's format code names; none for any other code.
pub fn mosaic_of_code(fourcc: u32) -> (r: Option<&'static str>)
    ensures
        match r {
            Some(p) => is_mosaic(p@) && fourcc == letters_code(p@),
            None => forall|p: Seq<char>|
                #![trigger letters_code(p)]
                is_mosaic(p) ==> fourcc != letters_code(p),
        },
{
    proof {
        reveal_strlit("RGGB");
        reveal_strlit("BGGR");
        reveal_strlit("GRBG");
        reveal_strlit("GBRG");
    }
    if fourcc == 0x4247_4752 {
        Some("RGGB")
    } else if fourcc == 0x5247_4742 {
        Some("BGGR")
    } else if fourcc == 0x4742_5247 {
        Some("GRBG")
    } else if fourcc == 0x4752_4247 {
        Some("GBRG")
    } else {
        None
    }
}

/// Do `c`'s exposure, gain, speed and capture mode start as the camera says?
pub open spec fn starts_exposure<F>(c: ToupControls<F>, p: OpenProbe, model: ModelInfo) -> bool {
    let er = or_else(p.exposure_range, (1u32, 10_000_000u32, 100_000u32));
    let gr = or_else(p.gain_range, (100u16, 100u16, 100u16));
    &&& c.exposure_min == er.0 && c.exposure_max == er.1
    &&& c.exposure_us == camera::clamped(
        or_else(p.exposure, er.2) as int,
        er.0 as int,
        er.1 as int,
    )
    &&& !c.auto_exposure
    &&& c.auto_expo_target == or_else(p.auto_expo_target, 120u16)
    &&& c.gain_min == gr.0 && c.gain_max == gr.1
    &&& c.gain == camera::clamped(or_else(p.gain, gr.2) as int, gr.0 as int, gr.1 as int)
    &&& c.max_speed == model.max_speed as u16
    &&& c.speed == (if or_else(p.speed, 0u16) < c.max_speed {
        or_else(p.speed, 0u16)
    } else {
        c.max_speed
    })
    &&& c.has_soft_trigger == camera::flagged(model.flags, camera::FLAG_TRIGGER_SOFTWARE)
    &&& !c.trigger_mode
}

/// Do `c`'s resolution, region and mosaic fields start as the camera says?
pub open spec fn starts_geometry<F>(c: ToupControls<F>, p: OpenProbe, model: ModelInfo) -> bool {
    let full = full_frame(resolutions_of(p, model), or_else(p.resolution_index, 0u32));
    &&& c.resolutions@ == resolutions_of(p, model)
    &&& c.resolution_index == or_else(p.resolution_index, 0u32)
    &&& c.roi == or_else(p.roi, Roi { x: 0, y: 0, width: full.0, height: full.1 })
    &&& c.roi_edit == c.roi
    &&& c.is_color == (cfa_of(p, model) is Some)
    &&& !c.superpixel
    &&& c.has_st4 == camera::flagged(model.flags, camera::FLAG_ST4)
    &&& c.guide_ms == 500
}

/// The valid range of the cooler target, in tenths of a degree.
pub open spec fn target_range_of(p: OpenProbe) -> (i32, i32) {
    or_else(p.tec_target_range, (-500i32, 300i32))
}

/// The cooler target that the camera has, moved into its range, in tenths of a
/// degree.
pub open spec fn target_of(p: OpenProbe) -> i32 {
    camera::clamped(
        or_else(camera::reading(p.options.values@, camera::OPTION_TECTARGET), 0i32) as int,
        target_range_of(p).0 as int,
        target_range_of(p).1 as int,
    ) as i32
}

/// Do `c`'s cooling fields and readings start as the camera says? `degrees`
/// turns tenths into degrees.
pub open spec fn starts_cooling<F, D: Fn(i32) -> F>(
    c: ToupControls<F>,
    p: OpenProbe,
    model: ModelInfo,
    degrees: D,
) -> bool {
    let values = p.options.values@;
    &&& c.has_tec == camera::flagged(model.flags, camera::FLAG_TEC)
    &&& c.tec_on == (c.has_tec && or_else(camera::reading(values, camera::OPTION_TEC), 0i32) != 0)
    &&& call_ensures(degrees, (target_range_of(p).0,), c.tec_range.0)
    &&& call_ensures(degrees, (target_range_of(p).1,), c.tec_range.1)
    &&& call_ensures(degrees, (target_of(p),), c.tec_target)
    &&& c.temperature == p.temperature
    &&& c.power_mw == p.power_mw
    &&& c.tec_voltage == camera::reading(values, camera::OPTION_TEC_VOLTAGE)
    &&& c.tec_voltage_max == camera::reading(values, camera::OPTION_TEC_VOLTAGE_MAX)
    &&& c.chamber_ht == camera::ht_reading(values, camera::OPTION_CHAMBER_HT)
    &&& c.env_ht == camera::ht_reading(values, camera::OPTION_ENV_HT)
}

/// Do `c`'s tables and accessories start as the camera says?
pub open spec fn starts_accessories<F>(
    c: ToupControls<F>,
    p: OpenProbe,
    model: ModelInfo,
    depth: u8,
) -> bool {
    let full = full_frame(resolutions_of(p, model), or_else(p.resolution_index, 0u32));
    &&& row_views(c.info_rows@) == info_rows_of(p, model, full, depth)
    &&& c.corrections@ == camera::supported_corrections(p.options.values@)
    &&& c.filter_wheel == wheel_of(p, model)
    &&& c.focuser == focuser_of(p, model)
    &&& c.advanced@ == camera::adv_table(camera::adv_order(), model, p.options.values@, depth)
}

fn clamp_u16(v: u16, lo: u16, hi: u16) -> (r: u16)
    requires
        lo <= hi,
    ensures
        r == camera::clamped(v as int, lo as int, hi as int),
        lo <= r <= hi,
{
    if v < lo {
        lo
    } else if v > hi {
        hi
    } else {
        v
    }
}

fn filter_wheel(p: &OpenProbe, model: &ModelInfo) -> (r: Option<FilterWheelState>)
    ensures
        r == wheel_of(*p, *model),
{
    match p.filter_slots {
        Some(n) => {
            if model.has_flag(camera::FLAG_FILTERWHEEL) && n > 0 {
                Some(FilterWheelState { slots: n as u32, position: p.filter_position })
            } else {
                None
            }
        },
        None => None,
    }
}

fn focuser(p: &OpenProbe, model: &ModelInfo) -> (r: Option<FocuserState>)
    ensures
        r == focuser_of(*p, *model),
{
    match p.focuser_position {
        Some(position) => {
            if model.has_flag(camera::FLAG_AUTOFOCUSER) {
                let reported: i32 = value_or(p.focuser_max_step, 100_000);
                let max_step: i32 = if reported < 1 {
                    1
                } else {
                    reported
                };
                Some(FocuserState { position, target: position, max_step, moving: false })
            } else {
                None
            }
        },
        None => None,
    }
}

/// A copy of a list of resolutions.
fn copy_sizes(v: &Vec<(u32, u32)>) -> (r: Vec<(u32, u32)>)
    ensures
        r@ == v@,
{
    let mut out: Vec<(u32, u32)> = Vec::new();
    for i in 0..v.len()
        invariant
            out@ == v@.take(i as int),
    {
        out.push(v[i]);
        assert(out@ =~= v@.take(i as int + 1));
    }
    assert(v@.take(v@.len() as int) =~= v@);
    out
}

/// The initial control values of an opened camera: manual exposure and
/// free-running video to start with, everything else as the camera has it,
/// moved into its range. `degrees` turns tenths of a degree into degrees.
pub fn initial_controls<F, D: Fn(i32) -> F>(
    p: &OpenProbe,
    model: &ModelInfo,
    bit_depth: u8,
    degrees: D,
) -> (r: ToupControls<F>)
    requires
        p.ranges_ordered(),
        bit_depth <= 16,
        forall|t: i32| call_requires(degrees, (t,)),
    ensures
        starts_exposure(r, *p, *model),
        starts_geometry(r, *p, *model),
        starts_cooling(r, *p, *model, degrees),
        starts_accessories(r, *p, *model, bit_depth),
        r.wf(),
{
    let (exposure_min, exposure_max, exposure_def) = value_or(
        p.exposure_range,
        (1u32, 10_000_000u32, 100_000u32),
    );
    let exposure_us: u32 = camera::clamp_u32(
        value_or(p.exposure, exposure_def),
        exposure_min,
        exposure_max,
    );
    let (gain_min, gain_max, gain_def) = value_or(p.gain_range, (100u16, 100u16, 100u16));
    let gain: u16 = clamp_u16(value_or(p.gain, gain_def), gain_min, gain_max);
    let max_speed: u16 = model.max_speed as u16;
    let wanted_speed: u16 = value_or(p.speed, 0);
    let speed: u16 = if wanted_speed < max_speed {
        wanted_speed
    } else {
        max_speed
    };
    let resolutions: Vec<(u32, u32)> = if model.preview_resolutions.len() == 0 {
        copy_sizes(&p.resolutions)
    } else {
        copy_sizes(&model.preview_resolutions)
    };
    let resolution_index: u32 = value_or(p.resolution_index, 0);
    let full: (u32, u32) = if (resolution_index as usize) < resolutions.len() {
        resolutions[resolution_index as usize]
    } else {
        (0, 0)
    };
    let roi: Roi = value_or(p.roi, Roi { x: 0, y: 0, width: full.0, height: full.1 });
    let has_tec: bool = model.has_flag(camera::FLAG_TEC);
    let tec: i32 = value_or(p.options.get(camera::OPTION_TEC), 0);
    let (coldest, warmest) = value_or(p.tec_target_range, (-500i32, 300i32));
    let target: i32 = camera::clamp_i32(
        value_or(p.options.get(camera::OPTION_TECTARGET), 0),
        coldest,
        warmest,
    );
    ToupControls {
        exposure_us,
        exposure_min,
        exposure_max,
        auto_exposure: false,
        auto_expo_target: value_or(p.auto_expo_target, 120),
        gain,
        gain_min,
        gain_max,
        speed,
        max_speed,
        has_soft_trigger: model.has_flag(camera::FLAG_TRIGGER_SOFTWARE),
        trigger_mode: false,
        resolutions,
        resolution_index,
        roi,
        roi_edit: roi,
        is_color: live_cfa(p, model).is_some(),
        superpixel: false,
        has_st4: model.has_flag(camera::FLAG_ST4),
        guide_ms: 500,
        has_tec,
        tec_on: has_tec && tec != 0,
        tec_target: degrees(target),
        tec_range: (degrees(coldest), degrees(warmest)),
        temperature: p.temperature,
        power_mw: p.power_mw,
        tec_voltage: p.options.get(camera::OPTION_TEC_VOLTAGE),
        tec_voltage_max: p.options.get(camera::OPTION_TEC_VOLTAGE_MAX),
        chamber_ht: p.options.get_ht(camera::OPTION_CHAMBER_HT),
        env_ht: p.options.get_ht(camera::OPTION_ENV_HT),
        info_rows: info_rows(p, model, full, bit_depth),
        corrections: camera::probe_corrections(&p.options),
        filter_wheel: filter_wheel(p, model),
        focuser: focuser(p, model),
        advanced: camera::build_advanced(&p.options, model, bit_depth),
    }
}

/// Which telemetry the capture thread of an opened camera polls.
pub open spec fn cfg_of<F>(c: ToupControls<F>, model: ModelInfo) -> TelemetryCfg {
    TelemetryCfg {
        temp: camera::flagged(model.flags, camera::FLAG_GETTEMPERATURE) || c.temperature is Some,
        power: c.power_mw is Some,
        tec_voltage: c.tec_voltage is Some,
        chamber_ht: c.chamber_ht is Some,
        env_ht: c.env_ht is Some,
        roi: true,
        wheel: c.filter_wheel is Some,
        focuser: c.focuser is Some,
    }
}

/// Decides which telemetry the capture thread polls.
pub fn telemetry_cfg<F>(c: &ToupControls<F>, model: &ModelInfo) -> (r: TelemetryCfg)
    ensures
        r == cfg_of(*c, *model),
{
    TelemetryCfg {
        temp: model.has_flag(camera::FLAG_GETTEMPERATURE) || c.temperature.is_some(),
        power: c.power_mw.is_some(),
        tec_voltage: c.tec_voltage.is_some(),
        chamber_ht: c.chamber_ht.is_some(),
        env_ht: c.env_ht.is_some(),
        roi: true,
        wheel: c.filter_wheel.is_some(),
        focuser: c.focuser.is_some(),
    }
}

// ---------------------------------------------------------------------------
// What opening keeps to

/// A sensor streams at its native depth: 8 bits in bytes, up to 16 in words,
/// never more and never fewer than it has. One that cannot say gets 8.
pub proof fn law_depth_is_native(max_bit_depth: Option<u32>, r: (bool, u8))
    requires
        call_ensures(pixel_pipeline, (max_bit_depth,), r),
    ensures
        max_bit_depth is None ==> r == (false, 8u8),
        max_bit_depth matches Some(d) ==> {
            &&& 8 <= d <= 16 ==> r.1 == d
            &&& d < 8 ==> r.1 == 8
            &&& d > 16 ==> r.1 == 16
            &&& r.0 <==> d > 8
        },
{
}

/// The camera's own word on its sensor counts before the model's capability
/// bit, and a mono sensor has no mosaic.
pub proof fn law_mono_sensors_have_no_mosaic(
    p: OpenProbe,
    model: ModelInfo,
    mono: bool,
    cfa: Option<&'static str>,
)
    requires
        call_ensures(is_mono, (&p, &model), mono),
        call_ensures(live_cfa, (&p, &model), cfa),
    ensures
        p.mono matches Some(m) ==> mono == m,
        p.mono is None ==> mono == (model.flags & 0x10 != 0),
        mono ==> cfa is None,
        !mono ==> cfa == p.pattern,
{
}

/// The link is complained about exactly when the camera says that it is slower
/// than the camera, with the camera's name in front.
pub proof fn law_slow_link_is_reported(p: OpenProbe, model: ModelInfo, r: Option<String>)
    requires
        call_ensures(usb2_warning, (&p, &model), r),
    ensures
        r is Some <==> model.flags & 0x100 != 0,
        r matches Some(m) ==> m@.len() > p.display_name@.len() && m@.take(
            p.display_name@.len() as int,
        ) == p.display_name@,
{
    reveal_strlit(": USB3 camera on a USB2 link \u{2014} bandwidth limited");
    if let Some(m) = r {
        assert(m@.take(p.display_name@.len() as int) =~= p.display_name@);
    }
}

/// A format code and the mosaic it names are two spellings of four letters.
pub proof fn law_format_codes_spell_the_mosaic(a: u32, b: u32, r: Option<&'static str>, s: Option<&'static str>)
    requires
        call_ensures(mosaic_of_code, (a,), r),
        call_ensures(mosaic_of_code, (b,), s),
    ensures
        r matches Some(p) ==> p@.len() == 4 && a == p@[0] as int + 256 * (p@[1] as int) + 65536 * (
        p@[2] as int) + 16777216 * (p@[3] as int),
        r is Some && s is Some && r->0@ == s->0@ ==> a == b,
        a == 0x4247_4752 || a == 0x5247_4742 || a == 0x4742_5247 || a == 0x4752_4247 ==> r is Some,
{
    reveal_strlit("RGGB");
    reveal_strlit("BGGR");
    reveal_strlit("GRBG");
    reveal_strlit("GBRG");
    assert(is_mosaic("RGGB"@) && is_mosaic("BGGR"@) && is_mosaic("GRBG"@) && is_mosaic("GBRG"@));
    assert(letters_code("RGGB"@) == 0x4247_4752);
    assert(letters_code("BGGR"@) == 0x5247_4742);
    assert(letters_code("GRBG"@) == 0x4742_5247);
    assert(letters_code("GBRG"@) == 0x4752_4247);
}

/// Controls start as the camera has them, moved into the range that it reports:
/// what lies in range is taken as it is. Capture starts free-running, by hand
/// and without superpixels.
pub proof fn law_controls_start_as_the_camera_is<F, D: Fn(i32) -> F>(
    p: OpenProbe,
    model: ModelInfo,
    depth: u8,
    degrees: D,
    c: ToupControls<F>,
)
    requires
        p.ranges_ordered(),
        depth <= 16,
        forall|t: i32| call_requires(degrees, (t,)),
        call_ensures(initial_controls::<F, D>, (&p, &model, depth, degrees), c),
    ensures
        !c.auto_exposure && !c.trigger_mode && !c.superpixel,
        p.exposure_range matches Some(r) ==> {
            &&& c.exposure_min == r.0 && c.exposure_max == r.1
            &&& p.exposure matches Some(us) ==> (r.0 <= us <= r.1 ==> c.exposure_us == us)
            &&& p.exposure is None && r.0 <= r.2 <= r.1 ==> c.exposure_us == r.2
        },
        c.exposure_min <= c.exposure_us <= c.exposure_max,
        p.auto_expo_target matches Some(t) ==> c.auto_expo_target == t,
        p.gain_range matches Some(r) ==> {
            &&& c.gain_min == r.0 && c.gain_max == r.1
            &&& p.gain matches Some(g) ==> (r.0 <= g <= r.1 ==> c.gain == g)
            &&& p.gain is None && r.0 <= r.2 <= r.1 ==> c.gain == r.2
        },
        model.max_speed <= u16::MAX ==> c.max_speed == model.max_speed,
        p.speed matches Some(s) ==> (s <= c.max_speed ==> c.speed == s),
        c.speed <= c.max_speed,
        c.has_soft_trigger <==> model.flags & 0x8_0000 != 0,
        c.has_st4 <==> model.flags & 0x200 != 0,
        c.has_tec <==> model.flags & 0x80 != 0,
        c.tec_on ==> c.has_tec,
        c.temperature == p.temperature && c.power_mw == p.power_mw,
        c.roi_edit == c.roi,
        p.roi matches Some(roi) ==> c.roi == roi,
        p.resolution_index matches Some(i) ==> c.resolution_index == i,
        c.guide_ms == 500,
{
}

/// The cooler starts with the target that the camera has, inside the range that
/// the camera reports, and is on where the camera says so.
pub proof fn law_cooler_starts_as_the_camera_is<F, D: Fn(i32) -> F>(
    p: OpenProbe,
    model: ModelInfo,
    depth: u8,
    degrees: D,
    c: ToupControls<F>,
    on: Option<i32>,
    target: Option<i32>,
)
    requires
        p.ranges_ordered(),
        depth <= 16,
        forall|t: i32| call_requires(degrees, (t,)),
        call_ensures(initial_controls::<F, D>, (&p, &model, depth, degrees), c),
        call_ensures(Readings::get, (&p.options, 0x08), on),
        call_ensures(Readings::get, (&p.options, 0x0f), target),
    ensures
        c.tec_on <==> model.flags & 0x80 != 0 && on is Some && on->0 != 0,
        p.tec_target_range matches Some(r) ==> {
            &&& call_ensures(degrees, (r.0,), c.tec_range.0)
            &&& call_ensures(degrees, (r.1,), c.tec_range.1)
            &&& target matches Some(t) ==> {
                &&& r.0 <= t <= r.1 ==> call_ensures(degrees, (t,), c.tec_target)
                &&& t < r.0 ==> call_ensures(degrees, (r.0,), c.tec_target)
                &&& t > r.1 ==> call_ensures(degrees, (r.1,), c.tec_target)
            }
        },
        p.tec_target_range is None ==> call_ensures(degrees, (-500i32,), c.tec_range.0)
            && call_ensures(degrees, (300i32,), c.tec_range.1),
{
}

/// The panel starts with the accessories that the camera has and can speak for:
/// a wheel with slots, a focuser with a position. The focuser is to stay where
/// it is.
pub proof fn law_accessories_start_where_they_are<F, D: Fn(i32) -> F>(
    p: OpenProbe,
    model: ModelInfo,
    depth: u8,
    degrees: D,
    c: ToupControls<F>,
)
    requires
        p.ranges_ordered(),
        depth <= 16,
        forall|t: i32| call_requires(degrees, (t,)),
        call_ensures(initial_controls::<F, D>, (&p, &model, depth, degrees), c),
    ensures
        c.filter_wheel is Some <==> model.flags & 0x1000_0000_0000 != 0 && p.filter_slots is Some
            && p.filter_slots->0 > 0,
        c.filter_wheel matches Some(w) ==> w.slots == p.filter_slots->0 && w.position
            == p.filter_position,
        c.focuser is Some <==> model.flags & 0x2_0000_0000_0000 != 0 && p.focuser_position is Some,
        c.focuser matches Some(f) ==> {
            &&& f.position == p.focuser_position->0 && f.target == f.position && !f.moving
            &&& p.focuser_max_step matches Some(n) ==> (n >= 1 ==> f.max_step == n)
            &&& f.max_step >= 1
        },
        model.preview_resolutions@.len() > 0 ==> c.resolutions@ == model.preview_resolutions@,
        model.preview_resolutions@.len() == 0 ==> c.resolutions@ == p.resolutions@,
{
}

/// Telemetry is polled for what the camera has.
pub proof fn law_telemetry_is_polled_for_what_is_there<F>(
    c: ToupControls<F>,
    model: ModelInfo,
    r: TelemetryCfg,
)
    requires
        call_ensures(telemetry_cfg::<F>, (&c, &model), r),
    ensures
        r.temp <==> c.temperature is Some || model.flags & 0x400 != 0,
        r.power <==> c.power_mw is Some,
        r.tec_voltage <==> c.tec_voltage is Some,
        r.chamber_ht <==> c.chamber_ht is Some,
        r.env_ht <==> c.env_ht is Some,
        r.wheel <==> c.filter_wheel is Some,
        r.focuser <==> c.focuser is Some,
        r.roi,
{
}

/// The info panel tells what the camera says of itself, each under its own
/// name, from the model first to the SDK last.
pub proof fn law_info_rows_are_labeled(
    p: OpenProbe,
    model: ModelInfo,
    full: (u32, u32),
    depth: u8,
    r: Vec<(&'static str, String)>,
)
    requires
        call_ensures(info_rows, (&p, &model, full, depth), r),
    ensures
        r@.len() >= 3,
        r@[0].0@ == "Model"@ && r@[0].1@ == model.name@,
        r@.last().0@ == "SDK"@ && r@.last().1@ == p.sdk_version@,
        p.serial matches Some(s) ==> r@[1].0@ == "Serial"@ && r@[1].1@ == s@,
        p.serial is None ==> (p.firmware matches Some(s) ==> r@[1].0@ == "Firmware"@ && r@[1].1@
            == s@),
{
    let v = row_views(r@);
    assert(v.len() == r@.len());
    assert(v[0] == (r@[0].0@, r@[0].1@));
    assert(v.last() == (r@.last().0@, r@.last().1@));
    assert(v[1] == (r@[1].0@, r@[1].1@));
}

/// The log tells how the sensor's pixels are read: mono or in color, how deep,
/// and with which mosaic.
pub proof fn law_pipeline_is_told(
    p: OpenProbe,
    model: ModelInfo,
    bit_depth: u8,
    mono: bool,
    cfa: Option<&'static str>,
    r: String,
)
    requires
        call_ensures(is_mono, (&p, &model), mono),
        call_ensures(live_cfa, (&p, &model), cfa),
        call_ensures(pipeline_note, (&p, &model, bit_depth), r),
    ensures
        mono ==> r@ == p.display_name@ + ": RAW "@ + "mono"@ + " capture, "@ + text::decimal(
            bit_depth as int,
        ) + ("-bit"@ + ""@),
        !mono ==> (cfa matches Some(m) ==> r@ == p.display_name@ + ": RAW "@ + "color (Bayer)"@
            + " capture, "@ + text::decimal(bit_depth as int) + ("-bit"@ + (", "@ + m@
            + " mosaic"@))),
        !mono && cfa is None ==> r@ == p.display_name@ + ": RAW "@ + "color (Bayer)"@
            + " capture, "@ + text::decimal(bit_depth as int) + ("-bit"@
            + " \u{2014} unrecognized CFA, treating as mono"@),
{
}

/// The ranges of a camera are ordered where each that it reports has its ends
/// in order, and the gain has room above its smallest.
pub proof fn law_ranges_are_checked(p: OpenProbe, r: bool)
    requires
        call_ensures(OpenProbe::has_ordered_ranges, (&p,), r),
    ensures
        r <==> (p.exposure_range is None || (p.exposure_range->0).0 <= (p.exposure_range->0).1) && (
        p.gain_range is None || ((p.gain_range->0).0 <= (p.gain_range->0).1 && (
        p.gain_range->0).0 < 65535)) && (p.tec_target_range is None || (
        p.tec_target_range->0).0 <= (p.tec_target_range->0).1),
{
}

/// What the camera does not tell starts at a default, and what lies outside its
/// range starts at the nearer end.
pub proof fn law_controls_start_at_defaults<F, D: Fn(i32) -> F>(
    p: OpenProbe,
    model: ModelInfo,
    depth: u8,
    degrees: D,
    c: ToupControls<F>,
    target: Option<i32>,
    cfa: Option<&'static str>,
)
    requires
        p.ranges_ordered(),
        depth <= 16,
        forall|t: i32| call_requires(degrees, (t,)),
        call_ensures(initial_controls::<F, D>, (&p, &model, depth, degrees), c),
        call_ensures(Readings::get, (&p.options, 0x0f), target),
        call_ensures(live_cfa, (&p, &model), cfa),
    ensures
        p.exposure_range is None ==> c.exposure_min == 1 && c.exposure_max == 10_000_000,
        p.exposure_range is None && p.exposure is None ==> c.exposure_us == 100_000,
        p.exposure matches Some(us) ==> {
            &&& c.exposure_min <= us <= c.exposure_max ==> c.exposure_us == us
            &&& us < c.exposure_min ==> c.exposure_us == c.exposure_min
            &&& us > c.exposure_max ==> c.exposure_us == c.exposure_max
        },
        p.auto_expo_target is None ==> c.auto_expo_target == 120,
        p.gain_range is None ==> c.gain_min == 100 && c.gain_max == 100 && c.gain == 100,
        p.gain matches Some(g) ==> {
            &&& c.gain_min <= g <= c.gain_max ==> c.gain == g
            &&& g < c.gain_min ==> c.gain == c.gain_min
            &&& g > c.gain_max ==> c.gain == c.gain_max
        },
        p.speed is None ==> c.speed == 0,
        p.speed matches Some(s) ==> (s > c.max_speed ==> c.speed == c.max_speed),
        p.resolution_index is None ==> c.resolution_index == 0,
        p.roi is None ==> {
            &&& c.roi.x == 0 && c.roi.y == 0
            &&& c.resolution_index < c.resolutions@.len() ==> c.roi.width
                == c.resolutions@[c.resolution_index as int].0 && c.roi.height
                == c.resolutions@[c.resolution_index as int].1
            &&& c.resolution_index >= c.resolutions@.len() ==> c.roi.width == 0 && c.roi.height == 0
        },
        c.is_color <==> cfa is Some,
        p.focuser_max_step is None ==> (c.focuser matches Some(f) ==> f.max_step == 100_000),
        p.focuser_max_step matches Some(n) ==> (n < 1 ==> (c.focuser matches Some(f) ==> f.max_step
            == 1)),
        p.tec_target_range is None && target is None ==> call_ensures(
            degrees,
            (0i32,),
            c.tec_target,
        ),
        p.tec_target_range is None ==> (target matches Some(t) ==> (-500 <= t <= 300
            ==> call_ensures(degrees, (t,), c.tec_target))),
{
}

/// The readings and the tables start with what the camera gave: the cooler's
/// voltages, the humidities, the corrections and the advanced rows.
pub proof fn law_readings_start_as_read<F, D: Fn(i32) -> F>(
    p: OpenProbe,
    model: ModelInfo,
    depth: u8,
    degrees: D,
    c: ToupControls<F>,
    volts: Option<i32>,
    volts_max: Option<i32>,
    rows: Vec<camera::AdvControl>,
    corrections: Vec<camera::CorrectionState>,
    chamber: Option<i32>,
    outside: Option<i32>,
    inner: (i16, i16),
    outer: (i16, i16),
)
    requires
        p.ranges_ordered(),
        depth <= 16,
        forall|t: i32| call_requires(degrees, (t,)),
        call_ensures(initial_controls::<F, D>, (&p, &model, depth, degrees), c),
        call_ensures(Readings::get, (&p.options, 0x20), volts),
        call_ensures(Readings::get, (&p.options, 0x21), volts_max),
        call_ensures(camera::build_advanced, (&p.options, &model, depth), rows),
        call_ensures(camera::probe_corrections, (&p.options,), corrections),
        call_ensures(Readings::get, (&p.options, 0x4c), chamber),
        call_ensures(Readings::get, (&p.options, 0x4d), outside),
        chamber matches Some(v) ==> call_ensures(camera::unpack_ht, (v,), inner),
        outside matches Some(v) ==> call_ensures(camera::unpack_ht, (v,), outer),
    ensures
        c.tec_voltage == volts,
        c.tec_voltage_max == volts_max,
        c.advanced@ == rows@,
        c.corrections@ == corrections@,
        chamber is None ==> c.chamber_ht is None,
        chamber is Some ==> c.chamber_ht == Some(inner),
        outside is None ==> c.env_ht is None,
        outside is Some ==> c.env_ht == Some(outer),
{
}

proof fn lemma_joined_has(
    a: Seq<(Seq<char>, Seq<char>)>,
    b: Seq<(Seq<char>, Seq<char>)>,
    c: (Seq<char>, Seq<char>),
)
    ensures
        (a + b).contains(c) <==> a.contains(c) || b.contains(c),
{
    let s = a + b;
    if a.contains(c) {
        let i = choose|i: int| 0 <= i < a.len() && a[i] == c;
        assert(s[i] == c);
    }
    if b.contains(c) {
        let i = choose|i: int| 0 <= i < b.len() && b[i] == c;
        assert(s[a.len() + i] == c);
    }
    if s.contains(c) {
        let i = choose|i: int| 0 <= i < s.len() && s[i] == c;
        if i < a.len() {
            assert(a[i] == c);
        } else {
            assert(b[i - a.len()] == c);
        }
    }
}

/// The parts that the info rows are made of, in their order.
spec fn info_part(
    p: OpenProbe,
    model: ModelInfo,
    full: (u32, u32),
    depth: u8,
    k: int,
) -> Seq<(Seq<char>, Seq<char>)> {
    if k == 0 {
        row("Model"@, model.name@)
    } else if k == 1 {
        optional_row("Serial"@, p.serial)
    } else if k == 2 {
        optional_row("Firmware"@, p.firmware)
    } else if k == 3 {
        optional_row("Hardware"@, p.hardware)
    } else if k == 4 {
        optional_row("Produced"@, p.produced)
    } else if k == 5 {
        optional_row("Pixel Size"@, p.pixel_size)
    } else if k == 6 {
        row("Sensor"@, sensor_text(full.0, full.1, depth))
    } else if k == 7 {
        match cfa_of(p, model) {
            Some(c) => row("CFA"@, c@),
            None => Seq::empty(),
        }
    } else {
        row("SDK"@, p.sdk_version@)
    }
}

/// The label of a part.
spec fn info_label(k: int) -> Seq<char> {
    if k == 0 {
        "Model"@
    } else if k == 1 {
        "Serial"@
    } else if k == 2 {
        "Firmware"@
    } else if k == 3 {
        "Hardware"@
    } else if k == 4 {
        "Produced"@
    } else if k == 5 {
        "Pixel Size"@
    } else if k == 6 {
        "Sensor"@
    } else if k == 7 {
        "CFA"@
    } else {
        "SDK"@
    }
}

proof fn lemma_info_labels(j: int, k: int)
    requires
        0 <= j < 9,
        0 <= k < 9,
        j != k,
    ensures
        info_label(j) != info_label(k),
{
    reveal_strlit("Model");
    reveal_strlit("Serial");
    reveal_strlit("Firmware");
    reveal_strlit("Hardware");
    reveal_strlit("Produced");
    reveal_strlit("Pixel Size");
    reveal_strlit("Sensor");
    reveal_strlit("CFA");
    reveal_strlit("SDK");
    let a = info_label(j);
    let b = info_label(k);
    if a == b {
        assert(a.len() == b.len() && a[0] == b[0] && a[2] == b[2]);
    }
}

proof fn lemma_info_contains(
    p: OpenProbe,
    model: ModelInfo,
    full: (u32, u32),
    depth: u8,
    c: (Seq<char>, Seq<char>),
)
    ensures
        info_rows_of(p, model, full, depth).contains(c) <==> exists|k: int|
            0 <= k < 9 && (#[trigger] info_part(p, model, full, depth, k)).contains(c),
{
    let x0 = info_part(p, model, full, depth, 0);
    let x1 = info_part(p, model, full, depth, 1);
    let x2 = info_part(p, model, full, depth, 2);
    let x3 = info_part(p, model, full, depth, 3);
    let x4 = info_part(p, model, full, depth, 4);
    let x5 = info_part(p, model, full, depth, 5);
    let x6 = info_part(p, model, full, depth, 6);
    let x7 = info_part(p, model, full, depth, 7);
    let x8 = info_part(p, model, full, depth, 8);
    assert(info_rows_of(p, model, full, depth) == x0 + x1 + x2 + x3 + x4 + x5 + x6 + x7 + x8);
    lemma_joined_has(x0, x1, c);
    lemma_joined_has(x0 + x1, x2, c);
    lemma_joined_has(x0 + x1 + x2, x3, c);
    lemma_joined_has(x0 + x1 + x2 + x3, x4, c);
    lemma_joined_has(x0 + x1 + x2 + x3 + x4, x5, c);
    lemma_joined_has(x0 + x1 + x2 + x3 + x4 + x5, x6, c);
    lemma_joined_has(x0 + x1 + x2 + x3 + x4 + x5 + x6, x7, c);
    lemma_joined_has(x0 + x1 + x2 + x3 + x4 + x5 + x6 + x7, x8, c);
    assert(info_rows_of(p, model, full, depth).contains(c) <==> x0.contains(c) || x1.contains(c)
        || x2.contains(c) || x3.contains(c) || x4.contains(c) || x5.contains(c) || x6.contains(c)
        || x7.contains(c) || x8.contains(c));
}

/// Is a value shown under a label?
pub open spec fn shows_info(r: Seq<(&'static str, String)>, label: Seq<char>, value: Seq<char>) -> bool {
    exists|i: int| 0 <= i < r.len() && (#[trigger] r[i]).0@ == label && r[i].1@ == value
}

/// Is nothing shown under a label?
pub open spec fn hides_info(r: Seq<(&'static str, String)>, label: Seq<char>) -> bool {
    forall|i: int| 0 <= i < r.len() ==> (#[trigger] r[i]).0@ != label
}

/// What a part holds is shown, and the label of an empty part is not.
proof fn lemma_info_part(
    p: OpenProbe,
    model: ModelInfo,
    full: (u32, u32),
    depth: u8,
    r: Seq<(&'static str, String)>,
    k: int,
)
    requires
        row_views(r) == info_rows_of(p, model, full, depth),
        0 <= k < 9,
    ensures
        info_part(p, model, full, depth, k).len() > 0 ==> shows_info(
            r,
            info_label(k),
            info_part(p, model, full, depth, k)[0].1,
        ),
        info_part(p, model, full, depth, k).len() == 0 ==> hides_info(r, info_label(k)),
{
    let v = row_views(r);
    assert(v.len() == r.len());
    let part = info_part(p, model, full, depth, k);
    if part.len() > 0 {
        let c = part[0];
        assert(part.contains(c));
        lemma_info_contains(p, model, full, depth, c);
        let i = choose|i: int| 0 <= i < v.len() && v[i] == c;
        assert(v[i] == (r[i].0@, r[i].1@));
        assert(r[i].0@ == info_label(k));
    } else {
        assert forall|i: int| 0 <= i < r.len() implies (#[trigger] r[i]).0@ != info_label(k) by {
            assert(v[i] == (r[i].0@, r[i].1@));
            assert(v.contains(v[i]));
            lemma_info_contains(p, model, full, depth, v[i]);
            let j = choose|j: int|
                0 <= j < 9 && (#[trigger] info_part(p, model, full, depth, j)).contains(v[i]);
            let x = info_part(p, model, full, depth, j);
            let m = choose|m: int| 0 <= m < x.len() && x[m] == v[i];
            assert(x[m].0 == info_label(j));
            if j != k {
                lemma_info_labels(j, k);
            }
        }
    }
}

/// The info panel shows what is known of the camera, each fact under its own
/// label, and leaves out what is not known.
pub proof fn law_info_panel_shows_what_is_known(
    p: OpenProbe,
    model: ModelInfo,
    full: (u32, u32),
    depth: u8,
    r: Vec<(&'static str, String)>,
    cfa: Option<&'static str>,
)
    requires
        call_ensures(info_rows, (&p, &model, full, depth), r),
        call_ensures(live_cfa, (&p, &model), cfa),
    ensures
        shows_info(r@, "Model"@, model.name@),
        shows_info(r@, "SDK"@, p.sdk_version@),
        shows_info(
            r@,
            "Sensor"@,
            text::decimal(full.0 as int) + " \u{d7} "@ + text::decimal(full.1 as int) + ", "@
                + text::decimal(depth as int) + "-bit"@,
        ),
        p.serial matches Some(s) ==> shows_info(r@, "Serial"@, s@),
        p.serial is None ==> hides_info(r@, "Serial"@),
        p.firmware matches Some(s) ==> shows_info(r@, "Firmware"@, s@),
        p.firmware is None ==> hides_info(r@, "Firmware"@),
        p.hardware matches Some(s) ==> shows_info(r@, "Hardware"@, s@),
        p.hardware is None ==> hides_info(r@, "Hardware"@),
        p.produced matches Some(s) ==> shows_info(r@, "Produced"@, s@),
        p.produced is None ==> hides_info(r@, "Produced"@),
        p.pixel_size matches Some(s) ==> shows_info(r@, "Pixel Size"@, s@),
        p.pixel_size is None ==> hides_info(r@, "Pixel Size"@),
        cfa matches Some(c) ==> shows_info(r@, "CFA"@, c@),
        cfa is None ==> hides_info(r@, "CFA"@),
{
    lemma_info_part(p, model, full, depth, r@, 0);
    lemma_info_part(p, model, full, depth, r@, 1);
    lemma_info_part(p, model, full, depth, r@, 2);
    lemma_info_part(p, model, full, depth, r@, 3);
    lemma_info_part(p, model, full, depth, r@, 4);
    lemma_info_part(p, model, full, depth, r@, 5);
    lemma_info_part(p, model, full, depth, r@, 6);
    lemma_info_part(p, model, full, depth, r@, 7);
    lemma_info_part(p, model, full, depth, r@, 8);
}

/// The panel of an opened camera shows its info rows at its full frame.
pub proof fn law_controls_show_the_info_rows<F, D: Fn(i32) -> F>(
    p: OpenProbe,
    model: ModelInfo,
    depth: u8,
    degrees: D,
    c: ToupControls<F>,
    rows: Vec<(&'static str, String)>,
    full: (u32, u32),
)
    requires
        p.ranges_ordered(),
        depth <= 16,
        forall|t: i32| call_requires(degrees, (t,)),
        call_ensures(initial_controls::<F, D>, (&p, &model, depth, degrees), c),
        c.resolution_index < c.resolutions@.len(),
        full == c.resolutions@[c.resolution_index as int],
        call_ensures(info_rows, (&p, &model, full, depth), rows),
    ensures
        row_views(c.info_rows@) == row_views(rows@),
{
}

/// The warning about a slow link names the camera and what is slow.
pub proof fn law_slow_link_warning(p: OpenProbe, model: ModelInfo, r: Option<String>)
    requires
        call_ensures(usb2_warning, (&p, &model), r),
    ensures
        r matches Some(m) ==> m@ == p.display_name@
            + ": USB3 camera on a USB2 link \u{2014} bandwidth limited"@,
{
}

} // verus!
