//! ToupTek camera source: the curated option set, what opening a camera
//! settles, and the decisions of the capture thread.
//!
//! The SDK's options are a flat numeric space with no runtime metadata, so a
//! curated set is exposed: exposure, gain, speed, cooling, corrections, filter
//! wheel, focuser, and the capability-gated [`build_advanced`] table. All else
//! stays at SDK defaults. Adding a curated option is one entry in that table.
//!
//! Every sensor, mono and color, streams RAW at native bit depth: the SDK's
//! processed output black-subtracts, white-balances, tone-maps and quantizes to
//! 8 bits, which destroys the noise floor and photometric linearity.

use crate::text;
use vstd::prelude::*;

verus! {

/// Key of an SDK option.
#[derive(Clone, Copy, PartialEq, Eq, Structural, Debug)]
pub struct Opt(pub u32);

/// RAW (1), RAW without calibration (-1) or RGB (0) output.
pub const OPTION_RAW: u32 = 0x04;

/// 8-bit (0) or 16-bit (1) samples.
pub const OPTION_BITDEPTH: u32 = 0x06;

pub const OPTION_FAN: u32 = 0x07;

pub const OPTION_TEC: u32 = 0x08;

/// Video (0) or software-triggered (1) capture.
pub const OPTION_TRIGGER: u32 = 0x0b;

/// Cooler target, 0.1 degrees Celsius.
pub const OPTION_TECTARGET: u32 = 0x0f;

pub const OPTION_FRAMERATE: u32 = 0x11;

pub const OPTION_BLACKLEVEL: u32 = 0x15;

pub const OPTION_BINNING: u32 = 0x17;

/// Conversion gain.
pub const OPTION_CG: u32 = 0x19;

/// Flat-field correction.
pub const OPTION_FFC: u32 = 0x1b;

pub const OPTION_DDR_DEPTH: u32 = 0x1c;

/// Dark-field correction.
pub const OPTION_DFC: u32 = 0x1d;

pub const OPTION_TEC_VOLTAGE: u32 = 0x20;

pub const OPTION_TEC_VOLTAGE_MAX: u32 = 0x21;

pub const OPTION_TESTPATTERN: u32 = 0x28;

pub const OPTION_MAX_PRECISE_FRAMERATE: u32 = 0x2c;

pub const OPTION_PRECISE_FRAMERATE: u32 = 0x2d;

pub const OPTION_MIN_PRECISE_FRAMERATE: u32 = 0x32;

pub const OPTION_HEAT_MAX: u32 = 0x36;

pub const OPTION_HEAT: u32 = 0x37;

pub const OPTION_LOW_NOISE: u32 = 0x38;

pub const OPTION_DEFECT_PIXEL: u32 = 0x40;

/// Packed humidity and temperature of the sensor chamber.
pub const OPTION_CHAMBER_HT: u32 = 0x4c;

/// Packed ambient humidity and temperature.
pub const OPTION_ENV_HT: u32 = 0x4d;

pub const OPTION_TEC_VOLTAGE_MAX_RANGE: u32 = 0x54;

pub const OPTION_HIGH_FULLWELL: u32 = 0x55;

pub const OPTION_OVERCLOCK_MAX: u32 = 0x5c;

pub const OPTION_OVERCLOCK: u32 = 0x5d;

pub const OPTION_LOW_POWERCONSUMPTION: u32 = 0x66;

/// Fixed-pattern-noise correction.
pub const OPTION_FPNC: u32 = 0x67;

/// Correlated double sampling.
pub const OPTION_CDS: u32 = 0x6e;

pub const OPTION_ZERO_OFFSET: u32 = 0x70;

pub const OPTION_MECHANICALSHUTTER: u32 = 0x76;

pub const OPTION_BLACKLEVEL_AUTOADJUST: u32 = 0x89;

pub const OPTION_ANTI_BLOOMING: u32 = 0x8b;

pub const OPTION_ANTI_BLOOMING_MAX: u32 = 0x8c;

pub const OPTION_CDS_MAX: u32 = 0x8d;

pub const FLAG_MONO: u64 = 0x0000_0010;

pub const FLAG_TEC: u64 = 0x0000_0080;

pub const FLAG_USB30_OVER_USB20: u64 = 0x0000_0100;

pub const FLAG_ST4: u64 = 0x0000_0200;

pub const FLAG_GETTEMPERATURE: u64 = 0x0000_0400;

pub const FLAG_HIGH_FULLWELL: u64 = 0x0000_0800;

pub const FLAG_FAN: u64 = 0x0001_0000;

pub const FLAG_TRIGGER_SOFTWARE: u64 = 0x0008_0000;

pub const FLAG_BLACKLEVEL: u64 = 0x0040_0000;

pub const FLAG_BUFFER: u64 = 0x0100_0000;

pub const FLAG_DDR: u64 = 0x0200_0000;

pub const FLAG_CG: u64 = 0x0400_0000;

pub const FLAG_CGHDR: u64 = 0x0000_0008_0000_0000;

pub const FLAG_PRECISE_FRAMERATE: u64 = 0x0000_0040_0000_0000;

pub const FLAG_HEAT: u64 = 0x0000_0080_0000_0000;

pub const FLAG_LOW_NOISE: u64 = 0x0000_0100_0000_0000;

pub const FLAG_FILTERWHEEL: u64 = 0x0000_1000_0000_0000;

pub const FLAG_AUTOFOCUSER: u64 = 0x0002_0000_0000_0000;

/// What the SDK says of a camera model.
#[derive(Clone, PartialEq, Eq, Debug)]
pub struct ModelInfo {
    pub name: String,
    /// Capability bits, `FLAG_*`.
    pub flags: u64,
    pub max_speed: u32,
    pub max_fan_speed: u32,
    /// Preview resolutions, `(width, height)`.
    pub preview_resolutions: Vec<(u32, u32)>,
}

/// Do the capability bits hold `flag`?
pub open spec fn flagged(flags: u64, flag: u64) -> bool {
    flags & flag != 0
}

impl ModelInfo {
    /// Does the model have the capability `flag`?
    pub fn has_flag(&self, flag: u64) -> (r: bool)
        ensures
            r == flagged(self.flags, flag),
    {
        (self.flags & flag) != 0
    }
}

/// Option values as read back from a camera: `(key, value)` for each option
/// that could be read.
#[derive(Clone, PartialEq, Eq, Debug)]
pub struct Readings {
    pub values: Vec<(u32, i32)>,
}

/// The value that was read for `key`, if it could be read.
pub open spec fn reading(values: Seq<(u32, i32)>, key: u32) -> Option<i32>
    decreases values.len(),
{
    if values.len() == 0 {
        None
    } else if values[0].0 == key {
        Some(values[0].1)
    } else {
        reading(values.skip(1), key)
    }
}

/// The value that was read for `key` if it is positive.
pub open spec fn positive_reading(values: Seq<(u32, i32)>, key: u32) -> Option<i32> {
    match reading(values, key) {
        Some(v) => if v > 0 {
            Some(v)
        } else {
            None
        },
        None => None,
    }
}

impl Readings {
    /// The value read for `key`, if it could be read.
    pub fn get(&self, key: u32) -> (r: Option<i32>)
        ensures
            r == reading(self.values@, key),
    {
        assert(self.values@.skip(0) =~= self.values@);
        let mut i: usize = 0;
        while i < self.values.len()
            invariant
                i <= self.values.len(),
                reading(self.values@.skip(i as int), key) == reading(self.values@, key),
            decreases self.values.len() - i,
        {
            if self.values[i].0 == key {
                return Some(self.values[i].1);
            }
            assert(self.values@.skip(i as int).skip(1) =~= self.values@.skip(i + 1));
            i = i + 1;
        }
        None
    }

    /// The maximum that a read-only companion option holds; nothing unless it
    /// reads back positive.
    pub fn probed_max(&self, key: u32) -> (r: Option<i32>)
        ensures
            r == positive_reading(self.values@, key),
    {
        match self.get(key) {
            Some(v) => if v > 0 {
                Some(v)
            } else {
                None
            },
            None => None,
        }
    }
}

/// The signed number that the low 16 bits of `v` hold.
pub open spec fn low_half(v: i32) -> int {
    let m = (v as int) % 65536;
    if m >= 32768 {
        m - 65536
    } else {
        m
    }
}

/// The signed number that the high 16 bits of `v` hold.
pub open spec fn high_half(v: i32) -> int {
    (v as int) / 65536
}

/// Splits a packed option value into its two signed halves, `(high, low)`.
pub fn unpack_halves(v: i32) -> (r: (i16, i16))
    ensures
        r.0 == high_half(v),
        r.1 == low_half(v),
{
    let u: u32 = v as u32;
    let high: u16 = (u >> 16) as u16;
    let low: u16 = (u & 0xffff) as u16;
    let h: i16 = high as i16;
    let l: i16 = low as i16;
    assert(h as int == high_half(v) && l as int == low_half(v)) by {
        assert(h == (v >> 16)) by (bit_vector)
            requires
                h == ((((v as u32) >> 16) as u16) as i16),
        ;
        assert((v >> 16) as int == (v as int) / 65536) by (bit_vector);
        assert(0 <= l ==> l as int == (v as int) % 65536) by (bit_vector)
            requires
                l == ((((v as u32) & 0xffff) as u16) as i16),
        ;
        assert(l < 0 ==> l as int + 65536 == (v as int) % 65536) by (bit_vector)
            requires
                l == ((((v as u32) & 0xffff) as u16) as i16),
        ;
    }
    (h, l)
}

/// Unpacks a humidity and temperature option: humidity in 0.1 % (high half),
/// temperature in 0.1 degrees Celsius (low half), both signed.
pub fn unpack_ht(v: i32) -> (r: (i16, i16))
    ensures
        r.0 == high_half(v),
        r.1 == low_half(v),
{
    unpack_halves(v)
}

/// The two halves of a packed value determine it.
pub proof fn law_halves_determine_value(v: i32)
    ensures
        v as int == high_half(v) * 65536 + (if low_half(v) < 0 {
            low_half(v) + 65536
        } else {
            low_half(v)
        }),
        -32768 <= high_half(v) <= 32767,
        -32768 <= low_half(v) <= 32767,
{
}

// ---------------------------------------------------------------------------
// Advanced options

/// The sets of values that a one-of option offers.
#[derive(Clone, Copy, PartialEq, Eq, Structural, Debug)]
pub enum AdvChoices {
    ConversionGain,
    ConversionGainHdr,
    RawModes,
    Binning,
    DdrDepth,
    TestPattern,
    Shutter,
}

/// The values of a set, with the label of each.
pub open spec fn choices(c: AdvChoices) -> Seq<(i32, &'static str)> {
    match c {
        AdvChoices::ConversionGain => seq![(0i32, "LCG"), (1i32, "HCG")],
        AdvChoices::ConversionGainHdr => seq![(0i32, "LCG"), (1i32, "HCG"), (2i32, "HDR")],
        AdvChoices::RawModes => seq![(1i32, "Calibrated"), (-1i32, "Unprocessed")],
        AdvChoices::Binning => seq![
            (1i32, "1\u{d7}1"),
            (0x82i32, "2\u{d7}2"),
            (0x83i32, "3\u{d7}3"),
            (0x84i32, "4\u{d7}4"),
        ],
        AdvChoices::DdrDepth => seq![(0i32, "Auto"), (1i32, "One frame"), (-1i32, "Full capacity")],
        AdvChoices::TestPattern => seq![
            (0i32, "Off"),
            (3i32, "Diagonal stripes"),
            (5i32, "Vertical stripes"),
            (7i32, "Horizontal stripes"),
            (9i32, "Chromatic stripes"),
        ],
        AdvChoices::Shutter => seq![(0i32, "Open"), (1i32, "Closed")],
    }
}

impl AdvChoices {
    /// The values of this set, with the label of each, in display order.
    ///
    /// RAW value 1 applies the SDK's black balance and flat and dark-field
    /// corrections, -1 is the untouched sensor readout. The binning values are
    /// the averaging modes (`0x80 | n`), which keep the bit depth unchanged.
    pub fn entries(self) -> (r: Vec<(i32, &'static str)>)
        ensures
            r@ == choices(self),
    {
        match self {
            AdvChoices::ConversionGain => vec![(0i32, "LCG"), (1i32, "HCG")],
            AdvChoices::ConversionGainHdr => vec![(0i32, "LCG"), (1i32, "HCG"), (2i32, "HDR")],
            AdvChoices::RawModes => vec![(1i32, "Calibrated"), (-1i32, "Unprocessed")],
            AdvChoices::Binning => vec![
                (1i32, "1\u{d7}1"),
                (0x82i32, "2\u{d7}2"),
                (0x83i32, "3\u{d7}3"),
                (0x84i32, "4\u{d7}4"),
            ],
            AdvChoices::DdrDepth => vec![
                (0i32, "Auto"),
                (1i32, "One frame"),
                (-1i32, "Full capacity"),
            ],
            AdvChoices::TestPattern => vec![
                (0i32, "Off"),
                (3i32, "Diagonal stripes"),
                (5i32, "Vertical stripes"),
                (7i32, "Horizontal stripes"),
                (9i32, "Chromatic stripes"),
            ],
            AdvChoices::Shutter => vec![(0i32, "Open"), (1i32, "Closed")],
        }
    }
}

/// Widget shape for an advanced option row.
#[derive(Clone, Copy, PartialEq, Eq, Structural, Debug)]
pub enum AdvKind {
    /// On/off (0/1) checkbox.
    Bool,
    /// Integer slider over an inclusive range.
    Int { min: i32, max: i32 },
    /// One-of combo.
    Enum(AdvChoices),
}

/// An advanced option instantiated for the open camera, holding its current
/// value. Edits send [`ToupCmd::SetOption`] with `opt`.
#[derive(Clone, Copy, PartialEq, Eq, Debug)]
pub struct AdvControl {
    pub label: &'static str,
    pub opt: Opt,
    pub kind: AdvKind,
    pub value: i32,
}

/// A candidate row of the advanced table, before its value is read.
#[derive(Clone, Copy, PartialEq, Eq, Debug)]
pub struct AdvDef {
    pub label: &'static str,
    pub opt: Opt,
    pub kind: AdvKind,
}

/// The candidates of the advanced table.
#[derive(Clone, Copy, PartialEq, Eq, Structural, Debug)]
pub enum AdvOption {
    RawProcessing,
    ConversionGain,
    Binning,
    LowNoise,
    HighFullWell,
    BlackLevel,
    BlackLevelAuto,
    DefectPixel,
    Cds,
    AntiBlooming,
    ZeroOffset,
    Heater,
    Fan,
    TecMaxVoltage,
    DdrBuffering,
    LowPower,
    Overclock,
    MechShutter,
    FrameRate,
    TestPattern,
}

/// The candidates in display order.
pub open spec fn adv_order() -> Seq<AdvOption> {
    seq![
        AdvOption::RawProcessing,
        AdvOption::ConversionGain,
        AdvOption::Binning,
        AdvOption::LowNoise,
        AdvOption::HighFullWell,
        AdvOption::BlackLevel,
        AdvOption::BlackLevelAuto,
        AdvOption::DefectPixel,
        AdvOption::Cds,
        AdvOption::AntiBlooming,
        AdvOption::ZeroOffset,
        AdvOption::Heater,
        AdvOption::Fan,
        AdvOption::TecMaxVoltage,
        AdvOption::DdrBuffering,
        AdvOption::LowPower,
        AdvOption::Overclock,
        AdvOption::MechShutter,
        AdvOption::FrameRate,
        AdvOption::TestPattern,
    ]
}

/// A row that is offered whenever `offered` holds.
pub open spec fn gated(offered: bool, label: &'static str, key: u32, kind: AdvKind) -> Option<
    AdvDef,
> {
    if offered {
        Some(AdvDef { label, opt: Opt(key), kind })
    } else {
        None
    }
}

/// A slider row from 0 to a probed maximum; none without one.
pub open spec fn up_to(max: Option<i32>, label: &'static str, key: u32) -> Option<AdvDef> {
    match max {
        Some(max) => Some(AdvDef { label, opt: Opt(key), kind: AdvKind::Int { min: 0, max } }),
        None => None,
    }
}

/// The row that a candidate makes for a camera with the capabilities of
/// `model`, the option values `values` and the bit depth `depth`; none where
/// the camera does not offer it.
pub open spec fn adv_row(
    o: AdvOption,
    model: ModelInfo,
    values: Seq<(u32, i32)>,
    depth: u8,
) -> Option<AdvDef> {
    let has = |flag: u64| flagged(model.flags, flag);
    match o {
        AdvOption::RawProcessing => gated(
            true,
            "Raw Processing",
            OPTION_RAW,
            AdvKind::Enum(AdvChoices::RawModes),
        ),
        AdvOption::ConversionGain => gated(
            has(FLAG_CG) || has(FLAG_CGHDR),
            "Conversion Gain",
            OPTION_CG,
            AdvKind::Enum(
                if has(FLAG_CGHDR) {
                    AdvChoices::ConversionGainHdr
                } else {
                    AdvChoices::ConversionGain
                },
            ),
        ),
        AdvOption::Binning => gated(
            true,
            "Binning",
            OPTION_BINNING,
            AdvKind::Enum(AdvChoices::Binning),
        ),
        AdvOption::LowNoise => gated(
            has(FLAG_LOW_NOISE),
            "Low Noise Mode",
            OPTION_LOW_NOISE,
            AdvKind::Bool,
        ),
        AdvOption::HighFullWell => gated(
            has(FLAG_HIGH_FULLWELL),
            "High Full-Well",
            OPTION_HIGH_FULLWELL,
            AdvKind::Bool,
        ),
        AdvOption::BlackLevel => gated(
            has(FLAG_BLACKLEVEL),
            "Black Level",
            OPTION_BLACKLEVEL,
            AdvKind::Int { min: 0, max: black_level_max(depth) },
        ),
        AdvOption::BlackLevelAuto => gated(
            has(FLAG_BLACKLEVEL),
            "Black Level Auto",
            OPTION_BLACKLEVEL_AUTOADJUST,
            AdvKind::Bool,
        ),
        AdvOption::DefectPixel => gated(
            true,
            "Defect Pixel Corr",
            OPTION_DEFECT_PIXEL,
            AdvKind::Bool,
        ),
        AdvOption::Cds => up_to(positive_reading(values, OPTION_CDS_MAX), "CDS", OPTION_CDS),
        AdvOption::AntiBlooming => up_to(
            positive_reading(values, OPTION_ANTI_BLOOMING_MAX),
            "Anti-Blooming",
            OPTION_ANTI_BLOOMING,
        ),
        AdvOption::ZeroOffset => gated(true, "Zero Offset", OPTION_ZERO_OFFSET, AdvKind::Bool),
        AdvOption::Heater => if has(FLAG_HEAT) {
            up_to(positive_reading(values, OPTION_HEAT_MAX), "Anti-Dew Heater", OPTION_HEAT)
        } else {
            None
        },
        AdvOption::Fan => gated(
            has(FLAG_FAN) && model.max_fan_speed > 0,
            "Fan Speed",
            OPTION_FAN,
            AdvKind::Int { min: 0, max: model.max_fan_speed as i32 },
        ),
        AdvOption::TecMaxVoltage => match reading(values, OPTION_TEC_VOLTAGE_MAX_RANGE) {
            Some(range) => gated(
                has(FLAG_TEC) && high_half(range) > low_half(range),
                "TEC Max Volt (0.1V)",
                OPTION_TEC_VOLTAGE_MAX,
                AdvKind::Int { min: low_half(range) as i32, max: high_half(range) as i32 },
            ),
            None => None,
        },
        AdvOption::DdrBuffering => gated(
            has(FLAG_DDR) || has(FLAG_BUFFER),
            "DDR Buffering",
            OPTION_DDR_DEPTH,
            AdvKind::Enum(AdvChoices::DdrDepth),
        ),
        AdvOption::LowPower => gated(
            true,
            "Low Power Mode",
            OPTION_LOW_POWERCONSUMPTION,
            AdvKind::Bool,
        ),
        AdvOption::Overclock => up_to(
            positive_reading(values, OPTION_OVERCLOCK_MAX),
            "Overclock",
            OPTION_OVERCLOCK,
        ),
        AdvOption::MechShutter => gated(
            true,
            "Mech Shutter",
            OPTION_MECHANICALSHUTTER,
            AdvKind::Enum(AdvChoices::Shutter),
        ),
        AdvOption::FrameRate => if has(FLAG_PRECISE_FRAMERATE) {
            match positive_reading(values, OPTION_MAX_PRECISE_FRAMERATE) {
                Some(max) => Some(
                    AdvDef {
                        label: "Frame Rate (0.1fps)",
                        opt: Opt(OPTION_PRECISE_FRAMERATE),
                        kind: AdvKind::Int {
                            min: match positive_reading(values, OPTION_MIN_PRECISE_FRAMERATE) {
                                Some(v) => v,
                                None => 1i32,
                            },
                            max,
                        },
                    },
                ),
                None => None,
            }
        } else {
            gated(true, "Frame Rate Limit", OPTION_FRAMERATE, AdvKind::Int { min: 0, max: 63 })
        },
        AdvOption::TestPattern => gated(
            true,
            "Test Pattern",
            OPTION_TESTPATTERN,
            AdvKind::Enum(AdvChoices::TestPattern),
        ),
    }
}

/// The largest black level: 31 at 8 bits, doubling with every further bit.
pub open spec fn black_level_max(depth: u8) -> i32 {
    (31 * vstd::arithmetic::power2::pow2(
        if depth > 8 {
            (depth - 8) as nat
        } else {
            0
        },
    )) as i32
}

/// The row of a candidate, if the camera offers it and its value was read.
pub open spec fn adv_control(
    o: AdvOption,
    model: ModelInfo,
    values: Seq<(u32, i32)>,
    depth: u8,
) -> Option<AdvControl> {
    match adv_row(o, model, values, depth) {
        Some(d) => match reading(values, d.opt.0) {
            Some(value) => Some(
                AdvControl { label: d.label, opt: d.opt, kind: d.kind, value },
            ),
            None => None,
        },
        None => None,
    }
}

/// The advanced table of a camera: the rows of the candidates, in order.
pub open spec fn adv_table(
    order: Seq<AdvOption>,
    model: ModelInfo,
    values: Seq<(u32, i32)>,
    depth: u8,
) -> Seq<AdvControl> {
    order.filter_map(|o: AdvOption| adv_control(o, model, values, depth))
}

fn gate(offered: bool, label: &'static str, key: u32, kind: AdvKind) -> (r: Option<AdvDef>)
    ensures
        r == gated(offered, label, key, kind),
{
    if offered {
        Some(AdvDef { label, opt: Opt(key), kind })
    } else {
        None
    }
}

fn slider_up_to(max: Option<i32>, label: &'static str, key: u32) -> (r: Option<AdvDef>)
    ensures
        r == up_to(max, label, key),
{
    match max {
        Some(max) => Some(AdvDef { label, opt: Opt(key), kind: AdvKind::Int { min: 0, max } }),
        None => None,
    }
}

/// The largest black level at a bit depth.
pub fn max_black_level(depth: u8) -> (r: i32)
    requires
        depth <= 16,
    ensures
        r == black_level_max(depth),
        31 <= r <= 7936,
{
    let s: u8 = if depth > 8 {
        depth - 8
    } else {
        0
    };
    let mut max: i32 = 31;
    let mut i: u8 = 0;
    proof {
        vstd::arithmetic::power2::lemma2_to64();
    }
    while i < s
        invariant
            i <= s <= 8,
            max == 31 * vstd::arithmetic::power2::pow2(i as nat),
            vstd::arithmetic::power2::pow2(i as nat) <= 256,
            vstd::arithmetic::power2::pow2(i as nat) >= 1,
        decreases s - i,
    {
        proof {
            vstd::arithmetic::power2::lemma2_to64();
            vstd::arithmetic::power2::lemma_pow2_unfold((i + 1) as nat);
            assert(vstd::arithmetic::power2::pow2((i + 1) as nat) <= 256) by {
                if i + 1 < 8 {
                    vstd::arithmetic::power2::lemma_pow2_strictly_increases((i + 1) as nat, 8);
                }
            }
        }
        max = max * 2;
        i = i + 1;
    }
    max
}

/// The row that a candidate makes for one camera.
pub fn adv_def(o: AdvOption, model: &ModelInfo, read: &Readings, depth: u8) -> (r: Option<AdvDef>)
    requires
        depth <= 16,
    ensures
        r == adv_row(o, *model, read.values@, depth),
{
    match o {
        AdvOption::RawProcessing => gate(
            true,
            "Raw Processing",
            OPTION_RAW,
            AdvKind::Enum(AdvChoices::RawModes),
        ),
        AdvOption::ConversionGain => {
            let set: AdvChoices = if model.has_flag(FLAG_CGHDR) {
                AdvChoices::ConversionGainHdr
            } else {
                AdvChoices::ConversionGain
            };
            gate(
                model.has_flag(FLAG_CG) || model.has_flag(FLAG_CGHDR),
                "Conversion Gain",
                OPTION_CG,
                AdvKind::Enum(set),
            )
        },
        AdvOption::Binning => gate(
            true,
            "Binning",
            OPTION_BINNING,
            AdvKind::Enum(AdvChoices::Binning),
        ),
        AdvOption::LowNoise => gate(
            model.has_flag(FLAG_LOW_NOISE),
            "Low Noise Mode",
            OPTION_LOW_NOISE,
            AdvKind::Bool,
        ),
        AdvOption::HighFullWell => gate(
            model.has_flag(FLAG_HIGH_FULLWELL),
            "High Full-Well",
            OPTION_HIGH_FULLWELL,
            AdvKind::Bool,
        ),
        AdvOption::BlackLevel => {
            let max: i32 = max_black_level(depth);
            gate(
                model.has_flag(FLAG_BLACKLEVEL),
                "Black Level",
                OPTION_BLACKLEVEL,
                AdvKind::Int { min: 0, max },
            )
        },
        // Compensates optical-black drift on long exposures.
        AdvOption::BlackLevelAuto => gate(
            model.has_flag(FLAG_BLACKLEVEL),
            "Black Level Auto",
            OPTION_BLACKLEVEL_AUTOADJUST,
            AdvKind::Bool,
        ),
        AdvOption::DefectPixel => gate(
            true,
            "Defect Pixel Corr",
            OPTION_DEFECT_PIXEL,
            AdvKind::Bool,
        ),
        // Correlated double sampling and anti-blooming: sensor-level readout
        // tuning; the ranges come from read-only companions.
        AdvOption::Cds => slider_up_to(read.probed_max(OPTION_CDS_MAX), "CDS", OPTION_CDS),
        AdvOption::AntiBlooming => slider_up_to(
            read.probed_max(OPTION_ANTI_BLOOMING_MAX),
            "Anti-Blooming",
            OPTION_ANTI_BLOOMING,
        ),
        AdvOption::ZeroOffset => gate(true, "Zero Offset", OPTION_ZERO_OFFSET, AdvKind::Bool),
        AdvOption::Heater => {
            if model.has_flag(FLAG_HEAT) {
                slider_up_to(read.probed_max(OPTION_HEAT_MAX), "Anti-Dew Heater", OPTION_HEAT)
            } else {
                None
            }
        },
        AdvOption::Fan => gate(
            model.has_flag(FLAG_FAN) && model.max_fan_speed > 0,
            "Fan Speed",
            OPTION_FAN,
            AdvKind::Int { min: 0, max: model.max_fan_speed as i32 },
        ),
        // Caps the cooler's drive (0.1 V units): trades cooling headroom for
        // power and condensation control.
        AdvOption::TecMaxVoltage => match read.get(OPTION_TEC_VOLTAGE_MAX_RANGE) {
            Some(range) => {
                let (max, min) = unpack_halves(range);
                gate(
                    model.has_flag(FLAG_TEC) && max > min,
                    "TEC Max Volt (0.1V)",
                    OPTION_TEC_VOLTAGE_MAX,
                    AdvKind::Int { min: min as i32, max: max as i32 },
                )
            },
            None => None,
        },
        AdvOption::DdrBuffering => gate(
            model.has_flag(FLAG_DDR) || model.has_flag(FLAG_BUFFER),
            "DDR Buffering",
            OPTION_DDR_DEPTH,
            AdvKind::Enum(AdvChoices::DdrDepth),
        ),
        AdvOption::LowPower => gate(
            true,
            "Low Power Mode",
            OPTION_LOW_POWERCONSUMPTION,
            AdvKind::Bool,
        ),
        AdvOption::Overclock => slider_up_to(
            read.probed_max(OPTION_OVERCLOCK_MAX),
            "Overclock",
            OPTION_OVERCLOCK,
        ),
        AdvOption::MechShutter => gate(
            true,
            "Mech Shutter",
            OPTION_MECHANICALSHUTTER,
            AdvKind::Enum(AdvChoices::Shutter),
        ),
        AdvOption::FrameRate => {
            if model.has_flag(FLAG_PRECISE_FRAMERATE) {
                let min: i32 = match read.probed_max(OPTION_MIN_PRECISE_FRAMERATE) {
                    Some(v) => v,
                    None => 1,
                };
                match read.probed_max(OPTION_MAX_PRECISE_FRAMERATE) {
                    Some(max) => Some(
                        AdvDef {
                            label: "Frame Rate (0.1fps)",
                            opt: Opt(OPTION_PRECISE_FRAMERATE),
                            kind: AdvKind::Int { min, max },
                        },
                    ),
                    None => None,
                }
            } else {
                // 0 = unlimited; the SDK caps the limit value at 63 fps.
                gate(true, "Frame Rate Limit", OPTION_FRAMERATE, AdvKind::Int { min: 0, max: 63 })
            }
        },
        AdvOption::TestPattern => gate(
            true,
            "Test Pattern",
            OPTION_TESTPATTERN,
            AdvKind::Enum(AdvChoices::TestPattern),
        ),
    }
}

/// The candidates of the advanced table, in display order.
pub fn adv_options() -> (r: Vec<AdvOption>)
    ensures
        r@ == adv_order(),
{
    vec![
        AdvOption::RawProcessing,
        AdvOption::ConversionGain,
        AdvOption::Binning,
        AdvOption::LowNoise,
        AdvOption::HighFullWell,
        AdvOption::BlackLevel,
        AdvOption::BlackLevelAuto,
        AdvOption::DefectPixel,
        AdvOption::Cds,
        AdvOption::AntiBlooming,
        AdvOption::ZeroOffset,
        AdvOption::Heater,
        AdvOption::Fan,
        AdvOption::TecMaxVoltage,
        AdvOption::DdrBuffering,
        AdvOption::LowPower,
        AdvOption::Overclock,
        AdvOption::MechShutter,
        AdvOption::FrameRate,
        AdvOption::TestPattern,
    ]
}

/// Builds the curated advanced-option list for one camera: each candidate is
/// gated on the model's capability flags, then kept only if its current value
/// could be read back.
pub fn build_advanced(read: &Readings, model: &ModelInfo, depth: u8) -> (r: Vec<AdvControl>)
    requires
        depth <= 16,
    ensures
        r@ == adv_table(adv_order(), *model, read.values@, depth),
{
    let order: Vec<AdvOption> = adv_options();
    let ghost f = |o: AdvOption| adv_control(o, *model, read.values@, depth);
    let mut out: Vec<AdvControl> = Vec::new();
    proof {
        reveal(Seq::filter_map);
        assert(order@.take(0) =~= Seq::<AdvOption>::empty());
    }
    for i in 0..order.len()
        invariant
            depth <= 16,
            f == (|o: AdvOption| adv_control(o, *model, read.values@, depth)),
            out@ == order@.take(i as int).filter_map(f),
    {
        proof {
            reveal(Seq::filter_map);
            assert(order@.take(i as int + 1).drop_last() =~= order@.take(i as int));
            assert(order@.take(i as int + 1).last() == order@[i as int]);
            assert(f(order@[i as int]) == adv_control(
                order@[i as int],
                *model,
                read.values@,
                depth,
            ));
        }
        match adv_def(order[i], model, read, depth) {
            Some(d) => match read.get(d.opt.0) {
                Some(value) => {
                    out.push(AdvControl { label: d.label, opt: d.opt, kind: d.kind, value });
                },
                None => {},
            },
            None => {},
        }
        assert(out@ =~= order@.take(i as int + 1).filter_map(f));
    }
    assert(order@.take(order@.len() as int) =~= order@);
    out
}

/// The rows of a table come from different candidates, so that no option has
/// two rows; each row shows what was read for its option.
pub proof fn law_advanced_rows(model: ModelInfo, values: Seq<(u32, i32)>, depth: u8)
    ensures
        forall|i: int|
            0 <= i < adv_table(adv_order(), model, values, depth).len() ==> reading(
                values,
                (#[trigger] adv_table(adv_order(), model, values, depth)[i]).opt.0,
            ) == Some(adv_table(adv_order(), model, values, depth)[i].value),
        forall|i: int, j: int|
            #![trigger adv_table(adv_order(), model, values, depth)[i],
                adv_table(adv_order(), model, values, depth)[j]]
            0 <= i < j < adv_table(adv_order(), model, values, depth).len() ==> adv_table(
                adv_order(),
                model,
                values,
                depth,
            )[i].opt != adv_table(adv_order(), model, values, depth)[j].opt,
{
    lemma_adv_rows(adv_order().len() as int, model, values, depth);
    assert(adv_order().take(adv_order().len() as int) =~= adv_order());
}

/// Where the option `key` stands among the candidates' options.
spec fn key_rank(key: u32) -> int {
    if key == OPTION_RAW { 0 }
    else if key == OPTION_CG { 1 }
    else if key == OPTION_BINNING { 2 }
    else if key == OPTION_LOW_NOISE { 3 }
    else if key == OPTION_HIGH_FULLWELL { 4 }
    else if key == OPTION_BLACKLEVEL { 5 }
    else if key == OPTION_BLACKLEVEL_AUTOADJUST { 6 }
    else if key == OPTION_DEFECT_PIXEL { 7 }
    else if key == OPTION_CDS { 8 }
    else if key == OPTION_ANTI_BLOOMING { 9 }
    else if key == OPTION_ZERO_OFFSET { 10 }
    else if key == OPTION_HEAT { 11 }
    else if key == OPTION_FAN { 12 }
    else if key == OPTION_TEC_VOLTAGE_MAX { 13 }
    else if key == OPTION_DDR_DEPTH { 14 }
    else if key == OPTION_LOW_POWERCONSUMPTION { 15 }
    else if key == OPTION_OVERCLOCK { 16 }
    else if key == OPTION_MECHANICALSHUTTER { 17 }
    else if key == OPTION_PRECISE_FRAMERATE || key == OPTION_FRAMERATE { 18 }
    else { 19 }
}

proof fn lemma_key_rank(k: int, model: ModelInfo, values: Seq<(u32, i32)>, depth: u8)
    requires
        0 <= k < adv_order().len(),
    ensures
        adv_row(adv_order()[k], model, values, depth) matches Some(d) ==> key_rank(d.opt.0) == k,
{
    if k < 10 {
        assert(k == 0 || k == 1 || k == 2 || k == 3 || k == 4 || k == 5 || k == 6 || k == 7 || k == 8
            || k == 9);
    } else {
        assert(k == 10 || k == 11 || k == 12 || k == 13 || k == 14 || k == 15 || k == 16 || k == 17
            || k == 18 || k == 19);
    }
}

proof fn lemma_adv_rows(n: int, model: ModelInfo, values: Seq<(u32, i32)>, depth: u8)
    requires
        0 <= n <= adv_order().len(),
    ensures
        ({
            let t = adv_table(adv_order().take(n), model, values, depth);
            &&& forall|i: int|
                0 <= i < t.len() ==> reading(values, (#[trigger] t[i]).opt.0) == Some(t[i].value)
                    && 0 <= key_rank(t[i].opt.0) < n
            &&& forall|i: int, j: int|
                #![trigger t[i], t[j]]
                0 <= i < j < t.len() ==> key_rank(t[i].opt.0) < key_rank(t[j].opt.0)
        }),
    decreases n,
{
    reveal(Seq::filter_map);
    let s = adv_order().take(n);
    if n > 0 {
        lemma_adv_rows(n - 1, model, values, depth);
        lemma_key_rank(n - 1, model, values, depth);
        assert(s.drop_last() =~= adv_order().take(n - 1));
        let f = |o: AdvOption| adv_control(o, model, values, depth);
        let before = adv_table(adv_order().take(n - 1), model, values, depth);
        let now = adv_table(s, model, values, depth);
        assert(s.last() == adv_order()[n - 1]);
        match f(s.last()) {
            Some(c) => {
                assert(now =~= before.push(c));
            },
            None => {
                assert(now =~= before);
            },
        }
    }
}

// ---------------------------------------------------------------------------
// Commands

/// ST4 autoguider pulse direction.
#[derive(Clone, Copy, PartialEq, Eq, Structural, Debug)]
pub enum GuideDirection {
    North,
    South,
    East,
    West,
    /// Cancels any pulse in progress.
    Stop,
}

/// On-camera correction pipelines. Support is probed per camera by reading the
/// correction's enable option.
#[derive(Clone, Copy, PartialEq, Eq, Structural, Debug)]
pub enum Correction {
    FlatField,
    DarkField,
    FixedPatternNoise,
}

/// The display name of a correction.
pub open spec fn correction_label(c: Correction) -> &'static str {
    match c {
        Correction::FlatField => "Flat Field",
        Correction::DarkField => "Dark Field",
        Correction::FixedPatternNoise => "Fixed Pattern",
    }
}

/// What the camera needs to see when capturing a correction.
pub open spec fn correction_hint(c: Correction) -> &'static str {
    match c {
        Correction::FlatField => "Point at an evenly illuminated field, then capture",
        Correction::DarkField => "Cover the sensor (cap on), then capture",
        Correction::FixedPatternNoise => "Cover the sensor (cap on), then capture",
    }
}

/// The option that enables or disables a correction.
pub open spec fn correction_opt(c: Correction) -> Opt {
    match c {
        Correction::FlatField => Opt(OPTION_FFC),
        Correction::DarkField => Opt(OPTION_DFC),
        Correction::FixedPatternNoise => Opt(OPTION_FPNC),
    }
}

impl Correction {
    pub fn label(self) -> (r: &'static str)
        ensures
            r == correction_label(self),
    {
        match self {
            Correction::FlatField => "Flat Field",
            Correction::DarkField => "Dark Field",
            Correction::FixedPatternNoise => "Fixed Pattern",
        }
    }

    /// What the camera needs to see when capturing this correction.
    pub fn capture_hint(self) -> (r: &'static str)
        ensures
            r == correction_hint(self),
    {
        match self {
            Correction::FlatField => "Point at an evenly illuminated field, then capture",
            Correction::DarkField => "Cover the sensor (cap on), then capture",
            Correction::FixedPatternNoise => "Cover the sensor (cap on), then capture",
        }
    }

    /// The option that enables or disables this correction.
    pub fn opt(self) -> (r: Opt)
        ensures
            r == correction_opt(self),
    {
        match self {
            Correction::FlatField => Opt(OPTION_FFC),
            Correction::DarkField => Opt(OPTION_DFC),
            Correction::FixedPatternNoise => Opt(OPTION_FPNC),
        }
    }

    /// The file name that an export dialog starts with: the label in lower
    /// case, with `_` for blanks.
    pub fn export_name(self) -> (r: String)
        ensures
            r@ == text::replaced(text::ascii_lowered(correction_label(self)@), ' ', '_') + ".dat"@,
    {
        let lower: String = text::lower_ascii(self.label());
        let stem: String = text::replace_char(lower.as_str(), ' ', '_');
        text::join2(stem.as_str(), ".dat")
    }
}

/// What to do with a correction.
#[derive(Clone, PartialEq, Eq, Debug)]
pub enum CorrectionAction {
    /// One-shot capture of the correction frame (camera must be streaming).
    Capture,
    Enable(bool),
    Import(String),
    Export(String),
}

/// Commands sent from the user interface to the camera capture thread.
#[derive(Clone, PartialEq, Eq, Debug)]
pub enum ToupCmd {
    /// Exposure time, microseconds.
    SetExposure(u32),
    SetAutoExposure(bool),
    /// Auto-exposure target brightness, 16 to 220.
    SetAutoExpoTarget(u16),
    /// Analog gain, percent (100 = unity).
    SetGain(u16),
    /// Frame-speed level, up to the model's maximum.
    SetSpeed(u16),
    /// Any option value (cooler, black level, and the advanced table).
    SetOption(Opt, i32),
    /// `true` = software-trigger mode (frames only on [`ToupCmd::Snap`]),
    /// `false` = free-running video.
    SetTriggerMode(bool),
    /// Fire one software-triggered exposure.
    Snap,
    /// Guide pulse in the given direction for a duration in milliseconds.
    Guide(GuideDirection, u32),
    /// Switch to the preview resolution at this index (restarts the stream).
    SetResolution(u32),
    /// Hardware sensor region `(x, y, width, height)`: all even, at least
    /// 8 by 8. `(0, 0, 0, 0)` restores the full frame.
    SetRoi(u32, u32, u32, u32),
    /// Software 2 by 2 superpixel averaging of the Bayer mosaic.
    SetSuperpixel(bool),
    Correction(Correction, CorrectionAction),
    /// Move the filter wheel to a 0-based slot (shortest direction).
    SetFilterPosition(u32),
    /// Re-home the filter wheel.
    ResetFilterWheel,
    /// Move the focuser to an absolute step position.
    SetFocuserPosition(i32),
    FocuserHalt,
    Stop,
}

/// The SDK calls that carry out commands.
#[derive(Clone, PartialEq, Eq, Debug)]
pub enum SdkCall {
    SetExposure(u32),
    /// Continuous auto exposure, or none.
    SetAutoExposure(bool),
    SetAutoExpoTarget(u16),
    SetGain(u16),
    SetSpeed(u16),
    PutOption(Opt, i32),
    /// Trigger this many frames.
    Trigger(u16),
    Guide(GuideDirection, u32),
    SetRoi(u32, u32, u32, u32),
    CaptureCorrection(Correction),
    ImportCorrection(Correction, String),
    ExportCorrection(Correction, String),
    /// Slot, and whether the wheel takes the shortest direction.
    SetFilterPosition(u32, bool),
    ResetFilterWheel,
    SetFocuserPosition(i32),
    FocuserHalt,
}

/// 1 for `true`, 0 for `false`.
pub open spec fn on_off(on: bool) -> i32 {
    if on {
        1
    } else {
        0
    }
}

fn switch_value(on: bool) -> (r: i32)
    ensures
        r == on_off(on),
{
    if on {
        1
    } else {
        0
    }
}

/// The SDK call for a command; `None` for those that the capture loop handles
/// itself.
pub open spec fn call_for(cmd: ToupCmd) -> Option<SdkCall> {
    match cmd {
        ToupCmd::Stop => None,
        ToupCmd::SetResolution(_) => None,
        ToupCmd::SetSuperpixel(_) => None,
        ToupCmd::SetExposure(us) => Some(SdkCall::SetExposure(us)),
        ToupCmd::SetAutoExposure(on) => Some(SdkCall::SetAutoExposure(on)),
        ToupCmd::SetAutoExpoTarget(t) => Some(SdkCall::SetAutoExpoTarget(t)),
        ToupCmd::SetGain(g) => Some(SdkCall::SetGain(g)),
        ToupCmd::SetSpeed(s) => Some(SdkCall::SetSpeed(s)),
        ToupCmd::SetOption(opt, v) => Some(SdkCall::PutOption(opt, v)),
        ToupCmd::SetTriggerMode(on) => Some(SdkCall::PutOption(Opt(OPTION_TRIGGER), on_off(on))),
        ToupCmd::Snap => Some(SdkCall::Trigger(1)),
        ToupCmd::Guide(dir, ms) => Some(SdkCall::Guide(dir, ms)),
        ToupCmd::SetRoi(x, y, w, h) => Some(SdkCall::SetRoi(x, y, w, h)),
        ToupCmd::Correction(kind, action) => Some(
            match action {
                CorrectionAction::Capture => SdkCall::CaptureCorrection(kind),
                CorrectionAction::Enable(on) => SdkCall::PutOption(
                    correction_opt(kind),
                    on_off(on),
                ),
                CorrectionAction::Import(path) => SdkCall::ImportCorrection(kind, path),
                CorrectionAction::Export(path) => SdkCall::ExportCorrection(kind, path),
            },
        ),
        ToupCmd::SetFilterPosition(p) => Some(SdkCall::SetFilterPosition(p, true)),
        ToupCmd::ResetFilterWheel => Some(SdkCall::ResetFilterWheel),
        ToupCmd::SetFocuserPosition(p) => Some(SdkCall::SetFocuserPosition(p)),
        ToupCmd::FocuserHalt => Some(SdkCall::FocuserHalt),
    }
}

/// The SDK call that carries out a command.
pub fn apply_cmd(cmd: ToupCmd) -> (r: SdkCall)
    requires
        call_for(cmd) is Some,
    ensures
        Some(r) == call_for(cmd),
{
    match cmd {
        ToupCmd::SetExposure(us) => SdkCall::SetExposure(us),
        ToupCmd::SetAutoExposure(on) => SdkCall::SetAutoExposure(on),
        ToupCmd::SetAutoExpoTarget(t) => SdkCall::SetAutoExpoTarget(t),
        ToupCmd::SetGain(g) => SdkCall::SetGain(g),
        ToupCmd::SetSpeed(s) => SdkCall::SetSpeed(s),
        ToupCmd::SetOption(opt, v) => SdkCall::PutOption(opt, v),
        ToupCmd::SetTriggerMode(on) => SdkCall::PutOption(Opt(OPTION_TRIGGER), switch_value(on)),
        ToupCmd::Snap => SdkCall::Trigger(1),
        ToupCmd::Guide(dir, ms) => SdkCall::Guide(dir, ms),
        ToupCmd::SetRoi(x, y, w, h) => SdkCall::SetRoi(x, y, w, h),
        ToupCmd::Correction(kind, action) => match action {
            CorrectionAction::Capture => SdkCall::CaptureCorrection(kind),
            CorrectionAction::Enable(on) => SdkCall::PutOption(kind.opt(), switch_value(on)),
            CorrectionAction::Import(path) => SdkCall::ImportCorrection(kind, path),
            CorrectionAction::Export(path) => SdkCall::ExportCorrection(kind, path),
        },
        ToupCmd::SetFilterPosition(p) => SdkCall::SetFilterPosition(p, true),
        ToupCmd::ResetFilterWheel => SdkCall::ResetFilterWheel,
        ToupCmd::SetFocuserPosition(p) => SdkCall::SetFocuserPosition(p),
        _ => SdkCall::FocuserHalt,
    }
}

/// Enable state of one supported correction.
#[derive(Clone, Copy, PartialEq, Eq, Structural, Debug)]
pub struct CorrectionState {
    pub kind: Correction,
    pub enabled: bool,
}

/// The corrections in display order.
pub open spec fn correction_order() -> Seq<Correction> {
    seq![Correction::FlatField, Correction::DarkField, Correction::FixedPatternNoise]
}

/// The state of a correction, if its enable option could be read.
pub open spec fn correction_state(c: Correction, values: Seq<(u32, i32)>) -> Option<
    CorrectionState,
> {
    match reading(values, correction_opt(c).0) {
        Some(v) => Some(CorrectionState { kind: c, enabled: v > 0 }),
        None => None,
    }
}

/// The corrections that a camera supports, with their enable state.
pub open spec fn supported_corrections(values: Seq<(u32, i32)>) -> Seq<CorrectionState> {
    correction_order().filter_map(|c: Correction| correction_state(c, values))
}

/// Probes which corrections a camera supports, from the enable options that
/// could be read.
pub fn probe_corrections(read: &Readings) -> (r: Vec<CorrectionState>)
    ensures
        r@ == supported_corrections(read.values@),
{
    let order: [Correction; 3] = [
        Correction::FlatField,
        Correction::DarkField,
        Correction::FixedPatternNoise,
    ];
    let ghost f = |c: Correction| correction_state(c, read.values@);
    let mut out: Vec<CorrectionState> = Vec::new();
    proof {
        reveal(Seq::filter_map);
        assert(order@.take(0) =~= Seq::<Correction>::empty());
    }
    for i in 0..3
        invariant
            order@ == correction_order(),
            f == (|c: Correction| correction_state(c, read.values@)),
            out@ == order@.take(i as int).filter_map(f),
    {
        proof {
            reveal(Seq::filter_map);
            assert(order@.take(i as int + 1).drop_last() =~= order@.take(i as int));
            assert(order@.take(i as int + 1).last() == order@[i as int]);
        }
        let kind: Correction = order[i];
        assert(f(kind) == correction_state(kind, read.values@));
        match read.get(kind.opt().0) {
            Some(v) => {
                out.push(CorrectionState { kind, enabled: v > 0 });
            },
            None => {},
        }
        assert(out@ =~= order@.take(i as int + 1).filter_map(f));
    }
    assert(order@.take(3) =~= order@);
    out
}

// ---------------------------------------------------------------------------
// Controls and telemetry

/// State of a filter wheel.
#[derive(Clone, Copy, PartialEq, Eq, Structural, Debug)]
pub struct FilterWheelState {
    pub slots: u32,
    /// Current slot, `None` while the wheel is in motion.
    pub position: Option<u32>,
}

/// State of a focuser.
#[derive(Clone, Copy, PartialEq, Eq, Structural, Debug)]
pub struct FocuserState {
    pub position: i32,
    /// Target position in the panel (sent on "Move").
    pub target: i32,
    pub max_step: i32,
    pub moving: bool,
}

/// A region of the sensor.
#[derive(Clone, Copy, PartialEq, Eq, Structural, Debug)]
pub struct Roi {
    pub x: u32,
    pub y: u32,
    pub width: u32,
    pub height: u32,
}

/// Periodic readings pushed by the capture thread. Fields are `None` when the
/// camera lacks the subsystem or the read failed. Temperatures, humidities and
/// voltages are in tenths.
#[derive(Clone, Copy, PartialEq, Eq, Debug)]
pub struct ToupTelemetry {
    pub temperature: Option<i32>,
    /// Power consumption, milliwatts.
    pub power_mw: Option<i32>,
    /// Current cooler drive voltage.
    pub tec_voltage: Option<i32>,
    /// Sensor-chamber `(humidity, temperature)`.
    pub chamber_ht: Option<(i16, i16)>,
    /// Ambient `(humidity, temperature)`.
    pub env_ht: Option<(i16, i16)>,
    /// Actual exposure time, microseconds: tracks the camera while
    /// auto-exposure runs.
    pub real_exposure_us: Option<u32>,
    /// Sensor region actually applied by the camera.
    pub roi: Option<Roi>,
    /// Filter-wheel slot, `-1` while the wheel is in motion.
    pub filter_position: Option<i32>,
    pub focuser_position: Option<i32>,
    pub focuser_moving: Option<bool>,
}

/// Which telemetry sources the capture thread polls, decided at open.
#[derive(Clone, Copy, PartialEq, Eq, Structural, Debug)]
pub struct TelemetryCfg {
    pub temp: bool,
    pub power: bool,
    pub tec_voltage: bool,
    pub chamber_ht: bool,
    pub env_ht: bool,
    pub roi: bool,
    pub wheel: bool,
    pub focuser: bool,
}

/// One round of readings as they come from the SDK.
#[derive(Clone, PartialEq, Eq, Debug)]
pub struct RawTelemetry {
    pub temperature: Option<i32>,
    pub power_mw: Option<i32>,
    pub options: Readings,
    pub real_exposure_us: Option<u32>,
    pub roi: Option<Roi>,
    /// Slot of the filter wheel, where it could be read; the inner value is
    /// `None` while the wheel is in motion.
    pub filter_position: Option<Option<u32>>,
    pub focuser_position: Option<i32>,
    pub focuser_moving: Option<bool>,
}

/// A reading where it is wanted.
pub open spec fn wanted<T>(want: bool, value: Option<T>) -> Option<T> {
    if want {
        value
    } else {
        None
    }
}

/// A packed humidity and temperature reading, unpacked.
pub open spec fn ht_reading(values: Seq<(u32, i32)>, key: u32) -> Option<(i16, i16)> {
    match reading(values, key) {
        Some(v) => Some((high_half(v) as i16, low_half(v) as i16)),
        None => None,
    }
}

/// What one round of readings reports under a configuration.
pub open spec fn telemetry_of(cfg: TelemetryCfg, raw: RawTelemetry) -> ToupTelemetry {
    ToupTelemetry {
        temperature: wanted(cfg.temp, raw.temperature),
        power_mw: wanted(cfg.power, raw.power_mw),
        tec_voltage: wanted(cfg.tec_voltage, reading(raw.options.values@, OPTION_TEC_VOLTAGE)),
        chamber_ht: wanted(cfg.chamber_ht, ht_reading(raw.options.values@, OPTION_CHAMBER_HT)),
        env_ht: wanted(cfg.env_ht, ht_reading(raw.options.values@, OPTION_ENV_HT)),
        real_exposure_us: raw.real_exposure_us,
        roi: wanted(cfg.roi, raw.roi),
        filter_position: wanted(
            cfg.wheel,
            match raw.filter_position {
                Some(Some(p)) => Some(p as i32),
                Some(None) => Some(-1i32),
                None => None,
            },
        ),
        focuser_position: wanted(cfg.focuser, raw.focuser_position),
        focuser_moving: wanted(cfg.focuser, raw.focuser_moving),
    }
}

impl Readings {
    /// The packed humidity and temperature read for `key`, unpacked.
    pub fn get_ht(&self, key: u32) -> (r: Option<(i16, i16)>)
        ensures
            r == ht_reading(self.values@, key),
    {
        match self.get(key) {
            Some(v) => Some(unpack_ht(v)),
            None => None,
        }
    }
}

/// Turns one round of readings into telemetry.
pub fn poll_telemetry(cfg: TelemetryCfg, raw: &RawTelemetry) -> (r: ToupTelemetry)
    ensures
        r == telemetry_of(cfg, *raw),
{
    let slot: Option<i32> = match raw.filter_position {
        Some(Some(p)) => Some(p as i32),
        Some(None) => Some(-1),
        None => None,
    };
    ToupTelemetry {
        temperature: if cfg.temp { raw.temperature } else { None },
        power_mw: if cfg.power { raw.power_mw } else { None },
        tec_voltage: if cfg.tec_voltage { raw.options.get(OPTION_TEC_VOLTAGE) } else { None },
        chamber_ht: if cfg.chamber_ht { raw.options.get_ht(OPTION_CHAMBER_HT) } else { None },
        env_ht: if cfg.env_ht { raw.options.get_ht(OPTION_ENV_HT) } else { None },
        real_exposure_us: raw.real_exposure_us,
        roi: if cfg.roi { raw.roi } else { None },
        filter_position: if cfg.wheel { slot } else { None },
        focuser_position: if cfg.focuser { raw.focuser_position } else { None },
        focuser_moving: if cfg.focuser { raw.focuser_moving } else { None },
    }
}

/// Mirror of the curated camera controls, populated at open and edited by the
/// controls panel (each edit also makes a [`ToupCmd`]). Readings of
/// temperature, humidity and voltage are in tenths; the cooler target is in
/// degrees, with `F` for floating-point numbers.
#[derive(PartialEq, Eq, Debug)]
pub struct ToupControls<F> {
    pub exposure_us: u32,
    pub exposure_min: u32,
    pub exposure_max: u32,
    pub auto_exposure: bool,
    /// Auto-exposure target brightness.
    pub auto_expo_target: u16,
    pub gain: u16,
    pub gain_min: u16,
    pub gain_max: u16,
    /// Frame-speed level; row hidden when `max_speed` is 0.
    pub speed: u16,
    pub max_speed: u16,
    /// Camera supports software trigger; gates the Capture Mode row.
    pub has_soft_trigger: bool,
    /// `true` = frames only on Snap; `false` = free-running video.
    pub trigger_mode: bool,
    /// Preview resolutions `(width, height)`; picker hidden when only one.
    pub resolutions: Vec<(u32, u32)>,
    pub resolution_index: u32,
    /// Sensor region last reported by the camera.
    pub roi: Roi,
    /// Staging for the region editor (sent on Apply).
    pub roi_edit: Roi,
    /// Color sensor with a recognized Bayer pattern; gates the Superpixel row.
    pub is_color: bool,
    /// Mirror of the capture thread's superpixel-averaging state.
    pub superpixel: bool,
    /// Model has an ST4 autoguider port; gates the Guide group.
    pub has_st4: bool,
    /// ST4 pulse duration, milliseconds.
    pub guide_ms: u32,
    /// Model has a thermoelectric cooler; gates the Cooling group.
    pub has_tec: bool,
    pub tec_on: bool,
    /// Cooler target as the user set it, finer than the tenths that are sent.
    pub tec_target: F,
    /// Valid cooler target range.
    pub tec_range: (F, F),
    /// Latest sensor temperature reading, if the camera reports one.
    pub temperature: Option<i32>,
    /// Latest power draw, milliwatts, if the camera reports it.
    pub power_mw: Option<i32>,
    /// Latest cooler drive voltage, with the configured maximum.
    pub tec_voltage: Option<i32>,
    pub tec_voltage_max: Option<i32>,
    /// Sensor-chamber `(humidity, temperature)`: desiccant health.
    pub chamber_ht: Option<(i16, i16)>,
    /// Ambient `(humidity, temperature)`: dew-point context.
    pub env_ht: Option<(i16, i16)>,
    /// Static device identity (serial, firmware, ...) for the info panel.
    pub info_rows: Vec<(&'static str, String)>,
    /// Corrections this camera supports, with their enable state.
    pub corrections: Vec<CorrectionState>,
    pub filter_wheel: Option<FilterWheelState>,
    pub focuser: Option<FocuserState>,
    /// Capability-gated advanced options this model supports, in display order.
    pub advanced: Vec<AdvControl>,
}

/// The largest gain that the panel offers.
pub open spec fn gain_limit(min: u16, max: u16) -> int {
    if max > min {
        max as int
    } else {
        min + 1
    }
}

impl<F> ToupControls<F> {
    /// Ranges are ordered and values lie inside them; of the cooler target,
    /// which may be fractional, nothing is said.
    pub open spec fn wf(&self) -> bool {
        &&& self.exposure_min <= self.exposure_us <= self.exposure_max
        &&& self.gain_min < u16::MAX
        &&& self.gain_min <= self.gain <= gain_limit(self.gain_min, self.gain_max)
        &&& self.speed <= self.max_speed
        &&& self.filter_wheel matches Some(w) ==> w.slots > 0
        &&& self.focuser matches Some(f) ==> f.max_step >= 1
    }
}

/// `v` moved into the range from `lo` to `hi`.
pub open spec fn clamped(v: int, lo: int, hi: int) -> int {
    if v < lo {
        lo
    } else if v > hi {
        hi
    } else {
        v
    }
}

/// `v` moved between two limits, whichever of them is the lesser.
pub open spec fn between(v: int, a: int, b: int) -> int {
    if a <= b {
        clamped(v, a, b)
    } else {
        clamped(v, b, a)
    }
}

/// `v` moved into the range from `lo` to `hi`.
pub fn clamp_u32(v: u32, lo: u32, hi: u32) -> (r: u32)
    requires
        lo <= hi,
    ensures
        r == clamped(v as int, lo as int, hi as int),
        lo <= r <= hi,
{
    if v < lo {
        lo
    } else if v > hi {
        hi
    } else {
        v
    }
}

/// `v` moved into the range from `lo` to `hi`.
pub fn clamp_i32(v: i32, lo: i32, hi: i32) -> (r: i32)
    requires
        lo <= hi,
    ensures
        r == clamped(v as int, lo as int, hi as int),
        lo <= r <= hi,
{
    if v < lo {
        lo
    } else if v > hi {
        hi
    } else {
        v
    }
}

/// The new reading where there is one, else the old.
pub open spec fn newer<T>(new: Option<T>, kept: Option<T>) -> Option<T> {
    if new is Some {
        new
    } else {
        kept
    }
}

fn newest<T: Copy>(new: Option<T>, kept: Option<T>) -> (r: Option<T>)
    ensures
        r == newer(new, kept),
{
    if new.is_some() {
        new
    } else {
        kept
    }
}

/// The exposure after a round of telemetry: the camera-chosen one, within
/// limits, while auto-exposure runs.
pub open spec fn tracked_exposure<F>(c: ToupControls<F>, t: ToupTelemetry) -> u32 {
    match t.real_exposure_us {
        Some(us) => if c.auto_exposure {
            clamped(us as int, c.exposure_min as int, c.exposure_max as int) as u32
        } else {
            c.exposure_us
        },
        None => c.exposure_us,
    }
}

/// The filter wheel after a round of telemetry.
pub open spec fn tracked_wheel(
    wheel: Option<FilterWheelState>,
    position: Option<i32>,
) -> Option<FilterWheelState> {
    match (wheel, position) {
        (Some(w), Some(p)) => Some(
            FilterWheelState {
                slots: w.slots,
                position: if p >= 0 {
                    Some(p as u32)
                } else {
                    None
                },
            },
        ),
        (w, _) => w,
    }
}

/// The focuser after a round of telemetry.
pub open spec fn tracked_focuser(
    focuser: Option<FocuserState>,
    position: Option<i32>,
    moving: Option<bool>,
) -> Option<FocuserState> {
    match focuser {
        Some(f) => Some(
            FocuserState {
                position: match position {
                    Some(p) => p,
                    None => f.position,
                },
                moving: match moving {
                    Some(m) => m,
                    None => f.moving,
                },
                ..f
            },
        ),
        None => None,
    }
}

fn track_wheel(wheel: Option<FilterWheelState>, position: Option<i32>) -> (r: Option<
    FilterWheelState,
>)
    ensures
        r == tracked_wheel(wheel, position),
{
    match (wheel, position) {
        (Some(w), Some(p)) => {
            let slot: Option<u32> = if p >= 0 {
                Some(p as u32)
            } else {
                None
            };
            Some(FilterWheelState { slots: w.slots, position: slot })
        },
        (w, _) => w,
    }
}

fn track_focuser(
    focuser: Option<FocuserState>,
    position: Option<i32>,
    moving: Option<bool>,
) -> (r: Option<FocuserState>)
    ensures
        r == tracked_focuser(focuser, position, moving),
{
    match focuser {
        Some(f) => {
            let at: i32 = match position {
                Some(p) => p,
                None => f.position,
            };
            let on: bool = match moving {
                Some(m) => m,
                None => f.moving,
            };
            Some(FocuserState { position: at, target: f.target, max_step: f.max_step, moving: on })
        },
        None => None,
    }
}

/// The controls after a round of telemetry.
pub open spec fn with_telemetry<F>(c: ToupControls<F>, t: ToupTelemetry) -> ToupControls<F> {
    ToupControls {
        temperature: newer(t.temperature, c.temperature),
        power_mw: newer(t.power_mw, c.power_mw),
        tec_voltage: newer(t.tec_voltage, c.tec_voltage),
        chamber_ht: newer(t.chamber_ht, c.chamber_ht),
        env_ht: newer(t.env_ht, c.env_ht),
        exposure_us: tracked_exposure(c, t),
        roi: match t.roi {
            Some(roi) => roi,
            None => c.roi,
        },
        filter_wheel: tracked_wheel(c.filter_wheel, t.filter_position),
        focuser: tracked_focuser(c.focuser, t.focuser_position, t.focuser_moving),
        ..c
    }
}

impl<F> ToupControls<F> {
    /// Takes over a round of telemetry.
    pub fn apply_telemetry(&mut self, t: &ToupTelemetry)
        requires
            old(self).wf(),
        ensures
            *final(self) == with_telemetry(*old(self), *t),
            final(self).wf(),
    {
        let exposure_us: u32 = match t.real_exposure_us {
            Some(us) => if self.auto_exposure {
                clamp_u32(us, self.exposure_min, self.exposure_max)
            } else {
                self.exposure_us
            },
            None => self.exposure_us,
        };
        let roi: Roi = match t.roi {
            Some(roi) => roi,
            None => self.roi,
        };
        self.temperature = newest(t.temperature, self.temperature);
        self.power_mw = newest(t.power_mw, self.power_mw);
        self.tec_voltage = newest(t.tec_voltage, self.tec_voltage);
        self.chamber_ht = newest(t.chamber_ht, self.chamber_ht);
        self.env_ht = newest(t.env_ht, self.env_ht);
        self.exposure_us = exposure_us;
        self.roi = roi;
        self.filter_wheel = track_wheel(self.filter_wheel, t.filter_position);
        self.focuser = track_focuser(self.focuser, t.focuser_position, t.focuser_moving);
    }
}

// ---------------------------------------------------------------------------
// What commands do to a camera

/// A camera as its calls see it: what is set, and what was asked of it.
#[verifier::ext_equal]
pub struct CameraModel {
    pub exposure_us: u32,
    pub auto_exposure: bool,
    pub expo_target: u16,
    pub gain: u16,
    pub speed: u16,
    /// Option values by key.
    pub options: Map<u32, i32>,
    pub roi: Roi,
    /// How many frames were triggered.
    pub triggered: int,
    /// The last guide pulse.
    pub pulse: Option<(GuideDirection, u32)>,
    /// The last correction captured, and the files last read and written.
    pub captured: Option<Correction>,
    pub imported: Option<(Correction, Seq<char>)>,
    pub exported: Option<(Correction, Seq<char>)>,
    /// The slot the wheel was last sent to, and whether by the shorter way.
    pub slot: Option<(u32, bool)>,
    pub homings: int,
    /// Where the focuser was last sent.
    pub focus_at: Option<i32>,
    pub halts: int,
}

/// A camera after a call.
pub open spec fn after_call(m: CameraModel, call: SdkCall) -> CameraModel {
    match call {
        SdkCall::SetExposure(us) => CameraModel { exposure_us: us, ..m },
        SdkCall::SetAutoExposure(on) => CameraModel { auto_exposure: on, ..m },
        SdkCall::SetAutoExpoTarget(t) => CameraModel { expo_target: t, ..m },
        SdkCall::SetGain(g) => CameraModel { gain: g, ..m },
        SdkCall::SetSpeed(s) => CameraModel { speed: s, ..m },
        SdkCall::PutOption(o, v) => CameraModel { options: m.options.insert(o.0, v), ..m },
        SdkCall::Trigger(n) => CameraModel { triggered: m.triggered + n, ..m },
        SdkCall::Guide(dir, ms) => CameraModel { pulse: Some((dir, ms)), ..m },
        SdkCall::SetRoi(left, top, width, height) => CameraModel {
            roi: Roi { x: left, y: top, width, height },
            ..m
        },
        SdkCall::CaptureCorrection(k) => CameraModel { captured: Some(k), ..m },
        SdkCall::ImportCorrection(k, path) => CameraModel { imported: Some((k, path@)), ..m },
        SdkCall::ExportCorrection(k, path) => CameraModel { exported: Some((k, path@)), ..m },
        SdkCall::SetFilterPosition(slot, short) => CameraModel { slot: Some((slot, short)), ..m },
        SdkCall::ResetFilterWheel => CameraModel { homings: m.homings + 1, ..m },
        SdkCall::SetFocuserPosition(at) => CameraModel { focus_at: Some(at), ..m },
        SdkCall::FocuserHalt => CameraModel { halts: m.halts + 1, ..m },
    }
}

/// A command for the camera sets what it names to the value it names, and
/// leaves every other setting as it was. Only leaving, a change of resolution
/// and superpixels are no calls.
pub proof fn law_command_sets_what_it_names(cmd: ToupCmd, call: SdkCall, m: CameraModel)
    requires
        call_ensures(apply_cmd, (cmd,), call),
        cmd !is Stop && cmd !is SetResolution && cmd !is SetSuperpixel,
    ensures
        call_requires(apply_cmd, (cmd,)),
        after_call(m, call) == (match cmd {
            ToupCmd::SetExposure(us) => CameraModel { exposure_us: us, ..m },
            ToupCmd::SetAutoExposure(on) => CameraModel { auto_exposure: on, ..m },
            ToupCmd::SetAutoExpoTarget(t) => CameraModel { expo_target: t, ..m },
            ToupCmd::SetGain(g) => CameraModel { gain: g, ..m },
            ToupCmd::SetSpeed(s) => CameraModel { speed: s, ..m },
            ToupCmd::SetOption(o, v) => CameraModel { options: m.options.insert(o.0, v), ..m },
            ToupCmd::SetTriggerMode(true) => CameraModel { options: m.options.insert(0x0b, 1), ..m },
            ToupCmd::SetTriggerMode(false) => CameraModel {
                options: m.options.insert(0x0b, 0),
                ..m
            },
            ToupCmd::Snap => CameraModel { triggered: m.triggered + 1, ..m },
            ToupCmd::Guide(dir, ms) => CameraModel { pulse: Some((dir, ms)), ..m },
            ToupCmd::SetRoi(x, y, w, h) => CameraModel {
                roi: Roi { x, y, width: w, height: h },
                ..m
            },
            ToupCmd::Correction(k, CorrectionAction::Capture) => CameraModel {
                captured: Some(k),
                ..m
            },
            ToupCmd::Correction(k, CorrectionAction::Enable(on)) => CameraModel {
                options: m.options.insert(
                    match k {
                        Correction::FlatField => 0x1bu32,
                        Correction::DarkField => 0x1du32,
                        Correction::FixedPatternNoise => 0x67u32,
                    },
                    if on {
                        1i32
                    } else {
                        0i32
                    },
                ),
                ..m
            },
            ToupCmd::Correction(k, CorrectionAction::Import(path)) => CameraModel {
                imported: Some((k, path@)),
                ..m
            },
            ToupCmd::Correction(k, CorrectionAction::Export(path)) => CameraModel {
                exported: Some((k, path@)),
                ..m
            },
            ToupCmd::SetFilterPosition(slot) => CameraModel { slot: Some((slot, true)), ..m },
            ToupCmd::ResetFilterWheel => CameraModel { homings: m.homings + 1, ..m },
            ToupCmd::SetFocuserPosition(at) => CameraModel { focus_at: Some(at), ..m },
            _ => CameraModel { halts: m.halts + 1, ..m },
        }),
{
}

/// The region of interest that a command names is the one that a reading of
/// the camera gives back, and the one that the panel then shows.
pub proof fn law_region_is_read_back<F>(
    x: u32,
    y: u32,
    w: u32,
    h: u32,
    call: SdkCall,
    m: CameraModel,
    cfg: TelemetryCfg,
    raw: RawTelemetry,
    t: ToupTelemetry,
    c: &mut ToupControls<F>,
)
    requires
        call_ensures(apply_cmd, (ToupCmd::SetRoi(x, y, w, h),), call),
        cfg.roi,
        raw.roi == Some(after_call(m, call).roi),
        call_ensures(poll_telemetry, (cfg, &raw), t),
        old(c).wf(),
        call_ensures(ToupControls::<F>::apply_telemetry, (c, &t), ()),
    ensures
        final(c).roi.x == x && final(c).roi.y == y,
        final(c).roi.width == w && final(c).roi.height == h,
{
}

/// Each reading reaches telemetry under its own name if it is polled, and not
/// at all if it is not.
pub proof fn law_telemetry_is_what_was_read(
    cfg: TelemetryCfg,
    raw: RawTelemetry,
    t: ToupTelemetry,
    volts: Option<i32>,
    chamber: Option<(i16, i16)>,
    ambient: Option<(i16, i16)>,
)
    requires
        call_ensures(poll_telemetry, (cfg, &raw), t),
        call_ensures(Readings::get, (&raw.options, 0x20), volts),
        call_ensures(Readings::get_ht, (&raw.options, 0x4c), chamber),
        call_ensures(Readings::get_ht, (&raw.options, 0x4d), ambient),
    ensures
        cfg.temp ==> t.temperature == raw.temperature,
        cfg.power ==> t.power_mw == raw.power_mw,
        cfg.tec_voltage ==> t.tec_voltage == volts,
        cfg.chamber_ht ==> t.chamber_ht == chamber,
        cfg.env_ht ==> t.env_ht == ambient,
        cfg.roi ==> t.roi == raw.roi,
        cfg.focuser ==> t.focuser_position == raw.focuser_position && t.focuser_moving
            == raw.focuser_moving,
        t.real_exposure_us == raw.real_exposure_us,
        !cfg.temp ==> t.temperature is None,
        !cfg.power ==> t.power_mw is None,
        !cfg.tec_voltage ==> t.tec_voltage is None,
        !cfg.chamber_ht ==> t.chamber_ht is None,
        !cfg.env_ht ==> t.env_ht is None,
        !cfg.roi ==> t.roi is None,
        !cfg.wheel ==> t.filter_position is None,
        !cfg.focuser ==> t.focuser_position is None && t.focuser_moving is None,
        cfg.wheel && raw.filter_position is None ==> t.filter_position is None,
        cfg.wheel && raw.filter_position == Some(None::<u32>) ==> t.filter_position == Some(-1i32),
        cfg.wheel ==> (raw.filter_position matches Some(Some(p)) ==> p <= i32::MAX
            ==> t.filter_position == Some(p as i32)),
{
}

/// What an option was read as is the value of its first entry in the list;
/// options that are not in it were not read.
pub proof fn law_reading_is_the_first_entry(read: Readings, key: u32, r: Option<i32>)
    requires
        call_ensures(Readings::get, (&read, key), r),
    ensures
        match r {
            Some(v) => exists|i: int|
                0 <= i < read.values@.len() && #[trigger] read.values@[i] == (key, v) && forall|
                    j: int,
                |
                    0 <= j < i ==> (#[trigger] read.values@[j]).0 != key,
            None => forall|i: int|
                0 <= i < read.values@.len() ==> (#[trigger] read.values@[i]).0 != key,
        },
{
    lemma_reading(read.values@, key);
}

proof fn lemma_reading(values: Seq<(u32, i32)>, key: u32)
    ensures
        match reading(values, key) {
            Some(v) => exists|i: int|
                0 <= i < values.len() && #[trigger] values[i] == (key, v) && forall|j: int|
                    0 <= j < i ==> (#[trigger] values[j]).0 != key,
            None => forall|i: int| 0 <= i < values.len() ==> (#[trigger] values[i]).0 != key,
        },
    decreases values.len(),
{
    if values.len() > 0 {
        if values[0].0 == key {
            assert(values[0] == (key, values[0].1));
        } else {
            let rest = values.skip(1);
            lemma_reading(rest, key);
            match reading(rest, key) {
                Some(v) => {
                    let i = choose|i: int|
                        0 <= i < rest.len() && #[trigger] rest[i] == (key, v) && forall|j: int|
                            0 <= j < i ==> (#[trigger] rest[j]).0 != key;
                    assert(values[i + 1] == (key, v));
                    assert forall|j: int| 0 <= j < i + 1 implies (#[trigger] values[j]).0
                        != key by {
                        if j > 0 {
                            assert(rest[j - 1] == values[j]);
                        }
                    }
                },
                None => {
                    assert forall|i: int| 0 <= i < values.len() implies (#[trigger] values[i]).0
                        != key by {
                        if i > 0 {
                            assert(rest[i - 1] == values[i]);
                        }
                    }
                },
            }
        }
    }
}

/// A probed maximum is a reading, and a positive one.
pub proof fn law_probed_maximum_is_positive(
    read: Readings,
    key: u32,
    v: Option<i32>,
    r: Option<i32>,
)
    requires
        call_ensures(Readings::get, (&read, key), v),
        call_ensures(Readings::probed_max, (&read, key), r),
    ensures
        r is Some <==> v is Some && v->0 > 0,
        r is Some ==> r == v,
{
}

/// A packed humidity and temperature comes apart into its two halves: the
/// humidity is the high one, the temperature the low one, and packing them
/// again gives the value back.
pub proof fn law_humidity_and_temperature_come_apart(v: i32, r: (i16, i16))
    requires
        call_ensures(unpack_ht, (v,), r),
    ensures
        v == r.0 * 65536 + (if r.1 < 0 {
            r.1 + 65536
        } else {
            r.1 as int
        }),
{
    law_halves_determine_value(v);
}

/// A reading that came in replaces the old one, and one that did not leaves it.
/// What the user set is never touched: only while auto-exposure runs does the
/// exposure follow the camera, within its limits.
pub proof fn law_telemetry_only_updates_readings<F>(c: &mut ToupControls<F>, t: ToupTelemetry)
    requires
        old(c).wf(),
        call_ensures(ToupControls::<F>::apply_telemetry, (c, &t), ()),
    ensures
        final(c).temperature == (if t.temperature is Some { t.temperature } else { old(c).temperature }),
        final(c).power_mw == (if t.power_mw is Some { t.power_mw } else { old(c).power_mw }),
        final(c).tec_voltage == (if t.tec_voltage is Some { t.tec_voltage } else { old(c).tec_voltage }),
        final(c).chamber_ht == (if t.chamber_ht is Some { t.chamber_ht } else { old(c).chamber_ht }),
        final(c).env_ht == (if t.env_ht is Some { t.env_ht } else { old(c).env_ht }),
        t.roi matches Some(roi) ==> final(c).roi == roi,
        t.roi is None ==> final(c).roi == old(c).roi,
        !old(c).auto_exposure || t.real_exposure_us is None ==> final(c).exposure_us == old(
            c,
        ).exposure_us,
        old(c).exposure_min <= final(c).exposure_us <= old(c).exposure_max,
        old(c).auto_exposure ==> (t.real_exposure_us matches Some(us) ==> {
            &&& old(c).exposure_min <= us <= old(c).exposure_max ==> final(c).exposure_us == us
            &&& us < old(c).exposure_min ==> final(c).exposure_us == old(c).exposure_min
            &&& us > old(c).exposure_max ==> final(c).exposure_us == old(c).exposure_max
        }),
        t.filter_position is None ==> final(c).filter_wheel == old(c).filter_wheel,
        final(c).filter_wheel is Some <==> old(c).filter_wheel is Some,
        old(c).filter_wheel matches Some(w) ==> final(c).filter_wheel->0.slots == w.slots,
        old(c).filter_wheel is Some ==> (t.filter_position matches Some(p) ==> if p < 0 {
            final(c).filter_wheel->0.position is None
        } else {
            final(c).filter_wheel->0.position == Some(p as u32)
        }),
        final(c).focuser is Some <==> old(c).focuser is Some,
        old(c).focuser matches Some(f) ==> {
            let g = final(c).focuser->0;
            &&& g.target == f.target && g.max_step == f.max_step
            &&& g.position == (if t.focuser_position is Some { t.focuser_position->0 } else { f.position })
            &&& g.moving == (if t.focuser_moving is Some { t.focuser_moving->0 } else { f.moving })
        },
        final(c).gain == old(c).gain && final(c).speed == old(c).speed && final(c).tec_target
            == old(c).tec_target && final(c).tec_on == old(c).tec_on && final(c).roi_edit == old(
            c,
        ).roi_edit && final(c).advanced == old(c).advanced && final(c).auto_exposure == old(
            c,
        ).auto_exposure && final(c).trigger_mode == old(c).trigger_mode && final(c).superpixel
            == old(c).superpixel && final(c).resolution_index == old(c).resolution_index,
{
}

/// Every advanced row sets the option that it is named after: what it shows is
/// that option's value as the camera has it.
pub proof fn law_advanced_rows_set_their_own_option(
    o: AdvOption,
    model: ModelInfo,
    read: Readings,
    depth: u8,
    r: Option<AdvDef>,
)
    requires
        depth <= 16,
        call_ensures(adv_def, (o, &model, &read, depth), r),
    ensures
        r matches Some(d) ==> match o {
            AdvOption::RawProcessing => d.opt.0 == 0x04 && d.label@ == "Raw Processing"@,
            AdvOption::ConversionGain => d.opt.0 == 0x19 && d.label@ == "Conversion Gain"@,
            AdvOption::Binning => d.opt.0 == 0x17 && d.label@ == "Binning"@,
            AdvOption::LowNoise => d.opt.0 == 0x38 && d.label@ == "Low Noise Mode"@,
            AdvOption::HighFullWell => d.opt.0 == 0x55 && d.label@ == "High Full-Well"@,
            AdvOption::BlackLevel => d.opt.0 == 0x15 && d.label@ == "Black Level"@,
            AdvOption::BlackLevelAuto => d.opt.0 == 0x89 && d.label@ == "Black Level Auto"@,
            AdvOption::DefectPixel => d.opt.0 == 0x40 && d.label@ == "Defect Pixel Corr"@,
            AdvOption::Cds => d.opt.0 == 0x6e && d.label@ == "CDS"@,
            AdvOption::AntiBlooming => d.opt.0 == 0x8b && d.label@ == "Anti-Blooming"@,
            AdvOption::ZeroOffset => d.opt.0 == 0x70 && d.label@ == "Zero Offset"@,
            AdvOption::Heater => d.opt.0 == 0x37 && d.label@ == "Anti-Dew Heater"@,
            AdvOption::Fan => d.opt.0 == 0x07 && d.label@ == "Fan Speed"@,
            AdvOption::TecMaxVoltage => d.opt.0 == 0x21 && d.label@ == "TEC Max Volt (0.1V)"@,
            AdvOption::DdrBuffering => d.opt.0 == 0x1c && d.label@ == "DDR Buffering"@,
            AdvOption::LowPower => d.opt.0 == 0x66 && d.label@ == "Low Power Mode"@,
            AdvOption::Overclock => d.opt.0 == 0x5d && d.label@ == "Overclock"@,
            AdvOption::MechShutter => d.opt.0 == 0x76 && d.label@ == "Mech Shutter"@,
            AdvOption::FrameRate => if d.opt.0 == 0x2d {
                d.label@ == "Frame Rate (0.1fps)"@
            } else {
                d.opt.0 == 0x11 && d.label@ == "Frame Rate Limit"@
            },
            AdvOption::TestPattern => d.opt.0 == 0x28 && d.label@ == "Test Pattern"@,
        },
{
}

/// An advanced row is offered exactly to the cameras that have what it sets:
/// by their capability bits, and by the maxima that they report.
pub proof fn law_advanced_rows_follow_the_camera(
    o: AdvOption,
    model: ModelInfo,
    read: Readings,
    depth: u8,
    r: Option<AdvDef>,
    cds: Option<i32>,
    blooming: Option<i32>,
    heat: Option<i32>,
    clock: Option<i32>,
    rate: Option<i32>,
    volts: Option<i32>,
)
    requires
        depth <= 16,
        call_ensures(adv_def, (o, &model, &read, depth), r),
        call_ensures(Readings::probed_max, (&read, 0x8d), cds),
        call_ensures(Readings::probed_max, (&read, 0x8c), blooming),
        call_ensures(Readings::probed_max, (&read, 0x36), heat),
        call_ensures(Readings::probed_max, (&read, 0x5c), clock),
        call_ensures(Readings::probed_max, (&read, 0x2c), rate),
        call_ensures(Readings::get, (&read, 0x54), volts),
    ensures
        r is Some <==> match o {
            AdvOption::ConversionGain => model.flags & 0x0400_0000 != 0 || model.flags
                & 0x8_0000_0000 != 0,
            AdvOption::LowNoise => model.flags & 0x100_0000_0000 != 0,
            AdvOption::HighFullWell => model.flags & 0x800 != 0,
            AdvOption::BlackLevel => model.flags & 0x40_0000 != 0,
            AdvOption::BlackLevelAuto => model.flags & 0x40_0000 != 0,
            AdvOption::Cds => cds is Some,
            AdvOption::AntiBlooming => blooming is Some,
            AdvOption::Heater => model.flags & 0x80_0000_0000 != 0 && heat is Some,
            AdvOption::Fan => model.flags & 0x1_0000 != 0 && model.max_fan_speed > 0,
            AdvOption::TecMaxVoltage => model.flags & 0x80 != 0 && volts is Some && high_half(
                volts->0,
            ) > low_half(volts->0),
            AdvOption::DdrBuffering => model.flags & 0x200_0000 != 0 || model.flags & 0x100_0000
                != 0,
            AdvOption::Overclock => clock is Some,
            AdvOption::FrameRate => model.flags & 0x40_0000_0000 == 0 || rate is Some,
            _ => true,
        },
        r matches Some(d) ==> match o {
            AdvOption::Cds => d.kind == (AdvKind::Int { min: 0, max: cds->0 }),
            AdvOption::AntiBlooming => d.kind == (AdvKind::Int { min: 0, max: blooming->0 }),
            AdvOption::Heater => d.kind == (AdvKind::Int { min: 0, max: heat->0 }),
            AdvOption::Overclock => d.kind == (AdvKind::Int { min: 0, max: clock->0 }),
            AdvOption::TecMaxVoltage => d.kind matches AdvKind::Int { min, max } && min < max
                && volts->0 == max * 65536 + (if min < 0 {
                min + 65536
            } else {
                min as int
            }),
            AdvOption::Fan => d.kind == (AdvKind::Int { min: 0, max: model.max_fan_speed as i32 }),
            AdvOption::BlackLevel => d.kind matches AdvKind::Int { min, max } && min == 0,
            AdvOption::FrameRate => d.kind matches AdvKind::Int { min, max } && if model.flags
                & 0x40_0000_0000 != 0 {
                d.opt.0 == 0x2d && max == rate->0 && min >= 1
            } else {
                d.opt.0 == 0x11 && min == 0 && max == 63
            },
            AdvOption::ConversionGain => d.kind == AdvKind::Enum(
                if model.flags & 0x8_0000_0000 != 0 {
                    AdvChoices::ConversionGainHdr
                } else {
                    AdvChoices::ConversionGain
                },
            ),
            AdvOption::RawProcessing => d.kind == AdvKind::Enum(AdvChoices::RawModes),
            AdvOption::Binning => d.kind == AdvKind::Enum(AdvChoices::Binning),
            AdvOption::DdrBuffering => d.kind == AdvKind::Enum(AdvChoices::DdrDepth),
            AdvOption::MechShutter => d.kind == AdvKind::Enum(AdvChoices::Shutter),
            AdvOption::TestPattern => d.kind == AdvKind::Enum(AdvChoices::TestPattern),
            _ => d.kind == AdvKind::Bool,
        },
{
    if let Some(v) = volts {
        law_halves_determine_value(v);
    }
}

/// The precise frame rate starts at the minimum that the camera reports, or at
/// a tenth of a frame a second.
pub proof fn law_precise_rate_starts_at_its_minimum(
    model: ModelInfo,
    read: Readings,
    depth: u8,
    r: Option<AdvDef>,
    low: Option<i32>,
)
    requires
        depth <= 16,
        call_ensures(adv_def, (AdvOption::FrameRate, &model, &read, depth), r),
        call_ensures(Readings::probed_max, (&read, 0x32), low),
        model.flags & 0x40_0000_0000 != 0,
    ensures
        r matches Some(d) ==> (d.kind matches AdvKind::Int { min, max } && min == (if low is Some {
            low->0
        } else {
            1
        })),
{
}

/// The largest black level is 31 at 8 bits or fewer, and doubles with every bit
/// above.
pub proof fn law_black_level_doubles(depth: u8, a: i32, b: i32)
    requires
        depth < 16,
        call_ensures(max_black_level, (depth,), a),
        call_ensures(max_black_level, ((depth + 1) as u8,), b),
    ensures
        depth <= 8 ==> a == 31,
        depth >= 8 ==> b == 2 * a,
{
    vstd::arithmetic::power2::lemma2_to64();
    if depth >= 8 {
        vstd::arithmetic::power2::lemma_pow2_unfold((depth + 1 - 8) as nat);
        if depth > 8 {
            vstd::arithmetic::power2::lemma_pow2_strictly_increases((depth - 8) as nat, 8);
        }
    }
}

/// Binning averages squares of the size it shows: `n` by `n` is the value with
/// `n` in its low four bits, and from 2 by 2 on the averaging bit. Every other
/// choice has values of its own.
pub proof fn law_choices_are_told_apart(c: AdvChoices, r: Vec<(i32, &'static str)>, i: int, j: int)
    requires
        call_ensures(AdvChoices::entries, (c,), r),
        0 <= i < j < r@.len(),
    ensures
        r@[i].0 != r@[j].0,
        c == AdvChoices::Binning ==> r@.len() == 4 && r@[i].0 % 16 == i + 1 && r@[j].0 % 16 == j + 1
            && r@[j].0 == 128 + j + 1 && r@[0].0 == 1,
        c == AdvChoices::RawModes ==> r@[0].0 == 1 && r@[1].0 == -1,
        c == AdvChoices::Shutter ==> r@[0].0 == 0 && r@[1].0 == 1,
        c == AdvChoices::ConversionGain ==> r@[0].0 == 0 && r@[1].0 == 1,
        c == AdvChoices::ConversionGainHdr ==> r@[0].0 == 0 && r@[1].0 == 1 && r@[2].0 == 2,
        c == AdvChoices::DdrDepth ==> r@[0].0 == 0 && r@[1].0 == 1 && r@[2].0 == -1,
{
    if c == AdvChoices::Binning {
        assert(j == 1 || j == 2 || j == 3);
    }
    if c == AdvChoices::TestPattern {
        assert(j == 1 || j == 2 || j == 3 || j == 4);
    }
}

/// A correction is switched by its own option, and is on where that reads back
/// positive. Only corrections whose option could be read are offered, each
/// once.
pub proof fn law_corrections_follow_their_option(
    read: Readings,
    r: Vec<CorrectionState>,
    i: int,
    flat: Option<i32>,
    dark: Option<i32>,
    pattern: Option<i32>,
)
    requires
        call_ensures(probe_corrections, (&read,), r),
        call_ensures(Readings::get, (&read, 0x1b), flat),
        call_ensures(Readings::get, (&read, 0x1d), dark),
        call_ensures(Readings::get, (&read, 0x67), pattern),
    ensures
        r@.len() == (if flat is Some { 1int } else { 0 }) + (if dark is Some { 1int } else { 0 }) + (
        if pattern is Some { 1int } else { 0 }),
        0 <= i < r@.len() ==> match r@[i].kind {
            Correction::FlatField => flat is Some && r@[i].enabled == (flat->0 > 0),
            Correction::DarkField => dark is Some && r@[i].enabled == (dark->0 > 0),
            Correction::FixedPatternNoise => pattern is Some && r@[i].enabled == (pattern->0 > 0),
        },
        forall|k: int, l: int|
            #![trigger r@[k], r@[l]]
            0 <= k < l < r@.len() ==> r@[k].kind != r@[l].kind,
{
    reveal(Seq::filter_map);
    let values = read.values@;
    let f = |c: Correction| correction_state(c, values);
    let s = correction_order();
    let a = s.drop_last();
    let b = a.drop_last();
    assert(b.drop_last() =~= Seq::<Correction>::empty());
    assert(b.drop_last().filter_map(f) =~= Seq::<CorrectionState>::empty());
    assert(b.last() == Correction::FlatField && a.last() == Correction::DarkField && s.last()
        == Correction::FixedPatternNoise);
    let x = b.filter_map(f);
    let y = a.filter_map(f);
    let z = s.filter_map(f);
    assert(x =~= (if flat is Some {
        seq![CorrectionState { kind: Correction::FlatField, enabled: flat->0 > 0 }]
    } else {
        Seq::empty()
    }));
    assert(y =~= (if dark is Some {
        x.push(CorrectionState { kind: Correction::DarkField, enabled: dark->0 > 0 })
    } else {
        x
    }));
    assert(z =~= (if pattern is Some {
        y.push(CorrectionState { kind: Correction::FixedPatternNoise, enabled: pattern->0 > 0 })
    } else {
        y
    }));
}

/// Flat fields are captured of light, the other corrections in the dark; each
/// goes by a name and an option of its own.
pub proof fn law_corrections_are_told_apart(
    c: Correction,
    label: &'static str,
    hint: &'static str,
    opt: Opt,
)
    requires
        call_ensures(Correction::label, (c,), label),
        call_ensures(Correction::capture_hint, (c,), hint),
        call_ensures(Correction::opt, (c,), opt),
    ensures
        c == Correction::FlatField ==> label@ == "Flat Field"@ && opt.0 == 0x1b && hint@
            == "Point at an evenly illuminated field, then capture"@,
        c == Correction::DarkField ==> label@ == "Dark Field"@ && opt.0 == 0x1d && hint@
            == "Cover the sensor (cap on), then capture"@,
        c == Correction::FixedPatternNoise ==> label@ == "Fixed Pattern"@ && opt.0 == 0x67 && hint@
            == "Cover the sensor (cap on), then capture"@,
{
}

/// A capability is one of the model's bits.
pub proof fn law_capabilities_are_bits(model: ModelInfo, flag: u64, r: bool)
    requires
        call_ensures(ModelInfo::has_flag, (&model, flag), r),
    ensures
        r <==> model.flags & flag != 0,
        model.flags == 0 ==> !r,
        flag != 0 && model.flags == 0xffff_ffff_ffff_ffff ==> r,
{
    let f = model.flags;
    assert(f == 0 ==> f & flag == 0) by (bit_vector);
    assert(flag != 0 && f == 0xffff_ffff_ffff_ffff ==> f & flag != 0) by (bit_vector);
}

/// A packed value is its high half times 65536 and its low half.
pub proof fn law_halves_come_apart(v: i32, r: (i16, i16))
    requires
        call_ensures(unpack_halves, (v,), r),
    ensures
        v == r.0 * 65536 + (if r.1 < 0 {
            r.1 + 65536
        } else {
            r.1 as int
        }),
{
    law_halves_determine_value(v);
}

/// A value in the range is kept, one outside comes to the nearer end.
pub proof fn law_clamping_keeps_what_is_in_range(
    a: u32,
    lo: u32,
    hi: u32,
    b: i32,
    least: i32,
    most: i32,
    x: u32,
    y: i32,
)
    requires
        lo <= hi,
        least <= most,
        call_ensures(clamp_u32, (a, lo, hi), x),
        call_ensures(clamp_i32, (b, least, most), y),
    ensures
        lo <= x <= hi && least <= y <= most,
        lo <= a <= hi ==> x == a,
        a < lo ==> x == lo,
        a > hi ==> x == hi,
        least <= b <= most ==> y == b,
        b < least ==> y == least,
        b > most ==> y == most,
{
}

/// A correction is exported under its own name.
pub proof fn law_exports_are_named_after_the_correction(c: Correction, r: String)
    requires
        call_ensures(Correction::export_name, (c,), r),
    ensures
        c == Correction::FlatField ==> r@ == "flat_field.dat"@,
        c == Correction::DarkField ==> r@ == "dark_field.dat"@,
        c == Correction::FixedPatternNoise ==> r@ == "fixed_pattern.dat"@,
{
    reveal_strlit("Flat Field");
    reveal_strlit("Dark Field");
    reveal_strlit("Fixed Pattern");
    reveal_strlit(".dat");
    reveal_strlit("flat_field.dat");
    reveal_strlit("dark_field.dat");
    reveal_strlit("fixed_pattern.dat");
    if c == Correction::FlatField {
        assert(r@ =~= "flat_field.dat"@);
    } else if c == Correction::DarkField {
        assert(r@ =~= "dark_field.dat"@);
    } else {
        assert(r@ =~= "fixed_pattern.dat"@);
    }
}

/// The place of a candidate in the advanced table.
spec fn adv_place(o: AdvOption) -> int {
    match o {
        AdvOption::RawProcessing => 0,
        AdvOption::ConversionGain => 1,
        AdvOption::Binning => 2,
        AdvOption::LowNoise => 3,
        AdvOption::HighFullWell => 4,
        AdvOption::BlackLevel => 5,
        AdvOption::BlackLevelAuto => 6,
        AdvOption::DefectPixel => 7,
        AdvOption::Cds => 8,
        AdvOption::AntiBlooming => 9,
        AdvOption::ZeroOffset => 10,
        AdvOption::Heater => 11,
        AdvOption::Fan => 12,
        AdvOption::TecMaxVoltage => 13,
        AdvOption::DdrBuffering => 14,
        AdvOption::LowPower => 15,
        AdvOption::Overclock => 16,
        AdvOption::MechShutter => 17,
        AdvOption::FrameRate => 18,
        AdvOption::TestPattern => 19,
    }
}

proof fn lemma_picked_rows(
    s: Seq<AdvOption>,
    f: spec_fn(AdvOption) -> Option<AdvControl>,
    x: AdvControl,
)
    ensures
        s.filter_map(f).contains(x) <==> exists|i: int|
            0 <= i < s.len() && f(#[trigger] s[i]) == Some(x),
    decreases s.len(),
{
    reveal(Seq::filter_map);
    if s.len() > 0 {
        let w = s.drop_last();
        lemma_picked_rows(w, f, x);
        let got = s.filter_map(f);
        let head = w.filter_map(f);
        if got.contains(x) {
            let k = choose|k: int| 0 <= k < got.len() && got[k] == x;
            if k < head.len() {
                assert(head[k] == x);
                assert(head.contains(x));
                let i = choose|i: int| 0 <= i < w.len() && f(#[trigger] w[i]) == Some(x);
                assert(s[i] == w[i]);
            } else {
                assert(f(s[s.len() - 1]) == Some(x));
            }
        }
        if exists|i: int| 0 <= i < s.len() && f(#[trigger] s[i]) == Some(x) {
            let i = choose|i: int| 0 <= i < s.len() && f(#[trigger] s[i]) == Some(x);
            if i < w.len() {
                assert(w[i] == s[i]);
                let k = choose|k: int| 0 <= k < head.len() && head[k] == x;
                assert(got[k] == x);
            } else {
                assert(got[head.len() as int] == x);
            }
        }
    }
}

/// The advanced table has a row for every candidate that the camera offers and
/// whose value could be read, with that value, and no other rows.
pub proof fn law_advanced_table_shows_what_was_read(
    read: Readings,
    model: ModelInfo,
    depth: u8,
    r: Vec<AdvControl>,
    order: Vec<AdvOption>,
    o: AdvOption,
    def: Option<AdvDef>,
    key: u32,
    value: Option<i32>,
    k: int,
    shown: Option<i32>,
)
    requires
        depth <= 16,
        call_ensures(build_advanced, (&read, &model, depth), r),
        call_ensures(adv_options, (), order),
        call_ensures(adv_def, (o, &model, &read, depth), def),
        def matches Some(d) ==> key == d.opt.0,
        call_ensures(Readings::get, (&read, key), value),
        0 <= k < r.len() ==> call_ensures(Readings::get, (&read, r@[k].opt.0), shown),
    ensures
        order@.contains(o),
        order.len() == 20,
        def is Some && value is Some ==> exists|i: int|
            0 <= i < r.len() && (#[trigger] r@[i]).opt == def->0.opt && r@[i].label@
                == def->0.label@ && r@[i].kind == def->0.kind && r@[i].value == value->0,
        0 <= k < r.len() ==> shown == Some(r@[k].value),
{
    let f = |o: AdvOption| adv_control(o, model, read.values@, depth);
    let s = adv_order();
    assert(s[adv_place(o)] == o);
    assert(r@ == s.filter_map(f));
    if def is Some && value is Some {
        let d = def->0;
        let x = AdvControl { label: d.label, opt: d.opt, kind: d.kind, value: value->0 };
        assert(f(s[adv_place(o)]) == Some(x));
        lemma_picked_rows(s, f, x);
        let i = choose|i: int| 0 <= i < r@.len() && r@[i] == x;
        assert(r@[i].opt == d.opt);
    }
    if 0 <= k < r.len() {
        let x = r@[k];
        assert(r@.contains(x));
        lemma_picked_rows(s, f, x);
        let i = choose|i: int| 0 <= i < s.len() && f(#[trigger] s[i]) == Some(x);
        assert(adv_control(s[i], model, read.values@, depth) == Some(x));
    }
}

/// Each value of a choice is labeled by what it does; a binning is labeled by
/// its factor, both ways.
pub proof fn law_choices_are_labeled(c: AdvChoices, r: Vec<(i32, &'static str)>, i: int)
    requires
        call_ensures(AdvChoices::entries, (c,), r),
        0 <= i < r@.len(),
    ensures
        match c {
            AdvChoices::ConversionGain => r@.len() == 2,
            AdvChoices::ConversionGainHdr => r@.len() == 3,
            AdvChoices::RawModes => r@.len() == 2,
            AdvChoices::Binning => r@.len() == 4,
            AdvChoices::DdrDepth => r@.len() == 3,
            AdvChoices::TestPattern => r@.len() == 5,
            AdvChoices::Shutter => r@.len() == 2,
        },
        c == AdvChoices::Binning ==> r@[i].1@ == text::decimal(i + 1) + seq!['\u{d7}']
            + text::decimal(i + 1),
        c == AdvChoices::ConversionGain || c == AdvChoices::ConversionGainHdr ==> {
            &&& r@[i].0 == 0 ==> r@[i].1@ == "LCG"@
            &&& r@[i].0 == 1 ==> r@[i].1@ == "HCG"@
            &&& r@[i].0 == 2 ==> r@[i].1@ == "HDR"@
        },
        c == AdvChoices::RawModes ==> {
            &&& r@[i].0 == 1 ==> r@[i].1@ == "Calibrated"@
            &&& r@[i].0 == -1 ==> r@[i].1@ == "Unprocessed"@
        },
        c == AdvChoices::DdrDepth ==> {
            &&& r@[i].0 == 0 ==> r@[i].1@ == "Auto"@
            &&& r@[i].0 == 1 ==> r@[i].1@ == "One frame"@
            &&& r@[i].0 == -1 ==> r@[i].1@ == "Full capacity"@
        },
        c == AdvChoices::TestPattern ==> {
            &&& r@[i].0 == (if i == 0 {
                0
            } else {
                2 * i + 1
            })
            &&& r@[i].0 == 0 ==> r@[i].1@ == "Off"@
            &&& r@[i].0 == 3 ==> r@[i].1@ == "Diagonal stripes"@
            &&& r@[i].0 == 5 ==> r@[i].1@ == "Vertical stripes"@
            &&& r@[i].0 == 7 ==> r@[i].1@ == "Horizontal stripes"@
            &&& r@[i].0 == 9 ==> r@[i].1@ == "Chromatic stripes"@
        },
        c == AdvChoices::Shutter ==> {
            &&& r@[i].0 == 0 ==> r@[i].1@ == "Open"@
            &&& r@[i].0 == 1 ==> r@[i].1@ == "Closed"@
        },
{
    if c == AdvChoices::Binning {
        reveal_strlit("1\u{d7}1");
        reveal_strlit("2\u{d7}2");
        reveal_strlit("3\u{d7}3");
        reveal_strlit("4\u{d7}4");
        assert(text::decimal(i + 1) =~= seq![text::digit(i + 1)]);
        assert(i == 0 || i == 1 || i == 2 || i == 3);
        assert(r@[i].1@ =~= text::decimal(i + 1) + seq!['\u{d7}'] + text::decimal(i + 1));
    }
}

} // verus!
