//! SVBony camera controls: how each is shown, and what an edit does.

use crate::text;
use crate::toupcam_camera as camera;
use vstd::prelude::*;
use vstd::string::*;

verus! {

/// The controls that the SDK knows.
#[derive(Clone, Copy, PartialEq, Eq, Structural, Debug)]
pub enum ControlType {
    Gain,
    Exposure,
    Gamma,
    GammaContrast,
    WbR,
    WbG,
    WbB,
    Flip,
    FrameSpeedMode,
    Contrast,
    Sharpness,
    Saturation,
    AutoTargetBrightness,
    BlackLevel,
    CoolerEnable,
    /// In tenths of a degree.
    TargetTemperature,
    /// In tenths of a degree.
    CurrentTemperature,
    CoolerPower,
    BadPixelCorrEnable,
    BadPixelCorrThreshold,
}

/// What the camera says of one control.
#[derive(Clone, PartialEq, Eq, Debug)]
pub struct ControlCaps {
    pub name: String,
    pub control_type: ControlType,
    pub min_value: i64,
    pub max_value: i64,
    pub is_writable: bool,
    pub is_auto_supported: bool,
}

/// The value of one control.
#[derive(Clone, Copy, PartialEq, Eq, Structural, Debug)]
pub struct ControlValue {
    pub control_type: ControlType,
    pub value: i64,
    pub auto: bool,
}

/// How a control is shown.
#[derive(Clone, Copy, PartialEq, Eq, Structural, Debug)]
pub enum ControlShape {
    ReadOnly,
    Toggle,
    /// Logarithmic slider with a unit-aware entry, microseconds.
    Exposure,
    /// Slider with an entry in degrees, stored in tenths.
    Temperature,
    Slider,
}

/// The longest exposure that the panel offers, microseconds.
pub const EXPOSURE_LIMIT_US: i64 = 10_000_000;

/// How a control with these capabilities is shown.
pub open spec fn shape_of(c: ControlCaps) -> ControlShape {
    if !c.is_writable {
        ControlShape::ReadOnly
    } else if c.max_value - c.min_value <= 1 {
        ControlShape::Toggle
    } else if c.control_type == ControlType::Exposure {
        ControlShape::Exposure
    } else if c.control_type == ControlType::TargetTemperature {
        ControlShape::Temperature
    } else {
        ControlShape::Slider
    }
}

/// How a control is shown.
pub fn control_shape(c: &ControlCaps) -> (r: ControlShape)
    ensures
        r == shape_of(*c),
{
    if !c.is_writable {
        ControlShape::ReadOnly
    } else if c.max_value as i128 - c.min_value as i128 <= 1 {
        ControlShape::Toggle
    } else if c.control_type == ControlType::Exposure {
        ControlShape::Exposure
    } else if c.control_type == ControlType::TargetTemperature {
        ControlShape::Temperature
    } else {
        ControlShape::Slider
    }
}

/// The largest value that the panel offers.
pub open spec fn upper_limit(c: ControlCaps) -> i64 {
    if shape_of(c) == ControlShape::Exposure && c.max_value > EXPOSURE_LIMIT_US {
        EXPOSURE_LIMIT_US
    } else {
        c.max_value
    }
}

/// The value that a control takes for an entered one: between the smallest and
/// the largest that the panel offers, whichever of them is the lesser.
pub open spec fn fitted(c: ControlCaps, entered: i64, kept: i64) -> i64 {
    match shape_of(c) {
        ControlShape::ReadOnly => kept,
        ControlShape::Toggle => if entered != 0 {
            1
        } else {
            0
        },
        _ => camera::between(
            entered as int,
            c.min_value as int,
            upper_limit(c) as int,
        ) as i64,
    }
}

/// The value of a control after an edit: automatic mode can only be switched
/// on a slider whose control supports it.
pub open spec fn edited(c: ControlCaps, v: ControlValue, entered: i64, auto: bool) -> ControlValue {
    let slider = shape_of(c) != ControlShape::ReadOnly && shape_of(c) != ControlShape::Toggle;
    ControlValue {
        control_type: v.control_type,
        value: fitted(c, entered, v.value),
        auto: if slider && c.is_auto_supported {
            auto
        } else {
            v.auto
        },
    }
}

/// Edits a control. The result is the value to send, where it changed.
pub fn edit_control(
    c: &ControlCaps,
    v: &mut ControlValue,
    entered: i64,
    auto: bool,
) -> (r: Option<ControlValue>)
    ensures
        *final(v) == edited(*c, *old(v), entered, auto),
        r == (if *final(v) != *old(v) {
            Some(*final(v))
        } else {
            None
        }),
        shape_of(*c) != ControlShape::ReadOnly && shape_of(*c) != ControlShape::Toggle
            && c.min_value <= upper_limit(*c) ==> c.min_value <= final(v).value <= c.max_value,
{
    let shape: ControlShape = control_shape(c);
    let before: ControlValue = *v;
    match shape {
        ControlShape::ReadOnly => {},
        ControlShape::Toggle => {
            v.value = if entered != 0 {
                1
            } else {
                0
            };
        },
        _ => {
            let top: i64 = if shape == ControlShape::Exposure && c.max_value > EXPOSURE_LIMIT_US {
                EXPOSURE_LIMIT_US
            } else {
                c.max_value
            };
            let (lo, hi): (i64, i64) = if c.min_value <= top {
                (c.min_value, top)
            } else {
                (top, c.min_value)
            };
            v.value = if entered < lo {
                lo
            } else if entered > hi {
                hi
            } else {
                entered
            };
            if c.is_auto_supported {
                v.auto = auto;
            }
        },
    }
    if v.value != before.value || v.auto != before.auto {
        Some(*v)
    } else {
        None
    }
}

/// A control value as text, as far as it is exact: seconds and milliseconds
/// are left to be rounded.
#[derive(Clone, PartialEq, Eq, Debug)]
pub enum ControlText {
    Exact(String),
    /// Microseconds, to be shown in seconds with one decimal.
    Seconds(i64),
    /// Microseconds, to be shown in milliseconds with one decimal.
    Milliseconds(i64),
}

/// Formats a control value: temperatures in degrees with one decimal,
/// exposures in a fitting unit, the rest as it is.
pub fn format_control_value(ctrl: ControlType, value: i64) -> (r: ControlText)
    ensures
        match ctrl {
            ControlType::CurrentTemperature | ControlType::TargetTemperature => {
                r matches ControlText::Exact(s) && s@ == text::tenths(value as int) + " \u{b0}C"@
            },
            ControlType::Exposure => if value >= 1_000_000 {
                r == ControlText::Seconds(value)
            } else if value >= 1_000 {
                r == ControlText::Milliseconds(value)
            } else {
                r matches ControlText::Exact(s) && s@ == text::decimal(value as int)
                    + " \u{b5}s"@
            },
            _ => r matches ControlText::Exact(s) && s@ == text::decimal(value as int),
        },
{
    match ctrl {
        ControlType::CurrentTemperature | ControlType::TargetTemperature => {
            let n: String = text::tenths_text(value);
            ControlText::Exact(text::join2(n.as_str(), " \u{b0}C"))
        },
        ControlType::Exposure => {
            if value >= 1_000_000 {
                ControlText::Seconds(value)
            } else if value >= 1_000 {
                ControlText::Milliseconds(value)
            } else {
                let n: String = text::int_text(value as i128);
                ControlText::Exact(text::join2(n.as_str(), " \u{b5}s"))
            }
        },
        _ => ControlText::Exact(text::int_text(value as i128)),
    }
}

/// How many of `n` controls stand in the left of two columns: half of them,
/// the odd one with them.
pub fn left_column(n: usize) -> (r: usize)
    ensures
        r == n - n / 2,
        r <= n,
{
    n - n / 2
}

/// The value of the first control of a type.
pub open spec fn value_of(values: Seq<ControlValue>, t: ControlType) -> Option<i64>
    decreases values.len(),
{
    if values.len() == 0 {
        None
    } else if values[0].control_type == t {
        Some(values[0].value)
    } else {
        value_of(values.skip(1), t)
    }
}

/// The value of the first control of a type.
pub fn find_value(values: &Vec<ControlValue>, t: ControlType) -> (r: Option<i64>)
    ensures
        r == value_of(values@, t),
{
    assert(values@.skip(0) =~= values@);
    let mut i: usize = 0;
    while i < values.len()
        invariant
            i <= values.len(),
            value_of(values@.skip(i as int), t) == value_of(values@, t),
        decreases values.len() - i,
    {
        if values[i].control_type == t {
            return Some(values[i].value);
        }
        assert(values@.skip(i as int).skip(1) =~= values@.skip(i + 1));
        i = i + 1;
    }
    None
}

// ---------------------------------------------------------------------------
// Laws

/// A control that cannot be written is only shown; one with two values is a
/// toggle; an exposure and a target temperature have entries of their own.
pub proof fn law_controls_are_shown_by_what_they_are(c: ControlCaps, r: ControlShape)
    requires
        call_ensures(control_shape, (&c,), r),
    ensures
        r == ControlShape::ReadOnly <==> !c.is_writable,
        c.is_writable ==> (r == ControlShape::Toggle <==> c.max_value - c.min_value <= 1),
        c.is_writable && c.max_value - c.min_value > 1 ==> match c.control_type {
            ControlType::Exposure => r == ControlShape::Exposure,
            ControlType::TargetTemperature => r == ControlShape::Temperature,
            _ => r == ControlShape::Slider,
        },
{
}

/// An entered value is taken where the control has room for it, and is brought
/// to the nearest end of its range where it has not; a toggle is on or off, and
/// a control that is only shown keeps its value. The control stays the same
/// one, and only a change is sent.
pub proof fn law_entered_value_is_taken(
    c: ControlCaps,
    v: &mut ControlValue,
    entered: i64,
    auto: bool,
    r: Option<ControlValue>,
)
    requires
        call_ensures(edit_control, (&c, v, entered, auto), r),
    ensures
        final(v).control_type == old(v).control_type,
        r is Some <==> (final(v).value != old(v).value || final(v).auto != old(v).auto),
        r matches Some(x) ==> x == *final(v),
        !c.is_writable ==> *final(v) == *old(v),
        c.is_writable && c.max_value - c.min_value <= 1 ==> final(v).value == (if entered == 0 {
            0i64
        } else {
            1i64
        }) && final(v).auto == old(v).auto,
        c.is_writable && c.max_value - c.min_value > 1 ==> ({
            let top = if c.control_type == ControlType::Exposure && c.max_value > 10_000_000 {
                10_000_000i64
            } else {
                c.max_value
            };
            &&& c.min_value <= entered <= top ==> final(v).value == entered
            &&& c.min_value <= top && entered < c.min_value ==> final(v).value == c.min_value
            &&& c.min_value <= top && entered > top ==> final(v).value == top
            &&& c.is_auto_supported ==> final(v).auto == auto
            &&& !c.is_auto_supported ==> final(v).auto == old(v).auto
        }),
{
}

/// Temperatures read in degrees with a tenth, short exposures in microseconds,
/// longer ones in milliseconds or seconds, and every other value as it is.
pub proof fn law_values_read_in_their_unit(ctrl: ControlType, value: i64, r: ControlText)
    requires
        call_ensures(format_control_value, (ctrl, value), r),
    ensures
        ctrl == ControlType::CurrentTemperature || ctrl == ControlType::TargetTemperature ==> (
        r matches ControlText::Exact(s) && s@ == text::tenths(value as int) + " \u{b0}C"@),
        ctrl == ControlType::Exposure ==> {
            &&& value < 1000 ==> (r matches ControlText::Exact(s) && s@ == text::decimal(
                value as int,
            ) + " \u{b5}s"@)
            &&& 1000 <= value < 1_000_000 ==> r == ControlText::Milliseconds(value)
            &&& value >= 1_000_000 ==> r == ControlText::Seconds(value)
        },
        ctrl != ControlType::CurrentTemperature && ctrl != ControlType::TargetTemperature && ctrl
            != ControlType::Exposure ==> (r matches ControlText::Exact(s) && s@ == text::decimal(
            value as int,
        )),
{
}

/// The two columns hold all the controls, and the left one holds one more where
/// their number is odd.
pub proof fn law_columns_are_even(n: usize, r: usize)
    requires
        call_ensures(left_column, (n,), r),
    ensures
        n - r <= r <= n,
        r - (n - r) == n % 2,
{
}

/// The value that is looked up is that of the first control of the type, and
/// there is none only where no control is of it.
pub proof fn law_value_is_found_by_type(values: Vec<ControlValue>, t: ControlType, r: Option<i64>)
    requires
        call_ensures(find_value, (&values, t), r),
    ensures
        match r {
            Some(v) => exists|i: int|
                0 <= i < values.len() && (#[trigger] values@[i]).control_type == t
                    && values@[i].value == v && (forall|j: int|
                    0 <= j < i ==> (#[trigger] values@[j]).control_type != t),
            None => forall|j: int|
                0 <= j < values.len() ==> (#[trigger] values@[j]).control_type != t,
        },
{
    lemma_value_of(values@, t);
}

proof fn lemma_value_of(values: Seq<ControlValue>, t: ControlType)
    ensures
        match value_of(values, t) {
            Some(v) => exists|i: int|
                0 <= i < values.len() && (#[trigger] values[i]).control_type == t
                    && values[i].value == v && (forall|j: int|
                    0 <= j < i ==> (#[trigger] values[j]).control_type != t),
            None => forall|j: int|
                0 <= j < values.len() ==> (#[trigger] values[j]).control_type != t,
        },
    decreases values.len(),
{
    if values.len() > 0 {
        if values[0].control_type == t {
            assert(values[0].value == values[0].value);
        } else {
            let rest = values.skip(1);
            lemma_value_of(rest, t);
            match value_of(values, t) {
                Some(v) => {
                    let i = choose|i: int|
                        0 <= i < rest.len() && (#[trigger] rest[i]).control_type == t
                            && rest[i].value == v && (forall|j: int|
                            0 <= j < i ==> (#[trigger] rest[j]).control_type != t);
                    assert(values[i + 1] == rest[i]);
                    assert forall|j: int| 0 <= j < i + 1 implies (#[trigger] values[j]).control_type
                        != t by {
                        if j > 0 {
                            assert(values[j] == rest[j - 1]);
                        }
                    }
                },
                None => {
                    assert forall|j: int| 0 <= j < values.len() implies (
                    #[trigger] values[j]).control_type != t by {
                        if j > 0 {
                            assert(values[j] == rest[j - 1]);
                        }
                    }
                },
            }
        }
    }
}

} // verus!
