//! The GigE Vision controls panel: which features are shown, how, and what an
//! edit sends to the camera.

use crate::sources;
use crate::text;
use vstd::prelude::*;
use vstd::string::*;

verus! {

/// What sort of feature a control is.
#[derive(PartialEq, Eq, Debug)]
pub enum GevKind {
    Float,
    ReadOnly,
    Integer,
    IpV4,
    MacAddr,
    /// One of these symbols; the value is an index into them.
    Enumeration(Vec<String>),
    Boolean,
    Command,
}

/// A feature of the camera, with `F` for floating-point numbers.
#[derive(PartialEq, Eq, Debug)]
pub struct GevControl<F> {
    pub name: String,
    pub display: String,
    pub category: String,
    pub unit: String,
    pub kind: GevKind,
    pub value: i64,
    pub min: i64,
    pub max: i64,
    pub fvalue: F,
    pub writable: bool,
    /// Changing it stops and restarts the stream. Such a feature reads as
    /// read-only while acquiring.
    pub needs_restart: bool,
    /// The camera packs addresses with their first byte lowest.
    pub ip_swapped: bool,
}

/// Commands to the camera.
#[derive(PartialEq, Eq, Debug)]
pub enum GevCmd<F> {
    SetFloat(String, F),
    SetInt(String, i64),
    SetEnum(String, String),
    SetBool(String, bool),
    Execute(String),
    Pause,
    Resume,
}

/// How a control is shown.
#[derive(Clone, Copy, PartialEq, Eq, Structural, Debug)]
pub enum GevShape {
    FloatSlider,
    FloatText,
    IntegerSlider,
    IntegerText,
    IpEditor,
    IpText,
    MacText,
    EnumCombo,
    EnumText,
    Checkbox,
    BoolText,
    Button,
}

/// Can a control be edited? One that needs a restart can: it is applied by
/// stopping and restarting the stream.
pub open spec fn editable<F>(c: GevControl<F>) -> bool {
    c.writable || c.needs_restart
}

/// How a control is shown.
pub open spec fn shape_of<F>(c: GevControl<F>) -> GevShape {
    match c.kind {
        GevKind::Float => if editable(c) {
            GevShape::FloatSlider
        } else {
            GevShape::FloatText
        },
        GevKind::ReadOnly => GevShape::FloatText,
        GevKind::Integer => if editable(c) {
            GevShape::IntegerSlider
        } else {
            GevShape::IntegerText
        },
        GevKind::IpV4 => if editable(c) {
            GevShape::IpEditor
        } else {
            GevShape::IpText
        },
        GevKind::MacAddr => GevShape::MacText,
        GevKind::Enumeration(_) => if editable(c) {
            GevShape::EnumCombo
        } else {
            GevShape::EnumText
        },
        GevKind::Boolean => if editable(c) {
            GevShape::Checkbox
        } else {
            GevShape::BoolText
        },
        GevKind::Command => GevShape::Button,
    }
}

/// Is a control shown in a form that takes edits?
pub open spec fn takes_edits(s: GevShape) -> bool {
    s == GevShape::FloatSlider || s == GevShape::IntegerSlider || s == GevShape::IpEditor || s
        == GevShape::EnumCombo || s == GevShape::Checkbox
}

/// Access decides: a control that can neither be written nor restarts the
/// stream is shown in no form that takes edits, whatever its kind, and neither
/// is one that is read-only by its kind.
pub proof fn law_locked_controls_take_no_edits<F>(c: GevControl<F>)
    requires
        !editable(c) || c.kind is ReadOnly || c.kind is MacAddr,
    ensures
        !takes_edits(shape_of(c)),
        c.kind !is Command ==> shape_of(c) != GevShape::Button,
{
}

/// The words that mark a category worth showing expanded.
pub open spec fn opens_by_default(cat: Seq<char>) -> bool {
    let c = text::ascii_lowered(cat);
    ||| text::has_substring(c, "acquisition"@)
    ||| text::has_substring(c, "image"@)
    ||| text::has_substring(c, "analog"@)
    ||| text::has_substring(c, "gain"@)
}

/// Categories worth showing expanded by default; the rest (device info,
/// transport layer, ...) start collapsed.
pub fn gev_category_default_open(cat: &str) -> (r: bool)
    ensures
        r == opens_by_default(cat@),
{
    let c: String = text::lower_ascii(cat);
    text::contains(c.as_str(), "acquisition") || text::contains(c.as_str(), "image")
        || text::contains(c.as_str(), "analog") || text::contains(c.as_str(), "gain")
}

/// What a filter text searches for: nothing at all where it is blank.
pub open spec fn filter_of(entered: Seq<char>) -> Seq<char> {
    text::lowercased(text::trimmed(entered))
}

/// What a filter text searches for.
pub fn filter_text(entered: &str) -> (r: String)
    ensures
        r@ == filter_of(entered@),
{
    text::to_lowercase(text::trim(entered))
}

/// Does a control pass the filter? An empty filter passes everything; any
/// other searches the display name and the feature name, whatever their case.
pub open spec fn passes<F>(c: GevControl<F>, filter: Seq<char>) -> bool {
    ||| filter.len() == 0
    ||| text::has_substring(text::lowercased(c.display@), filter)
    ||| text::has_substring(text::lowercased(c.name@), filter)
}

/// The text of an address in the order in which people write it.
pub open spec fn octets_of(value: i64, swapped: bool) -> Seq<u8> {
    let n = (value as int) % 0x1_0000_0000;
    let a = (n / 0x100_0000) as u8;
    let b = (n / 0x1_0000 % 256) as u8;
    let c = (n / 0x100 % 256) as u8;
    let d = (n % 256) as u8;
    if swapped {
        seq![d, c, b, a]
    } else {
        seq![a, b, c, d]
    }
}

/// The number that an address is packed into.
pub open spec fn packed_ip(o: Seq<u8>, swapped: bool) -> int {
    if swapped {
        o[0] + o[1] * 0x100 + o[2] * 0x1_0000 + o[3] * 0x100_0000
    } else {
        o[3] + o[2] * 0x100 + o[1] * 0x1_0000 + o[0] * 0x100_0000
    }
}

/// An address survives being packed and unpacked, in either byte order.
pub proof fn law_ip_round_trip(o: Seq<u8>, swapped: bool)
    requires
        o.len() == 4,
    ensures
        0 <= packed_ip(o, swapped) < 0x1_0000_0000,
        octets_of(packed_ip(o, swapped) as i64, swapped) == o,
{
    let n = packed_ip(o, swapped);
    let (a, b, c, d) = if swapped {
        (o[3], o[2], o[1], o[0])
    } else {
        (o[0], o[1], o[2], o[3])
    };
    assert(n == d + c * 0x100 + b * 0x1_0000 + a * 0x100_0000);
    assert(n / 0x100_0000 == a);
    assert(n / 0x1_0000 == b + a * 0x100);
    assert(n / 0x100 == c + b * 0x100 + a * 0x1_0000);
    assert(octets_of(n as i64, swapped) =~= o);
}

/// A packed address survives being unpacked and packed again.
pub proof fn law_packed_ip_round_trip(value: i64, swapped: bool)
    requires
        0 <= value < 0x1_0000_0000,
    ensures
        packed_ip(octets_of(value, swapped), swapped) == value,
{
}

impl<F: Copy> GevControl<F> {
    /// Can this control be edited?
    pub fn enabled(&self) -> (r: bool)
        ensures
            r == editable(*self),
    {
        self.writable || self.needs_restart
    }

    /// How this control is shown.
    pub fn shape(&self) -> (r: GevShape)
        ensures
            r == shape_of(*self),
    {
        let on: bool = self.enabled();
        match &self.kind {
            GevKind::Float => if on {
                GevShape::FloatSlider
            } else {
                GevShape::FloatText
            },
            GevKind::ReadOnly => GevShape::FloatText,
            GevKind::Integer => if on {
                GevShape::IntegerSlider
            } else {
                GevShape::IntegerText
            },
            GevKind::IpV4 => if on {
                GevShape::IpEditor
            } else {
                GevShape::IpText
            },
            GevKind::MacAddr => GevShape::MacText,
            GevKind::Enumeration(_) => if on {
                GevShape::EnumCombo
            } else {
                GevShape::EnumText
            },
            GevKind::Boolean => if on {
                GevShape::Checkbox
            } else {
                GevShape::BoolText
            },
            GevKind::Command => GevShape::Button,
        }
    }

    /// Does this control pass the filter?
    pub fn matches(&self, filter: &str) -> (r: bool)
        ensures
            r == passes(*self, filter@),
    {
        if filter.is_empty() {
            return true;
        }
        let display: String = text::to_lowercase(self.display.as_str());
        let name: String = text::to_lowercase(self.name.as_str());
        text::contains(display.as_str(), filter) || text::contains(name.as_str(), filter)
    }

    /// The hover text: the feature name, and a warning where a change restarts
    /// the stream.
    pub fn hover_text(&self) -> (r: String)
        ensures
            r@ == (if self.needs_restart {
                self.name@ + "\nChanging this briefly stops and restarts the stream"@
            } else {
                self.name@
            }),
    {
        if self.needs_restart {
            text::join2(
                self.name.as_str(),
                "\nChanging this briefly stops and restarts the stream",
            )
        } else {
            self.name.clone()
        }
    }

    /// The largest value of an integer slider: at least one above the minimum,
    /// so that there is something to slide.
    pub open spec fn int_limit(&self) -> int {
        if self.max > self.min {
            self.max as int
        } else {
            self.min + 1
        }
    }

    /// Sets an integer feature, moved into its range. One that is not shown as
    /// a slider stays as it is.
    pub fn edit_int(&mut self, entered: i64) -> (r: Option<GevCmd<F>>)
        requires
            shape_of(*old(self)) == GevShape::IntegerSlider ==> old(self).min < i64::MAX,
        ensures
            shape_of(*old(self)) != GevShape::IntegerSlider ==> r is None && *final(self) == *old(
                self,
            ),
            shape_of(*old(self)) == GevShape::IntegerSlider ==> final(self).value == (if entered
                < old(self).min {
                old(self).min as int
            } else if entered > old(self).int_limit() {
                old(self).int_limit()
            } else {
                entered as int
            }),
            *final(self) == (GevControl { value: final(self).value, ..*old(self) }),
            match r {
                Some(cmd) => final(self).value != old(self).value && (cmd matches GevCmd::SetInt(
                    n,
                    v,
                ) && n@ == old(self).name@ && v == final(self).value),
                None => final(self).value == old(self).value,
            },
    {
        if self.shape() != GevShape::IntegerSlider {
            return None;
        }
        let top: i64 = if self.max > self.min {
            self.max
        } else {
            self.min + 1
        };
        let v: i64 = if entered < self.min {
            self.min
        } else if entered > top {
            top
        } else {
            entered
        };
        let changed: bool = v != self.value;
        self.value = v;
        if changed {
            Some(GevCmd::SetInt(self.name.clone(), v))
        } else {
            None
        }
    }

    /// Sets a floating-point feature; the value comes from its slider, and
    /// `changed` says whether it moved. One that is not shown as a slider stays
    /// as it is.
    pub fn edit_float(&mut self, entered: F, changed: bool) -> (r: Option<GevCmd<F>>)
        ensures
            ({
                let moved = changed && shape_of(*old(self)) == GevShape::FloatSlider;
                &&& *final(self) == (GevControl {
                    fvalue: if moved {
                        entered
                    } else {
                        old(self).fvalue
                    },
                    ..*old(self)
                })
                &&& match r {
                    Some(cmd) => moved && (cmd matches GevCmd::SetFloat(n, v) && n@ == old(
                        self,
                    ).name@ && v == final(self).fvalue),
                    None => !moved,
                }
            }),
    {
        if changed && self.shape() == GevShape::FloatSlider {
            self.fvalue = entered;
            Some(GevCmd::SetFloat(self.name.clone(), entered))
        } else {
            None
        }
    }

    /// Sets a truth value. One that is not shown as a checkbox stays as it is.
    pub fn edit_bool(&mut self, on: bool) -> (r: Option<GevCmd<F>>)
        ensures
            if shape_of(*old(self)) == GevShape::Checkbox {
                &&& *final(self) == (GevControl {
                    value: if on {
                        1
                    } else {
                        0
                    },
                    ..*old(self)
                })
                &&& r matches Some(GevCmd::SetBool(n, v)) && n@ == old(self).name@ && v == on
            } else {
                r is None && *final(self) == *old(self)
            },
    {
        if self.shape() != GevShape::Checkbox {
            return None;
        }
        self.value = if on {
            1
        } else {
            0
        };
        Some(GevCmd::SetBool(self.name.clone(), on))
    }

    /// A truth value as text.
    pub fn bool_text(&self) -> (r: &'static str)
        ensures
            r == (if self.value != 0 {
                "On"
            } else {
                "Off"
            }),
    {
        if self.value != 0 {
            "On"
        } else {
            "Off"
        }
    }

    /// The command that a button sends; nothing else sends one.
    pub fn execute(&self) -> (r: Option<GevCmd<F>>)
        ensures
            match r {
                Some(cmd) => shape_of(*self) == GevShape::Button && (cmd matches GevCmd::Execute(n)
                    && n@ == self.name@),
                None => shape_of(*self) != GevShape::Button,
            },
    {
        if self.shape() == GevShape::Button {
            Some(GevCmd::Execute(self.name.clone()))
        } else {
            None
        }
    }

    /// Picks the `i`th symbol of an enumeration. One that is not shown as a
    /// combo stays as it is.
    pub fn pick(&mut self, i: usize) -> (r: Option<GevCmd<F>>)
        ensures
            match old(self).kind {
                GevKind::Enumeration(opts) => if editable(*old(self)) && i < opts@.len() && i
                    <= i64::MAX {
                    &&& *final(self) == (GevControl { value: i as i64, ..*old(self) })
                    &&& r matches Some(GevCmd::SetEnum(n, s)) && n@ == old(self).name@ && s@
                        == opts@[i as int]@
                } else {
                    r is None && *final(self) == *old(self)
                },
                _ => r is None && *final(self) == *old(self),
            },
    {
        if !self.enabled() {
            return None;
        }
        let symbol: Option<String> = match &self.kind {
            GevKind::Enumeration(opts) => {
                if i < opts.len() && i as u128 <= i64::MAX as u128 {
                    Some(opts[i].clone())
                } else {
                    None
                }
            },
            _ => None,
        };
        match symbol {
            Some(s) => {
                self.value = i as i64;
                Some(GevCmd::SetEnum(self.name.clone(), s))
            },
            None => None,
        }
    }

    /// The symbol that an enumeration stands at; empty where the value is no
    /// index into the symbols.
    pub fn current_symbol(&self) -> (r: String)
        ensures
            match self.kind {
                GevKind::Enumeration(opts) => if 0 <= self.value < opts@.len() {
                    r@ == opts@[self.value as int]@
                } else {
                    r@.len() == 0
                },
                _ => r@.len() == 0,
            },
    {
        match &self.kind {
            GevKind::Enumeration(opts) => {
                if self.value >= 0 && (self.value as u64) < opts.len() as u64 {
                    opts[self.value as usize].clone()
                } else {
                    String::new()
                }
            },
            _ => String::new(),
        }
    }

    /// The octets of an address, in the order in which people write them.
    pub fn octets(&self) -> (r: [u8; 4])
        ensures
            r@ == octets_of(self.value, self.ip_swapped),
    {
        let n: u32 = self.value as u32;
        let v: i64 = self.value;
        assert(n as int == (v as int) % 0x1_0000_0000) by (bit_vector)
            requires
                n == v as u32,
        ;
        let a: u8 = (n / 0x100_0000) as u8;
        let b: u8 = (n / 0x1_0000 % 256) as u8;
        let c: u8 = (n / 0x100 % 256) as u8;
        let d: u8 = (n % 256) as u8;
        if self.ip_swapped {
            [d, c, b, a]
        } else {
            [a, b, c, d]
        }
    }

    /// Takes over edited octets, without sending them yet. An address that is
    /// not shown as an editor stays as it is.
    pub fn set_octets(&mut self, o: [u8; 4])
        ensures
            if shape_of(*old(self)) == GevShape::IpEditor {
                &&& *final(self) == (GevControl {
                    value: packed_ip(o@, old(self).ip_swapped) as i64,
                    ..*old(self)
                })
                &&& final(self).value == packed_ip(o@, old(self).ip_swapped)
            } else {
                *final(self) == *old(self)
            },
    {
        if self.shape() != GevShape::IpEditor {
            return;
        }
        let v: i64 = if self.ip_swapped {
            o[0] as i64 + o[1] as i64 * 0x100 + o[2] as i64 * 0x1_0000 + o[3] as i64 * 0x100_0000
        } else {
            o[3] as i64 + o[2] as i64 * 0x100 + o[1] as i64 * 0x1_0000 + o[0] as i64 * 0x100_0000
        };
        self.value = v;
    }

    /// The command that sends an edited address as it stands; none for one
    /// that is not shown as an editor.
    pub fn send_int(&self) -> (r: Option<GevCmd<F>>)
        ensures
            match r {
                Some(cmd) => shape_of(*self) == GevShape::IpEditor && (cmd matches GevCmd::SetInt(
                    n,
                    v,
                ) && n@ == self.name@ && v == self.value),
                None => shape_of(*self) != GevShape::IpEditor,
            },
    {
        if self.shape() == GevShape::IpEditor {
            Some(GevCmd::SetInt(self.name.clone(), self.value))
        } else {
            None
        }
    }

    /// An address in dotted decimal.
    pub fn ip_text(&self) -> (r: String)
        ensures
            ({
                let o = octets_of(self.value, self.ip_swapped);
                r@ == sources::ipv4_text(o[0], o[1], o[2], o[3])
            }),
    {
        let o: [u8; 4] = self.octets();
        let a: String = text::int_text(o[0] as i128);
        let b: String = text::int_text(o[1] as i128);
        let c: String = text::int_text(o[2] as i128);
        let d: String = text::int_text(o[3] as i128);
        proof {
            reveal_strlit(".");
            assert("."@ =~= seq!['.']);
        }
        let tail: String = text::join3(c.as_str(), ".", d.as_str());
        let mid: String = text::join3(b.as_str(), ".", tail.as_str());
        text::join3(a.as_str(), ".", mid.as_str())
    }
}

// ---------------------------------------------------------------------------
// Hardware addresses

/// A hexadecimal digit.
pub open spec fn hex_digit(n: int) -> char {
    if n < 10 {
        (48 + n) as char
    } else {
        (87 + n) as char
    }
}

/// A byte as two hexadecimal digits.
pub open spec fn hex_byte(b: u8) -> Seq<char> {
    seq![hex_digit(b as int / 16), hex_digit(b as int % 16)]
}

fn hex_char(n: u8) -> (r: char)
    requires
        n < 16,
    ensures
        r == hex_digit(n as int),
{
    if n < 10 {
        (48 + n) as char
    } else {
        (87 + n) as char
    }
}

/// The six bytes of a hardware address in the order in which people write
/// them: the low six bytes of the value, from the top or from the bottom.
pub open spec fn mac_of(value: i64, swapped: bool) -> Seq<u8> {
    let n = (value as int) % 0x1_0000_0000_0000;
    let top = seq![
        (n / 0x100_0000_0000) as u8,
        (n / 0x1_0000_0000 % 256) as u8,
        (n / 0x100_0000 % 256) as u8,
        (n / 0x1_0000 % 256) as u8,
        (n / 0x100 % 256) as u8,
        (n % 256) as u8,
    ];
    if swapped {
        top.reverse()
    } else {
        top
    }
}

/// Bytes in hexadecimal with colons between them.
pub open spec fn mac_text_of(m: Seq<u8>) -> Seq<char> {
    hex_byte(m[0]) + seq![':'] + hex_byte(m[1]) + seq![':'] + hex_byte(m[2]) + seq![':'] + hex_byte(
        m[3],
    ) + seq![':'] + hex_byte(m[4]) + seq![':'] + hex_byte(m[5])
}

fn push_hex(s: &mut String, b: u8)
    ensures
        final(s)@ == old(s)@ + hex_byte(b),
{
    let ghost before = s@;
    s.push(hex_char(b / 16));
    s.push(hex_char(b % 16));
    assert(s@ =~= before + hex_byte(b));
}

impl<F: Copy> GevControl<F> {
    /// The six bytes of a hardware address.
    pub fn mac_bytes(&self) -> (r: [u8; 6])
        ensures
            r@ == mac_of(self.value, self.ip_swapped),
    {
        let v: i64 = self.value;
        let n: u64 = (v as u64) % 0x1_0000_0000_0000;
        assert(n as int == (v as int) % 0x1_0000_0000_0000) by (bit_vector)
            requires
                n == (v as u64) % 0x1_0000_0000_0000u64,
        ;
        let a: u8 = (n / 0x100_0000_0000) as u8;
        let b: u8 = (n / 0x1_0000_0000 % 256) as u8;
        let c: u8 = (n / 0x100_0000 % 256) as u8;
        let d: u8 = (n / 0x1_0000 % 256) as u8;
        let e: u8 = (n / 0x100 % 256) as u8;
        let f: u8 = (n % 256) as u8;
        let r: [u8; 6] = if self.ip_swapped {
            [f, e, d, c, b, a]
        } else {
            [a, b, c, d, e, f]
        };
        assert(r@ =~= mac_of(v, self.ip_swapped));
        r
    }

    /// A hardware address as text.
    pub fn mac_text(&self) -> (r: String)
        ensures
            r@ == mac_text_of(mac_of(self.value, self.ip_swapped)),
    {
        let m: [u8; 6] = self.mac_bytes();
        let mut s: String = String::new();
        push_hex(&mut s, m[0]);
        for i in 1..6
            invariant
                m@.len() == 6,
                i == 1 ==> s@ == hex_byte(m@[0]),
                i == 2 ==> s@ == hex_byte(m@[0]) + seq![':'] + hex_byte(m@[1]),
                i == 3 ==> s@ == hex_byte(m@[0]) + seq![':'] + hex_byte(m@[1]) + seq![':']
                    + hex_byte(m@[2]),
                i == 4 ==> s@ == hex_byte(m@[0]) + seq![':'] + hex_byte(m@[1]) + seq![':']
                    + hex_byte(m@[2]) + seq![':'] + hex_byte(m@[3]),
                i == 5 ==> s@ == hex_byte(m@[0]) + seq![':'] + hex_byte(m@[1]) + seq![':']
                    + hex_byte(m@[2]) + seq![':'] + hex_byte(m@[3]) + seq![':'] + hex_byte(m@[4]),
                i == 6 ==> s@ == mac_text_of(m@),
        {
            let ghost before = s@;
            s.push(':');
            assert(s@ =~= before + seq![':']);
            push_hex(&mut s, m[i]);
        }
        s
    }
}

// ---------------------------------------------------------------------------
// Categories

/// The categories of the controls, one per control.
pub open spec fn category_list<F>(controls: Seq<GevControl<F>>) -> Seq<Seq<char>> {
    controls.map_values(|c: GevControl<F>| c.category@)
}

/// The categories, in the order in which they are first seen.
pub fn categories<F>(controls: &Vec<GevControl<F>>) -> (r: Vec<String>)
    ensures
        text::texts(r@) == text::first_seen(category_list(controls@)),
{
    let mut cats: Vec<String> = Vec::new();
    let ghost all = category_list(controls@);
    assert(text::texts(cats@) =~= Seq::<Seq<char>>::empty());
    assert(all.take(0) =~= Seq::<Seq<char>>::empty());
    for i in 0..controls.len()
        invariant
            all == category_list(controls@),
            text::texts(cats@) == text::first_seen(all.take(i as int)),
    {
        assert(all.take(i as int + 1).drop_last() =~= all.take(i as int));
        assert(all.take(i as int + 1).last() == controls@[i as int].category@);
        text::push_new(&mut cats, controls[i].category.as_str());
    }
    assert(all.take(all.len() as int) =~= all);
    cats
}

/// Is the control shown under a category with a filter?
pub open spec fn shown_in<F>(c: GevControl<F>, cat: Seq<char>, filter: Seq<char>) -> bool {
    c.category@ == cat && passes(c, filter)
}

/// The controls shown under a category, by index and in order. A category
/// without any is not shown.
pub fn category_rows<F: Copy>(controls: &Vec<GevControl<F>>, cat: &str, filter: &str) -> (r: Vec<
    usize,
>)
    ensures
        forall|k: int| 0 <= k < r.len() ==> (#[trigger] r@[k]) < controls.len(),
        r@.map_values(|i: usize| controls@[i as int]) == controls@.filter(
            |c: GevControl<F>| shown_in(c, cat@, filter@),
        ),
{
    let ghost pick = |c: GevControl<F>| shown_in(c, cat@, filter@);
    let ghost at = |i: usize| controls@[i as int];
    let mut out: Vec<usize> = Vec::new();
    proof {
        reveal(Seq::filter);
        assert(controls@.take(0) =~= Seq::<GevControl<F>>::empty());
        assert(out@.map_values(at) =~= Seq::<GevControl<F>>::empty());
    }
    for i in 0..controls.len()
        invariant
            pick == (|c: GevControl<F>| shown_in(c, cat@, filter@)),
            at == (|i: usize| controls@[i as int]),
            forall|k: int| 0 <= k < out.len() ==> (#[trigger] out@[k]) < controls.len(),
            out@.map_values(at) == controls@.take(i as int).filter(pick),
    {
        proof {
            reveal(Seq::filter);
            assert(controls@.take(i as int + 1).drop_last() =~= controls@.take(i as int));
            assert(controls@.take(i as int + 1).last() == controls@[i as int]);
        }
        if text::same_text(controls[i].category.as_str(), cat) && controls[i].matches(filter) {
            let ghost before = out@;
            out.push(i);
            assert(out@.map_values(at) =~= before.map_values(at).push(controls@[i as int]));
        }
    }
    assert(controls@.take(controls@.len() as int) =~= controls@);
    out
}

/// Where the first control with a feature name stands; the number of controls
/// where there is none.
pub open spec fn control_index<F>(controls: Seq<GevControl<F>>, name: Seq<char>) -> int
    decreases controls.len(),
{
    if controls.len() == 0 {
        0
    } else if controls[0].name@ == name {
        0
    } else {
        1 + control_index(controls.skip(1), name)
    }
}

/// The value of the first control with a feature name.
pub open spec fn float_value<F>(controls: Seq<GevControl<F>>, name: Seq<char>) -> Option<F> {
    let i = control_index(controls, name);
    if i < controls.len() {
        Some(controls[i].fvalue)
    } else {
        None
    }
}

/// The value of the first control with a feature name.
pub fn find_float<F: Copy>(controls: &Vec<GevControl<F>>, name: &str) -> (r: Option<F>)
    ensures
        r == float_value(controls@, name@),
{
    assert(controls@.skip(0) =~= controls@);
    let mut i: usize = 0;
    while i < controls.len()
        invariant
            i <= controls.len(),
            i + control_index(controls@.skip(i as int), name@) == control_index(controls@, name@),
        decreases controls.len() - i,
    {
        if text::same_text(controls[i].name.as_str(), name) {
            return Some(controls[i].fvalue);
        }
        assert(controls@.skip(i as int).skip(1) =~= controls@.skip(i + 1));
        i = i + 1;
    }
    None
}

/// Exposure (microseconds), gain and offset of a GigE camera, as its features
/// give them.
pub fn gev_shot<F: Copy>(controls: &Vec<GevControl<F>>) -> (r: (Option<F>, Option<F>, Option<F>))
    ensures
        r.0 == float_value(controls@, "ExposureTime"@),
        r.1 == float_value(controls@, "Gain"@),
        r.2 == float_value(controls@, "BlackLevel"@),
{
    (
        find_float(controls, "ExposureTime"),
        find_float(controls, "Gain"),
        find_float(controls, "BlackLevel"),
    )
}

/// Is an edit sent now? It is once the user is done, never while a field is
/// being worked on, so that half-typed values do not go out.
pub open spec fn sent_now(dirty: bool, changed: bool, active: bool) -> bool {
    (dirty || changed) && !active
}

/// Is an edit still owed?
pub open spec fn still_owed(dirty: bool, changed: bool, active: bool) -> bool {
    (dirty || changed) && active
}

/// Whether an edit is sent now, and whether one is still owed: `dirty` says
/// that one was owed before, `changed` that there is a new one, `active` that
/// the field is being worked on.
pub fn commit_gate(dirty: bool, changed: bool, active: bool) -> (r: (bool, bool))
    ensures
        r.0 == sent_now(dirty, changed, active),
        r.1 == still_owed(dirty, changed, active),
{
    let owed: bool = dirty || changed;
    if owed && !active {
        (true, false)
    } else {
        (false, owed)
    }
}

/// No change is lost and none is sent twice: what is sent in a pass and what
/// is still owed after it exclude each other, and one of them holds whenever
/// something was owed or changed.
pub proof fn law_commit_gate(dirty: bool, changed: bool, active: bool)
    ensures
        !(sent_now(dirty, changed, active) && still_owed(dirty, changed, active)),
        sent_now(dirty, changed, active) || still_owed(dirty, changed, active) <==> dirty
            || changed,
        !sent_now(still_owed(dirty, changed, false), false, false),
{
}

// ---------------------------------------------------------------------------
// Laws of the panel

/// A control is shown by its kind. One that can be written, or that a restart
/// of the stream applies, is shown in a form that takes edits; any other is
/// shown as text.
pub proof fn law_controls_are_shown_by_kind_and_access<F: Copy>(
    c: GevControl<F>,
    on: bool,
    r: GevShape,
)
    requires
        call_ensures(GevControl::<F>::enabled, (&c,), on),
        call_ensures(GevControl::<F>::shape, (&c,), r),
    ensures
        on <==> c.writable || c.needs_restart,
        match c.kind {
            GevKind::Float => r == GevShape::FloatSlider <==> c.writable || c.needs_restart,
            GevKind::Integer => r == GevShape::IntegerSlider <==> c.writable || c.needs_restart,
            GevKind::IpV4 => r == GevShape::IpEditor <==> c.writable || c.needs_restart,
            GevKind::Enumeration(_) => r == GevShape::EnumCombo <==> c.writable || c.needs_restart,
            GevKind::Boolean => r == GevShape::Checkbox <==> c.writable || c.needs_restart,
            GevKind::ReadOnly => r == GevShape::FloatText,
            GevKind::MacAddr => r == GevShape::MacText,
            GevKind::Command => r == GevShape::Button,
        },
        !(c.writable || c.needs_restart) ==> match c.kind {
            GevKind::Float => r == GevShape::FloatText,
            GevKind::Integer => r == GevShape::IntegerText,
            GevKind::IpV4 => r == GevShape::IpText,
            GevKind::Enumeration(_) => r == GevShape::EnumText,
            GevKind::Boolean => r == GevShape::BoolText,
            _ => true,
        },
{
}

/// A category starts expanded where one of four words stands in its name,
/// whatever the case of its letters.
pub proof fn law_categories_that_open(cat: &str, low: String, r: bool)
    requires
        call_ensures(text::lower_ascii, (cat,), low),
        call_ensures(gev_category_default_open, (cat,), r),
    ensures
        r <==> text::has_substring(low@, "acquisition"@) || text::has_substring(low@, "image"@)
            || text::has_substring(low@, "analog"@) || text::has_substring(low@, "gain"@),
{
}

/// A blank filter passes every control. Any other passes those whose display
/// name or feature name it stands in, once all are in lower case.
pub proof fn law_filter_searches_both_names<F: Copy>(
    c: GevControl<F>,
    entered: &str,
    t: String,
    filter: &str,
    r: bool,
)
    requires
        call_ensures(filter_text, (entered,), t),
        filter@ == t@,
        call_ensures(GevControl::<F>::matches, (&c, filter), r),
    ensures
        t@ == text::lowercased(text::trimmed(entered@)),
        t@.len() == 0 ==> r,
        t@.len() > 0 ==> (r <==> text::has_substring(text::lowercased(c.display@), t@)
            || text::has_substring(text::lowercased(c.name@), t@)),
{
}

/// The hover text names the feature, and warns where a change restarts the
/// stream.
pub proof fn law_restart_is_warned_of<F: Copy>(c: GevControl<F>, r: String)
    requires
        call_ensures(GevControl::<F>::hover_text, (&c,), r),
    ensures
        !c.needs_restart ==> r@ == c.name@,
        c.needs_restart ==> r@ == c.name@ + "\nChanging this briefly stops and restarts the stream"@,
{
}

/// An entered integer that lies in the range of the feature is taken as it is,
/// one outside comes to the nearest end, and the command sets this feature to
/// the value that is then shown. Nothing is sent where nothing changed, and a
/// feature that is no slider stays as it is.
pub proof fn law_entered_integer_is_sent<F: Copy>(
    c: &mut GevControl<F>,
    entered: i64,
    r: Option<GevCmd<F>>,
)
    requires
        old(c).min < i64::MAX,
        call_ensures(GevControl::<F>::edit_int, (c, entered), r),
    ensures
        ({
            let slides = old(c).kind is Integer && (old(c).writable || old(c).needs_restart);
            &&& !slides ==> *final(c) == *old(c) && r is None
            &&& slides && old(c).min <= entered <= old(c).max ==> final(c).value == entered
            &&& slides && entered < old(c).min ==> final(c).value == old(c).min
            &&& slides && old(c).min < old(c).max < entered ==> final(c).value == old(c).max
        }),
        r is Some <==> final(c).value != old(c).value,
        r matches Some(cmd) ==> (cmd matches GevCmd::SetInt(n, v) && n@ == old(c).name@ && v
            == final(c).value),
        final(c).name@ == old(c).name@ && final(c).min == old(c).min && final(c).max == old(c).max
            && final(c).fvalue == old(c).fvalue && final(c).kind == old(c).kind && final(c).writable
            == old(c).writable && final(c).needs_restart == old(c).needs_restart,
{
}

/// A slider of a floating-point feature that moved sets the feature to where it
/// was moved.
pub proof fn law_moved_slider_is_sent<F: Copy>(
    c: &mut GevControl<F>,
    entered: F,
    changed: bool,
    r: Option<GevCmd<F>>,
)
    requires
        call_ensures(GevControl::<F>::edit_float, (c, entered, changed), r),
    ensures
        ({
            let slides = old(c).kind is Float && (old(c).writable || old(c).needs_restart);
            &&& slides && changed ==> final(c).fvalue == entered && (r matches Some(
                GevCmd::SetFloat(n, v),
            ) && n@ == old(c).name@ && v == entered)
            &&& !(slides && changed) ==> *final(c) == *old(c) && r is None
        }),
        final(c).value == old(c).value && final(c).name@ == old(c).name@,
{
}

/// A checkbox sets its feature to what it was set to, and reads so afterwards.
pub proof fn law_checkbox_is_sent<F: Copy>(
    c: &mut GevControl<F>,
    on: bool,
    r: Option<GevCmd<F>>,
    t: &'static str,
)
    requires
        old(c).kind is Boolean,
        call_ensures(GevControl::<F>::edit_bool, (c, on), r),
        call_ensures(GevControl::<F>::bool_text, (&*final(c),), t),
    ensures
        old(c).writable || old(c).needs_restart ==> (r matches Some(GevCmd::SetBool(n, v)) && n@
            == old(c).name@ && v == on) && t@ == (if on {
            "On"@
        } else {
            "Off"@
        }),
        !(old(c).writable || old(c).needs_restart) ==> r is None && *final(c) == *old(c),
{
}

/// Only a command is executed, by its own name.
pub proof fn law_only_commands_are_executed<F: Copy>(c: GevControl<F>, r: Option<GevCmd<F>>)
    requires
        call_ensures(GevControl::<F>::execute, (&c,), r),
    ensures
        r is Some <==> c.kind is Command,
        r matches Some(cmd) ==> (cmd matches GevCmd::Execute(n) && n@ == c.name@),
{
}

/// The symbol that was picked is sent, and is the one shown afterwards.
pub proof fn law_picked_symbol_is_shown<F: Copy>(
    c: &mut GevControl<F>,
    opts: Vec<String>,
    i: usize,
    r: Option<GevCmd<F>>,
    t: String,
)
    requires
        old(c).kind == GevKind::Enumeration(opts),
        i <= i64::MAX,
        call_ensures(GevControl::<F>::pick, (c, i), r),
        call_ensures(GevControl::<F>::current_symbol, (&*final(c),), t),
    ensures
        i < opts.len() && (old(c).writable || old(c).needs_restart) ==> (r matches Some(
            GevCmd::SetEnum(n, s),
        ) && n@ == old(c).name@ && s@ == opts@[i as int]@) && t@ == opts@[i as int]@,
        i >= opts.len() || !(old(c).writable || old(c).needs_restart) ==> r is None && *final(c)
            == *old(c),
{
}

/// Octets that were entered are the ones shown, in the order in which they were
/// entered, whichever way the camera packs them.
pub proof fn law_entered_octets_are_shown<F: Copy>(
    c: &mut GevControl<F>,
    o: [u8; 4],
    shown: [u8; 4],
    t: String,
    sent: Option<GevCmd<F>>,
)
    requires
        old(c).kind is IpV4,
        old(c).writable || old(c).needs_restart,
        call_ensures(GevControl::<F>::set_octets, (c, o), ()),
        call_ensures(GevControl::<F>::octets, (&*final(c),), shown),
        call_ensures(GevControl::<F>::ip_text, (&*final(c),), t),
        call_ensures(GevControl::<F>::send_int, (&*final(c),), sent),
    ensures
        shown@ == o@,
        t@ == text::decimal(o@[0] as int) + seq!['.'] + (text::decimal(o@[1] as int) + seq!['.'] + (
        text::decimal(o@[2] as int) + seq!['.'] + text::decimal(o@[3] as int))),
        sent matches Some(GevCmd::SetInt(n, v)) && n@ == old(c).name@ && v == (if old(
            c,
        ).ip_swapped {
            o@[0] + 0x100 * o@[1] + 0x1_0000 * o@[2] + 0x100_0000 * o@[3]
        } else {
            0x100_0000 * o@[0] + 0x1_0000 * o@[1] + 0x100 * o@[2] + o@[3]
        }),
        *final(c) == (GevControl { value: final(c).value, ..*old(c) }),
{
    law_ip_round_trip(o@, old(c).ip_swapped);
}

/// An address that is not shown as an editor takes no octets and sends none.
pub proof fn law_locked_address_stays<F: Copy>(
    c: &mut GevControl<F>,
    o: [u8; 4],
    sent: Option<GevCmd<F>>,
)
    requires
        old(c).kind !is IpV4 || !(old(c).writable || old(c).needs_restart),
        call_ensures(GevControl::<F>::set_octets, (c, o), ()),
        call_ensures(GevControl::<F>::send_int, (&*old(c),), sent),
    ensures
        *final(c) == *old(c),
        sent is None,
{
}

/// The six bytes of a hardware address make up its value, the first one
/// highest; a camera that packs the other way round has them in reverse.
pub proof fn law_hardware_address_is_read_in_order<F: Copy>(c: GevControl<F>, m: [u8; 6])
    requires
        0 <= c.value < 0x1_0000_0000_0000,
        call_ensures(GevControl::<F>::mac_bytes, (&c,), m),
    ensures
        !c.ip_swapped ==> c.value == m@[0] * 0x100_0000_0000 + m@[1] * 0x1_0000_0000 + m@[2]
            * 0x100_0000 + m@[3] * 0x1_0000 + m@[4] * 0x100 + m@[5],
        c.ip_swapped ==> c.value == m@[5] * 0x100_0000_0000 + m@[4] * 0x1_0000_0000 + m@[3]
            * 0x100_0000 + m@[2] * 0x1_0000 + m@[1] * 0x100 + m@[0],
{
    let n = c.value as int;
    let q1 = n / 0x100;
    let q2 = q1 / 0x100;
    let q3 = q2 / 0x100;
    let q4 = q3 / 0x100;
    let q5 = q4 / 0x100;
    assert(n == q1 * 0x100 + n % 256);
    assert(q1 == q2 * 0x100 + q1 % 256);
    assert(q2 == q3 * 0x100 + q2 % 256);
    assert(q3 == q4 * 0x100 + q3 % 256);
    assert(q4 == q5 * 0x100 + q4 % 256);
    assert(n / 0x1_0000 == q2);
    assert(n / 0x100_0000 == q3);
    assert(n / 0x1_0000_0000 == q4);
    assert(n / 0x100_0000_0000 == q5);
    assert(0 <= q5 < 256);
    let top = seq![
        q5 as u8,
        (q4 % 256) as u8,
        (q3 % 256) as u8,
        (q2 % 256) as u8,
        (q1 % 256) as u8,
        (n % 256) as u8,
    ];
    assert(n % 0x1_0000_0000_0000 == n);
    assert(mac_of(c.value, false) =~= top);
    assert(mac_of(c.value, true) =~= top.reverse());
}

/// A hardware address reads as its six bytes in order, two lower-case
/// hexadecimal digits each, with colons between them.
pub proof fn law_hardware_address_text<F: Copy>(c: GevControl<F>, m: [u8; 6], r: String, k: int)
    requires
        call_ensures(GevControl::<F>::mac_bytes, (&c,), m),
        call_ensures(GevControl::<F>::mac_text, (&c,), r),
        0 <= k < 6,
    ensures
        r@.len() == 17,
        r@[3 * k] as int == (if m@[k] / 16 < 10 {
            48 + m@[k] / 16
        } else {
            87 + m@[k] / 16
        }),
        r@[3 * k + 1] as int == (if m@[k] % 16 < 10 {
            48 + m@[k] % 16
        } else {
            87 + m@[k] % 16
        }),
        k < 5 ==> r@[3 * k + 2] == ':',
{
    let b = m@[k];
    assert(hex_byte(b)[0] == r@[3 * k]);
    assert(hex_byte(b)[1] == r@[3 * k + 1]);
}

/// Every control's category is listed, once, and no other is.
pub proof fn law_categories_are_listed_once<F>(controls: Vec<GevControl<F>>, r: Vec<String>)
    requires
        call_ensures(categories::<F>, (&controls,), r),
    ensures
        forall|i: int|
            0 <= i < controls.len() ==> exists|k: int|
                0 <= k < r.len() && (#[trigger] r@[k])@ == (#[trigger] controls@[i]).category@,
        forall|k: int|
            0 <= k < r.len() ==> exists|i: int|
                0 <= i < controls.len() && (#[trigger] r@[k])@ == (
                #[trigger] controls@[i]).category@,
        forall|j: int, k: int|
            #![trigger r@[j], r@[k]]
            0 <= j < k < r.len() ==> r@[j]@ != r@[k]@,
{
    let all = category_list(controls@);
    let got = text::texts(r@);
    text::law_first_seen(all);
    assert forall|i: int| 0 <= i < controls.len() implies exists|k: int|
        0 <= k < r.len() && (#[trigger] r@[k])@ == (#[trigger] controls@[i]).category@ by {
        assert(all[i] == controls@[i].category@);
        assert(all.contains(all[i]));
        assert(got.contains(all[i]));
        let k = choose|k: int| 0 <= k < got.len() && got[k] == all[i];
        assert(got[k] == r@[k]@);
    }
    assert forall|k: int| 0 <= k < r.len() implies exists|i: int|
        0 <= i < controls.len() && (#[trigger] r@[k])@ == (#[trigger] controls@[i]).category@ by {
        assert(got[k] == r@[k]@);
        assert(got.contains(got[k]));
        assert(all.contains(got[k]));
        let i = choose|i: int| 0 <= i < all.len() && all[i] == got[k];
        assert(all[i] == controls@[i].category@);
    }
    assert forall|j: int, k: int|
        #![trigger r@[j], r@[k]]
        0 <= j < k < r.len() implies r@[j]@ != r@[k]@ by {
        assert(got[j] == r@[j]@ && got[k] == r@[k]@);
    }
}

/// Under a category stand controls of that category that pass the filter, and
/// none of them is left out.
pub proof fn law_category_shows_its_controls<F: Copy>(
    controls: Vec<GevControl<F>>,
    cat: &str,
    filter: &str,
    r: Vec<usize>,
    i: int,
    passes_i: bool,
)
    requires
        call_ensures(category_rows::<F>, (&controls, cat, filter), r),
        0 <= i < controls.len(),
        call_ensures(GevControl::<F>::matches, (&controls@[i], filter), passes_i),
    ensures
        forall|k: int|
            0 <= k < r.len() ==> (#[trigger] r@[k]) < controls.len()
                && controls@[r@[k] as int].category@ == cat@,
        controls@[i].category@ == cat@ && passes_i ==> exists|k: int|
            0 <= k < r.len() && controls@[#[trigger] r@[k] as int] == controls@[i],
        !passes_i ==> forall|k: int| 0 <= k < r.len() ==> (#[trigger] r@[k]) != i,
{
    let pick = |c: GevControl<F>| shown_in(c, cat@, filter@);
    let at = |i: usize| controls@[i as int];
    let got = controls@.filter(pick);
    assert(r@.map_values(at) == got);
    assert forall|k: int| 0 <= k < r.len() implies (#[trigger] r@[k]) < controls.len()
        && controls@[r@[k] as int].category@ == cat@ && passes(
        controls@[r@[k] as int],
        filter@,
    ) by {
        assert(r@.map_values(at)[k] == at(r@[k]));
        controls@.lemma_filter_pred(pick, k);
    }
    if controls@[i].category@ == cat@ && passes_i {
        controls@.lemma_filter_contains(pick, i);
        let k = choose|k: int| 0 <= k < got.len() && got[k] == controls@[i];
        assert(r@.map_values(at)[k] == at(r@[k]));
    }
}

proof fn lemma_control_index<F>(controls: Seq<GevControl<F>>, name: Seq<char>)
    ensures
        0 <= control_index(controls, name) <= controls.len(),
        control_index(controls, name) < controls.len() ==> controls[control_index(
            controls,
            name,
        )].name@ == name,
        forall|j: int|
            0 <= j < control_index(controls, name) ==> (#[trigger] controls[j]).name@ != name,
    decreases controls.len(),
{
    if controls.len() > 0 && controls[0].name@ != name {
        let rest = controls.skip(1);
        lemma_control_index(rest, name);
        assert forall|j: int| 0 <= j < control_index(controls, name) implies (
        #[trigger] controls[j]).name@ != name by {
            if j > 0 {
                assert(controls[j] == rest[j - 1]);
            }
        }
    }
}

/// The number that is looked up is that of the first feature of the name, and
/// there is none only where no feature has it.
pub proof fn law_feature_is_found_by_name<F: Copy>(
    controls: Vec<GevControl<F>>,
    name: &str,
    r: Option<F>,
)
    requires
        call_ensures(find_float::<F>, (&controls, name), r),
    ensures
        match r {
            Some(v) => exists|i: int|
                0 <= i < controls.len() && (#[trigger] controls@[i]).name@ == name@
                    && controls@[i].fvalue == v && (forall|j: int|
                    0 <= j < i ==> (#[trigger] controls@[j]).name@ != name@),
            None => forall|j: int|
                0 <= j < controls.len() ==> (#[trigger] controls@[j]).name@ != name@,
        },
{
    lemma_control_index(controls@, name@);
    let i = control_index(controls@, name@);
    if r is Some {
        assert(controls@[i].name@ == name@);
    }
}

/// A GigE frame is recorded with its camera's exposure time, gain and black
/// level, in that order.
pub proof fn law_gev_shot_is_the_cameras<F: Copy>(
    controls: Vec<GevControl<F>>,
    r: (Option<F>, Option<F>, Option<F>),
    e: &str,
    g: &str,
    b: &str,
    exposure: Option<F>,
    gain: Option<F>,
    offset: Option<F>,
)
    requires
        e@ == "ExposureTime"@ && g@ == "Gain"@ && b@ == "BlackLevel"@,
        call_ensures(gev_shot::<F>, (&controls,), r),
        call_ensures(find_float::<F>, (&controls, e), exposure),
        call_ensures(find_float::<F>, (&controls, g), gain),
        call_ensures(find_float::<F>, (&controls, b), offset),
    ensures
        r.0 == exposure,
        r.1 == gain,
        r.2 == offset,
{
}

/// An edit waits while its field is being worked on and is sent once, as soon
/// as it is not.
pub proof fn law_edit_is_sent_once(
    changed: bool,
    first: (bool, bool),
    second: (bool, bool),
    third: (bool, bool),
)
    requires
        call_ensures(commit_gate, (false, changed, true), first),
        call_ensures(commit_gate, (first.1, false, false), second),
        call_ensures(commit_gate, (second.1, false, false), third),
    ensures
        !first.0,
        second.0 <==> changed,
        !third.0 && !second.1,
{
}

/// An edit in a field that nobody works on is sent at once, and without an edit
/// nothing is.
pub proof fn law_finished_edit_is_sent(dirty: bool, changed: bool, r: (bool, bool))
    requires
        call_ensures(commit_gate, (dirty, changed, false), r),
    ensures
        r.0 <==> dirty || changed,
        !r.1,
{
}

} // verus!
