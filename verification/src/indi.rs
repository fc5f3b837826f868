//! The INDI controls panel: devices, their connection, captures, and the
//! generic property vectors.

use crate::gev;
use crate::text;
use vstd::prelude::*;
use vstd::string::*;

verus! {

/// State of a property.
#[derive(Clone, Copy, PartialEq, Eq, Structural, Debug)]
pub enum PropState {
    Idle,
    Okay,
    Busy,
    Alert,
}

/// Who may change a property.
#[derive(Clone, Copy, PartialEq, Eq, Structural, Debug)]
pub enum PropPerm {
    Ro,
    Wo,
    Rw,
}

/// How many switches of a vector may be on.
#[derive(Clone, Copy, PartialEq, Eq, Structural, Debug)]
pub enum SwitchRule {
    OneOfMany,
    AtMostOne,
    AnyOfMany,
}

/// The value of an element, with `F` for floating-point numbers.
#[derive(PartialEq, Eq, Debug)]
pub enum IndiValue<F> {
    Number { value: F, min: F, max: F, step: F },
    Switch(bool),
    Text(String),
    Light(PropState),
    Blob { format: String, size: u64 },
}

/// One element of a property vector.
#[derive(PartialEq, Eq, Debug)]
pub struct IndiElement<F> {
    pub name: String,
    pub label: String,
    pub value: IndiValue<F>,
}

/// A property vector of a device.
#[derive(PartialEq, Eq, Debug)]
pub struct IndiProperty<F> {
    pub device: String,
    pub name: String,
    pub label: String,
    pub group: String,
    pub perm: PropPerm,
    pub state: PropState,
    pub rule: Option<SwitchRule>,
    pub elements: Vec<IndiElement<F>>,
}

/// Commands to the server.
#[allow(inconsistent_fields)]
#[derive(PartialEq, Eq, Debug)]
pub enum IndiCmd<F> {
    Connect { device: String },
    /// Ask for image data of a device along with its properties.
    EnableBlob { device: String },
    SetSwitch { device: String, property: String, values: Vec<(String, bool)> },
    SetNumber { device: String, property: String, values: Vec<(String, F)> },
    SetText { device: String, property: String, values: Vec<(String, String)> },
    StartExposure { device: String, seconds: F, live: bool },
    StopLive,
}

/// The name of a state.
pub fn state_name(s: PropState) -> (r: &'static str)
    ensures
        r == (match s {
            PropState::Idle => "idle",
            PropState::Okay => "ok",
            PropState::Busy => "busy",
            PropState::Alert => "alert",
        }),
{
    match s {
        PropState::Idle => "idle",
        PropState::Okay => "ok",
        PropState::Busy => "busy",
        PropState::Alert => "alert",
    }
}

// ---------------------------------------------------------------------------
// Payloads

/// The switch that an element is, with its name.
pub open spec fn switch_of<F>(e: IndiElement<F>) -> Option<(Seq<char>, bool)> {
    match e.value {
        IndiValue::Switch(on) => Some((e.name@, on)),
        _ => None,
    }
}

/// The number that an element is, with its name.
pub open spec fn number_of<F>(e: IndiElement<F>) -> Option<(Seq<char>, F)> {
    match e.value {
        IndiValue::Number { value, .. } => Some((e.name@, value)),
        _ => None,
    }
}

/// The text that an element is, with its name.
pub open spec fn text_of<F>(e: IndiElement<F>) -> Option<(Seq<char>, Seq<char>)> {
    match e.value {
        IndiValue::Text(t) => Some((e.name@, t@)),
        _ => None,
    }
}

/// All switches of a property with their names, in order.
pub open spec fn switches<F>(p: IndiProperty<F>) -> Seq<(Seq<char>, bool)> {
    p.elements@.filter_map(|e: IndiElement<F>| switch_of(e))
}

/// All numbers of a property with their names, in order.
pub open spec fn numbers<F>(p: IndiProperty<F>) -> Seq<(Seq<char>, F)> {
    p.elements@.filter_map(|e: IndiElement<F>| number_of(e))
}

/// All texts of a property with their names, in order.
pub open spec fn text_values<F>(p: IndiProperty<F>) -> Seq<(Seq<char>, Seq<char>)> {
    p.elements@.filter_map(|e: IndiElement<F>| text_of(e))
}

/// The contents of a switch payload.
pub open spec fn switch_views(v: Seq<(String, bool)>) -> Seq<(Seq<char>, bool)> {
    v.map_values(|x: (String, bool)| (x.0@, x.1))
}

/// The contents of a number payload.
pub open spec fn number_views<F>(v: Seq<(String, F)>) -> Seq<(Seq<char>, F)> {
    v.map_values(|x: (String, F)| (x.0@, x.1))
}

/// The contents of a text payload.
pub open spec fn text_views(v: Seq<(String, String)>) -> Seq<(Seq<char>, Seq<char>)> {
    v.map_values(|x: (String, String)| (x.0@, x.1@))
}

/// All switch elements of a property as (name, on) pairs: switch writes send
/// the full vector so that the driver can apply its rule atomically.
pub fn indi_switch_payload<F>(prop: &IndiProperty<F>) -> (r: Vec<(String, bool)>)
    ensures
        switch_views(r@) == switches(*prop),
{
    let ghost f = |e: IndiElement<F>| switch_of(e);
    let ghost all = prop.elements@;
    let mut out: Vec<(String, bool)> = Vec::new();
    proof {
        reveal(Seq::filter_map);
        assert(all.take(0) =~= Seq::<IndiElement<F>>::empty());
        assert(switch_views(out@) =~= Seq::<(Seq<char>, bool)>::empty());
    }
    for i in 0..prop.elements.len()
        invariant
            all == prop.elements@,
            f == (|e: IndiElement<F>| switch_of(e)),
            switch_views(out@) == all.take(i as int).filter_map(f),
    {
        proof {
            reveal(Seq::filter_map);
            assert(all.take(i as int + 1).drop_last() =~= all.take(i as int));
            assert(all.take(i as int + 1).last() == all[i as int]);
            assert(f(all[i as int]) == switch_of(all[i as int]));
        }
        let ghost before = out@;
        match &prop.elements[i].value {
            IndiValue::Switch(on) => {
                let pair: (String, bool) = (prop.elements[i].name.clone(), *on);
                out.push(pair);
                assert(switch_views(out@) =~= switch_views(before) + seq![(pair.0@, pair.1)]);
            },
            _ => {},
        }
    }
    assert(all.take(all.len() as int) =~= all);
    out
}

/// All number elements of a property as (name, value) pairs.
pub fn indi_number_payload<F: Copy>(prop: &IndiProperty<F>) -> (r: Vec<(String, F)>)
    ensures
        number_views(r@) == numbers(*prop),
{
    let ghost f = |e: IndiElement<F>| number_of(e);
    let ghost all = prop.elements@;
    let mut out: Vec<(String, F)> = Vec::new();
    proof {
        reveal(Seq::filter_map);
        assert(all.take(0) =~= Seq::<IndiElement<F>>::empty());
        assert(number_views(out@) =~= Seq::<(Seq<char>, F)>::empty());
    }
    for i in 0..prop.elements.len()
        invariant
            all == prop.elements@,
            f == (|e: IndiElement<F>| number_of(e)),
            number_views(out@) == all.take(i as int).filter_map(f),
    {
        proof {
            reveal(Seq::filter_map);
            assert(all.take(i as int + 1).drop_last() =~= all.take(i as int));
            assert(all.take(i as int + 1).last() == all[i as int]);
            assert(f(all[i as int]) == number_of(all[i as int]));
        }
        let ghost before = out@;
        match &prop.elements[i].value {
            IndiValue::Number { value, .. } => {
                let pair: (String, F) = (prop.elements[i].name.clone(), *value);
                out.push(pair);
                assert(number_views(out@) =~= number_views(before) + seq![(pair.0@, pair.1)]);
            },
            _ => {},
        }
    }
    assert(all.take(all.len() as int) =~= all);
    out
}

/// All text elements of a property as (name, text) pairs.
pub fn indi_text_payload<F>(prop: &IndiProperty<F>) -> (r: Vec<(String, String)>)
    ensures
        text_views(r@) == text_values(*prop),
{
    let ghost f = |e: IndiElement<F>| text_of(e);
    let ghost all = prop.elements@;
    let mut out: Vec<(String, String)> = Vec::new();
    proof {
        reveal(Seq::filter_map);
        assert(all.take(0) =~= Seq::<IndiElement<F>>::empty());
        assert(text_views(out@) =~= Seq::<(Seq<char>, Seq<char>)>::empty());
    }
    for i in 0..prop.elements.len()
        invariant
            all == prop.elements@,
            f == (|e: IndiElement<F>| text_of(e)),
            text_views(out@) == all.take(i as int).filter_map(f),
    {
        proof {
            reveal(Seq::filter_map);
            assert(all.take(i as int + 1).drop_last() =~= all.take(i as int));
            assert(all.take(i as int + 1).last() == all[i as int]);
            assert(f(all[i as int]) == text_of(all[i as int]));
        }
        let ghost before = out@;
        match &prop.elements[i].value {
            IndiValue::Text(t) => {
                let pair: (String, String) = (prop.elements[i].name.clone(), t.clone());
                out.push(pair);
                assert(text_views(out@) =~= text_views(before) + seq![(pair.0@, pair.1@)]);
            },
            _ => {},
        }
    }
    assert(all.take(all.len() as int) =~= all);
    out
}

// ---------------------------------------------------------------------------
// Rows

/// Does a property show as a single combo? A vector of switches of which
/// exactly one is on does; vectors are homogeneous, so the first element tells
/// the type.
pub open spec fn is_choice<F>(p: IndiProperty<F>) -> bool {
    p.elements@.len() > 0 && p.elements@[0].value is Switch && p.rule == Some(
        SwitchRule::OneOfMany,
    )
}

/// Is an element a switch that is on?
pub open spec fn is_on<F>(e: IndiElement<F>) -> bool {
    e.value == IndiValue::<F>::Switch(true)
}

/// Are these the elements with the `i`th switch picked: on, all others off?
pub open spec fn picked<F>(
    before: Seq<IndiElement<F>>,
    after: Seq<IndiElement<F>>,
    i: int,
) -> bool {
    &&& after.len() == before.len()
    &&& forall|j: int|
        0 <= j < before.len() ==> (#[trigger] after[j]) == (IndiElement {
            value: IndiValue::<F>::Switch(j == i),
            ..before[j]
        })
}

/// Does the `i`th element of a property show as a checkbox?
pub open spec fn has_checkbox<F>(p: IndiProperty<F>, i: int) -> bool {
    p.perm != PropPerm::Ro && !is_choice(p) && p.elements@[i].value is Switch
}

/// Does the `i`th element of a property show as a number field?
pub open spec fn has_number_field<F>(p: IndiProperty<F>, i: int) -> bool {
    p.perm != PropPerm::Ro && !is_choice(p) && p.elements@[i].value is Number
}

/// A number with the same limits and another value.
pub open spec fn with_value<F>(n: IndiValue<F>, value: F) -> IndiValue<F> {
    match n {
        IndiValue::Number { min, max, step, .. } => IndiValue::Number { value, min, max, step },
        other => other,
    }
}

/// Does a command write all switches of a property as they stand?
pub open spec fn writes_switches<F>(c: IndiCmd<F>, p: IndiProperty<F>) -> bool {
    match c {
        IndiCmd::SetSwitch { device, property, values } => device@ == p.device@ && property@
            == p.name@ && switch_views(values@) == switches(p),
        _ => false,
    }
}

/// Does a command write all numbers of a property as they stand?
pub open spec fn writes_numbers<F>(c: IndiCmd<F>, p: IndiProperty<F>) -> bool {
    match c {
        IndiCmd::SetNumber { device, property, values } => device@ == p.device@ && property@
            == p.name@ && number_views(values@) == numbers(p),
        _ => false,
    }
}

/// Does a command write all texts of a property as they stand?
pub open spec fn writes_texts<F>(c: IndiCmd<F>, p: IndiProperty<F>) -> bool {
    match c {
        IndiCmd::SetText { device, property, values } => device@ == p.device@ && property@
            == p.name@ && text_views(values@) == text_values(p),
        _ => false,
    }
}

impl<F: Copy> IndiProperty<F> {
    /// The command that writes all switches of this property; none for one that is
    /// read-only.
    pub fn switch_write(&self) -> (r: Option<IndiCmd<F>>)
        ensures
            match r {
                Some(cmd) => self.perm != PropPerm::Ro && writes_switches(cmd, *self),
                None => self.perm == PropPerm::Ro,
            },
    {
        if !self.writable() {
            return None;
        }
        Some(
            IndiCmd::SetSwitch {
                device: self.device.clone(),
                property: self.name.clone(),
                values: indi_switch_payload(self),
            },
        )
    }

    /// The command that writes all numbers of this property; none for one that is
    /// read-only.
    pub fn number_write(&self) -> (r: Option<IndiCmd<F>>)
        ensures
            match r {
                Some(cmd) => self.perm != PropPerm::Ro && writes_numbers(cmd, *self),
                None => self.perm == PropPerm::Ro,
            },
    {
        if !self.writable() {
            return None;
        }
        Some(
            IndiCmd::SetNumber {
                device: self.device.clone(),
                property: self.name.clone(),
                values: indi_number_payload(self),
            },
        )
    }

    /// The command that writes all texts of this property; none for one that is
    /// read-only.
    pub fn text_write(&self) -> (r: Option<IndiCmd<F>>)
        ensures
            match r {
                Some(cmd) => self.perm != PropPerm::Ro && writes_texts(cmd, *self),
                None => self.perm == PropPerm::Ro,
            },
    {
        if !self.writable() {
            return None;
        }
        Some(
            IndiCmd::SetText {
                device: self.device.clone(),
                property: self.name.clone(),
                values: indi_text_payload(self),
            },
        )
    }

    /// A text field lost the focus with `typed` in it. Only Enter (`entered`)
    /// with a text that differs from the present one takes it over and writes
    /// the whole vector, so half-typed values never go out. A read-only text
    /// has no field, and stays as it is.
    pub fn end_text_edit(&mut self, i: usize, typed: &str, entered: bool) -> (r: Option<IndiCmd<F>>)
        requires
            i < old(self).elements.len(),
            old(self).elements@[i as int].value is Text,
        ensures
            old(self).perm == PropPerm::Ro ==> r is None && *final(self) == *old(self),
            old(self).perm != PropPerm::Ro && entered && typed@ != old(
                self,
            ).elements@[i as int].value->Text_0@ ==> {
                &&& r is Some
                &&& writes_texts(r->0, *final(self))
                &&& final(self).elements@.len() == old(self).elements@.len()
                &&& final(self).elements@[i as int].value is Text
                &&& final(self).elements@[i as int].value->Text_0@ == typed@
                &&& final(self).elements@ == old(self).elements@.update(
                    i as int,
                    IndiElement {
                        value: final(self).elements@[i as int].value,
                        ..old(self).elements@[i as int]
                    },
                )
                &&& *final(self) == (IndiProperty {
                    elements: final(self).elements,
                    ..*old(self)
                })
            },
            !(entered && typed@ != old(self).elements@[i as int].value->Text_0@) ==> r is None
                && *final(self) == *old(self),
    {
        let same: bool = match &self.elements[i].value {
            IndiValue::Text(t) => text::same_text(t.as_str(), typed),
            _ => true,
        };
        if !self.writable() || !entered || same {
            return None;
        }
        let name: String = self.elements[i].name.clone();
        let label: String = self.elements[i].label.clone();
        let value: IndiValue<F> = IndiValue::Text(typed.to_string());
        self.elements.set(i, IndiElement { name, label, value });
        self.text_write()
    }

    /// May the user change this property?
    pub fn writable(&self) -> (r: bool)
        ensures
            r == (self.perm != PropPerm::Ro),
    {
        match self.perm {
            PropPerm::Ro => false,
            _ => true,
        }
    }

    /// Does this property show as a single combo?
    pub fn shows_as_choice(&self) -> (r: bool)
        ensures
            r == is_choice(*self),
    {
        if self.elements.len() == 0 {
            return false;
        }
        let one: bool = match self.rule {
            Some(SwitchRule::OneOfMany) => true,
            _ => false,
        };
        match &self.elements[0].value {
            IndiValue::Switch(_) => one,
            _ => false,
        }
    }

    /// The first switch that is on.
    pub fn selected(&self) -> (r: Option<usize>)
        ensures
            match r {
                Some(i) => i < self.elements.len() && is_on(self.elements@[i as int]) && forall|
                    j: int,
                |
                    0 <= j < i ==> !is_on(#[trigger] self.elements@[j]),
                None => forall|j: int|
                    0 <= j < self.elements@.len() ==> !is_on(#[trigger] self.elements@[j]),
            },
    {
        for i in 0..self.elements.len()
            invariant
                forall|j: int| 0 <= j < i ==> !is_on(#[trigger] self.elements@[j]),
        {
            let on: bool = match &self.elements[i].value {
                IndiValue::Switch(v) => *v,
                _ => false,
            };
            if on {
                return Some(i);
            }
        }
        None
    }

    /// The label of the first switch that is on; empty where none is.
    pub fn selected_label(&self) -> (r: String)
        ensures
            (exists|i: int|
                0 <= i < self.elements@.len() && is_on(#[trigger] self.elements@[i]) && (forall|
                    j: int,
                |
                    0 <= j < i ==> !is_on(#[trigger] self.elements@[j])) && r@
                    == self.elements@[i].label@) || (r@.len() == 0 && forall|j: int|
                0 <= j < self.elements@.len() ==> !is_on(#[trigger] self.elements@[j])),
    {
        match self.selected() {
            Some(i) => {
                assert(is_on(self.elements@[i as int]));
                self.elements[i].label.clone()
            },
            None => String::new(),
        }
    }

    /// Picks one of many: the `i`th switch goes on, all others off. The result
    /// writes the whole vector. Only a writable property that shows as a combo
    /// can be picked from; any other stays as it is.
    pub fn pick_one(&mut self, i: usize) -> (r: Option<IndiCmd<F>>)
        requires
            i < old(self).elements.len(),
        ensures
            old(self).perm == PropPerm::Ro || !is_choice(*old(self)) ==> r is None && *final(self)
                == *old(self),
            old(self).perm != PropPerm::Ro && is_choice(*old(self)) ==> {
                &&& picked(old(self).elements@, final(self).elements@, i as int)
                &&& *final(self) == (IndiProperty { elements: final(self).elements, ..*old(self) })
                &&& r is Some
                &&& writes_switches(r->0, *final(self))
            },
    {
        if !self.writable() || !self.shows_as_choice() {
            return None;
        }
        let ghost before = *self;
        let n: usize = self.elements.len();
        for j in 0..n
            invariant
                n == before.elements@.len(),
                self.elements@.len() == n,
                *self == (IndiProperty { elements: self.elements, ..before }),
                forall|k: int|
                    0 <= k < j ==> (#[trigger] self.elements@[k]) == (IndiElement {
                        value: IndiValue::<F>::Switch(k == i),
                        ..before.elements@[k]
                    }),
                forall|k: int|
                    j <= k < n ==> (#[trigger] self.elements@[k]) == before.elements@[k],
        {
            let name: String = self.elements[j].name.clone();
            let label: String = self.elements[j].label.clone();
            self.elements.set(j, IndiElement { name, label, value: IndiValue::Switch(j == i) });
        }
        self.switch_write()
    }

    /// The label of the `i`th row: the property's own where there is one
    /// element or the element is named like the property, else both.
    pub fn row_label(&self, i: usize) -> (r: String)
        requires
            i < self.elements.len(),
        ensures
            r@ == (if self.elements@.len() == 1 || self.elements@[i as int].label@ == self.label@ {
                self.label@
            } else {
                self.label@ + " \u{b7} "@ + self.elements@[i as int].label@
            }),
    {
        if self.elements.len() == 1 || text::same_text(
            self.elements[i].label.as_str(),
            self.label.as_str(),
        ) {
            self.label.clone()
        } else {
            text::join3(self.label.as_str(), " \u{b7} ", self.elements[i].label.as_str())
        }
    }

    /// The hover text of the `i`th row: property and element by their names.
    pub fn row_hover(&self, i: usize) -> (r: String)
        requires
            i < self.elements.len(),
        ensures
            r@ == self.name@ + "."@ + self.elements@[i as int].name@,
    {
        text::join3(self.name.as_str(), ".", self.elements[i].name.as_str())
    }

    /// Sets the `i`th switch by its checkbox; the result writes the whole
    /// vector. What shows no checkbox there stays as it is: a read-only
    /// property, one that shows as a combo, an element that is no switch.
    pub fn set_switch(&mut self, i: usize, on: bool) -> (r: Option<IndiCmd<F>>)
        requires
            i < old(self).elements.len(),
        ensures
            !has_checkbox(*old(self), i as int) ==> r is None && *final(self) == *old(self),
            has_checkbox(*old(self), i as int) ==> {
                &&& final(self).elements@ == old(self).elements@.update(
                    i as int,
                    IndiElement {
                        value: IndiValue::<F>::Switch(on),
                        ..old(self).elements@[i as int]
                    },
                )
                &&& *final(self) == (IndiProperty { elements: final(self).elements, ..*old(self) })
                &&& r is Some
                &&& writes_switches(r->0, *final(self))
            },
    {
        let is_switch: bool = match &self.elements[i].value {
            IndiValue::Switch(_) => true,
            _ => false,
        };
        if !self.writable() || self.shows_as_choice() || !is_switch {
            return None;
        }
        let name: String = self.elements[i].name.clone();
        let label: String = self.elements[i].label.clone();
        self.elements.set(i, IndiElement { name, label, value: IndiValue::Switch(on) });
        self.switch_write()
    }

    /// Takes over what the field of the `i`th number holds. Nothing is sent
    /// yet: [`IndiProperty::number_write`] does so once the edit is over. What
    /// shows no field there stays as it is.
    pub fn set_number(&mut self, i: usize, value: F)
        requires
            i < old(self).elements.len(),
        ensures
            !has_number_field(*old(self), i as int) ==> *final(self) == *old(self),
            has_number_field(*old(self), i as int) ==> {
                &&& final(self).elements@ == old(self).elements@.update(
                    i as int,
                    IndiElement {
                        value: with_value(old(self).elements@[i as int].value, value),
                        ..old(self).elements@[i as int]
                    },
                )
                &&& *final(self) == (IndiProperty { elements: final(self).elements, ..*old(self) })
            },
    {
        if !self.writable() || self.shows_as_choice() {
            return;
        }
        let edited: IndiValue<F> = match &self.elements[i].value {
            IndiValue::Number { min, max, step, .. } => IndiValue::Number {
                value,
                min: *min,
                max: *max,
                step: *step,
            },
            _ => {
                return;
            },
        };
        let name: String = self.elements[i].name.clone();
        let label: String = self.elements[i].label.clone();
        self.elements.set(i, IndiElement { name, label, value: edited });
    }

    /// The limits of the `i`th number's field: those of the number where they
    /// span a range, else none. `less` says whether a number is less than
    /// another.
    pub fn number_limits<L: Fn(F, F) -> bool>(&self, i: usize, less: L) -> (r: Option<(F, F)>)
        requires
            i < self.elements.len(),
            forall|a: F, b: F| call_requires(less, (a, b)),
        ensures
            match self.elements@[i as int].value {
                IndiValue::Number { min, max, .. } => match r {
                    Some(limits) => call_ensures(less, (min, max), true) && limits == (min, max),
                    None => call_ensures(less, (min, max), false),
                },
                _ => r is None,
            },
    {
        match &self.elements[i].value {
            IndiValue::Number { min, max, .. } => {
                if less(*min, *max) {
                    Some((*min, *max))
                } else {
                    None
                }
            },
            _ => None,
        }
    }

    /// Does this property pass the filter? An empty filter passes everything;
    /// any other searches labels and names, whatever their case.
    pub fn matches(&self, filter: &str) -> (r: bool)
        ensures
            r == passes(*self, filter@),
    {
        if filter.is_empty() {
            return true;
        }
        let label: String = text::to_lowercase(self.label.as_str());
        if text::contains(label.as_str(), filter) {
            return true;
        }
        let name: String = text::to_lowercase(self.name.as_str());
        if text::contains(name.as_str(), filter) {
            return true;
        }
        for i in 0..self.elements.len()
            invariant
                forall|j: int|
                    0 <= j < i ==> !text::has_substring(
                        text::lowercased((#[trigger] self.elements@[j]).label@),
                        filter@,
                    ),
                !text::has_substring(text::lowercased(self.label@), filter@),
                !text::has_substring(text::lowercased(self.name@), filter@),
                filter@.len() > 0,
        {
            let l: String = text::to_lowercase(self.elements[i].label.as_str());
            if text::contains(l.as_str(), filter) {
                assert(text::has_substring(
                    text::lowercased(self.elements@[i as int].label@),
                    filter@,
                ));
                return true;
            }
        }
        false
    }
}

/// Does a property pass the filter?
pub open spec fn passes<F>(p: IndiProperty<F>, filter: Seq<char>) -> bool {
    ||| filter.len() == 0
    ||| text::has_substring(text::lowercased(p.label@), filter)
    ||| text::has_substring(text::lowercased(p.name@), filter)
    ||| exists|i: int|
        0 <= i < p.elements@.len() && text::has_substring(
            text::lowercased((#[trigger] p.elements@[i]).label@),
            filter,
        )
}

/// After picking one of many, exactly that switch is on.
pub proof fn law_pick_leaves_one_on<F>(before: Seq<IndiElement<F>>, after: Seq<IndiElement<F>>, i: int)
    requires
        0 <= i < before.len(),
        picked(before, after, i),
    ensures
        forall|j: int| 0 <= j < after.len() ==> is_on(#[trigger] after[j]) == (j == i),
{
}

/// The text of a binary element.
pub fn blob_text(format: &str, size: u64) -> (r: String)
    ensures
        r@ == (if size > 0 {
            format@ + " ("@ + text::decimal(size as int) + " bytes)"@
        } else if format@.len() == 0 {
            "\u{2014}"@
        } else {
            format@
        }),
{
    if size > 0 {
        let n: String = text::int_text(size as i128);
        text::join4(format, " (", n.as_str(), " bytes)")
    } else if format.is_empty() {
        "\u{2014}".to_string()
    } else {
        format.to_string()
    }
}

/// A truth value as text.
pub fn switch_text(on: bool) -> (r: &'static str)
    ensures
        r == (if on {
            "On"
        } else {
            "Off"
        }),
{
    if on {
        "On"
    } else {
        "Off"
    }
}

// ---------------------------------------------------------------------------
// Devices

/// Where the first property with a name stands; the number of properties where
/// there is none.
pub open spec fn property_index<F>(props: Seq<IndiProperty<F>>, name: Seq<char>) -> int
    decreases props.len(),
{
    if props.len() == 0 {
        0
    } else if props[0].name@ == name {
        0
    } else {
        1 + property_index(props.skip(1), name)
    }
}

/// The device that the picker starts with: the first with a connection
/// property (skipping virtual server devices), else the first there is.
pub open spec fn default_device_of<F>(props: Seq<IndiProperty<F>>) -> Option<Seq<char>> {
    let i = property_index(props, "CONNECTION"@);
    if i < props.len() {
        Some(props[i].device@)
    } else if props.len() > 0 {
        Some(props[0].device@)
    } else {
        None
    }
}

/// The device that the picker starts with.
pub fn default_device<F>(props: &Vec<IndiProperty<F>>) -> (r: Option<String>)
    ensures
        match r {
            Some(d) => default_device_of(props@) == Some(d@),
            None => default_device_of(props@) is None,
        },
{
    assert(props@.skip(0) =~= props@);
    let mut i: usize = 0;
    while i < props.len()
        invariant
            i <= props.len(),
            i + property_index(props@.skip(i as int), "CONNECTION"@) == property_index(
                props@,
                "CONNECTION"@,
            ),
        decreases props.len() - i,
    {
        if text::same_text(props[i].name.as_str(), "CONNECTION") {
            return Some(props[i].device.clone());
        }
        assert(props@.skip(i as int).skip(1) =~= props@.skip(i + 1));
        i = i + 1;
    }
    if props.len() > 0 {
        Some(props[0].device.clone())
    } else {
        None
    }
}

/// The devices, in the order in which they are first seen.
pub fn devices<F>(props: &Vec<IndiProperty<F>>) -> (r: Vec<String>)
    ensures
        text::texts(r@) == text::first_seen(
            props@.map_values(|p: IndiProperty<F>| p.device@),
        ),
{
    let ghost all = props@.map_values(|p: IndiProperty<F>| p.device@);
    let mut out: Vec<String> = Vec::new();
    assert(text::texts(out@) =~= Seq::<Seq<char>>::empty());
    assert(all.take(0) =~= Seq::<Seq<char>>::empty());
    for i in 0..props.len()
        invariant
            all == props@.map_values(|p: IndiProperty<F>| p.device@),
            text::texts(out@) == text::first_seen(all.take(i as int)),
    {
        assert(all.take(i as int + 1).drop_last() =~= all.take(i as int));
        assert(all.take(i as int + 1).last() == props@[i as int].device@);
        text::push_new(&mut out, props[i].device.as_str());
    }
    assert(all.take(all.len() as int) =~= all);
    out
}

/// The groups of a device's properties, one per property of it.
pub open spec fn group_list<F>(props: Seq<IndiProperty<F>>, device: Seq<char>) -> Seq<Seq<char>> {
    props.filter(|p: IndiProperty<F>| p.device@ == device).map_values(
        |p: IndiProperty<F>| p.group@,
    )
}

/// The groups of a device's properties, in the order in which they are first
/// seen.
pub fn groups<F>(props: &Vec<IndiProperty<F>>, device: &str) -> (r: Vec<String>)
    ensures
        text::texts(r@) == text::first_seen(group_list(props@, device@)),
{
    let ghost own = |p: IndiProperty<F>| p.device@ == device@;
    let ghost g = |p: IndiProperty<F>| p.group@;
    let mut out: Vec<String> = Vec::new();
    proof {
        reveal(Seq::filter);
        assert(text::texts(out@) =~= Seq::<Seq<char>>::empty());
        assert(props@.take(0) =~= Seq::<IndiProperty<F>>::empty());
        assert(props@.take(0).filter(own).map_values(g) =~= Seq::<Seq<char>>::empty());
    }
    for i in 0..props.len()
        invariant
            own == (|p: IndiProperty<F>| p.device@ == device@),
            g == (|p: IndiProperty<F>| p.group@),
            text::texts(out@) == text::first_seen(
                props@.take(i as int).filter(own).map_values(g),
            ),
    {
        proof {
            reveal(Seq::filter);
            assert(props@.take(i as int + 1).drop_last() =~= props@.take(i as int));
            assert(props@.take(i as int + 1).last() == props@[i as int]);
        }
        if text::same_text(props[i].device.as_str(), device) {
            let ghost before = props@.take(i as int).filter(own).map_values(g);
            let ghost now = props@.take(i as int + 1).filter(own).map_values(g);
            assert(now =~= before.push(props@[i as int].group@));
            assert(now.drop_last() =~= before);
            text::push_new(&mut out, props[i].group.as_str());
        }
    }
    assert(props@.take(props@.len() as int) =~= props@);
    out
}

/// Is a property shown in a group? The connection is handled elsewhere.
pub open spec fn shown_in<F>(
    p: IndiProperty<F>,
    device: Seq<char>,
    group: Seq<char>,
    filter: Seq<char>,
) -> bool {
    p.device@ == device && p.group@ == group && p.name@ != "CONNECTION"@ && passes(p, filter)
}

/// The properties shown in a group, by index and in order. A group without any
/// is not shown.
pub fn group_rows<F: Copy>(
    props: &Vec<IndiProperty<F>>,
    device: &str,
    group: &str,
    filter: &str,
) -> (r: Vec<usize>)
    ensures
        forall|k: int| 0 <= k < r.len() ==> (#[trigger] r@[k]) < props.len(),
        r@.map_values(|i: usize| props@[i as int]) == props@.filter(
            |p: IndiProperty<F>| shown_in(p, device@, group@, filter@),
        ),
{
    let ghost pick = |p: IndiProperty<F>| shown_in(p, device@, group@, filter@);
    let ghost at = |i: usize| props@[i as int];
    let mut out: Vec<usize> = Vec::new();
    proof {
        reveal(Seq::filter);
        assert(props@.take(0) =~= Seq::<IndiProperty<F>>::empty());
        assert(out@.map_values(at) =~= Seq::<IndiProperty<F>>::empty());
    }
    for i in 0..props.len()
        invariant
            pick == (|p: IndiProperty<F>| shown_in(p, device@, group@, filter@)),
            at == (|i: usize| props@[i as int]),
            forall|k: int| 0 <= k < out.len() ==> (#[trigger] out@[k]) < props.len(),
            out@.map_values(at) == props@.take(i as int).filter(pick),
    {
        proof {
            reveal(Seq::filter);
            assert(props@.take(i as int + 1).drop_last() =~= props@.take(i as int));
            assert(props@.take(i as int + 1).last() == props@[i as int]);
        }
        let p: &IndiProperty<F> = &props[i];
        if text::same_text(p.device.as_str(), device) && text::same_text(p.group.as_str(), group)
            && !text::same_text(p.name.as_str(), "CONNECTION") && p.matches(filter) {
            let ghost before = out@;
            out.push(i);
            assert(out@.map_values(at) =~= before.map_values(at).push(props@[i as int]));
        }
    }
    assert(props@.take(props@.len() as int) =~= props@);
    out
}

/// The title of a group; one without a name is called "Other".
pub fn group_title(group: &str) -> (r: String)
    ensures
        r@ == (if group@.len() == 0 {
            "Other"@
        } else {
            group@
        }),
{
    if group.is_empty() {
        "Other".to_string()
    } else {
        group.to_string()
    }
}

/// Does a group show expanded by default?
pub fn group_default_open(group: &str) -> (r: bool)
    ensures
        r == text::has_substring(group@, "Main"@),
{
    text::contains(group, "Main")
}

/// What a filter text searches for.
pub fn filter_text(entered: &str) -> (r: String)
    ensures
        r@ == gev::filter_of(entered@),
{
    gev::filter_text(entered)
}

// ---------------------------------------------------------------------------
// The device row and captures

/// Is this the connection property of a device?
pub open spec fn is_connection_of<F>(p: IndiProperty<F>, device: Seq<char>) -> bool {
    p.device@ == device && p.name@ == "CONNECTION"@
}

/// Does an element with this name stand for "connected"? The name differs by
/// dialect: `CONNECT` in INDI, `CONNECTED` in INDIGO.
pub open spec fn is_connect_name(name: Seq<char>) -> bool {
    name == "CONNECT"@ || name == "CONNECTED"@
}

/// Where the connection property of a device stands: the first there is.
pub fn find_connection<F>(props: &Vec<IndiProperty<F>>, device: &str) -> (r: Option<usize>)
    ensures
        match r {
            Some(i) => i < props.len() && is_connection_of(props@[i as int], device@) && forall|
                j: int,
            |
                0 <= j < i ==> !is_connection_of(#[trigger] props@[j], device@),
            None => forall|j: int|
                0 <= j < props.len() ==> !is_connection_of(#[trigger] props@[j], device@),
        },
{
    for i in 0..props.len()
        invariant
            forall|j: int| 0 <= j < i ==> !is_connection_of(#[trigger] props@[j], device@),
    {
        if text::same_text(props[i].device.as_str(), device) && text::same_text(
            props[i].name.as_str(),
            "CONNECTION",
        ) {
            return Some(i);
        }
    }
    None
}

/// Does a connection property report its device as connected?
pub open spec fn reports_connected<F>(p: IndiProperty<F>) -> bool {
    exists|i: int|
        0 <= i < p.elements@.len() && is_connect_name((#[trigger] p.elements@[i]).name@) && is_on(
            p.elements@[i],
        )
}

/// Does a connection property use INDIGO's item names?
pub open spec fn uses_indigo_names<F>(p: IndiProperty<F>) -> bool {
    exists|i: int|
        0 <= i < p.elements@.len() && (#[trigger] p.elements@[i]).name@ == "CONNECTED"@
}

/// Is a device connected?
pub open spec fn device_connected<F>(props: Seq<IndiProperty<F>>, device: Seq<char>) -> bool {
    exists|i: int|
        0 <= i < props.len() && is_connection_of(#[trigger] props[i], device) && reports_connected(
            props[i],
        ) && forall|j: int| 0 <= j < i ==> !is_connection_of(#[trigger] props[j], device)
}

/// Does a device's connection property use INDIGO's item names?
pub open spec fn device_is_indigo<F>(props: Seq<IndiProperty<F>>, device: Seq<char>) -> bool {
    exists|i: int|
        0 <= i < props.len() && is_connection_of(#[trigger] props[i], device) && uses_indigo_names(
            props[i],
        ) && forall|j: int| 0 <= j < i ==> !is_connection_of(#[trigger] props[j], device)
}

/// Is a device connected? One without a connection property is not.
pub fn is_connected<F: Copy>(props: &Vec<IndiProperty<F>>, device: &str) -> (r: bool)
    ensures
        r == device_connected(props@, device@),
{
    let at: usize = match find_connection(props, device) {
        Some(i) => i,
        None => {
            return false;
        },
    };
    let p: &IndiProperty<F> = &props[at];
    for i in 0..p.elements.len()
        invariant
            at < props.len(),
            *p == props@[at as int],
            is_connection_of(props@[at as int], device@),
            forall|j: int| 0 <= j < at ==> !is_connection_of(#[trigger] props@[j], device@),
            forall|j: int|
                0 <= j < i ==> !(is_connect_name((#[trigger] p.elements@[j]).name@) && is_on(
                    p.elements@[j],
                )),
    {
        let on: bool = match &p.elements[i].value {
            IndiValue::Switch(v) => *v,
            _ => false,
        };
        if on && (text::same_text(p.elements[i].name.as_str(), "CONNECT") || text::same_text(
            p.elements[i].name.as_str(),
            "CONNECTED",
        )) {
            assert(is_connect_name(p.elements@[i as int].name@) && is_on(p.elements@[i as int]));
            assert(reports_connected(props@[at as int]));
            return true;
        }
    }
    assert(!reports_connected(props@[at as int]));
    assert forall|i: int|
        0 <= i < props.len() && is_connection_of(#[trigger] props@[i], device@) && forall|j: int|
            0 <= j < i ==> !is_connection_of(#[trigger] props@[j], device@) implies i == at by {}
    false
}

/// Does a device use INDIGO's names for its connection items?
pub fn is_indigo<F: Copy>(props: &Vec<IndiProperty<F>>, device: &str) -> (r: bool)
    ensures
        r == device_is_indigo(props@, device@),
{
    let at: usize = match find_connection(props, device) {
        Some(i) => i,
        None => {
            return false;
        },
    };
    let p: &IndiProperty<F> = &props[at];
    for i in 0..p.elements.len()
        invariant
            at < props.len(),
            *p == props@[at as int],
            is_connection_of(props@[at as int], device@),
            forall|j: int| 0 <= j < at ==> !is_connection_of(#[trigger] props@[j], device@),
            forall|j: int| 0 <= j < i ==> (#[trigger] p.elements@[j]).name@ != "CONNECTED"@,
    {
        if text::same_text(p.elements[i].name.as_str(), "CONNECTED") {
            assert(p.elements@[i as int].name@ == "CONNECTED"@);
            assert(uses_indigo_names(props@[at as int]));
            return true;
        }
    }
    assert(!uses_indigo_names(props@[at as int]));
    assert forall|i: int|
        0 <= i < props.len() && is_connection_of(#[trigger] props@[i], device@) && forall|j: int|
            0 <= j < i ==> !is_connection_of(#[trigger] props@[j], device@) implies i == at by {}
    false
}

/// The command that disconnects a device: its "connected" item goes off, the
/// other on, under the names that the device uses.
pub fn disconnect<F: Copy>(props: &Vec<IndiProperty<F>>, device: &str) -> (r: IndiCmd<F>)
    ensures
        match r {
            IndiCmd::SetSwitch { device: d, property, values } => d@ == device@ && property@
                == "CONNECTION"@ && switch_views(values@) == (if device_is_indigo(
                props@,
                device@,
            ) {
                seq![("CONNECTED"@, false), ("DISCONNECTED"@, true)]
            } else {
                seq![("CONNECT"@, false), ("DISCONNECT"@, true)]
            }),
            _ => false,
        },
{
    let mut values: Vec<(String, bool)> = Vec::new();
    if is_indigo(props, device) {
        values.push(("CONNECTED".to_string(), false));
        values.push(("DISCONNECTED".to_string(), true));
        assert(switch_views(values@) =~= seq![("CONNECTED"@, false), ("DISCONNECTED"@, true)]);
    } else {
        values.push(("CONNECT".to_string(), false));
        values.push(("DISCONNECT".to_string(), true));
        assert(switch_views(values@) =~= seq![("CONNECT"@, false), ("DISCONNECT"@, true)]);
    }
    IndiCmd::SetSwitch { device: device.to_string(), property: "CONNECTION".to_string(), values }
}

/// Does a command ask for a device's image data?
pub open spec fn asks_for_blobs<F>(c: IndiCmd<F>, d: Seq<char>) -> bool {
    match c {
        IndiCmd::EnableBlob { device } => device@ == d,
        _ => false,
    }
}

/// The commands that connect a device and ask for its images.
pub fn connect<F>(device: &str) -> (r: Vec<IndiCmd<F>>)
    ensures
        r.len() == 2,
        match r@[0] {
            IndiCmd::Connect { device: d } => d@ == device@,
            _ => false,
        },
        asks_for_blobs(r@[1], device@),
{
    let mut out: Vec<IndiCmd<F>> = Vec::new();
    out.push(IndiCmd::Connect { device: device.to_string() });
    out.push(IndiCmd::EnableBlob { device: device.to_string() });
    out
}

/// What the capture controls of an INDI connection hold.
pub struct IndiCapture<F> {
    pub device: String,
    pub exposure: F,
    pub live: bool,
}

impl<F: Copy> IndiCapture<F> {
    /// Starts an exposure: a single one, or a live sequence in which each
    /// received frame triggers the next exposure.
    pub fn expose(&mut self, live: bool) -> (r: Vec<IndiCmd<F>>)
        requires
            !old(self).live,
        ensures
            *final(self) == (IndiCapture { live, ..*old(self) }),
            r.len() == 2,
            asks_for_blobs(r@[0], old(self).device@),
            match r@[1] {
                IndiCmd::StartExposure { device, seconds, live: l } => device@
                    == old(self).device@ && seconds == old(self).exposure && l == live,
                _ => false,
            },
    {
        self.live = live;
        let mut out: Vec<IndiCmd<F>> = Vec::new();
        out.push(IndiCmd::EnableBlob { device: self.device.clone() });
        out.push(
            IndiCmd::StartExposure { device: self.device.clone(), seconds: self.exposure, live },
        );
        out
    }

    /// Ends a live sequence.
    pub fn stop_live(&mut self) -> (r: IndiCmd<F>)
        requires
            old(self).live,
        ensures
            *final(self) == (IndiCapture { live: false, ..*old(self) }),
            r == IndiCmd::<F>::StopLive,
    {
        self.live = false;
        IndiCmd::StopLive
    }

    /// New properties came in: while no device is chosen yet, the default one
    /// is.
    pub fn choose_device(&mut self, props: &Vec<IndiProperty<F>>)
        ensures
            final(self).device@ == (if old(self).device@.len() == 0
                && default_device_of(props@) is Some {
                default_device_of(props@)->0
            } else {
                old(self).device@
            }),
            *final(self) == (IndiCapture { device: final(self).device, ..*old(self) }),
    {
        if self.device.as_str().is_empty() {
            match default_device(props) {
                Some(d) => {
                    self.device = d;
                },
                None => {},
            }
        }
    }
}

/// Is a device exposing right now?
pub fn is_exposing<F>(props: &Vec<IndiProperty<F>>, device: &str) -> (r: bool)
    ensures
        r == exists|i: int|
            0 <= i < props.len() && (#[trigger] props@[i]).device@ == device@ && props@[i].name@
                == "CCD_EXPOSURE"@ && props@[i].state == PropState::Busy,
{
    for i in 0..props.len()
        invariant
            forall|j: int|
                0 <= j < i ==> !((#[trigger] props@[j]).device@ == device@ && props@[j].name@
                    == "CCD_EXPOSURE"@ && props@[j].state == PropState::Busy),
    {
        if text::same_text(props[i].device.as_str(), device) && text::same_text(
            props[i].name.as_str(),
            "CCD_EXPOSURE",
        ) && props[i].state == PropState::Busy {
            assert(props@[i as int].device@ == device@);
            return true;
        }
    }
    false
}

// ---------------------------------------------------------------------------
// Laws

/// What picking parts out of a list gives where every item has one.
proof fn lemma_all_picked<A, B>(s: Seq<A>, f: spec_fn(A) -> Option<B>)
    requires
        forall|i: int| 0 <= i < s.len() ==> f(#[trigger] s[i]) is Some,
    ensures
        s.filter_map(f).len() == s.len(),
        forall|i: int| 0 <= i < s.len() ==> Some(#[trigger] s.filter_map(f)[i]) == f(s[i]),
    decreases s.len(),
{
    reveal(Seq::filter_map);
    if s.len() > 0 {
        let w = s.drop_last();
        assert forall|i: int| 0 <= i < w.len() implies f(#[trigger] w[i]) is Some by {
            assert(w[i] == s[i]);
        }
        lemma_all_picked(w, f);
        assert(f(s[s.len() - 1]) is Some);
        assert forall|i: int| 0 <= i < s.len() implies Some(#[trigger] s.filter_map(f)[i]) == f(
            s[i],
        ) by {
            if i < w.len() {
                assert(s.filter_map(f)[i] == w.filter_map(f)[i]);
                assert(w[i] == s[i]);
            }
        }
    }
}

/// A part that is picked out of a list belongs to one of its items, and every
/// item that has one is there.
proof fn lemma_picked_parts<A, B>(s: Seq<A>, f: spec_fn(A) -> Option<B>, x: B)
    ensures
        s.filter_map(f).contains(x) <==> exists|i: int|
            0 <= i < s.len() && f(#[trigger] s[i]) == Some(x),
    decreases s.len(),
{
    reveal(Seq::filter_map);
    if s.len() > 0 {
        let w = s.drop_last();
        lemma_picked_parts(w, f, x);
        let got = s.filter_map(f);
        let head = w.filter_map(f);
        if got.contains(x) {
            let k = choose|k: int| 0 <= k < got.len() && got[k] == x;
            if k < head.len() {
                assert(head[k] == x);
                assert(head.contains(x));
                let i = choose|i: int| 0 <= i < w.len() && f(#[trigger] w[i]) == Some(x);
                assert(s[i] == w[i]);
            } else {
                assert(f(s[s.len() - 1]) == Some(x));
            }
        }
        if exists|i: int| 0 <= i < s.len() && f(#[trigger] s[i]) == Some(x) {
            let i = choose|i: int| 0 <= i < s.len() && f(#[trigger] s[i]) == Some(x);
            if i < w.len() {
                assert(w[i] == s[i]);
                let k = choose|k: int| 0 <= k < head.len() && head[k] == x;
                assert(got[k] == x);
            } else {
                assert(got[head.len() as int] == x);
            }
        }
    }
}

/// Are all elements of a property switches?
pub open spec fn all_switches<F>(p: IndiProperty<F>) -> bool {
    forall|i: int| 0 <= i < p.elements.len() ==> (#[trigger] p.elements@[i]).value is Switch
}

/// Are all elements of a property numbers?
pub open spec fn all_numbers<F>(p: IndiProperty<F>) -> bool {
    forall|i: int| 0 <= i < p.elements.len() ==> (#[trigger] p.elements@[i]).value is Number
}

/// Are all elements of a property texts?
pub open spec fn all_texts<F>(p: IndiProperty<F>) -> bool {
    forall|i: int| 0 <= i < p.elements.len() ==> (#[trigger] p.elements@[i]).value is Text
}

/// Does a command set every switch of a property, by its name and in order, to
/// what it stands at?
pub open spec fn sets_each_switch<F>(c: IndiCmd<F>, p: IndiProperty<F>) -> bool {
    match c {
        IndiCmd::SetSwitch { device, property, values } => {
            &&& device@ == p.device@
            &&& property@ == p.name@
            &&& values.len() == p.elements.len()
            &&& forall|i: int|
                0 <= i < values.len() ==> (#[trigger] values@[i]).0@ == p.elements@[i].name@
                    && p.elements@[i].value == IndiValue::<F>::Switch(values@[i].1)
        },
        _ => false,
    }
}

/// Does a command set every number of a property, by its name and in order, to
/// what it stands at?
pub open spec fn sets_each_number<F>(c: IndiCmd<F>, p: IndiProperty<F>) -> bool {
    match c {
        IndiCmd::SetNumber { device, property, values } => {
            &&& device@ == p.device@
            &&& property@ == p.name@
            &&& values.len() == p.elements.len()
            &&& forall|i: int|
                0 <= i < values.len() ==> (#[trigger] values@[i]).0@ == p.elements@[i].name@
                    && p.elements@[i].value->value == values@[i].1
        },
        _ => false,
    }
}

/// Does a command set every text of a property, by its name and in order, to
/// what it reads?
pub open spec fn sets_each_text<F>(c: IndiCmd<F>, p: IndiProperty<F>) -> bool {
    match c {
        IndiCmd::SetText { device, property, values } => {
            &&& device@ == p.device@
            &&& property@ == p.name@
            &&& values.len() == p.elements.len()
            &&& forall|i: int|
                0 <= i < values.len() ==> (#[trigger] values@[i]).0@ == p.elements@[i].name@
                    && p.elements@[i].value->Text_0@ == values@[i].1@
        },
        _ => false,
    }
}

proof fn lemma_sets_switches<F>(c: IndiCmd<F>, p: IndiProperty<F>)
    requires
        all_switches(p),
        writes_switches(c, p),
    ensures
        sets_each_switch(c, p),
{
    let f = |e: IndiElement<F>| switch_of(e);
    let values = c->SetSwitch_values;
    lemma_all_picked(p.elements@, f);
    assert(switch_views(values@).len() == values.len());
    assert forall|i: int| 0 <= i < values.len() implies (#[trigger] values@[i]).0@
        == p.elements@[i].name@ && p.elements@[i].value == IndiValue::<F>::Switch(values@[i].1) by {
        assert(switch_views(values@)[i] == (values@[i].0@, values@[i].1));
        assert(Some(p.elements@.filter_map(f)[i]) == f(p.elements@[i]));
    }
}

proof fn lemma_sets_numbers<F>(c: IndiCmd<F>, p: IndiProperty<F>)
    requires
        all_numbers(p),
        writes_numbers(c, p),
    ensures
        sets_each_number(c, p),
{
    let f = |e: IndiElement<F>| number_of(e);
    let values = c->SetNumber_values;
    lemma_all_picked(p.elements@, f);
    assert(number_views(values@).len() == values.len());
    assert forall|i: int| 0 <= i < values.len() implies (#[trigger] values@[i]).0@
        == p.elements@[i].name@ && p.elements@[i].value->value == values@[i].1 by {
        assert(number_views(values@)[i] == (values@[i].0@, values@[i].1));
        assert(Some(p.elements@.filter_map(f)[i]) == f(p.elements@[i]));
    }
}

proof fn lemma_sets_texts<F>(c: IndiCmd<F>, p: IndiProperty<F>)
    requires
        all_texts(p),
        writes_texts(c, p),
    ensures
        sets_each_text(c, p),
{
    let f = |e: IndiElement<F>| text_of(e);
    let values = c->SetText_values;
    lemma_all_picked(p.elements@, f);
    assert(text_views(values@).len() == values.len());
    assert forall|i: int| 0 <= i < values.len() implies (#[trigger] values@[i]).0@
        == p.elements@[i].name@ && p.elements@[i].value->Text_0@ == values@[i].1@ by {
        assert(text_views(values@)[i] == (values@[i].0@, values@[i].1@));
        assert(Some(p.elements@.filter_map(f)[i]) == f(p.elements@[i]));
    }
}

/// A payload holds the elements of its own sort under their names, and no
/// others.
pub proof fn law_payloads_hold_their_own_sort<F: Copy>(
    p: IndiProperty<F>,
    a: Vec<(String, bool)>,
    b: Vec<(String, F)>,
    c: Vec<(String, String)>,
    i: int,
)
    requires
        call_ensures(indi_switch_payload::<F>, (&p,), a),
        call_ensures(indi_number_payload::<F>, (&p,), b),
        call_ensures(indi_text_payload::<F>, (&p,), c),
        0 <= i < p.elements.len(),
    ensures
        p.elements@[i].value matches IndiValue::Switch(on) ==> exists|k: int|
            0 <= k < a.len() && (#[trigger] a@[k]).0@ == p.elements@[i].name@ && a@[k].1 == on,
        p.elements@[i].value matches IndiValue::Number { value, .. } ==> exists|k: int|
            0 <= k < b.len() && (#[trigger] b@[k]).0@ == p.elements@[i].name@ && b@[k].1 == value,
        p.elements@[i].value matches IndiValue::Text(t) ==> exists|k: int|
            0 <= k < c.len() && (#[trigger] c@[k]).0@ == p.elements@[i].name@ && c@[k].1@ == t@,
        forall|k: int|
            0 <= k < a.len() ==> exists|j: int|
                0 <= j < p.elements.len() && (#[trigger] a@[k]).0@ == (
                #[trigger] p.elements@[j]).name@ && p.elements@[j].value == IndiValue::<F>::Switch(
                    a@[k].1,
                ),
{
    let e = p.elements@[i];
    let fa = |e: IndiElement<F>| switch_of(e);
    let fb = |e: IndiElement<F>| number_of(e);
    let fc = |e: IndiElement<F>| text_of(e);
    if let IndiValue::Switch(on) = e.value {
        lemma_picked_parts(p.elements@, fa, (e.name@, on));
        assert(fa(p.elements@[i]) == Some((e.name@, on)));
        let va = switch_views(a@);
        let k = choose|k: int| 0 <= k < va.len() && va[k] == (e.name@, on);
        assert(va[k] == (a@[k].0@, a@[k].1));
    }
    if let IndiValue::Number { value, .. } = e.value {
        lemma_picked_parts(p.elements@, fb, (e.name@, value));
        assert(fb(p.elements@[i]) == Some((e.name@, value)));
        let vb = number_views(b@);
        let k = choose|k: int| 0 <= k < vb.len() && vb[k] == (e.name@, value);
        assert(vb[k] == (b@[k].0@, b@[k].1));
    }
    if let IndiValue::Text(t) = e.value {
        lemma_picked_parts(p.elements@, fc, (e.name@, t@));
        assert(fc(p.elements@[i]) == Some((e.name@, t@)));
        let vc = text_views(c@);
        let k = choose|k: int| 0 <= k < vc.len() && vc[k] == (e.name@, t@);
        assert(vc[k] == (c@[k].0@, c@[k].1@));
    }
    assert forall|k: int| 0 <= k < a.len() implies exists|j: int|
        0 <= j < p.elements.len() && (#[trigger] a@[k]).0@ == (#[trigger] p.elements@[j]).name@
            && p.elements@[j].value == IndiValue::<F>::Switch(a@[k].1) by {
        let va = switch_views(a@);
        assert(va[k] == (a@[k].0@, a@[k].1));
        assert(va.contains(va[k]));
        lemma_picked_parts(p.elements@, fa, va[k]);
        let j = choose|j: int|
            0 <= j < p.elements@.len() && fa(#[trigger] p.elements@[j]) == Some(va[k]);
        assert(p.elements@[j].name@ == a@[k].0@);
    }
}

/// A property that may be changed is written whole, each element to what it
/// stands at; a read-only one is never written.
pub proof fn law_whole_vectors_are_written<F: Copy>(
    p: IndiProperty<F>,
    a: Option<IndiCmd<F>>,
    b: Option<IndiCmd<F>>,
    c: Option<IndiCmd<F>>,
    may: bool,
)
    requires
        call_ensures(IndiProperty::<F>::switch_write, (&p,), a),
        call_ensures(IndiProperty::<F>::number_write, (&p,), b),
        call_ensures(IndiProperty::<F>::text_write, (&p,), c),
        call_ensures(IndiProperty::<F>::writable, (&p,), may),
    ensures
        may <==> p.perm == PropPerm::Wo || p.perm == PropPerm::Rw,
        p.perm == PropPerm::Ro ==> a is None && b is None && c is None,
        p.perm != PropPerm::Ro && all_switches(p) ==> (a matches Some(cmd) && sets_each_switch(
            cmd,
            p,
        )),
        p.perm != PropPerm::Ro && all_numbers(p) ==> (b matches Some(cmd) && sets_each_number(
            cmd,
            p,
        )),
        p.perm != PropPerm::Ro && all_texts(p) ==> (c matches Some(cmd) && sets_each_text(cmd, p)),
{
    if p.perm != PropPerm::Ro {
        if all_switches(p) {
            lemma_sets_switches(a->0, p);
        }
        if all_numbers(p) {
            lemma_sets_numbers(b->0, p);
        }
        if all_texts(p) {
            lemma_sets_texts(c->0, p);
        }
    }
}

/// A property shows as a combo where its first element is a switch and exactly
/// one may be on.
pub proof fn law_one_of_many_shows_as_a_combo<F: Copy>(p: IndiProperty<F>, r: bool)
    requires
        call_ensures(IndiProperty::<F>::shows_as_choice, (&p,), r),
    ensures
        r <==> p.elements.len() > 0 && p.elements@[0].value is Switch && p.rule == Some(
            SwitchRule::OneOfMany,
        ),
{
}

/// Picking one of many turns that switch on and every other off, shows it as
/// the selected one, and writes all of them.
pub proof fn law_picked_switch_is_the_selected_one<F: Copy>(
    p: &mut IndiProperty<F>,
    i: usize,
    r: Option<IndiCmd<F>>,
    selected: Option<usize>,
    label: String,
)
    requires
        i < old(p).elements.len(),
        old(p).perm != PropPerm::Ro,
        old(p).elements@[0].value is Switch,
        old(p).rule == Some(SwitchRule::OneOfMany),
        call_ensures(IndiProperty::<F>::pick_one, (p, i), r),
        call_ensures(IndiProperty::<F>::selected, (&*final(p),), selected),
        call_ensures(IndiProperty::<F>::selected_label, (&*final(p),), label),
    ensures
        final(p).elements.len() == old(p).elements.len(),
        forall|j: int|
            0 <= j < final(p).elements.len() ==> (#[trigger] final(p).elements@[j]).value
                == IndiValue::<F>::Switch(j == i) && final(p).elements@[j].name@
                == old(p).elements@[j].name@ && final(p).elements@[j].label@
                == old(p).elements@[j].label@,
        selected == Some(i),
        label@ == old(p).elements@[i as int].label@,
        r matches Some(cmd) && sets_each_switch(cmd, *final(p)),
{
    let after = final(p).elements@;
    assert forall|j: int| 0 <= j < after.len() implies (#[trigger] after[j]).value
        == IndiValue::<F>::Switch(j == i) by {}
    assert(all_switches(*final(p)));
    lemma_sets_switches(r->0, *final(p));
    assert(is_on(after[i as int]));
    match selected {
        Some(k) => {
            assert(is_on(after[k as int]));
        },
        None => {},
    }
}

/// What is read-only or does not show as a combo is not picked from.
pub proof fn law_only_combos_are_picked_from<F: Copy>(
    p: &mut IndiProperty<F>,
    i: usize,
    r: Option<IndiCmd<F>>,
)
    requires
        i < old(p).elements.len(),
        old(p).perm == PropPerm::Ro || old(p).elements@[0].value !is Switch || old(p).rule != Some(
            SwitchRule::OneOfMany,
        ),
        call_ensures(IndiProperty::<F>::pick_one, (p, i), r),
    ensures
        r is None,
        *final(p) == *old(p),
{
}

/// A checkbox sets its own switch, leaves the others, and writes all of them. A
/// property that may not be changed, or that shows as a combo, has none.
pub proof fn law_checkbox_sets_its_switch<F: Copy>(
    p: &mut IndiProperty<F>,
    i: usize,
    on: bool,
    r: Option<IndiCmd<F>>,
)
    requires
        i < old(p).elements.len(),
        all_switches(*old(p)),
        call_ensures(IndiProperty::<F>::set_switch, (p, i, on), r),
    ensures
        old(p).perm == PropPerm::Ro || old(p).rule == Some(SwitchRule::OneOfMany) ==> r is None
            && *final(p) == *old(p),
        old(p).perm != PropPerm::Ro && old(p).rule != Some(SwitchRule::OneOfMany) ==> {
            &&& final(p).elements.len() == old(p).elements.len()
            &&& final(p).elements@[i as int].value == IndiValue::<F>::Switch(on)
            &&& final(p).elements@[i as int].name@ == old(p).elements@[i as int].name@
            &&& forall|j: int|
                0 <= j < final(p).elements.len() && j != i ==> (#[trigger] final(p).elements@[j])
                    == old(p).elements@[j]
            &&& r matches Some(cmd) && sets_each_switch(cmd, *final(p))
        },
{
    if old(p).perm != PropPerm::Ro && old(p).rule != Some(SwitchRule::OneOfMany) {
        assert(old(p).elements@[i as int].value is Switch);
        assert(all_switches(*final(p))) by {
            assert forall|j: int| 0 <= j < final(p).elements.len() implies (
            #[trigger] final(p).elements@[j]).value is Switch by {
                assert(old(p).elements@[j].value is Switch);
            }
        }
        lemma_sets_switches(r->0, *final(p));
    }
}

/// A number field sets its own number within the limits it had, leaves the
/// others, and sends nothing itself.
pub proof fn law_number_field_sets_its_number<F: Copy>(
    p: &mut IndiProperty<F>,
    i: usize,
    value: F,
)
    requires
        i < old(p).elements.len(),
        all_numbers(*old(p)),
        call_ensures(IndiProperty::<F>::set_number, (p, i, value), ()),
    ensures
        old(p).perm == PropPerm::Ro ==> *final(p) == *old(p),
        old(p).perm != PropPerm::Ro ==> {
            &&& final(p).elements.len() == old(p).elements.len()
            &&& final(p).elements@[i as int].value is Number
            &&& final(p).elements@[i as int].value->value == value
            &&& final(p).elements@[i as int].value->min == old(p).elements@[i as int].value->min
            &&& final(p).elements@[i as int].value->max == old(p).elements@[i as int].value->max
            &&& final(p).elements@[i as int].value->step == old(p).elements@[i as int].value->step
            &&& final(p).elements@[i as int].name@ == old(p).elements@[i as int].name@
            &&& forall|j: int|
                0 <= j < final(p).elements.len() && j != i ==> (#[trigger] final(p).elements@[j])
                    == old(p).elements@[j]
        },
{
    assert(old(p).elements@[0].value is Number);
    assert(old(p).elements@[i as int].value is Number);
}

/// Enter with a changed text takes it over, leaves the others, and writes all
/// of them. Leaving the field otherwise changes nothing.
pub proof fn law_entered_text_is_written<F: Copy>(
    p: &mut IndiProperty<F>,
    i: usize,
    typed: &str,
    entered: bool,
    r: Option<IndiCmd<F>>,
)
    requires
        i < old(p).elements.len(),
        all_texts(*old(p)),
        call_ensures(IndiProperty::<F>::end_text_edit, (p, i, typed, entered), r),
        old(p).elements@[i as int].value is Text,
    ensures
        ({
            let taken = entered && old(p).perm != PropPerm::Ro && typed@ != old(
                p,
            ).elements@[i as int].value->Text_0@;
            &&& !taken ==> r is None && *final(p) == *old(p)
            &&& taken ==> {
                &&& final(p).elements.len() == old(p).elements.len()
                &&& final(p).elements@[i as int].value is Text
                &&& final(p).elements@[i as int].value->Text_0@ == typed@
                &&& final(p).elements@[i as int].name@ == old(p).elements@[i as int].name@
                &&& forall|j: int|
                    0 <= j < final(p).elements.len() && j != i ==> (
                    #[trigger] final(p).elements@[j]) == old(p).elements@[j]
                &&& r matches Some(cmd) && sets_each_text(cmd, *final(p))
            }
        }),
{
    let taken = entered && old(p).perm != PropPerm::Ro && typed@ != old(
        p,
    ).elements@[i as int].value->Text_0@;
    if taken {
        assert(all_texts(*final(p))) by {
            assert forall|j: int| 0 <= j < final(p).elements.len() implies (
            #[trigger] final(p).elements@[j]).value is Text by {
                assert(old(p).elements@[j].value is Text);
            }
        }
        lemma_sets_texts(r->0, *final(p));
    }
}

/// The limits of a number's field are its own smallest and largest value, where
/// the first is less than the second.
pub proof fn law_number_limits_are_its_own<F: Copy, L: Fn(F, F) -> bool>(
    p: IndiProperty<F>,
    i: usize,
    less: L,
    r: Option<(F, F)>,
)
    requires
        i < p.elements.len(),
        forall|a: F, b: F| call_requires(less, (a, b)),
        call_ensures(IndiProperty::<F>::number_limits::<L>, (&p, i, less), r),
    ensures
        p.elements@[i as int].value !is Number ==> r is None,
        p.elements@[i as int].value matches IndiValue::Number { min, max, .. } ==> {
            &&& r matches Some(limits) ==> limits.0 == min && limits.1 == max && call_ensures(
                less,
                (min, max),
                true,
            )
            &&& r is None ==> call_ensures(less, (min, max), false)
        },
{
}

/// A row reads as its property, and as its element too where the two differ.
pub proof fn law_rows_name_property_and_element<F: Copy>(
    p: IndiProperty<F>,
    i: usize,
    label: String,
    hover: String,
)
    requires
        i < p.elements.len(),
        call_ensures(IndiProperty::<F>::row_label, (&p, i), label),
        call_ensures(IndiProperty::<F>::row_hover, (&p, i), hover),
    ensures
        p.elements.len() == 1 || p.elements@[i as int].label@ == p.label@ ==> label@ == p.label@,
        p.elements.len() != 1 && p.elements@[i as int].label@ != p.label@ ==> label@ == p.label@
            + " \u{b7} "@ + p.elements@[i as int].label@,
        hover@ == p.name@ + "."@ + p.elements@[i as int].name@,
{
}

/// States, switches, binary elements and groups read as what they are.
pub proof fn law_values_are_told(
    s: PropState,
    name: &'static str,
    on: bool,
    t: &'static str,
    format: &str,
    size: u64,
    blob: String,
    group: &str,
    title: String,
    open: bool,
)
    requires
        call_ensures(state_name, (s,), name),
        call_ensures(switch_text, (on,), t),
        call_ensures(blob_text, (format, size), blob),
        call_ensures(group_title, (group,), title),
        call_ensures(group_default_open, (group,), open),
    ensures
        s == PropState::Idle ==> name@ == "idle"@,
        s == PropState::Okay ==> name@ == "ok"@,
        s == PropState::Busy ==> name@ == "busy"@,
        s == PropState::Alert ==> name@ == "alert"@,
        on ==> t@ == "On"@,
        !on ==> t@ == "Off"@,
        size > 0 ==> blob@ == format@ + " ("@ + text::decimal(size as int) + " bytes)"@,
        size == 0 && format@.len() > 0 ==> blob@ == format@,
        size == 0 && format@.len() == 0 ==> blob@ == "\u{2014}"@,
        group@.len() == 0 ==> title@ == "Other"@,
        group@.len() > 0 ==> title@ == group@,
        open <==> text::has_substring(group@, "Main"@),
{
}

/// A filter searches the property's label and name and the labels of its
/// elements, in lower case; an empty one passes everything.
pub proof fn law_filter_searches_labels_and_name<F: Copy>(
    p: IndiProperty<F>,
    filter: &str,
    r: bool,
    entered: &str,
    t: String,
)
    requires
        call_ensures(IndiProperty::<F>::matches, (&p, filter), r),
        call_ensures(filter_text, (entered,), t),
    ensures
        t@ == text::lowercased(text::trimmed(entered@)),
        filter@.len() == 0 ==> r,
        filter@.len() > 0 ==> (r <==> text::has_substring(text::lowercased(p.label@), filter@)
            || text::has_substring(text::lowercased(p.name@), filter@) || exists|i: int|
            0 <= i < p.elements.len() && text::has_substring(
                text::lowercased((#[trigger] p.elements@[i]).label@),
                filter@,
            )),
{
}

proof fn lemma_property_index<F>(props: Seq<IndiProperty<F>>, name: Seq<char>)
    ensures
        0 <= property_index(props, name) <= props.len(),
        property_index(props, name) < props.len() ==> props[property_index(props, name)].name@
            == name,
        forall|j: int|
            0 <= j < property_index(props, name) ==> (#[trigger] props[j]).name@ != name,
    decreases props.len(),
{
    if props.len() > 0 && props[0].name@ != name {
        let rest = props.skip(1);
        lemma_property_index(rest, name);
        assert forall|j: int| 0 <= j < property_index(props, name) implies (
        #[trigger] props[j]).name@ != name by {
            if j > 0 {
                assert(props[j] == rest[j - 1]);
            }
        }
    }
}

/// The picker starts with the first device that has a connection, or with the
/// first there is. It is chosen while none is, and never replaces a choice.
pub proof fn law_first_connectable_device_is_chosen<F: Copy>(
    props: Vec<IndiProperty<F>>,
    r: Option<String>,
    c: &mut IndiCapture<F>,
)
    requires
        call_ensures(default_device::<F>, (&props,), r),
        call_ensures(IndiCapture::<F>::choose_device, (c, &props), ()),
    ensures
        r is None <==> props.len() == 0,
        (exists|i: int| 0 <= i < props.len() && (#[trigger] props@[i]).name@ == "CONNECTION"@) ==> (
        r matches Some(d) && exists|i: int|
            0 <= i < props.len() && (#[trigger] props@[i]).name@ == "CONNECTION"@ && d@
                == props@[i].device@ && (forall|j: int|
                0 <= j < i ==> (#[trigger] props@[j]).name@ != "CONNECTION"@)),
        props.len() > 0 && (forall|i: int|
            0 <= i < props.len() ==> (#[trigger] props@[i]).name@ != "CONNECTION"@) ==> (
        r matches Some(d) && d@ == props@[0].device@),
        old(c).device@.len() > 0 ==> final(c).device@ == old(c).device@,
        old(c).device@.len() == 0 ==> (r matches Some(d) ==> final(c).device@ == d@),
        old(c).device@.len() == 0 && r is None ==> final(c).device@.len() == 0,
        final(c).exposure == old(c).exposure && final(c).live == old(c).live,
{
    lemma_property_index(props@, "CONNECTION"@);
    let i = property_index(props@, "CONNECTION"@);
    if i < props.len() {
        assert(props@[i].name@ == "CONNECTION"@);
    }
}

/// Every device is listed once, and so is every group of a device; no other is.
pub proof fn law_devices_and_groups_are_listed_once<F>(
    props: Vec<IndiProperty<F>>,
    device: &str,
    a: Vec<String>,
    b: Vec<String>,
    t: Seq<char>,
)
    requires
        call_ensures(devices::<F>, (&props,), a),
        call_ensures(groups::<F>, (&props, device), b),
    ensures
        (exists|k: int| 0 <= k < a.len() && (#[trigger] a@[k])@ == t) <==> (exists|i: int|
            0 <= i < props.len() && (#[trigger] props@[i]).device@ == t),
        (exists|k: int| 0 <= k < b.len() && (#[trigger] b@[k])@ == t) <==> (exists|i: int|
            0 <= i < props.len() && (#[trigger] props@[i]).device@ == device@ && props@[i].group@
                == t),
        forall|j: int, k: int|
            #![trigger a@[j], a@[k]]
            0 <= j < k < a.len() ==> a@[j]@ != a@[k]@,
        forall|j: int, k: int|
            #![trigger b@[j], b@[k]]
            0 <= j < k < b.len() ==> b@[j]@ != b@[k]@,
{
    let dev = |p: IndiProperty<F>| p.device@;
    let own = |p: IndiProperty<F>| p.device@ == device@;
    let g = |p: IndiProperty<F>| p.group@;
    let all = props@.map_values(dev);
    let mine = props@.filter(own);
    let names = mine.map_values(g);
    text::law_first_seen(all);
    text::law_first_seen(names);
    let ta = text::texts(a@);
    let tb = text::texts(b@);
    assert(ta == text::first_seen(all));
    assert(tb == text::first_seen(names));
    assert((exists|k: int| 0 <= k < a.len() && (#[trigger] a@[k])@ == t) <==> ta.contains(t)) by {
        if ta.contains(t) {
            let k = choose|k: int| 0 <= k < ta.len() && ta[k] == t;
            assert(ta[k] == a@[k]@);
        }
        if exists|k: int| 0 <= k < a.len() && (#[trigger] a@[k])@ == t {
            let k = choose|k: int| 0 <= k < a.len() && (#[trigger] a@[k])@ == t;
            assert(ta[k] == t);
        }
    }
    assert((exists|k: int| 0 <= k < b.len() && (#[trigger] b@[k])@ == t) <==> tb.contains(t)) by {
        if tb.contains(t) {
            let k = choose|k: int| 0 <= k < tb.len() && tb[k] == t;
            assert(tb[k] == b@[k]@);
        }
        if exists|k: int| 0 <= k < b.len() && (#[trigger] b@[k])@ == t {
            let k = choose|k: int| 0 <= k < b.len() && (#[trigger] b@[k])@ == t;
            assert(tb[k] == t);
        }
    }
    assert(all.contains(t) <==> (exists|i: int|
        0 <= i < props.len() && (#[trigger] props@[i]).device@ == t)) by {
        if all.contains(t) {
            let i = choose|i: int| 0 <= i < all.len() && all[i] == t;
            assert(props@[i].device@ == t);
        }
        if exists|i: int| 0 <= i < props.len() && (#[trigger] props@[i]).device@ == t {
            let i = choose|i: int| 0 <= i < props.len() && (#[trigger] props@[i]).device@ == t;
            assert(all[i] == t);
        }
    }
    assert(names.contains(t) <==> (exists|i: int|
        0 <= i < props.len() && (#[trigger] props@[i]).device@ == device@ && props@[i].group@
            == t)) by {
        if names.contains(t) {
            let k = choose|k: int| 0 <= k < names.len() && names[k] == t;
            assert(names[k] == mine[k].group@);
            props@.lemma_filter_pred(own, k);
            props@.lemma_filter_contains_rev(own, mine[k]);
            let i = choose|i: int| 0 <= i < props@.len() && props@[i] == mine[k];
            assert(props@[i].device@ == device@);
        }
        if exists|i: int|
            0 <= i < props.len() && (#[trigger] props@[i]).device@ == device@ && props@[i].group@
                == t {
            let i = choose|i: int|
                0 <= i < props.len() && (#[trigger] props@[i]).device@ == device@
                    && props@[i].group@ == t;
            props@.lemma_filter_contains(own, i);
            let k = choose|k: int| 0 <= k < mine.len() && mine[k] == props@[i];
            assert(names[k] == t);
        }
    }
    assert forall|j: int, k: int|
        #![trigger a@[j], a@[k]]
        0 <= j < k < a.len() implies a@[j]@ != a@[k]@ by {
        assert(ta[j] == a@[j]@ && ta[k] == a@[k]@);
    }
    assert forall|j: int, k: int|
        #![trigger b@[j], b@[k]]
        0 <= j < k < b.len() implies b@[j]@ != b@[k]@ by {
        assert(tb[j] == b@[j]@ && tb[k] == b@[k]@);
    }
}

/// A group shows the properties of its device and its name that pass the
/// filter, all of them but the connection.
pub proof fn law_group_shows_its_properties<F: Copy>(
    props: Vec<IndiProperty<F>>,
    device: &str,
    group: &str,
    filter: &str,
    r: Vec<usize>,
    i: int,
    passes_i: bool,
)
    requires
        call_ensures(group_rows::<F>, (&props, device, group, filter), r),
        0 <= i < props.len(),
        call_ensures(IndiProperty::<F>::matches, (&props@[i], filter), passes_i),
    ensures
        forall|k: int|
            0 <= k < r.len() ==> (#[trigger] r@[k]) < props.len() && props@[r@[k] as int].device@
                == device@ && props@[r@[k] as int].group@ == group@ && props@[r@[k] as int].name@
                != "CONNECTION"@,
        props@[i].device@ == device@ && props@[i].group@ == group@ && props@[i].name@
            != "CONNECTION"@ && passes_i ==> exists|k: int|
            0 <= k < r.len() && props@[#[trigger] r@[k] as int] == props@[i],
        !passes_i ==> forall|k: int| 0 <= k < r.len() ==> (#[trigger] r@[k]) != i,
{
    let pick = |p: IndiProperty<F>| shown_in(p, device@, group@, filter@);
    let at = |i: usize| props@[i as int];
    let got = props@.filter(pick);
    assert(r@.map_values(at) == got);
    assert forall|k: int| 0 <= k < r.len() implies (#[trigger] r@[k]) < props.len()
        && props@[r@[k] as int].device@ == device@ && props@[r@[k] as int].group@ == group@
        && props@[r@[k] as int].name@ != "CONNECTION"@ && passes(
        props@[r@[k] as int],
        filter@,
    ) by {
        assert(r@.map_values(at)[k] == at(r@[k]));
        props@.lemma_filter_pred(pick, k);
    }
    if props@[i].device@ == device@ && props@[i].group@ == group@ && props@[i].name@
        != "CONNECTION"@ && passes_i {
        props@.lemma_filter_contains(pick, i);
        let k = choose|k: int| 0 <= k < got.len() && got[k] == props@[i];
        assert(r@.map_values(at)[k] == at(r@[k]));
    }
}

/// A device is connected where its first connection property has a switch named
/// `CONNECT` or `CONNECTED` that is on.
pub proof fn law_connection_switch_tells<F: Copy>(
    props: Vec<IndiProperty<F>>,
    device: &str,
    at: Option<usize>,
    connected: bool,
    indigo: bool,
)
    requires
        call_ensures(find_connection::<F>, (&props, device), at),
        call_ensures(is_connected::<F>, (&props, device), connected),
        call_ensures(is_indigo::<F>, (&props, device), indigo),
    ensures
        at is None ==> !connected && !indigo,
        at is None <==> forall|j: int|
            0 <= j < props.len() ==> !((#[trigger] props@[j]).device@ == device@ && props@[j].name@
                == "CONNECTION"@),
        at matches Some(i) ==> {
            &&& i < props.len()
            &&& props@[i as int].device@ == device@ && props@[i as int].name@ == "CONNECTION"@
            &&& connected <==> exists|k: int|
                0 <= k < props@[i as int].elements.len() && (
                #[trigger] props@[i as int].elements@[k]).value == IndiValue::<F>::Switch(true) && (
                props@[i as int].elements@[k].name@ == "CONNECT"@
                    || props@[i as int].elements@[k].name@ == "CONNECTED"@)
            &&& indigo <==> exists|k: int|
                0 <= k < props@[i as int].elements.len() && (
                #[trigger] props@[i as int].elements@[k]).name@ == "CONNECTED"@
        },
{
    match at {
        Some(i) => {
            let p = props@[i as int];
            assert(is_connection_of(p, device@));
            assert forall|k: int|
                0 <= k < props.len() && is_connection_of(#[trigger] props@[k], device@) && (forall|
                    j: int,
                |
                    0 <= j < k ==> !is_connection_of(#[trigger] props@[j], device@)) implies k
                == i by {}
            assert(connected <==> reports_connected(p));
            assert(indigo <==> uses_indigo_names(p));
            assert(reports_connected(p) <==> exists|k: int|
                0 <= k < p.elements.len() && (#[trigger] p.elements@[k]).value == IndiValue::<
                    F,
                >::Switch(true) && (p.elements@[k].name@ == "CONNECT"@ || p.elements@[k].name@
                    == "CONNECTED"@)) by {
                if reports_connected(p) {
                    let k = choose|k: int|
                        0 <= k < p.elements@.len() && is_connect_name(
                            (#[trigger] p.elements@[k]).name@,
                        ) && is_on(p.elements@[k]);
                    assert(p.elements@[k].value == IndiValue::<F>::Switch(true));
                }
                if exists|k: int|
                    0 <= k < p.elements.len() && (#[trigger] p.elements@[k]).value == IndiValue::<
                        F,
                    >::Switch(true) && (p.elements@[k].name@ == "CONNECT"@ || p.elements@[k].name@
                        == "CONNECTED"@) {
                    let k = choose|k: int|
                        0 <= k < p.elements.len() && (#[trigger] p.elements@[k]).value
                            == IndiValue::<F>::Switch(true) && (p.elements@[k].name@ == "CONNECT"@
                            || p.elements@[k].name@ == "CONNECTED"@);
                    assert(is_connect_name(p.elements@[k].name@) && is_on(p.elements@[k]));
                }
            }
        },
        None => {
            assert forall|j: int| 0 <= j < props.len() implies !((#[trigger] props@[j]).device@
                == device@ && props@[j].name@ == "CONNECTION"@) by {
                assert(!is_connection_of(props@[j], device@));
            }
        },
    }
}

/// Connecting asks for the device and for its images; disconnecting turns its
/// connected switch off and the other on, under the names that it uses.
pub proof fn law_connect_and_disconnect_name_the_device<F: Copy>(
    props: Vec<IndiProperty<F>>,
    device: &str,
    a: Vec<IndiCmd<F>>,
    b: IndiCmd<F>,
    indigo: bool,
)
    requires
        call_ensures(connect::<F>, (device,), a),
        call_ensures(disconnect::<F>, (&props, device), b),
        call_ensures(is_indigo::<F>, (&props, device), indigo),
    ensures
        a.len() == 2,
        a@[0] matches IndiCmd::Connect { device: d } && d@ == device@,
        a@[1] matches IndiCmd::EnableBlob { device: d } && d@ == device@,
        b matches IndiCmd::SetSwitch { device: d, property, values } && d@ == device@ && property@
            == "CONNECTION"@ && values.len() == 2 && !values@[0].1 && values@[1].1
            && values@[0].0@ == (if indigo {
            "CONNECTED"@
        } else {
            "CONNECT"@
        }) && values@[1].0@ == (if indigo {
            "DISCONNECTED"@
        } else {
            "DISCONNECT"@
        }),
{
    if let IndiCmd::SetSwitch { device: d, property, values } = b {
        let v = switch_views(values@);
        assert(v.len() == values.len());
        assert(v[0] == (values@[0].0@, values@[0].1));
        assert(v[1] == (values@[1].0@, values@[1].1));
    }
}

/// An exposure goes to the chosen device, with the chosen length, after its
/// images were asked for. A live sequence can be stopped, and leaves device and
/// length as they were.
pub proof fn law_exposure_goes_to_the_chosen_device<F: Copy>(
    c: &mut IndiCapture<F>,
    d: &mut IndiCapture<F>,
    live: bool,
    a: Vec<IndiCmd<F>>,
    b: IndiCmd<F>,
)
    requires
        !old(c).live,
        call_ensures(IndiCapture::<F>::expose, (c, live), a),
        old(d).live,
        call_ensures(IndiCapture::<F>::stop_live, (d,), b),
    ensures
        a.len() == 2,
        a@[0] matches IndiCmd::EnableBlob { device: x } && x@ == old(c).device@,
        a@[1] matches IndiCmd::StartExposure { device: x, seconds, live: l } && x@
            == old(c).device@ && seconds == old(c).exposure && l == live,
        final(c).live == live && final(c).device@ == old(c).device@ && final(c).exposure
            == old(c).exposure,
        b == IndiCmd::<F>::StopLive,
        !final(d).live && final(d).device@ == old(d).device@ && final(d).exposure
            == old(d).exposure,
{
}

/// A device is exposing while its exposure property is busy.
pub proof fn law_busy_exposure_is_exposing<F>(
    props: Vec<IndiProperty<F>>,
    device: &str,
    r: bool,
    i: int,
)
    requires
        call_ensures(is_exposing::<F>, (&props, device), r),
    ensures
        0 <= i < props.len() && props@[i].device@ == device@ && props@[i].name@
            == "CCD_EXPOSURE"@ && props@[i].state == PropState::Busy ==> r,
        r ==> exists|j: int|
            0 <= j < props.len() && (#[trigger] props@[j]).device@ == device@ && props@[j].name@
                == "CCD_EXPOSURE"@ && props@[j].state == PropState::Busy,
{
}

} // verus!
