//! Panels, tabs and pick lists of the user interface, and the names under
//! which they are saved.

use crate::text;
use vstd::prelude::*;
use vstd::string::*;

verus! {

/// The tabs of the bottom panel.
#[derive(Clone, Copy, PartialEq, Eq, Structural, Debug)]
pub enum BottomTab {
    Histogram,
    Controls,
    PlateSolve,
    Focus,
    Log,
}

/// The tabs in display order.
pub open spec fn tab_order() -> Seq<BottomTab> {
    seq![
        BottomTab::Histogram,
        BottomTab::Controls,
        BottomTab::PlateSolve,
        BottomTab::Focus,
        BottomTab::Log,
    ]
}

/// The name of a tab, on screen and in the saved settings.
pub open spec fn tab_name(t: BottomTab) -> &'static str {
    match t {
        BottomTab::Histogram => "Histogram",
        BottomTab::Controls => "Controls",
        BottomTab::PlateSolve => "Plate Solve",
        BottomTab::Focus => "Focus",
        BottomTab::Log => "Log",
    }
}

impl BottomTab {
    /// Every tab, in display order.
    pub fn all() -> (r: Vec<BottomTab>)
        ensures
            r@ == tab_order(),
    {
        vec![
            BottomTab::Histogram,
            BottomTab::Controls,
            BottomTab::PlateSolve,
            BottomTab::Focus,
            BottomTab::Log,
        ]
    }

    pub fn name(self) -> (r: &'static str)
        ensures
            r == tab_name(self),
    {
        match self {
            BottomTab::Histogram => "Histogram",
            BottomTab::Controls => "Controls",
            BottomTab::PlateSolve => "Plate Solve",
            BottomTab::Focus => "Focus",
            BottomTab::Log => "Log",
        }
    }

    /// Tab by saved name; `None` for a tab that there is not.
    pub fn from_name(name: &str) -> (r: Option<BottomTab>)
        ensures
            match r {
                Some(t) => tab_name(t)@ == name@,
                None => forall|t: BottomTab|
                    #![trigger tab_name(t)]
                    tab_name(t)@ != name@,
            },
    {
        let tabs: Vec<BottomTab> = BottomTab::all();
        for i in 0..tabs.len()
            invariant
                tabs@ == tab_order(),
                forall|j: int| 0 <= j < i ==> tab_name(#[trigger] tab_order()[j])@ != name@,
        {
            assert(tabs@[i as int] == tab_order()[i as int]);
            if text::same_text(tabs[i].name(), name) {
                return Some(tabs[i]);
            }
        }
        proof {
            assert forall|t: BottomTab| (#[trigger] tab_name(t))@ != name@ by {
                let k: int = match t {
                    BottomTab::Histogram => 0,
                    BottomTab::Controls => 1,
                    BottomTab::PlateSolve => 2,
                    BottomTab::Focus => 3,
                    BottomTab::Log => 4,
                };
                assert(tab_order()[k] == t);
            }
        }
        None
    }
}

/// A tab is found again under its own name: no two tabs share one.
pub proof fn law_tab_names_differ(a: BottomTab, b: BottomTab)
    ensures
        tab_name(a)@ == tab_name(b)@ ==> a == b,
{
    reveal_strlit("Histogram");
    reveal_strlit("Controls");
    reveal_strlit("Plate Solve");
    reveal_strlit("Focus");
    reveal_strlit("Log");
    assert("Histogram"@.len() == 9 && "Controls"@.len() == 8 && "Plate Solve"@.len() == 11
        && "Focus"@.len() == 5 && "Log"@.len() == 3);
}

/// How pixel values are mapped to the display range.
#[derive(Clone, Copy, PartialEq, Eq, Structural, Debug)]
pub enum ScaleMode {
    Full,
    Auto,
    ZScale,
    Manual,
}

/// The label of a scale mode.
pub open spec fn scale_label(m: ScaleMode) -> &'static str {
    match m {
        ScaleMode::Full => "Full Range",
        ScaleMode::Auto => "Auto (Min/Max)",
        ScaleMode::ZScale => "ZScale",
        ScaleMode::Manual => "Manual",
    }
}

impl ScaleMode {
    /// Every scale mode with its label, in display order.
    pub fn all() -> (r: Vec<(ScaleMode, &'static str)>)
        ensures
            r@ == seq![
                (ScaleMode::Full, scale_label(ScaleMode::Full)),
                (ScaleMode::Auto, scale_label(ScaleMode::Auto)),
                (ScaleMode::ZScale, scale_label(ScaleMode::ZScale)),
                (ScaleMode::Manual, scale_label(ScaleMode::Manual)),
            ],
    {
        vec![
            (ScaleMode::Full, "Full Range"),
            (ScaleMode::Auto, "Auto (Min/Max)"),
            (ScaleMode::ZScale, "ZScale"),
            (ScaleMode::Manual, "Manual"),
        ]
    }

    pub fn label(self) -> (r: &'static str)
        ensures
            r == scale_label(self),
    {
        match self {
            ScaleMode::Full => "Full Range",
            ScaleMode::Auto => "Auto (Min/Max)",
            ScaleMode::ZScale => "ZScale",
            ScaleMode::Manual => "Manual",
        }
    }

    /// Scale mode by saved label.
    pub fn from_label(name: &str) -> (r: Option<ScaleMode>)
        ensures
            match r {
                Some(m) => scale_label(m)@ == name@,
                None => forall|m: ScaleMode|
                    #![trigger scale_label(m)]
                    scale_label(m)@ != name@,
            },
    {
        if text::same_text(name, "Full Range") {
            Some(ScaleMode::Full)
        } else if text::same_text(name, "Auto (Min/Max)") {
            Some(ScaleMode::Auto)
        } else if text::same_text(name, "ZScale") {
            Some(ScaleMode::ZScale)
        } else if text::same_text(name, "Manual") {
            Some(ScaleMode::Manual)
        } else {
            None
        }
    }
}

/// A scale mode is found again under its own label.
pub proof fn law_scale_labels_differ(a: ScaleMode, b: ScaleMode)
    ensures
        scale_label(a)@ == scale_label(b)@ ==> a == b,
{
    reveal_strlit("Full Range");
    reveal_strlit("Auto (Min/Max)");
    reveal_strlit("ZScale");
    reveal_strlit("Manual");
    assert("Full Range"@.len() == 10 && "Auto (Min/Max)"@.len() == 14);
    assert("ZScale"@.len() == 6 && "Manual"@.len() == 6);
    assert("ZScale"@[0] == 'Z' && "Manual"@[0] == 'M');
}

/// Which x-range the histogram plot shows. The stored histogram always spans
/// the full range; the plot re-bins whichever window is selected.
#[derive(Clone, Copy, PartialEq, Eq, Structural, Debug)]
pub enum HistXRange {
    Full,
    Data,
    Display,
}

/// The label of a histogram range.
pub open spec fn range_label(m: HistXRange) -> &'static str {
    match m {
        HistXRange::Full => "Full range",
        HistXRange::Data => "Fit data",
        HistXRange::Display => "Display range",
    }
}

impl HistXRange {
    /// Every range with its label, in display order.
    pub fn all() -> (r: Vec<(HistXRange, &'static str)>)
        ensures
            r@ == seq![
                (HistXRange::Full, range_label(HistXRange::Full)),
                (HistXRange::Data, range_label(HistXRange::Data)),
                (HistXRange::Display, range_label(HistXRange::Display)),
            ],
    {
        vec![
            (HistXRange::Full, "Full range"),
            (HistXRange::Data, "Fit data"),
            (HistXRange::Display, "Display range"),
        ]
    }
}

/// Text of a menu item that can be switched: a check mark before it when it is
/// on.
pub fn check_item(checked: bool, label: &str) -> (r: String)
    ensures
        r@ == (if checked {
            "\u{2713}  "@
        } else {
            "    "@
        }) + label@,
{
    if checked {
        text::join2("\u{2713}  ", label)
    } else {
        text::join2("    ", label)
    }
}

/// Text of a menu item of which one is selected: a dot before that one.
pub fn radio_item(selected: bool, label: &str) -> (r: String)
    ensures
        r@ == (if selected {
            "\u{2022}  "@
        } else {
            "    "@
        }) + label@,
{
    if selected {
        text::join2("\u{2022}  ", label)
    } else {
        text::join2("    ", label)
    }
}

/// Whether the bottom panel is open after a pass of the user interface: the
/// tab strip inside may flip the flag itself, and the panel reports being
/// dragged shut; whichever changed in this pass wins.
pub fn merge_panel_open(before: bool, by_strip: bool, by_drag: bool) -> (r: bool)
    ensures
        r == (if by_strip == before {
            by_drag
        } else {
            by_strip
        }),
{
    if by_strip == before {
        by_drag
    } else {
        by_strip
    }
}

// ---------------------------------------------------------------------------
// What names and flags keep to

/// A tab is saved under its name and found again by it, and every name that is
/// found is that of the tab it gives.
pub proof fn law_tab_comes_back(t: BottomTab, name: &str, other: &str, r: Option<BottomTab>, s: Option<BottomTab>)
    requires
        call_ensures(BottomTab::name, (t,), name),
        call_ensures(BottomTab::from_name, (name,), r),
        call_ensures(BottomTab::from_name, (other,), s),
    ensures
        r == Some(t),
        s == Some(t) <==> other@ == name@,
{
    assert(tab_name(t)@ == name@);
    if let Some(a) = r {
        law_tab_names_differ(a, t);
    }
    if let Some(a) = s {
        law_tab_names_differ(a, t);
    }
}

/// Each tab has the name that is on it.
pub proof fn law_tab_names(t: BottomTab, name: &'static str)
    requires
        call_ensures(BottomTab::name, (t,), name),
    ensures
        name@ == (match t {
            BottomTab::Histogram => "Histogram"@,
            BottomTab::Controls => "Controls"@,
            BottomTab::PlateSolve => "Plate Solve"@,
            BottomTab::Focus => "Focus"@,
            BottomTab::Log => "Log"@,
        }),
{
}

/// A scale mode is saved under its label and found again by it.
pub proof fn law_scale_mode_comes_back(
    m: ScaleMode,
    label: &str,
    other: &str,
    r: Option<ScaleMode>,
    s: Option<ScaleMode>,
)
    requires
        call_ensures(ScaleMode::label, (m,), label),
        call_ensures(ScaleMode::from_label, (label,), r),
        call_ensures(ScaleMode::from_label, (other,), s),
    ensures
        r == Some(m),
        s == Some(m) <==> other@ == label@,
        label@ == (match m {
            ScaleMode::Full => "Full Range"@,
            ScaleMode::Auto => "Auto (Min/Max)"@,
            ScaleMode::ZScale => "ZScale"@,
            ScaleMode::Manual => "Manual"@,
        }),
{
    assert(scale_label(m)@ == label@);
    if let Some(a) = r {
        law_scale_labels_differ(a, m);
    }
    if let Some(a) = s {
        law_scale_labels_differ(a, m);
    }
}

/// The pick lists offer every choice once, under its own label.
pub proof fn law_pick_lists_are_complete(
    modes: Vec<(ScaleMode, &'static str)>,
    ranges: Vec<(HistXRange, &'static str)>,
    tabs: Vec<BottomTab>,
    m: ScaleMode,
    label: &'static str,
    t: BottomTab,
)
    requires
        call_ensures(ScaleMode::all, (), modes),
        call_ensures(HistXRange::all, (), ranges),
        call_ensures(BottomTab::all, (), tabs),
        call_ensures(ScaleMode::label, (m,), label),
    ensures
        modes@.len() == 4 && modes@.contains((m, label)),
        tabs@.len() == 5 && tabs@.contains(t),
        ranges@.len() == 3,
        ranges@[0].0 == HistXRange::Full && ranges@[0].1@ == "Full range"@,
        ranges@[1].0 == HistXRange::Data && ranges@[1].1@ == "Fit data"@,
        ranges@[2].0 == HistXRange::Display && ranges@[2].1@ == "Display range"@,
{
    let k: int = match m {
        ScaleMode::Full => 0,
        ScaleMode::Auto => 1,
        ScaleMode::ZScale => 2,
        ScaleMode::Manual => 3,
    };
    assert(modes@[k] == (m, label));
    let j: int = match t {
        BottomTab::Histogram => 0,
        BottomTab::Controls => 1,
        BottomTab::PlateSolve => 2,
        BottomTab::Focus => 3,
        BottomTab::Log => 4,
    };
    assert(tabs@[j] == t);
}

/// Menu items show their label behind a mark that is there exactly when they
/// are on.
pub proof fn law_marks_show_what_is_on(on: bool, label: &str, c: String, d: String)
    requires
        call_ensures(check_item, (on, label), c),
        call_ensures(radio_item, (on, label), d),
    ensures
        c@.skip(c@.len() - label@.len()) == label@,
        d@.skip(d@.len() - label@.len()) == label@,
        c@[0] == '\u{2713}' <==> on,
        d@[0] == '\u{2022}' <==> on,
{
    reveal_strlit("\u{2713}  ");
    reveal_strlit("\u{2022}  ");
    reveal_strlit("    ");
    assert(c@.skip(c@.len() - label@.len()) =~= label@);
    assert(d@.skip(d@.len() - label@.len()) =~= label@);
}

/// Whichever flag changed in a pass wins; where neither did, all stays.
pub proof fn law_changed_flag_wins(before: bool, by_strip: bool, by_drag: bool, r: bool)
    requires
        call_ensures(merge_panel_open, (before, by_strip, by_drag), r),
    ensures
        by_strip != before ==> r == by_strip,
        by_strip == before && by_drag != before ==> r == by_drag,
        by_strip == before && by_drag == before ==> r == before,
{
}

} // verus!
