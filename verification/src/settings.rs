//! Settings remembered between runs. Enumerations travel as their display
//! names; every field of a saved file is optional, so one from an older or
//! differently featured build still loads.

use crate::layout;
use crate::layout::{BottomTab, ScaleMode};
use crate::text;
use crate::theme;
use crate::theme::UiTheme;
use vstd::prelude::*;
use vstd::string::*;

verus! {

/// How scaled pixel values turn into brightness.
#[derive(Clone, Copy, PartialEq, Eq, Structural, Debug)]
pub enum TransferFn {
    /// Linear, with gamma.
    Linear,
    /// Asinh, which compresses a high dynamic range.
    Asinh,
}

/// The label of a transfer function.
pub open spec fn transfer_label(t: TransferFn) -> &'static str {
    match t {
        TransferFn::Linear => "Linear",
        TransferFn::Asinh => "Asinh",
    }
}

impl TransferFn {
    /// Every transfer function with its label, in display order.
    pub fn all() -> (r: Vec<(TransferFn, &'static str)>)
        ensures
            r@ == seq![
                (TransferFn::Linear, transfer_label(TransferFn::Linear)),
                (TransferFn::Asinh, transfer_label(TransferFn::Asinh)),
            ],
    {
        vec![(TransferFn::Linear, "Linear"), (TransferFn::Asinh, "Asinh")]
    }

    pub fn label(self) -> (r: &'static str)
        ensures
            r == transfer_label(self),
    {
        match self {
            TransferFn::Linear => "Linear",
            TransferFn::Asinh => "Asinh",
        }
    }

    /// Transfer function by saved label.
    pub fn from_label(name: &str) -> (r: Option<TransferFn>)
        ensures
            match r {
                Some(t) => transfer_label(t)@ == name@,
                None => forall|t: TransferFn|
                    #![trigger transfer_label(t)]
                    transfer_label(t)@ != name@,
            },
    {
        if text::same_text(name, "Linear") {
            Some(TransferFn::Linear)
        } else if text::same_text(name, "Asinh") {
            Some(TransferFn::Asinh)
        } else {
            None
        }
    }

    /// What the strength of the stretch is called.
    pub fn strength_label(self) -> (r: &'static str)
        ensures
            r == (match self {
                TransferFn::Linear => "Gamma",
                TransferFn::Asinh => "Alpha",
            }),
    {
        match self {
            TransferFn::Linear => "Gamma",
            TransferFn::Asinh => "Alpha",
        }
    }

    /// The label of the button that goes back to no stretch.
    pub fn reset_label(self) -> (r: &'static str)
        ensures
            r == (match self {
                TransferFn::Linear => "Reset Gamma",
                TransferFn::Asinh => "Reset Alpha",
            }),
    {
        match self {
            TransferFn::Linear => "Reset Gamma",
            TransferFn::Asinh => "Reset Alpha",
        }
    }

    /// The largest power of ten that the stretch can be set to. Asinh benefits
    /// from much larger values than gamma.
    pub fn strength_decades(self) -> (r: u8)
        ensures
            r == (match self {
                TransferFn::Linear => 1u8,
                TransferFn::Asinh => 3u8,
            }),
    {
        match self {
            TransferFn::Linear => 1,
            TransferFn::Asinh => 3,
        }
    }
}

/// A transfer function is found again under its own label.
pub proof fn law_transfer_labels_differ(a: TransferFn, b: TransferFn)
    ensures
        transfer_label(a)@ == transfer_label(b)@ ==> a == b,
{
    reveal_strlit("Linear");
    reveal_strlit("Asinh");
    assert("Linear"@.len() == 6 && "Asinh"@.len() == 5);
}

/// False-color palettes.
#[derive(Clone, Copy, PartialEq, Eq, Structural, Debug)]
pub enum ColormapKind {
    Grayscale,
    Hot,
    Viridis,
    Inferno,
    Plasma,
    Magma,
    Cubehelix,
    Turbo,
}

/// The name of a colormap.
pub open spec fn colormap_name(k: ColormapKind) -> &'static str {
    match k {
        ColormapKind::Grayscale => "Grayscale",
        ColormapKind::Hot => "Hot",
        ColormapKind::Viridis => "Viridis",
        ColormapKind::Inferno => "Inferno",
        ColormapKind::Plasma => "Plasma",
        ColormapKind::Magma => "Magma",
        ColormapKind::Cubehelix => "Cubehelix",
        ColormapKind::Turbo => "Turbo",
    }
}

impl ColormapKind {
    /// Every colormap, in display order.
    pub fn all() -> (r: Vec<ColormapKind>)
        ensures
            r@ == seq![
                ColormapKind::Grayscale,
                ColormapKind::Hot,
                ColormapKind::Viridis,
                ColormapKind::Inferno,
                ColormapKind::Plasma,
                ColormapKind::Magma,
                ColormapKind::Cubehelix,
                ColormapKind::Turbo,
            ],
    {
        vec![
            ColormapKind::Grayscale,
            ColormapKind::Hot,
            ColormapKind::Viridis,
            ColormapKind::Inferno,
            ColormapKind::Plasma,
            ColormapKind::Magma,
            ColormapKind::Cubehelix,
            ColormapKind::Turbo,
        ]
    }

    pub fn name(self) -> (r: &'static str)
        ensures
            r == colormap_name(self),
    {
        match self {
            ColormapKind::Grayscale => "Grayscale",
            ColormapKind::Hot => "Hot",
            ColormapKind::Viridis => "Viridis",
            ColormapKind::Inferno => "Inferno",
            ColormapKind::Plasma => "Plasma",
            ColormapKind::Magma => "Magma",
            ColormapKind::Cubehelix => "Cubehelix",
            ColormapKind::Turbo => "Turbo",
        }
    }

    /// Colormap by saved name.
    pub fn from_name(name: &str) -> (r: Option<ColormapKind>)
        ensures
            match r {
                Some(k) => colormap_name(k)@ == name@,
                None => forall|k: ColormapKind|
                    #![trigger colormap_name(k)]
                    colormap_name(k)@ != name@,
            },
    {
        if text::same_text(name, "Grayscale") {
            Some(ColormapKind::Grayscale)
        } else if text::same_text(name, "Hot") {
            Some(ColormapKind::Hot)
        } else if text::same_text(name, "Viridis") {
            Some(ColormapKind::Viridis)
        } else if text::same_text(name, "Inferno") {
            Some(ColormapKind::Inferno)
        } else if text::same_text(name, "Plasma") {
            Some(ColormapKind::Plasma)
        } else if text::same_text(name, "Magma") {
            Some(ColormapKind::Magma)
        } else if text::same_text(name, "Cubehelix") {
            Some(ColormapKind::Cubehelix)
        } else if text::same_text(name, "Turbo") {
            Some(ColormapKind::Turbo)
        } else {
            None
        }
    }
}

/// A colormap is found again under its own name.
pub proof fn law_colormap_names_differ(a: ColormapKind, b: ColormapKind)
    ensures
        colormap_name(a)@ == colormap_name(b)@ ==> a == b,
{
    reveal_strlit("Grayscale");
    reveal_strlit("Hot");
    reveal_strlit("Viridis");
    reveal_strlit("Inferno");
    reveal_strlit("Plasma");
    reveal_strlit("Magma");
    reveal_strlit("Cubehelix");
    reveal_strlit("Turbo");
    assert("Grayscale"@[0] == 'G' && "Hot"@[0] == 'H' && "Viridis"@[0] == 'V' && "Inferno"@[0]
        == 'I' && "Plasma"@[0] == 'P' && "Magma"@[0] == 'M' && "Cubehelix"@[0] == 'C' && "Turbo"@[0]
        == 'T');
}

/// Display and layout settings, with `F` for floating-point numbers.
#[derive(Clone, Copy, PartialEq, Eq, Debug)]
pub struct Settings<F> {
    pub theme: UiTheme,
    pub colormap: ColormapKind,
    pub scale_mode: ScaleMode,
    pub transfer: TransferFn,
    pub gamma: F,
    pub show_axes: bool,
    pub show_colorbar: bool,
    pub side_panel_open: bool,
    pub side_panel_width: F,
    pub bottom_tab: BottomTab,
    pub bottom_panel_open: bool,
    pub bottom_panel_height: F,
}

/// Settings as they are saved.
#[derive(PartialEq, Eq, Debug)]
pub struct SavedSettings<F> {
    pub theme: Option<String>,
    pub colormap: Option<String>,
    pub scale_mode: Option<String>,
    pub transfer: Option<String>,
    pub gamma: Option<F>,
    pub show_axes: Option<bool>,
    pub show_colorbar: Option<bool>,
    pub side_panel_open: Option<bool>,
    pub side_panel_width: Option<F>,
    pub bottom_tab: Option<String>,
    pub bottom_panel_open: Option<bool>,
    pub bottom_panel_height: Option<F>,
}

/// The contents of an optional text.
pub open spec fn opt_text(s: Option<String>) -> Option<Seq<char>> {
    match s {
        Some(t) => Some(t@),
        None => None,
    }
}

/// Is `t` the theme that a saved name stands for, or else the present one?
pub open spec fn theme_restored(saved: Option<Seq<char>>, present: UiTheme, t: UiTheme) -> bool {
    match saved {
        Some(n) => if exists|x: UiTheme| (#[trigger] theme::theme_label(x))@ == n {
            theme::theme_label(t)@ == n
        } else {
            t == present
        },
        None => t == present,
    }
}

/// Is `k` the colormap that a saved name stands for, or else the present one?
pub open spec fn colormap_restored(
    saved: Option<Seq<char>>,
    present: ColormapKind,
    k: ColormapKind,
) -> bool {
    match saved {
        Some(n) => if exists|x: ColormapKind| (#[trigger] colormap_name(x))@ == n {
            colormap_name(k)@ == n
        } else {
            k == present
        },
        None => k == present,
    }
}

/// Is `m` the scale mode that a saved name stands for, or else the present one?
pub open spec fn scale_restored(saved: Option<Seq<char>>, present: ScaleMode, m: ScaleMode) -> bool {
    match saved {
        Some(n) => if exists|x: ScaleMode| (#[trigger] layout::scale_label(x))@ == n {
            layout::scale_label(m)@ == n
        } else {
            m == present
        },
        None => m == present,
    }
}

/// Is `t` the transfer function that a saved name stands for, or else the
/// present one?
pub open spec fn transfer_restored(
    saved: Option<Seq<char>>,
    present: TransferFn,
    t: TransferFn,
) -> bool {
    match saved {
        Some(n) => if exists|x: TransferFn| (#[trigger] transfer_label(x))@ == n {
            transfer_label(t)@ == n
        } else {
            t == present
        },
        None => t == present,
    }
}

/// Is `t` the tab that a saved name stands for, or else the present one?
pub open spec fn tab_restored(saved: Option<Seq<char>>, present: BottomTab, t: BottomTab) -> bool {
    match saved {
        Some(n) => if exists|x: BottomTab| (#[trigger] layout::tab_name(x))@ == n {
            layout::tab_name(t)@ == n
        } else {
            t == present
        },
        None => t == present,
    }
}

/// A saved switch, or else the present one.
pub open spec fn switch_restored(saved: Option<bool>, present: bool) -> bool {
    match saved {
        Some(v) => v,
        None => present,
    }
}

/// Is `v` a saved number if there is one that passes the check, or else the
/// present one?
pub open spec fn number_restored<F, C: Fn(F) -> bool>(
    saved: Option<F>,
    present: F,
    usable: C,
    v: F,
) -> bool {
    match saved {
        Some(s) => (call_ensures(usable, (s,), true) && v == s) || (call_ensures(
            usable,
            (s,),
            false,
        ) && v == present),
        None => v == present,
    }
}

/// Are settings what they were with all that was saved taken over?
pub open spec fn restored<F, G: Fn(F) -> bool, W: Fn(F) -> bool, H: Fn(F) -> bool>(
    before: Settings<F>,
    saved: SavedSettings<F>,
    gamma_usable: G,
    width_usable: W,
    height_usable: H,
    after: Settings<F>,
) -> bool {
    &&& theme_restored(opt_text(saved.theme), before.theme, after.theme)
    &&& colormap_restored(opt_text(saved.colormap), before.colormap, after.colormap)
    &&& scale_restored(opt_text(saved.scale_mode), before.scale_mode, after.scale_mode)
    &&& transfer_restored(opt_text(saved.transfer), before.transfer, after.transfer)
    &&& number_restored(saved.gamma, before.gamma, gamma_usable, after.gamma)
    &&& after.show_axes == switch_restored(saved.show_axes, before.show_axes)
    &&& after.show_colorbar == switch_restored(saved.show_colorbar, before.show_colorbar)
    &&& after.side_panel_open == switch_restored(saved.side_panel_open, before.side_panel_open)
    &&& number_restored(
        saved.side_panel_width,
        before.side_panel_width,
        width_usable,
        after.side_panel_width,
    )
    &&& tab_restored(opt_text(saved.bottom_tab), before.bottom_tab, after.bottom_tab)
    &&& after.bottom_panel_open == switch_restored(
        saved.bottom_panel_open,
        before.bottom_panel_open,
    )
    &&& number_restored(
        saved.bottom_panel_height,
        before.bottom_panel_height,
        height_usable,
        after.bottom_panel_height,
    )
}

/// Does a text hold what a label does?
pub open spec fn is_label(s: Option<String>, label: &'static str) -> bool {
    opt_text(s) == Some(label@)
}

fn saved_or<F: Copy, C: Fn(F) -> bool>(saved: &Option<F>, present: F, usable: &C) -> (r: F)
    requires
        forall|x: F| call_requires(*usable, (x,)),
    ensures
        number_restored(*saved, present, *usable, r),
{
    match saved {
        Some(v) => {
            let ok: bool = usable(*v);
            if ok {
                *v
            } else {
                present
            }
        },
        None => present,
    }
}

fn switch_or(saved: &Option<bool>, present: bool) -> (r: bool)
    ensures
        r == switch_restored(*saved, present),
{
    match saved {
        Some(v) => *v,
        None => present,
    }
}

impl<F: Copy> Settings<F> {
    /// Takes over what was saved. A name that this build does not know, and a
    /// number that the check for it refuses, leave the setting as it is.
    pub fn restore<G: Fn(F) -> bool, W: Fn(F) -> bool, H: Fn(F) -> bool>(
        &mut self,
        saved: &SavedSettings<F>,
        gamma_usable: G,
        width_usable: W,
        height_usable: H,
    )
        requires
            forall|x: F| call_requires(gamma_usable, (x,)),
            forall|x: F| call_requires(width_usable, (x,)),
            forall|x: F| call_requires(height_usable, (x,)),
        ensures
            restored(
                *old(self),
                *saved,
                gamma_usable,
                width_usable,
                height_usable,
                *final(self),
            ),
    {
        let theme: UiTheme = match &saved.theme {
            Some(n) => match UiTheme::from_label(n.as_str()) {
                Some(t) => t,
                None => self.theme,
            },
            None => self.theme,
        };
        let colormap: ColormapKind = match &saved.colormap {
            Some(n) => match ColormapKind::from_name(n.as_str()) {
                Some(k) => k,
                None => self.colormap,
            },
            None => self.colormap,
        };
        let scale_mode: ScaleMode = match &saved.scale_mode {
            Some(n) => match ScaleMode::from_label(n.as_str()) {
                Some(m) => m,
                None => self.scale_mode,
            },
            None => self.scale_mode,
        };
        let transfer: TransferFn = match &saved.transfer {
            Some(n) => match TransferFn::from_label(n.as_str()) {
                Some(t) => t,
                None => self.transfer,
            },
            None => self.transfer,
        };
        let bottom_tab: BottomTab = match &saved.bottom_tab {
            Some(n) => match BottomTab::from_name(n.as_str()) {
                Some(t) => t,
                None => self.bottom_tab,
            },
            None => self.bottom_tab,
        };
        *self = Settings {
            theme,
            colormap,
            scale_mode,
            transfer,
            gamma: saved_or(&saved.gamma, self.gamma, &gamma_usable),
            show_axes: switch_or(&saved.show_axes, self.show_axes),
            show_colorbar: switch_or(&saved.show_colorbar, self.show_colorbar),
            side_panel_open: switch_or(&saved.side_panel_open, self.side_panel_open),
            side_panel_width: saved_or(
                &saved.side_panel_width,
                self.side_panel_width,
                &width_usable,
            ),
            bottom_tab,
            bottom_panel_open: switch_or(&saved.bottom_panel_open, self.bottom_panel_open),
            bottom_panel_height: saved_or(
                &saved.bottom_panel_height,
                self.bottom_panel_height,
                &height_usable,
            ),
        };
    }

    /// The settings as they are saved.
    pub fn to_saved(&self) -> (r: SavedSettings<F>)
        ensures
            saved_from(*self, r),
    {
        SavedSettings {
            theme: Some(self.theme.label().to_string()),
            colormap: Some(self.colormap.name().to_string()),
            scale_mode: Some(self.scale_mode.label().to_string()),
            transfer: Some(self.transfer.label().to_string()),
            gamma: Some(self.gamma),
            show_axes: Some(self.show_axes),
            show_colorbar: Some(self.show_colorbar),
            side_panel_open: Some(self.side_panel_open),
            side_panel_width: Some(self.side_panel_width),
            bottom_tab: Some(self.bottom_tab.name().to_string()),
            bottom_panel_open: Some(self.bottom_panel_open),
            bottom_panel_height: Some(self.bottom_panel_height),
        }
    }
}

/// Is `r` the saved form of settings?
pub open spec fn saved_from<F>(s: Settings<F>, r: SavedSettings<F>) -> bool {
    &&& is_label(r.theme, theme::theme_label(s.theme))
    &&& is_label(r.colormap, colormap_name(s.colormap))
    &&& is_label(r.scale_mode, layout::scale_label(s.scale_mode))
    &&& is_label(r.transfer, transfer_label(s.transfer))
    &&& r.gamma == Some(s.gamma)
    &&& r.show_axes == Some(s.show_axes)
    &&& r.show_colorbar == Some(s.show_colorbar)
    &&& r.side_panel_open == Some(s.side_panel_open)
    &&& r.side_panel_width == Some(s.side_panel_width)
    &&& is_label(r.bottom_tab, layout::tab_name(s.bottom_tab))
    &&& r.bottom_panel_open == Some(s.bottom_panel_open)
    &&& r.bottom_panel_height == Some(s.bottom_panel_height)
}

/// What was saved comes back, whatever the settings were before, as long as
/// the checks accept the numbers.
pub proof fn law_settings_come_back<F, G: Fn(F) -> bool, W: Fn(F) -> bool, H: Fn(F) -> bool>(
    s: Settings<F>,
    saved: SavedSettings<F>,
    before: Settings<F>,
    gamma_usable: G,
    width_usable: W,
    height_usable: H,
    after: Settings<F>,
)
    requires
        saved_from(s, saved),
        restored(before, saved, gamma_usable, width_usable, height_usable, after),
        !call_ensures(gamma_usable, (s.gamma,), false),
        !call_ensures(width_usable, (s.side_panel_width,), false),
        !call_ensures(height_usable, (s.bottom_panel_height,), false),
    ensures
        after == s,
{
    assert(theme::theme_label(s.theme)@ == opt_text(saved.theme)->0);
    assert(colormap_name(s.colormap)@ == opt_text(saved.colormap)->0);
    assert(layout::scale_label(s.scale_mode)@ == opt_text(saved.scale_mode)->0);
    assert(transfer_label(s.transfer)@ == opt_text(saved.transfer)->0);
    assert(layout::tab_name(s.bottom_tab)@ == opt_text(saved.bottom_tab)->0);
    theme::law_theme_labels_differ(s.theme, after.theme);
    law_colormap_names_differ(s.colormap, after.colormap);
    layout::law_scale_labels_differ(s.scale_mode, after.scale_mode);
    law_transfer_labels_differ(s.transfer, after.transfer);
    layout::law_tab_names_differ(s.bottom_tab, after.bottom_tab);
}

/// Each transfer function has its own label, is found under it and stands in
/// the list with it. Asinh has an alpha over three decades, gamma one decade.
pub proof fn law_transfer_functions_are_told_apart(
    t: TransferFn,
    label: &'static str,
    name: &str,
    found: Option<TransferFn>,
    all: Vec<(TransferFn, &'static str)>,
    strength: &'static str,
    reset: &'static str,
    decades: u8,
)
    requires
        call_ensures(TransferFn::label, (t,), label),
        call_ensures(TransferFn::from_label, (name,), found),
        call_ensures(TransferFn::all, (), all),
        call_ensures(TransferFn::strength_label, (t,), strength),
        call_ensures(TransferFn::reset_label, (t,), reset),
        call_ensures(TransferFn::strength_decades, (t,), decades),
    ensures
        t == TransferFn::Linear ==> label@ == "Linear"@ && strength@ == "Gamma"@ && reset@
            == "Reset Gamma"@ && decades == 1,
        t == TransferFn::Asinh ==> label@ == "Asinh"@ && strength@ == "Alpha"@ && reset@
            == "Reset Alpha"@ && decades == 3,
        name@ == label@ ==> found == Some(t),
        found is None <==> name@ != "Linear"@ && name@ != "Asinh"@,
        all.len() == 2,
        exists|i: int| 0 <= i < 2 && (#[trigger] all@[i]).0 == t && all@[i].1@ == label@,
{
    if let Some(f) = found {
        law_transfer_labels_differ(f, t);
    } else {
        assert(transfer_label(TransferFn::Linear)@ != name@);
        assert(transfer_label(TransferFn::Asinh)@ != name@);
        assert(transfer_label(t)@ != name@);
    }
    if t == TransferFn::Linear {
        assert(all@[0].0 == t);
    } else {
        assert(all@[1].0 == t);
    }
}

/// Each colormap has its own name, is found under it and stands in the list.
pub proof fn law_colormaps_are_told_apart(
    k: ColormapKind,
    name: &'static str,
    given: &str,
    found: Option<ColormapKind>,
    all: Vec<ColormapKind>,
)
    requires
        call_ensures(ColormapKind::name, (k,), name),
        call_ensures(ColormapKind::from_name, (given,), found),
        call_ensures(ColormapKind::all, (), all),
    ensures
        match k {
            ColormapKind::Grayscale => name@ == "Grayscale"@,
            ColormapKind::Hot => name@ == "Hot"@,
            ColormapKind::Viridis => name@ == "Viridis"@,
            ColormapKind::Inferno => name@ == "Inferno"@,
            ColormapKind::Plasma => name@ == "Plasma"@,
            ColormapKind::Magma => name@ == "Magma"@,
            ColormapKind::Cubehelix => name@ == "Cubehelix"@,
            ColormapKind::Turbo => name@ == "Turbo"@,
        },
        given@ == name@ ==> found == Some(k),
        found matches Some(f) ==> (f == k ==> given@ == name@),
        all.len() == 8,
        exists|i: int| 0 <= i < 8 && #[trigger] all@[i] == k,
{
    if let Some(f) = found {
        law_colormap_names_differ(f, k);
    } else {
        assert(colormap_name(k)@ != given@);
    }
    assert(all@[0] == ColormapKind::Grayscale && all@[1] == ColormapKind::Hot);
    assert(all@[2] == ColormapKind::Viridis && all@[3] == ColormapKind::Inferno);
    assert(all@[4] == ColormapKind::Plasma && all@[5] == ColormapKind::Magma);
    assert(all@[6] == ColormapKind::Cubehelix && all@[7] == ColormapKind::Turbo);
}

/// Settings that were saved are all there again after being restored, whatever
/// they were before, as long as the numbers are usable.
pub proof fn law_saved_settings_are_restored<
    F: Copy,
    G: Fn(F) -> bool,
    W: Fn(F) -> bool,
    H: Fn(F) -> bool,
>(
    s: Settings<F>,
    saved: SavedSettings<F>,
    t: &mut Settings<F>,
    gamma_usable: G,
    width_usable: W,
    height_usable: H,
)
    requires
        forall|x: F| call_requires(gamma_usable, (x,)),
        forall|x: F| call_requires(width_usable, (x,)),
        forall|x: F| call_requires(height_usable, (x,)),
        !call_ensures(gamma_usable, (s.gamma,), false),
        !call_ensures(width_usable, (s.side_panel_width,), false),
        !call_ensures(height_usable, (s.bottom_panel_height,), false),
        call_ensures(Settings::<F>::to_saved, (&s,), saved),
        call_ensures(
            Settings::<F>::restore::<G, W, H>,
            (t, &saved, gamma_usable, width_usable, height_usable),
            (),
        ),
    ensures
        *final(t) == s,
{
    law_settings_come_back(
        s,
        saved,
        *old(t),
        gamma_usable,
        width_usable,
        height_usable,
        *final(t),
    );
}

/// What was not saved stays, and so does a number that is not usable and a
/// setting under a name that nothing has.
pub proof fn law_unsaved_settings_stay<
    F: Copy,
    G: Fn(F) -> bool,
    W: Fn(F) -> bool,
    H: Fn(F) -> bool,
>(
    saved: SavedSettings<F>,
    t: &mut Settings<F>,
    gamma_usable: G,
    width_usable: W,
    height_usable: H,
)
    requires
        forall|x: F| call_requires(gamma_usable, (x,)),
        forall|x: F| call_requires(width_usable, (x,)),
        forall|x: F| call_requires(height_usable, (x,)),
        call_ensures(
            Settings::<F>::restore::<G, W, H>,
            (t, &saved, gamma_usable, width_usable, height_usable),
            (),
        ),
    ensures
        saved.theme is None ==> final(t).theme == old(t).theme,
        saved.colormap is None ==> final(t).colormap == old(t).colormap,
        saved.scale_mode is None ==> final(t).scale_mode == old(t).scale_mode,
        saved.transfer is None ==> final(t).transfer == old(t).transfer,
        saved.bottom_tab is None ==> final(t).bottom_tab == old(t).bottom_tab,
        saved.gamma is None ==> final(t).gamma == old(t).gamma,
        saved.side_panel_width is None ==> final(t).side_panel_width == old(t).side_panel_width,
        saved.bottom_panel_height is None ==> final(t).bottom_panel_height
            == old(t).bottom_panel_height,
        saved.gamma matches Some(x) ==> (!call_ensures(gamma_usable, (x,), true) ==> final(t).gamma
            == old(t).gamma),
        saved.side_panel_width matches Some(x) ==> (!call_ensures(width_usable, (x,), true)
            ==> final(t).side_panel_width == old(t).side_panel_width),
        saved.bottom_panel_height matches Some(x) ==> (!call_ensures(height_usable, (x,), true)
            ==> final(t).bottom_panel_height == old(t).bottom_panel_height),
        saved.show_axes matches Some(x) ==> final(t).show_axes == x,
        saved.show_axes is None ==> final(t).show_axes == old(t).show_axes,
        saved.show_colorbar matches Some(x) ==> final(t).show_colorbar == x,
        saved.show_colorbar is None ==> final(t).show_colorbar == old(t).show_colorbar,
        saved.side_panel_open matches Some(x) ==> final(t).side_panel_open == x,
        saved.side_panel_open is None ==> final(t).side_panel_open == old(t).side_panel_open,
        saved.bottom_panel_open matches Some(x) ==> final(t).bottom_panel_open == x,
        saved.bottom_panel_open is None ==> final(t).bottom_panel_open == old(
            t,
        ).bottom_panel_open,
        saved.colormap matches Some(n) ==> ((forall|k: ColormapKind|
            (#[trigger] colormap_name(k))@ != n@) ==> final(t).colormap == old(t).colormap),
        saved.theme matches Some(n) ==> (n@ == "Night"@ ==> final(t).theme == UiTheme::Night),
        saved.theme matches Some(n) ==> (n@ == "Light"@ ==> final(t).theme == UiTheme::Light),
        saved.theme matches Some(n) ==> (n@ == "Dark"@ ==> final(t).theme == UiTheme::Dark),
        saved.transfer matches Some(n) ==> (n@ == "Linear"@ ==> final(t).transfer
            == TransferFn::Linear),
        saved.transfer matches Some(n) ==> (n@ == "Asinh"@ ==> final(t).transfer
            == TransferFn::Asinh),
{
    theme::law_theme_labels_differ(final(t).theme, UiTheme::Night);
    theme::law_theme_labels_differ(final(t).theme, UiTheme::Light);
    theme::law_theme_labels_differ(final(t).theme, UiTheme::Dark);
    law_transfer_labels_differ(final(t).transfer, TransferFn::Linear);
    law_transfer_labels_differ(final(t).transfer, TransferFn::Asinh);
    assert(theme::theme_label(UiTheme::Night)@ == "Night"@);
    assert(theme::theme_label(UiTheme::Light)@ == "Light"@);
    assert(theme::theme_label(UiTheme::Dark)@ == "Dark"@);
    assert(transfer_label(TransferFn::Linear)@ == "Linear"@);
    assert(transfer_label(TransferFn::Asinh)@ == "Asinh"@);
}

} // verus!
