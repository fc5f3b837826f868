//! Themes and their colors.

use crate::text;
use vstd::prelude::*;

verus! {

/// A color: red, green and blue, and how opaque it is. The channels are not
/// scaled by the opacity.
#[derive(Clone, Copy, PartialEq, Eq, Structural, Debug)]
pub struct Color {
    pub r: u8,
    pub g: u8,
    pub b: u8,
    pub a: u8,
}

/// An opaque color.
pub open spec fn opaque(r: u8, g: u8, b: u8) -> Color {
    Color { r, g, b, a: 255 }
}

fn rgb(r: u8, g: u8, b: u8) -> (c: Color)
    ensures
        c == opaque(r, g, b),
{
    Color { r, g, b, a: 255 }
}

fn rgba(r: u8, g: u8, b: u8, a: u8) -> (c: Color)
    ensures
        c == (Color { r, g, b, a }),
{
    Color { r, g, b, a }
}

/// The look of the user interface.
#[derive(Clone, Copy, PartialEq, Eq, Structural, Debug)]
pub enum UiTheme {
    Dark,
    Light,
    Night,
}

/// The label of a theme.
pub open spec fn theme_label(t: UiTheme) -> &'static str {
    match t {
        UiTheme::Dark => "Dark",
        UiTheme::Light => "Light",
        UiTheme::Night => "Night",
    }
}

/// The colors of a theme.
pub open spec fn theme_palette(t: UiTheme) -> Palette {
    match t {
        UiTheme::Dark => dark_palette(),
        UiTheme::Light => light_palette(),
        UiTheme::Night => night_palette(),
    }
}

impl UiTheme {
    /// Every theme with its label, in display order.
    pub fn all() -> (r: Vec<(UiTheme, &'static str)>)
        ensures
            r@ == seq![
                (UiTheme::Dark, theme_label(UiTheme::Dark)),
                (UiTheme::Light, theme_label(UiTheme::Light)),
                (UiTheme::Night, theme_label(UiTheme::Night)),
            ],
    {
        vec![(UiTheme::Dark, "Dark"), (UiTheme::Light, "Light"), (UiTheme::Night, "Night")]
    }

    pub fn label(self) -> (r: &'static str)
        ensures
            r == theme_label(self),
    {
        match self {
            UiTheme::Dark => "Dark",
            UiTheme::Light => "Light",
            UiTheme::Night => "Night",
        }
    }

    /// Theme by saved label.
    pub fn from_label(name: &str) -> (r: Option<UiTheme>)
        ensures
            match r {
                Some(t) => theme_label(t)@ == name@,
                None => forall|t: UiTheme|
                    #![trigger theme_label(t)]
                    theme_label(t)@ != name@,
            },
    {
        if text::same_text(name, "Dark") {
            Some(UiTheme::Dark)
        } else if text::same_text(name, "Light") {
            Some(UiTheme::Light)
        } else if text::same_text(name, "Night") {
            Some(UiTheme::Night)
        } else {
            None
        }
    }

    pub fn palette(self) -> (r: Palette)
        ensures
            r == theme_palette(self),
    {
        match self {
            UiTheme::Dark => Palette::dark(),
            UiTheme::Light => Palette::light(),
            UiTheme::Night => Palette::night(),
        }
    }

    /// Whether this theme uses a dark surround (everything except Light).
    pub fn is_dark(self) -> (r: bool)
        ensures
            r == (self != UiTheme::Light),
    {
        match self {
            UiTheme::Light => false,
            _ => true,
        }
    }
}

/// A theme is found again under its own label.
pub proof fn law_theme_labels_differ(a: UiTheme, b: UiTheme)
    ensures
        theme_label(a)@ == theme_label(b)@ ==> a == b,
{
    reveal_strlit("Dark");
    reveal_strlit("Light");
    reveal_strlit("Night");
    assert("Dark"@.len() == 4 && "Light"@.len() == 5 && "Night"@.len() == 5);
    assert("Light"@[0] == 'L' && "Night"@[0] == 'N');
}

/// Complete color palette for the user interface.
#[derive(Clone, Copy, PartialEq, Eq, Structural, Debug)]
pub struct Palette {
    // Accent colors
    pub accent: Color,
    pub accent_dark: Color,
    pub accent_light: Color,

    // Borders
    pub border: Color,
    pub border_hover: Color,

    // Text
    pub text_primary: Color,
    pub text_secondary: Color,

    // Backgrounds
    pub bg_raised: Color,
    pub bg_hover: Color,
    pub bg_surface: Color,

    // Text-input / DragValue backgrounds (egui extreme/faint bg)
    pub extreme_bg: Color,
    pub faint_bg: Color,

    // Panel-specific
    pub panel_fill: Color,
    pub window_fill: Color,
    pub toolbar_fill: Color,
    pub toolbar_border: Color,
    pub statusbar_fill: Color,
    pub statusbar_border: Color,
    pub section_header_fill: Color,
    pub section_header_text: Color,
    pub section_border: Color,
    pub section_body_fill: Color,

    // Bottom panel tabs
    pub tab_bar: Color,
    pub tab_active_bg: Color,
    pub tab_hover_bg: Color,
    pub tab_active_text: Color,
    pub tab_inactive_text: Color,

    // Histogram plot
    pub plot_line: Color,
    pub plot_bg: Color,

    // Central panel background (behind image)
    pub image_bg: Color,

    // Checkbox check color
    pub check_mark: Color,

    // Combo box specific
    pub combo_text: Color,
    pub combo_bg: Color,
    pub combo_border: Color,
    pub combo_border_open: Color,
    pub combo_hover_bg: Color,
    pub combo_popup_bg: Color,
    pub combo_popup_border: Color,
    pub combo_item_selected_bg: Color,
    pub combo_item_hover_bg: Color,
    pub combo_item_hover_text: Color,
    pub combo_chevron: Color,

    // Slider specific
    pub slider_track: Color,
    pub slider_track_top: Color,
    pub slider_handle: Color,
    pub slider_handle_hover: Color,
    pub slider_handle_shadow: Color,
    pub slider_handle_highlight: Color,

    // Button specific
    pub button_bg: Color,
    pub button_bg_hover: Color,
    pub button_bg_pressed: Color,
    pub button_shadow: Color,
    pub button_highlight: Color,

    // Axes/colorbar text
    pub axes_text: Color,
    pub axes_stroke: Color,
}

/// Neutral instrument dark theme: near-black cool chrome with a single warm
/// amber accent reserved for interactive state.
pub open spec fn dark_palette() -> Palette {
    Palette {
        accent: opaque(224, 158, 58),
        accent_dark: opaque(190, 130, 40),
        accent_light: opaque(240, 190, 110),
        border: opaque(42, 48, 59),
        border_hover: opaque(58, 66, 80),
        text_primary: opaque(212, 217, 224),
        text_secondary: opaque(138, 147, 160),
        bg_raised: opaque(27, 31, 38),
        bg_hover: opaque(35, 40, 51),
        bg_surface: opaque(20, 23, 28),
        extreme_bg: opaque(10, 12, 15),
        faint_bg: opaque(24, 28, 34),
        panel_fill: opaque(20, 23, 28),
        window_fill: opaque(13, 15, 18),
        toolbar_fill: opaque(13, 15, 18),
        toolbar_border: opaque(42, 48, 59),
        statusbar_fill: opaque(13, 15, 18),
        statusbar_border: opaque(42, 48, 59),
        section_header_fill: opaque(27, 31, 38),
        section_header_text: opaque(154, 164, 178),
        section_border: opaque(42, 48, 59),
        section_body_fill: opaque(20, 23, 28),
        tab_bar: opaque(13, 15, 18),
        tab_active_bg: opaque(20, 23, 28),
        tab_hover_bg: opaque(27, 31, 38),
        tab_active_text: opaque(212, 217, 224),
        tab_inactive_text: opaque(107, 114, 128),
        plot_line: opaque(224, 158, 58),
        plot_bg: opaque(13, 15, 18),
        image_bg: opaque(5, 6, 8),
        check_mark: opaque(28, 18, 5),
        combo_text: opaque(212, 217, 224),
        combo_bg: opaque(27, 31, 38),
        combo_border: opaque(42, 48, 59),
        combo_border_open: opaque(224, 158, 58),
        combo_hover_bg: opaque(35, 40, 51),
        combo_popup_bg: opaque(20, 23, 28),
        combo_popup_border: opaque(42, 48, 59),
        combo_item_selected_bg: opaque(58, 42, 18),
        combo_item_hover_bg: opaque(224, 158, 58),
        combo_item_hover_text: opaque(28, 18, 5),
        combo_chevron: opaque(138, 147, 160),
        slider_track: opaque(42, 48, 59),
        slider_track_top: opaque(35, 40, 51),
        slider_handle: opaque(196, 203, 212),
        slider_handle_hover: opaque(255, 255, 255),
        slider_handle_shadow: Color { r: 0, g: 0, b: 0, a: 80 },
        slider_handle_highlight: Color { r: 255, g: 255, b: 255, a: 30 },
        button_bg: opaque(27, 31, 38),
        button_bg_hover: opaque(35, 40, 51),
        button_bg_pressed: opaque(42, 48, 59),
        button_shadow: Color { r: 0, g: 0, b: 0, a: 60 },
        button_highlight: Color { r: 255, g: 255, b: 255, a: 12 },
        axes_text: opaque(138, 147, 160),
        axes_stroke: opaque(58, 66, 80),
    }
}

/// Light theme with an indigo accent.
pub open spec fn light_palette() -> Palette {
    Palette {
        accent: opaque(79, 70, 229),
        accent_dark: opaque(67, 56, 202),
        accent_light: opaque(99, 102, 241),
        border: opaque(209, 213, 219),
        border_hover: opaque(156, 163, 175),
        text_primary: opaque(17, 24, 39),
        text_secondary: opaque(107, 114, 128),
        bg_raised: opaque(255, 255, 255),
        bg_hover: opaque(243, 244, 246),
        bg_surface: opaque(249, 250, 251),
        extreme_bg: opaque(248, 248, 248),
        faint_bg: opaque(245, 245, 245),
        panel_fill: opaque(249, 250, 251),
        window_fill: opaque(255, 255, 255),
        toolbar_fill: opaque(243, 244, 246),
        toolbar_border: opaque(229, 231, 235),
        statusbar_fill: opaque(237, 238, 242),
        statusbar_border: opaque(218, 220, 224),
        section_header_fill: opaque(232, 234, 246),
        section_header_text: opaque(75, 70, 110),
        section_border: opaque(229, 231, 235),
        section_body_fill: opaque(255, 255, 255),
        tab_bar: opaque(237, 238, 242),
        tab_active_bg: opaque(255, 255, 255),
        tab_hover_bg: opaque(245, 246, 249),
        tab_active_text: opaque(17, 24, 39),
        tab_inactive_text: opaque(107, 114, 128),
        plot_line: opaque(79, 70, 229),
        plot_bg: opaque(249, 250, 251),
        image_bg: opaque(240, 240, 240),
        check_mark: opaque(255, 255, 255),
        combo_text: opaque(51, 51, 51),
        combo_bg: opaque(255, 255, 255),
        combo_border: opaque(206, 206, 206),
        combo_border_open: opaque(0, 122, 204),
        combo_hover_bg: opaque(248, 248, 248),
        combo_popup_bg: opaque(255, 255, 255),
        combo_popup_border: opaque(206, 206, 206),
        combo_item_selected_bg: opaque(232, 240, 252),
        combo_item_hover_bg: opaque(0, 122, 204),
        combo_item_hover_text: opaque(255, 255, 255),
        combo_chevron: opaque(120, 120, 120),
        slider_track: opaque(215, 216, 222),
        slider_track_top: opaque(192, 193, 200),
        slider_handle: opaque(255, 255, 255),
        slider_handle_hover: opaque(252, 252, 254),
        slider_handle_shadow: Color { r: 0, g: 0, b: 0, a: 22 },
        slider_handle_highlight: Color { r: 255, g: 255, b: 255, a: 120 },
        button_bg: opaque(255, 255, 255),
        button_bg_hover: opaque(243, 244, 246),
        button_bg_pressed: opaque(232, 234, 240),
        button_shadow: Color { r: 0, g: 0, b: 0, a: 12 },
        button_highlight: Color { r: 255, g: 255, b: 255, a: 180 },
        axes_text: opaque(51, 51, 51),
        axes_stroke: opaque(97, 97, 97),
    }
}

/// Deep red night-vision theme.
pub open spec fn night_palette() -> Palette {
    Palette {
        accent: opaque(160, 40, 40),
        accent_dark: opaque(130, 30, 30),
        accent_light: opaque(180, 55, 55),
        border: opaque(70, 25, 25),
        border_hover: opaque(100, 35, 35),
        text_primary: opaque(180, 70, 70),
        text_secondary: opaque(140, 50, 50),
        bg_raised: opaque(35, 12, 12),
        bg_hover: opaque(50, 18, 18),
        bg_surface: opaque(25, 8, 8),
        extreme_bg: opaque(20, 8, 8),
        faint_bg: opaque(30, 12, 12),
        panel_fill: opaque(25, 8, 8),
        window_fill: opaque(15, 5, 5),
        toolbar_fill: opaque(15, 5, 5),
        toolbar_border: opaque(70, 25, 25),
        statusbar_fill: opaque(15, 5, 5),
        statusbar_border: opaque(70, 25, 25),
        section_header_fill: opaque(40, 14, 14),
        section_header_text: opaque(160, 60, 60),
        section_border: opaque(70, 25, 25),
        section_body_fill: opaque(25, 8, 8),
        tab_bar: opaque(15, 5, 5),
        tab_active_bg: opaque(30, 10, 10),
        tab_hover_bg: opaque(45, 16, 16),
        tab_active_text: opaque(180, 70, 70),
        tab_inactive_text: opaque(100, 40, 40),
        plot_line: opaque(160, 40, 40),
        plot_bg: opaque(15, 5, 5),
        image_bg: opaque(5, 2, 2),
        check_mark: opaque(200, 80, 80),
        combo_text: opaque(180, 70, 70),
        combo_bg: opaque(35, 12, 12),
        combo_border: opaque(70, 25, 25),
        combo_border_open: opaque(160, 40, 40),
        combo_hover_bg: opaque(50, 18, 18),
        combo_popup_bg: opaque(25, 8, 8),
        combo_popup_border: opaque(70, 25, 25),
        combo_item_selected_bg: opaque(60, 20, 20),
        combo_item_hover_bg: opaque(160, 40, 40),
        combo_item_hover_text: opaque(220, 90, 90),
        combo_chevron: opaque(140, 50, 50),
        slider_track: opaque(50, 20, 20),
        slider_track_top: opaque(40, 15, 15),
        slider_handle: opaque(35, 12, 12),
        slider_handle_hover: opaque(50, 18, 18),
        slider_handle_shadow: Color { r: 0, g: 0, b: 0, a: 40 },
        slider_handle_highlight: Color { r: 100, g: 30, b: 30, a: 60 },
        button_bg: opaque(35, 12, 12),
        button_bg_hover: opaque(50, 18, 18),
        button_bg_pressed: opaque(60, 22, 22),
        button_shadow: Color { r: 0, g: 0, b: 0, a: 20 },
        button_highlight: Color { r: 100, g: 30, b: 30, a: 40 },
        axes_text: opaque(140, 50, 50),
        axes_stroke: opaque(80, 30, 30),
    }
}

impl Palette {
    /// Neutral instrument dark theme: near-black cool chrome with a single warm
    /// amber accent reserved for interactive state.
    pub fn dark() -> (r: Palette)
        ensures
            r == dark_palette(),
    {
        Palette {
            accent: rgb(224, 158, 58),
            accent_dark: rgb(190, 130, 40),
            accent_light: rgb(240, 190, 110),
            border: rgb(42, 48, 59),
            border_hover: rgb(58, 66, 80),
            text_primary: rgb(212, 217, 224),
            text_secondary: rgb(138, 147, 160),
            bg_raised: rgb(27, 31, 38),
            bg_hover: rgb(35, 40, 51),
            bg_surface: rgb(20, 23, 28),
            extreme_bg: rgb(10, 12, 15),
            faint_bg: rgb(24, 28, 34),
            panel_fill: rgb(20, 23, 28),
            window_fill: rgb(13, 15, 18),
            toolbar_fill: rgb(13, 15, 18),
            toolbar_border: rgb(42, 48, 59),
            statusbar_fill: rgb(13, 15, 18),
            statusbar_border: rgb(42, 48, 59),
            section_header_fill: rgb(27, 31, 38),
            section_header_text: rgb(154, 164, 178),
            section_border: rgb(42, 48, 59),
            section_body_fill: rgb(20, 23, 28),
            tab_bar: rgb(13, 15, 18),
            tab_active_bg: rgb(20, 23, 28),
            tab_hover_bg: rgb(27, 31, 38),
            tab_active_text: rgb(212, 217, 224),
            tab_inactive_text: rgb(107, 114, 128),
            plot_line: rgb(224, 158, 58),
            plot_bg: rgb(13, 15, 18),
            image_bg: rgb(5, 6, 8),
            check_mark: rgb(28, 18, 5),
            combo_text: rgb(212, 217, 224),
            combo_bg: rgb(27, 31, 38),
            combo_border: rgb(42, 48, 59),
            combo_border_open: rgb(224, 158, 58),
            combo_hover_bg: rgb(35, 40, 51),
            combo_popup_bg: rgb(20, 23, 28),
            combo_popup_border: rgb(42, 48, 59),
            combo_item_selected_bg: rgb(58, 42, 18),
            combo_item_hover_bg: rgb(224, 158, 58),
            combo_item_hover_text: rgb(28, 18, 5),
            combo_chevron: rgb(138, 147, 160),
            slider_track: rgb(42, 48, 59),
            slider_track_top: rgb(35, 40, 51),
            slider_handle: rgb(196, 203, 212),
            slider_handle_hover: rgb(255, 255, 255),
            slider_handle_shadow: rgba(0, 0, 0, 80),
            slider_handle_highlight: rgba(255, 255, 255, 30),
            button_bg: rgb(27, 31, 38),
            button_bg_hover: rgb(35, 40, 51),
            button_bg_pressed: rgb(42, 48, 59),
            button_shadow: rgba(0, 0, 0, 60),
            button_highlight: rgba(255, 255, 255, 12),
            axes_text: rgb(138, 147, 160),
            axes_stroke: rgb(58, 66, 80),
        }
    }

    /// Light theme with an indigo accent.
    pub fn light() -> (r: Palette)
        ensures
            r == light_palette(),
    {
        Palette {
            accent: rgb(79, 70, 229),
            accent_dark: rgb(67, 56, 202),
            accent_light: rgb(99, 102, 241),
            border: rgb(209, 213, 219),
            border_hover: rgb(156, 163, 175),
            text_primary: rgb(17, 24, 39),
            text_secondary: rgb(107, 114, 128),
            bg_raised: rgb(255, 255, 255),
            bg_hover: rgb(243, 244, 246),
            bg_surface: rgb(249, 250, 251),
            extreme_bg: rgb(248, 248, 248),
            faint_bg: rgb(245, 245, 245),
            panel_fill: rgb(249, 250, 251),
            window_fill: rgb(255, 255, 255),
            toolbar_fill: rgb(243, 244, 246),
            toolbar_border: rgb(229, 231, 235),
            statusbar_fill: rgb(237, 238, 242),
            statusbar_border: rgb(218, 220, 224),
            section_header_fill: rgb(232, 234, 246),
            section_header_text: rgb(75, 70, 110),
            section_border: rgb(229, 231, 235),
            section_body_fill: rgb(255, 255, 255),
            tab_bar: rgb(237, 238, 242),
            tab_active_bg: rgb(255, 255, 255),
            tab_hover_bg: rgb(245, 246, 249),
            tab_active_text: rgb(17, 24, 39),
            tab_inactive_text: rgb(107, 114, 128),
            plot_line: rgb(79, 70, 229),
            plot_bg: rgb(249, 250, 251),
            image_bg: rgb(240, 240, 240),
            check_mark: rgb(255, 255, 255),
            combo_text: rgb(51, 51, 51),
            combo_bg: rgb(255, 255, 255),
            combo_border: rgb(206, 206, 206),
            combo_border_open: rgb(0, 122, 204),
            combo_hover_bg: rgb(248, 248, 248),
            combo_popup_bg: rgb(255, 255, 255),
            combo_popup_border: rgb(206, 206, 206),
            combo_item_selected_bg: rgb(232, 240, 252),
            combo_item_hover_bg: rgb(0, 122, 204),
            combo_item_hover_text: rgb(255, 255, 255),
            combo_chevron: rgb(120, 120, 120),
            slider_track: rgb(215, 216, 222),
            slider_track_top: rgb(192, 193, 200),
            slider_handle: rgb(255, 255, 255),
            slider_handle_hover: rgb(252, 252, 254),
            slider_handle_shadow: rgba(0, 0, 0, 22),
            slider_handle_highlight: rgba(255, 255, 255, 120),
            button_bg: rgb(255, 255, 255),
            button_bg_hover: rgb(243, 244, 246),
            button_bg_pressed: rgb(232, 234, 240),
            button_shadow: rgba(0, 0, 0, 12),
            button_highlight: rgba(255, 255, 255, 180),
            axes_text: rgb(51, 51, 51),
            axes_stroke: rgb(97, 97, 97),
        }
    }

    /// Deep red night-vision theme.
    pub fn night() -> (r: Palette)
        ensures
            r == night_palette(),
    {
        Palette {
            accent: rgb(160, 40, 40),
            accent_dark: rgb(130, 30, 30),
            accent_light: rgb(180, 55, 55),
            border: rgb(70, 25, 25),
            border_hover: rgb(100, 35, 35),
            text_primary: rgb(180, 70, 70),
            text_secondary: rgb(140, 50, 50),
            bg_raised: rgb(35, 12, 12),
            bg_hover: rgb(50, 18, 18),
            bg_surface: rgb(25, 8, 8),
            extreme_bg: rgb(20, 8, 8),
            faint_bg: rgb(30, 12, 12),
            panel_fill: rgb(25, 8, 8),
            window_fill: rgb(15, 5, 5),
            toolbar_fill: rgb(15, 5, 5),
            toolbar_border: rgb(70, 25, 25),
            statusbar_fill: rgb(15, 5, 5),
            statusbar_border: rgb(70, 25, 25),
            section_header_fill: rgb(40, 14, 14),
            section_header_text: rgb(160, 60, 60),
            section_border: rgb(70, 25, 25),
            section_body_fill: rgb(25, 8, 8),
            tab_bar: rgb(15, 5, 5),
            tab_active_bg: rgb(30, 10, 10),
            tab_hover_bg: rgb(45, 16, 16),
            tab_active_text: rgb(180, 70, 70),
            tab_inactive_text: rgb(100, 40, 40),
            plot_line: rgb(160, 40, 40),
            plot_bg: rgb(15, 5, 5),
            image_bg: rgb(5, 2, 2),
            check_mark: rgb(200, 80, 80),
            combo_text: rgb(180, 70, 70),
            combo_bg: rgb(35, 12, 12),
            combo_border: rgb(70, 25, 25),
            combo_border_open: rgb(160, 40, 40),
            combo_hover_bg: rgb(50, 18, 18),
            combo_popup_bg: rgb(25, 8, 8),
            combo_popup_border: rgb(70, 25, 25),
            combo_item_selected_bg: rgb(60, 20, 20),
            combo_item_hover_bg: rgb(160, 40, 40),
            combo_item_hover_text: rgb(220, 90, 90),
            combo_chevron: rgb(140, 50, 50),
            slider_track: rgb(50, 20, 20),
            slider_track_top: rgb(40, 15, 15),
            slider_handle: rgb(35, 12, 12),
            slider_handle_hover: rgb(50, 18, 18),
            slider_handle_shadow: rgba(0, 0, 0, 40),
            slider_handle_highlight: rgba(100, 30, 30, 60),
            button_bg: rgb(35, 12, 12),
            button_bg_hover: rgb(50, 18, 18),
            button_bg_pressed: rgb(60, 22, 22),
            button_shadow: rgba(0, 0, 0, 20),
            button_highlight: rgba(100, 30, 30, 40),
            axes_text: rgb(140, 50, 50),
            axes_stroke: rgb(80, 30, 30),
        }
    }
}

/// Every color of a palette, in the order of its fields.
pub open spec fn colors(p: Palette) -> Seq<Color> {
    seq![
        p.accent,
        p.accent_dark,
        p.accent_light,
        p.border,
        p.border_hover,
        p.text_primary,
        p.text_secondary,
        p.bg_raised,
        p.bg_hover,
        p.bg_surface,
        p.extreme_bg,
        p.faint_bg,
        p.panel_fill,
        p.window_fill,
        p.toolbar_fill,
        p.toolbar_border,
        p.statusbar_fill,
        p.statusbar_border,
        p.section_header_fill,
        p.section_header_text,
        p.section_border,
        p.section_body_fill,
        p.tab_bar,
        p.tab_active_bg,
        p.tab_hover_bg,
        p.tab_active_text,
        p.tab_inactive_text,
        p.plot_line,
        p.plot_bg,
        p.image_bg,
        p.check_mark,
        p.combo_text,
        p.combo_bg,
        p.combo_border,
        p.combo_border_open,
        p.combo_hover_bg,
        p.combo_popup_bg,
        p.combo_popup_border,
        p.combo_item_selected_bg,
        p.combo_item_hover_bg,
        p.combo_item_hover_text,
        p.combo_chevron,
        p.slider_track,
        p.slider_track_top,
        p.slider_handle,
        p.slider_handle_hover,
        p.slider_handle_shadow,
        p.slider_handle_highlight,
        p.button_bg,
        p.button_bg_hover,
        p.button_bg_pressed,
        p.button_shadow,
        p.button_highlight,
        p.axes_text,
        p.axes_stroke,
    ]
}

/// Does a color spare dark-adapted eyes: green and blue alike, and red at least
/// twice as strong as either?
pub open spec fn is_red_light(c: Color) -> bool {
    c.g == c.b && 2 * c.g <= c.r
}

/// The night theme shows red light only.
pub proof fn law_night_is_red(i: int)
    requires
        0 <= i < colors(night_palette()).len(),
    ensures
        is_red_light(colors(night_palette())[i]),
{
}

/// Each theme has its own label, is found under it and stands in the list with
/// it; all but the light one are dark, and each brings its own palette.
pub proof fn law_themes_are_told_apart(
    t: UiTheme,
    label: &'static str,
    name: &str,
    found: Option<UiTheme>,
    all: Vec<(UiTheme, &'static str)>,
    is_dark: bool,
    palette: Palette,
    dark: Palette,
    light: Palette,
    night: Palette,
)
    requires
        call_ensures(UiTheme::label, (t,), label),
        call_ensures(UiTheme::from_label, (name,), found),
        call_ensures(UiTheme::all, (), all),
        call_ensures(UiTheme::is_dark, (t,), is_dark),
        call_ensures(UiTheme::palette, (t,), palette),
        call_ensures(Palette::dark, (), dark),
        call_ensures(Palette::light, (), light),
        call_ensures(Palette::night, (), night),
    ensures
        t == UiTheme::Dark ==> label@ == "Dark"@ && is_dark && palette == dark,
        t == UiTheme::Light ==> label@ == "Light"@ && !is_dark && palette == light,
        t == UiTheme::Night ==> label@ == "Night"@ && is_dark && palette == night,
        name@ == label@ ==> found == Some(t),
        found matches Some(f) ==> (f == t ==> name@ == label@),
        found is None <==> name@ != "Dark"@ && name@ != "Light"@ && name@ != "Night"@,
        all.len() == 3,
        all@[0].0 == UiTheme::Dark && all@[0].1@ == "Dark"@,
        all@[1].0 == UiTheme::Light && all@[1].1@ == "Light"@,
        all@[2].0 == UiTheme::Night && all@[2].1@ == "Night"@,
{
    if let Some(f) = found {
        law_theme_labels_differ(f, t);
    } else {
        assert(theme_label(UiTheme::Dark)@ != name@);
        assert(theme_label(UiTheme::Light)@ != name@);
        assert(theme_label(UiTheme::Night)@ != name@);
    }
}

/// How much light a color gives, all channels together.
pub open spec fn light_of(c: Color) -> int {
    c.r + c.g + c.b
}

/// Do the parts of a palette that belong together have one color: the plot
/// and the open combo in the accent, the bars in the window's color, and every
/// frame in the border's?
pub open spec fn is_of_a_piece(p: Palette) -> bool {
    &&& p.plot_line == p.accent
    &&& p.panel_fill == p.bg_surface
    &&& p.tab_active_text == p.text_primary
    &&& p.section_border == p.toolbar_border
    &&& p.button_bg == p.bg_raised
    &&& p.button_bg_hover == p.bg_hover
}

/// Is every color opaque but the shadows and the highlights, which are not?
pub open spec fn is_solid(p: Palette) -> bool {
    &&& forall|i: int|
        #![trigger colors(p)[i]]
        0 <= i < colors(p).len() && i != 46 && i != 47 && i != 51 && i != 52 ==> colors(p)[i].a
            == 255
    &&& p.slider_handle_shadow.a < 255 && p.slider_handle_highlight.a < 255
    &&& p.button_shadow.a < 255 && p.button_highlight.a < 255
}

/// Text stands out in every theme: it is brighter than what it stands on in the
/// dark ones, and darker in the light one. The night theme shows red light
/// only. What is solid is opaque, and what belongs together has one color.
pub proof fn law_palettes_can_be_read(dark: Palette, light: Palette, night: Palette, i: int)
    requires
        call_ensures(Palette::dark, (), dark),
        call_ensures(Palette::light, (), light),
        call_ensures(Palette::night, (), night),
        0 <= i < 55,
    ensures
        light_of(dark.text_primary) > 2 * light_of(dark.panel_fill),
        light_of(dark.text_secondary) > 2 * light_of(dark.panel_fill),
        light_of(dark.combo_text) > 2 * light_of(dark.combo_bg),
        light_of(dark.tab_inactive_text) > 2 * light_of(dark.tab_bar),
        light_of(night.text_primary) > 2 * light_of(night.panel_fill),
        light_of(night.text_secondary) > 2 * light_of(night.panel_fill),
        light_of(night.combo_text) > 2 * light_of(night.combo_bg),
        light_of(night.tab_inactive_text) > 2 * light_of(night.tab_bar),
        2 * light_of(light.text_primary) < light_of(light.panel_fill),
        2 * light_of(light.text_secondary) < light_of(light.panel_fill),
        2 * light_of(light.combo_text) < light_of(light.combo_bg),
        2 * light_of(light.tab_inactive_text) < light_of(light.tab_bar),
        is_of_a_piece(dark) && is_of_a_piece(light) && is_of_a_piece(night),
        is_solid(dark) && is_solid(light) && is_solid(night),
        is_red_light(colors(night)[i]),
        light_of(night.text_primary) < light_of(dark.text_primary),
        light_of(night.image_bg) <= light_of(dark.image_bg) < light_of(light.image_bg),
{
    law_night_is_red(i);
}

} // verus!
