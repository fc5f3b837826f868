use astroviewer::frames::RawImage;
use astroviewer::histogram_view::{
    count_axis_label, drag_line, drag_range, grab_line, hist_window, line_is_near, manual_limits,
    offers_channels, ordered_range, step_bins, HistDrag, Step,
};
use astroviewer::layout::{
    check_item, merge_panel_open, radio_item, BottomTab, HistXRange, ScaleMode,
};
use astroviewer::logbook::{LogEntry, LogLevel, Logbook, LOG_LIMIT};
use astroviewer::settings::{ColormapKind, Settings, TransferFn};
use astroviewer::sim::SimCamera;
use astroviewer::svbony_controls::{
    control_shape, edit_control, find_value, format_control_value, left_column, ControlCaps,
    ControlShape, ControlText, ControlType, ControlValue,
};
use astroviewer::theme::{Color, Palette, UiTheme};

#[test]
fn bins_merge_into_steps() {
    let counts: Vec<u64> = (1..=10).collect();
    let steps = step_bins(&counts, 11, 2, 5);
    assert_eq!(
        steps,
        [
            Step { from: 2, to: 3, count: 3 },
            Step { from: 3, to: 4, count: 4 },
            Step { from: 4, to: 5, count: 5 },
        ]
    );
    assert_eq!(step_bins(&counts, 11, 50, 60), [Step { from: 9, to: 10, count: 10 }]);
    assert_eq!(step_bins(&counts, 11, 4, 1), [Step { from: 4, to: 5, count: 5 }]);
    assert_eq!(step_bins(&counts, 10, 0, 10), []);
    assert_eq!(step_bins(&vec![], 1, 0, 10), []);
}

#[test]
fn merging_keeps_the_count() {
    let counts: Vec<u64> = (0..1000).map(|i| i % 7).collect();
    let steps = step_bins(&counts, 1001, 0, 1000);
    assert_eq!(steps.len(), 334);
    assert_eq!((steps[0].from, steps[0].to), (0, 3));
    assert_eq!((steps[333].from, steps[333].to), (999, 1000));
    let total: u64 = steps.iter().map(|s| s.count).sum();
    assert_eq!(total, counts.iter().sum::<u64>());
    for pair in steps.windows(2) {
        assert_eq!(pair[0].to, pair[1].from);
    }
    let counts: Vec<u64> = vec![1; 899];
    assert_eq!(step_bins(&counts, 900, 0, 599).len(), 599);
    assert_eq!(step_bins(&counts, 900, 0, 600).len(), 300);
    assert_eq!(step_bins(&counts, 900, 0, 899).len(), 450);
}

fn window(range: HistXRange, manual: bool, data: (f64, f64), lines: (f64, f64)) -> (f64, f64) {
    hist_window(
        range,
        (0.0, 100.0),
        data,
        (40.0, 60.0),
        lines,
        manual,
        f64::min,
        f64::max,
        |a, b| a <= b,
    )
}

#[test]
fn the_window_keeps_placed_lines_in_reach() {
    assert_eq!(window(HistXRange::Full, false, (20.0, 30.0), (10.0, 50.0)), (0.0, 100.0));
    assert_eq!(window(HistXRange::Data, false, (20.0, 30.0), (10.0, 50.0)), (20.0, 30.0));
    assert_eq!(window(HistXRange::Data, true, (20.0, 30.0), (10.0, 50.0)), (10.0, 50.0));
    assert_eq!(window(HistXRange::Data, false, (-5.0, 130.0), (0.0, 0.0)), (0.0, 100.0));
    assert_eq!(window(HistXRange::Data, false, (120.0, 130.0), (0.0, 0.0)), (0.0, 100.0));
    assert_eq!(window(HistXRange::Display, false, (0.0, 1.0), (0.0, 0.0)), (40.0, 60.0));
}

#[test]
fn the_nearer_line_is_grabbed() {
    assert_eq!(grab_line(true, true, true), Some(HistDrag::Min));
    assert_eq!(grab_line(true, true, false), Some(HistDrag::Max));
    assert_eq!(grab_line(false, false, true), None);
    assert!(line_is_near(HistDrag::Max, Some(HistDrag::Max), Some(HistDrag::Min)));
    assert!(!line_is_near(HistDrag::Min, Some(HistDrag::Max), Some(HistDrag::Min)));
    assert!(line_is_near(HistDrag::Min, None, Some(HistDrag::Min)));
    assert_eq!(manual_limits(true, None, (-1, 1), (0, 9)), (-1, 1));
    assert_eq!(manual_limits(true, Some((-4, 4)), (-1, 1), (0, 9)), (-4, 4));
    assert_eq!(manual_limits(false, Some((-4, 4)), (-1, 1), (0, 9)), (0, 9));
    assert!(offers_channels(true, false));
    assert!(!offers_channels(true, true));
    assert_eq!(count_axis_label(false), "");
    assert!(count_axis_label(true).starts_with("log"));
}

#[test]
fn tabs_are_found_by_name() {
    for tab in BottomTab::all() {
        assert_eq!(BottomTab::from_name(tab.name()), Some(tab));
    }
    assert_eq!(BottomTab::all().len(), 5);
    assert_eq!(BottomTab::from_name("Nothing"), None);
    for (mode, label) in ScaleMode::all() {
        assert_eq!(ScaleMode::from_label(label), Some(mode));
        assert_eq!(mode.label(), label);
    }
    assert_eq!(ScaleMode::from_label("full range"), None);
    assert_eq!(HistXRange::all()[1], (HistXRange::Data, "Fit data"));
    assert_eq!(check_item(true, "Show Axes"), "\u{2713}  Show Axes");
    assert_eq!(check_item(false, "Show Axes"), "    Show Axes");
    assert_eq!(radio_item(true, "Hot"), "\u{2022}  Hot");
}

#[test]
fn the_panel_takes_whichever_change_came() {
    assert!(merge_panel_open(true, true, true));
    assert!(!merge_panel_open(true, false, true));
    assert!(!merge_panel_open(true, true, false));
    assert!(merge_panel_open(false, true, false));
}

fn settings() -> Settings<f32> {
    Settings {
        theme: UiTheme::Night,
        colormap: ColormapKind::Viridis,
        scale_mode: ScaleMode::ZScale,
        transfer: TransferFn::Asinh,
        gamma: 2.2,
        show_axes: true,
        show_colorbar: false,
        side_panel_open: false,
        side_panel_width: 300.0,
        bottom_tab: BottomTab::Focus,
        bottom_panel_open: true,
        bottom_panel_height: 200.0,
    }
}

fn restore(into: &mut Settings<f32>, saved: &astroviewer::settings::SavedSettings<f32>) {
    into.restore(
        saved,
        |g: f32| g.is_finite() && g > 0.0,
        |w: f32| (120.0..=800.0).contains(&w),
        |h: f32| (120.0..=900.0).contains(&h),
    );
}

#[test]
fn settings_come_back() {
    let s = settings();
    let saved = s.to_saved();
    assert_eq!(saved.theme, Some("Night".to_string()));
    assert_eq!(saved.bottom_tab, Some("Focus".to_string()));
    let mut t = Settings {
        theme: UiTheme::Dark,
        colormap: ColormapKind::Hot,
        scale_mode: ScaleMode::Full,
        transfer: TransferFn::Linear,
        gamma: 1.0,
        show_axes: false,
        show_colorbar: true,
        side_panel_open: true,
        side_panel_width: 250.0,
        bottom_tab: BottomTab::Log,
        bottom_panel_open: false,
        bottom_panel_height: 500.0,
    };
    restore(&mut t, &saved);
    assert_eq!(t, s);
}

#[test]
fn unusable_settings_are_left_alone() {
    let mut saved = settings().to_saved();
    saved.theme = Some("Sepia".to_string());
    saved.colormap = None;
    saved.gamma = Some(-1.0);
    saved.side_panel_width = Some(5000.0);
    saved.bottom_panel_height = None;
    saved.show_axes = None;
    let mut t = settings();
    t.theme = UiTheme::Light;
    t.show_axes = false;
    let before = t;
    restore(&mut t, &saved);
    assert_eq!(t, before);
}

#[test]
fn labels_find_their_settings() {
    for kind in ColormapKind::all() {
        assert_eq!(ColormapKind::from_name(kind.name()), Some(kind));
    }
    for (t, label) in TransferFn::all() {
        assert_eq!(TransferFn::from_label(label), Some(t));
        assert_eq!(t.label(), label);
    }
    assert_eq!(TransferFn::Linear.strength_label(), "Gamma");
    assert_eq!(TransferFn::Asinh.reset_label(), "Reset Alpha");
    assert_eq!(TransferFn::Asinh.strength_decades(), 3);
    for (t, label) in UiTheme::all() {
        assert_eq!(UiTheme::from_label(label), Some(t));
        assert_eq!(t.label(), label);
    }
}

#[test]
fn only_light_is_not_dark() {
    assert!(UiTheme::Dark.is_dark());
    assert!(UiTheme::Night.is_dark());
    assert!(!UiTheme::Light.is_dark());
    assert_eq!(UiTheme::Dark.palette(), Palette::dark());
    assert_eq!(Palette::dark().accent, Color { r: 224, g: 158, b: 58, a: 255 });
    assert_eq!(Palette::light().accent, Color { r: 79, g: 70, b: 229, a: 255 });
    assert_eq!(Palette::light().button_shadow, Color { r: 0, g: 0, b: 0, a: 12 });
    let night = Palette::night();
    assert_eq!(night.text_primary, Color { r: 180, g: 70, b: 70, a: 255 });
    assert_eq!(night.accent.g, night.accent.b);
}

#[test]
fn the_log_keeps_the_newest_entries() {
    let mut book = Logbook::new();
    for i in 0..LOG_LIMIT + 3 {
        book.add_log(LogEntry::info(format!("line {i}")));
    }
    assert_eq!(book.entries.len(), LOG_LIMIT);
    assert_eq!(book.entries[0].message, "line 3");
    assert_eq!(book.status_note(), None);
    book.add_log(LogEntry::warn("hot".to_string()));
    assert_eq!(book.status_note(), Some(("\u{26a0} 1  hot".to_string(), false)));
    book.add_log(LogEntry::error("x".repeat(70)));
    let (text, is_error) = book.status_note().unwrap();
    assert_eq!(text, format!("\u{26a0} 2  {}\u{2026}", "x".repeat(57)));
    assert!(is_error);
    book.mark_seen();
    assert_eq!(book.status_note(), None);
    book.clear();
    assert_eq!(book.entries.len(), 0);
}

#[test]
fn a_full_log_forgets_its_oldest_unread_entry() {
    let mut book = Logbook::new();
    book.add_log(LogEntry::error("first".to_string()));
    book.add_log(LogEntry::warn("second".to_string()));
    for i in 2..LOG_LIMIT {
        book.add_log(LogEntry::info(format!("line {i}")));
    }
    assert_eq!(book.status_note(), Some(("\u{26a0} 2  second".to_string(), true)));
    book.add_log(LogEntry::info("over".to_string()));
    assert_eq!(book.status_note(), Some(("\u{26a0} 1  second".to_string(), false)));
    book.add_log(LogEntry::warn("third".to_string()));
    assert_eq!(book.status_note(), Some(("\u{26a0} 1  third".to_string(), false)));
    assert_eq!(book.entries.len(), LOG_LIMIT);
}

#[test]
fn log_entries_carry_the_time_of_day() {
    let e = LogEntry::error("boom".to_string());
    assert_eq!(e.level, LogLevel::Error);
    assert_eq!(e.message, "boom");
    assert_eq!(e.timestamp.len(), 8);
    assert_eq!(&e.timestamp[2..3], ":");
    assert_eq!(LogEntry::info(String::new()).level, LogLevel::Info);
    assert_eq!(LogEntry::warn(String::new()).level, LogLevel::Warn);
}

fn caps(control_type: ControlType, min_value: i64, max_value: i64) -> ControlCaps {
    ControlCaps {
        name: "c".to_string(),
        control_type,
        min_value,
        max_value,
        is_writable: true,
        is_auto_supported: true,
    }
}

#[test]
fn camera_controls_take_their_shape() {
    assert_eq!(control_shape(&caps(ControlType::Gain, 0, 100)), ControlShape::Slider);
    assert_eq!(control_shape(&caps(ControlType::CoolerEnable, 0, 1)), ControlShape::Toggle);
    assert_eq!(control_shape(&caps(ControlType::Exposure, 1, 100)), ControlShape::Exposure);
    assert_eq!(
        control_shape(&caps(ControlType::TargetTemperature, -400, 0)),
        ControlShape::Temperature
    );
    let mut v = ControlValue { control_type: ControlType::Gain, value: 10, auto: false };
    let gain = caps(ControlType::Gain, 0, 100);
    assert_eq!(edit_control(&gain, &mut v, 10, false), None);
    assert_eq!(edit_control(&gain, &mut v, 500, true).unwrap().value, 100);
    assert!(v.auto);
    let mut long = ControlValue { control_type: ControlType::Exposure, value: 0, auto: false };
    let exposure = caps(ControlType::Exposure, 10, 60_000_000);
    assert_eq!(edit_control(&exposure, &mut long, 30_000_000, false).unwrap().value, 10_000_000);
    let slow = caps(ControlType::Exposure, 20_000_000, 60_000_000);
    assert_eq!(edit_control(&slow, &mut long, 15_000_000, false).unwrap().value, 15_000_000);
    assert_eq!(edit_control(&slow, &mut long, 50_000_000, false).unwrap().value, 20_000_000);
    let values = vec![v];
    assert_eq!(find_value(&values, ControlType::Gain), Some(100));
    assert_eq!(find_value(&values, ControlType::Gamma), None);
    assert_eq!((left_column(5), left_column(4), left_column(0)), (3, 2, 0));
}

#[test]
fn control_values_read_in_their_unit() {
    assert_eq!(
        format_control_value(ControlType::CurrentTemperature, -55),
        ControlText::Exact("-5.5 \u{b0}C".to_string())
    );
    assert_eq!(
        format_control_value(ControlType::Exposure, 2_500_000),
        ControlText::Seconds(2_500_000)
    );
    assert_eq!(
        format_control_value(ControlType::Exposure, 2_500),
        ControlText::Milliseconds(2_500)
    );
    assert_eq!(
        format_control_value(ControlType::Exposure, 250),
        ControlText::Exact("250 \u{b5}s".to_string())
    );
    assert_eq!(
        format_control_value(ControlType::Gain, 250),
        ControlText::Exact("250".to_string())
    );
}

#[test]
fn simulated_frames_are_shaded_row_by_row() {
    let mut cam = SimCamera::new(3, 2, 8);
    assert_eq!((cam.width(), cam.height(), cam.bit_depth()), (3, 2, 8));
    let img = cam.next_frame(|x, y, _| x * 10 + y * 100);
    assert_eq!(
        img,
        RawImage::Luma8 { width: 3, height: 2, data: vec![0, 10, 20, 100, 110, 120] }
    );
    let img = cam.next_frame(|_, _, _| 1000);
    assert_eq!(img, RawImage::Luma8 { width: 3, height: 2, data: vec![255; 6] });
    let mut deep = SimCamera::new(2, 1, 12);
    let img = deep.next_frame(|x, _, _| 70_000 * x + 4000);
    assert_eq!(img, RawImage::Luma16 { width: 2, height: 1, data: vec![4000, 4095] });
    let img = deep.next_frame(|_, _, _| 5000);
    assert_eq!(img, RawImage::Luma16 { width: 2, height: 1, data: vec![4095; 2] });
    assert_eq!((deep.width(), deep.height(), deep.bit_depth()), (2, 1, 12));
    let mut coarse = SimCamera::new(1, 1, 6);
    let img = coarse.next_frame(|_, _, _| 200);
    assert_eq!(img, RawImage::Luma8 { width: 1, height: 1, data: vec![63] });
    let mut full = SimCamera::new(1, 1, 16);
    let img = full.next_frame(|_, _, _| 70_000);
    assert_eq!(img, RawImage::Luma16 { width: 1, height: 1, data: vec![65535] });
}

#[test]
fn simulated_noise_follows_the_generator() {
    let mut cam = SimCamera::new(2, 1, 16);
    let img = cam.next_frame(|_, _, noise| (noise >> 15) as u32);
    let seed = 1u64.wrapping_mul(6364136223846793005).wrapping_add(1);
    let a = seed.wrapping_mul(6364136223846793005).wrapping_add(1442695040888963407);
    let b = a.wrapping_mul(6364136223846793005).wrapping_add(1442695040888963407);
    assert_eq!(
        img,
        RawImage::Luma16 { width: 2, height: 1, data: vec![(a >> 48) as u16, (b >> 48) as u16] }
    );
}

#[test]
fn a_dragged_line_stays_within_its_limits() {
    let drag = |line, x| {
        drag_line(line, x, (10.0f32, 20.0), (0.0, 100.0), 19.0, 11.0, f32::min, f32::max)
    };
    assert_eq!(drag(HistDrag::Min, 15.0), (15.0, 20.0));
    assert_eq!(drag(HistDrag::Min, -5.0), (0.0, 20.0));
    assert_eq!(drag(HistDrag::Min, 50.0), (19.0, 20.0));
    assert_eq!(drag(HistDrag::Max, 50.0), (10.0, 50.0));
    assert_eq!(drag(HistDrag::Max, 500.0), (10.0, 100.0));
    assert_eq!(drag(HistDrag::Max, 5.0), (10.0, 11.0));
}

#[test]
fn dragging_a_line_sets_the_range_by_hand() {
    let drag = |grabbed, mode| {
        drag_range(grabbed, 15.0, mode, (10.0f32, 20.0), (0.0, 100.0), 19.0, 11.0, f32::min, f32::max)
    };
    for (mode, _) in ScaleMode::all() {
        assert_eq!(drag(Some(HistDrag::Min), mode), (ScaleMode::Manual, (15.0, 20.0)));
        assert_eq!(drag(Some(HistDrag::Max), mode), (ScaleMode::Manual, (10.0, 15.0)));
        assert_eq!(drag(None, mode), (mode, (10.0, 20.0)));
    }
}

#[test]
fn typed_ranges_do_not_cross() {
    let less = |a: f32, b: f32| a < b;
    assert_eq!(ordered_range((10.0, 5.0), less), (10.0, 10.0));
    assert_eq!(ordered_range((5.0, 10.0), less), (5.0, 10.0));
}
