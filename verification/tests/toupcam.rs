use astroviewer::exposure_entry::{readings, typed_time, TimeUnit};
use astroviewer::frames::{
    average_cells, image_exceeds, native_max, process_image, shift_image_right, site_samples,
    RawImage,
};
use astroviewer::pixels::Pixels;
use astroviewer::recording::toupcam_shot;
use astroviewer::toupcam_camera::{
    adv_options, apply_cmd, build_advanced, max_black_level, poll_telemetry, probe_corrections,
    unpack_halves, AdvChoices, AdvKind, Correction, CorrectionAction, GuideDirection, ModelInfo,
    Opt, RawTelemetry, Readings, Roi, SdkCall, TelemetryCfg, ToupCmd, ToupControls,
    ToupTelemetry, FLAG_AUTOFOCUSER, FLAG_BLACKLEVEL, FLAG_FILTERWHEEL, FLAG_LOW_NOISE, FLAG_MONO,
    FLAG_ST4, FLAG_TEC, FLAG_TRIGGER_SOFTWARE, FLAG_USB30_OVER_USB20, OPTION_BINNING,
    OPTION_BLACKLEVEL, OPTION_CHAMBER_HT, OPTION_DFC, OPTION_FFC, OPTION_LOW_NOISE, OPTION_TEC,
    OPTION_TECTARGET, OPTION_TRIGGER,
};
use astroviewer::toupcam_capture::{
    receiver_gone, CameraEvent, CaptureLoop, CmdStep, EventStep,
};
use astroviewer::toupcam_open::{
    initial_controls, live_cfa, mosaic_of_code, pipeline_note, pixel_pipeline, telemetry_cfg,
    usb2_warning, OpenProbe,
};
use astroviewer::toupcam_panel::{
    humidity_text, panel_groups, panel_rows, resolution_labels, slot_labels, tec_drive_text,
    temperature_text, PanelGroup, PanelRow,
};

fn model(flags: u64) -> ModelInfo {
    ModelInfo {
        name: "ATR585".to_string(),
        flags,
        max_speed: 2,
        max_fan_speed: 1,
        preview_resolutions: vec![(3840, 2160), (1920, 1080)],
    }
}

fn probe(options: Vec<(u32, i32)>) -> OpenProbe {
    OpenProbe {
        display_name: "Cam".to_string(),
        mono: Some(false),
        max_bit_depth: Some(12),
        pattern: Some("RGGB"),
        exposure_range: Some((100, 1_000_000, 10_000)),
        exposure: Some(50),
        auto_expo_target: None,
        gain_range: Some((100, 500, 100)),
        gain: Some(900),
        speed: Some(7),
        tec_target_range: Some((-400, 200)),
        temperature: Some(-105),
        power_mw: None,
        resolutions: vec![],
        resolution_index: Some(1),
        roi: None,
        serial: Some("SN1".to_string()),
        firmware: None,
        hardware: None,
        produced: None,
        pixel_size: Some("2.9".to_string()),
        sdk_version: "57".to_string(),
        filter_slots: Some(5),
        filter_position: Some(2),
        focuser_position: Some(1000),
        focuser_max_step: Some(0),
        options: Readings { values: options },
    }
}

fn controls(flags: u64, options: Vec<(u32, i32)>) -> ToupControls<f32> {
    initial_controls(&probe(options), &model(flags), 12, |t| t as f32 / 10.0)
}

fn set_target(c: &mut ToupControls<f32>, degrees: f32) -> Option<ToupCmd> {
    let moved = |new: f32, old: f32| (new - old).abs() >= 0.05;
    c.edit_tec_target(degrees, f32::min, f32::max, moved, |t| (t * 10.0).round() as i32)
}

#[test]
fn packed_halves_unpack() {
    assert_eq!(unpack_halves(0x0012_0034), (0x12, 0x34));
    assert_eq!(unpack_halves(-1), (-1, -1));
    assert_eq!(unpack_halves(0x7fff_8000), (32767, -32768));
}

#[test]
fn the_pipeline_keeps_the_native_depth() {
    assert_eq!(pixel_pipeline(Some(12)), (true, 12));
    assert_eq!(pixel_pipeline(Some(20)), (true, 16));
    assert_eq!(pixel_pipeline(Some(8)), (false, 8));
    assert_eq!(pixel_pipeline(None), (false, 8));
}

#[test]
fn a_mono_sensor_has_no_mosaic() {
    let mut p = probe(vec![]);
    assert_eq!(live_cfa(&p, &model(0)), Some("RGGB"));
    assert_eq!(pipeline_note(&p, &model(0), 12), "Cam: RAW color (Bayer) capture, 12-bit, RGGB mosaic");
    p.mono = Some(true);
    assert_eq!(live_cfa(&p, &model(0)), None);
    assert_eq!(pipeline_note(&p, &model(0), 8), "Cam: RAW mono capture, 8-bit");
    p.mono = None;
    assert_eq!(live_cfa(&p, &model(FLAG_MONO)), None);
    p.mono = Some(false);
    p.pattern = None;
    assert_eq!(
        pipeline_note(&p, &model(0), 8),
        "Cam: RAW color (Bayer) capture, 8-bit \u{2014} unrecognized CFA, treating as mono"
    );
    assert_eq!(usb2_warning(&p, &model(0)), None);
    assert_eq!(
        usb2_warning(&p, &model(FLAG_USB30_OVER_USB20)).unwrap(),
        "Cam: USB3 camera on a USB2 link \u{2014} bandwidth limited"
    );
}

#[test]
fn controls_start_inside_their_ranges() {
    let c = controls(
        FLAG_TEC | FLAG_ST4 | FLAG_FILTERWHEEL | FLAG_AUTOFOCUSER,
        vec![(OPTION_TEC, 1), (OPTION_TECTARGET, -900)],
    );
    assert_eq!(c.exposure_us, 100);
    assert_eq!(c.gain, 500);
    assert_eq!((c.speed, c.max_speed), (2, 2));
    assert_eq!(c.auto_expo_target, 120);
    assert!(c.tec_on);
    assert_eq!((c.tec_target, c.tec_range), (-40.0, (-40.0, 20.0)));
    assert_eq!(c.roi, Roi { x: 0, y: 0, width: 1920, height: 1080 });
    assert_eq!(c.filter_wheel.unwrap().slots, 5);
    let f = c.focuser.unwrap();
    assert_eq!((f.position, f.target, f.max_step), (1000, 1000, 1));
    assert_eq!(c.info_rows[0], ("Model", "ATR585".to_string()));
    assert_eq!(c.info_rows[1], ("Serial", "SN1".to_string()));
    assert_eq!(c.info_rows[3], ("Sensor", "1920 \u{d7} 1080, 12-bit".to_string()));
    let cfg = telemetry_cfg(&c, &model(0));
    assert_eq!((cfg.temp, cfg.power, cfg.wheel, cfg.focuser), (true, false, true, true));
}

#[test]
fn a_shot_takes_the_setpoint_of_a_running_cooler() {
    let mut c = controls(FLAG_TEC | FLAG_BLACKLEVEL, vec![(OPTION_TEC, 1), (OPTION_BLACKLEVEL, 31)]);
    let s = toupcam_shot(&c);
    assert_eq!((s.exposure_us, s.gain, s.offset), (100, Some(500), Some(31)));
    assert_eq!((s.ccd_temp, s.set_temp), (Some(-105), Some(0.0)));
    c.tec_on = false;
    assert_eq!(toupcam_shot(&c).set_temp, None);
}

#[test]
fn advanced_rows_need_the_camera_to_answer() {
    let m = model(FLAG_LOW_NOISE);
    assert_eq!(build_advanced(&Readings { values: vec![] }, &m, 12).len(), 0);
    let rows = build_advanced(
        &Readings { values: vec![(OPTION_LOW_NOISE, 1), (OPTION_BINNING, 1)] },
        &m,
        12,
    );
    let keys: Vec<u32> = rows.iter().map(|r| r.opt.0).collect();
    assert_eq!(keys, [OPTION_BINNING, OPTION_LOW_NOISE]);
    assert_eq!(rows[0].kind, AdvKind::Enum(AdvChoices::Binning));
    assert_eq!(rows[1].kind, AdvKind::Bool);
    assert_eq!(rows[1].value, 1);
    assert_eq!(adv_options().len(), 20);
}

#[test]
fn the_black_level_limit_grows_with_the_depth() {
    assert_eq!(max_black_level(8), 31);
    assert_eq!(max_black_level(12), 31 * 16);
    assert_eq!(max_black_level(16), 31 * 256);
}

#[test]
fn commands_become_calls() {
    assert_eq!(apply_cmd(ToupCmd::SetExposure(5)), SdkCall::SetExposure(5));
    assert_eq!(
        apply_cmd(ToupCmd::SetTriggerMode(true)),
        SdkCall::PutOption(Opt(OPTION_TRIGGER), 1)
    );
    assert_eq!(apply_cmd(ToupCmd::Snap), SdkCall::Trigger(1));
    assert_eq!(
        apply_cmd(ToupCmd::Correction(Correction::DarkField, CorrectionAction::Enable(false))),
        SdkCall::PutOption(Opt(OPTION_DFC), 0)
    );
    assert_eq!(
        apply_cmd(ToupCmd::Correction(
            Correction::FlatField,
            CorrectionAction::Export("/f".to_string())
        )),
        SdkCall::ExportCorrection(Correction::FlatField, "/f".to_string())
    );
    assert_eq!(
        apply_cmd(ToupCmd::Guide(GuideDirection::North, 250)),
        SdkCall::Guide(GuideDirection::North, 250)
    );
}

#[test]
fn corrections_are_those_the_camera_answers_for() {
    let states = probe_corrections(&Readings { values: vec![(OPTION_DFC, 1), (OPTION_FFC, 0)] });
    assert_eq!(states.len(), 2);
    assert_eq!((states[0].kind, states[0].enabled), (Correction::FlatField, false));
    assert_eq!((states[1].kind, states[1].enabled), (Correction::DarkField, true));
    assert_eq!(Correction::FlatField.label(), "Flat Field");
    assert_eq!(Correction::DarkField.opt(), Opt(OPTION_DFC));
    assert!(!Correction::DarkField.capture_hint().is_empty());
}

fn silent() -> RawTelemetry {
    RawTelemetry {
        temperature: Some(-50),
        power_mw: Some(900),
        options: Readings { values: vec![(OPTION_CHAMBER_HT, 0x01f4_00c8)] },
        real_exposure_us: Some(5),
        roi: Some(Roi { x: 1, y: 2, width: 3, height: 4 }),
        filter_position: Some(None),
        focuser_position: Some(77),
        focuser_moving: Some(true),
    }
}

#[test]
fn telemetry_keeps_to_its_configuration() {
    let off = TelemetryCfg {
        temp: false,
        power: false,
        tec_voltage: false,
        chamber_ht: false,
        env_ht: false,
        roi: false,
        wheel: false,
        focuser: false,
    };
    let t = poll_telemetry(off, &silent());
    assert_eq!((t.temperature, t.power_mw, t.chamber_ht, t.roi), (None, None, None, None));
    let t = poll_telemetry(
        TelemetryCfg { temp: true, chamber_ht: true, wheel: true, focuser: true, ..off },
        &silent(),
    );
    assert_eq!(t.temperature, Some(-50));
    assert_eq!(t.chamber_ht, Some(unpack_halves(0x01f4_00c8)));
    assert_eq!(t.filter_position, Some(-1));
    assert_eq!((t.focuser_position, t.focuser_moving), (Some(77), Some(true)));
}

#[test]
fn telemetry_moves_the_controls() {
    let mut c = controls(FLAG_FILTERWHEEL | FLAG_AUTOFOCUSER, vec![]);
    let t = ToupTelemetry {
        temperature: Some(-200),
        power_mw: None,
        tec_voltage: None,
        chamber_ht: None,
        env_ht: None,
        real_exposure_us: Some(5_000_000),
        roi: Some(Roi { x: 8, y: 8, width: 64, height: 64 }),
        filter_position: Some(-1),
        focuser_position: Some(1500),
        focuser_moving: Some(true),
    };
    c.apply_telemetry(&t);
    assert_eq!(c.temperature, Some(-200));
    assert_eq!(c.exposure_us, 100);
    assert_eq!(c.filter_wheel.unwrap().position, None);
    assert_eq!(c.focuser.unwrap().position, 1500);
    assert_eq!(c.focuser.unwrap().position_text(), "1500 (moving)");
    c.edit_auto_exposure(true);
    c.apply_telemetry(&ToupTelemetry { filter_position: Some(3), ..t });
    assert_eq!(c.exposure_us, 1_000_000);
    assert_eq!(c.filter_wheel.unwrap().position, Some(3));
}

#[test]
fn edits_are_moved_into_range_and_sent_on_change() {
    let mut c = controls(FLAG_TEC | FLAG_TRIGGER_SOFTWARE | FLAG_ST4, vec![]);
    assert_eq!(c.edit_exposure(5_000), Some(ToupCmd::SetExposure(5_000)));
    assert_eq!(c.edit_exposure(5_000), None);
    assert_eq!(c.edit_exposure(u32::MAX), Some(ToupCmd::SetExposure(1_000_000)));
    assert_eq!(c.edit_gain(0), Some(ToupCmd::SetGain(100)));
    assert_eq!(c.edit_speed(1), Some(ToupCmd::SetSpeed(1)));
    assert_eq!(c.edit_ae_target(400), None);
    assert_eq!(c.auto_expo_target, 120);
    assert_eq!(c.edit_auto_exposure(true), ToupCmd::SetAutoExposure(true));
    assert_eq!(c.edit_ae_target(400), Some(ToupCmd::SetAutoExpoTarget(220)));
    assert_eq!(
        set_target(&mut c, -100.0),
        Some(ToupCmd::SetOption(Opt(OPTION_TECTARGET), -400))
    );
    assert_eq!(c.edit_tec(true), Some(ToupCmd::SetOption(Opt(OPTION_TEC), 1)));
    assert_eq!(c.snap(), None);
    assert_eq!(c.edit_trigger_mode(true), Some(ToupCmd::SetTriggerMode(true)));
    assert_eq!(c.snap(), Some(ToupCmd::Snap));
    assert_eq!(c.edit_resolution(7), None);
    assert_eq!(c.edit_resolution(0), Some(ToupCmd::SetResolution(0)));
    assert_eq!(c.roi, Roi { x: 0, y: 0, width: 3840, height: 2160 });
    assert_eq!(c.edit_superpixel(true), Some(ToupCmd::SetSuperpixel(true)));
    c.edit_guide_ms(5);
    assert_eq!(c.guide(GuideDirection::East), Some(ToupCmd::Guide(GuideDirection::East, 10)));
    assert_eq!(c.guide(GuideDirection::Stop), Some(ToupCmd::Guide(GuideDirection::Stop, 0)));
}

#[test]
fn the_cooler_target_ignores_small_moves() {
    let mut c = controls(FLAG_TEC, vec![(OPTION_TEC, 1)]);
    let sent = |v| Some(ToupCmd::SetOption(Opt(OPTION_TECTARGET), v));
    assert_eq!(set_target(&mut c, 3.14), sent(31));
    assert_eq!(c.tec_target, 3.14);
    assert_eq!(set_target(&mut c, 3.17), None);
    assert_eq!(c.tec_target, 3.14);
    assert_eq!(set_target(&mut c, 3.2), sent(32));
    assert_eq!(set_target(&mut c, 3.26), sent(33));
    assert_eq!(toupcam_shot(&c).set_temp, Some(3.26));
    assert_eq!(set_target(&mut c, 50.0), sent(200));
    assert_eq!(c.tec_target, 20.0);
}

#[test]
fn rows_that_are_not_shown_take_no_edits() {
    let mut c = controls(0, vec![]);
    c.is_color = false;
    c.resolutions.truncate(1);
    c.resolution_index = 0;
    let same = (c.tec_on, c.tec_target, c.guide_ms, c.roi);
    assert_eq!(c.edit_trigger_mode(true), None);
    assert!(!c.trigger_mode);
    assert_eq!(c.snap(), None);
    assert_eq!(c.edit_resolution(0), None);
    assert_eq!(c.edit_superpixel(true), None);
    assert!(!c.superpixel);
    assert_eq!(c.edit_tec(true), None);
    assert_eq!(set_target(&mut c, -10.0), None);
    c.edit_guide_ms(5);
    assert_eq!(c.guide(GuideDirection::North), None);
    assert_eq!((c.tec_on, c.tec_target, c.guide_ms, c.roi), same);
    assert_eq!(c.select_filter(0), None);
    assert_eq!(c.home_filter_wheel(), None);
    assert_eq!(c.move_focuser(), None);
}

#[test]
fn regions_are_fitted_to_what_the_camera_takes() {
    let mut c = controls(0, vec![]);
    c.stage_roi(Roi { x: 3, y: 5000, width: 101, height: 3 });
    assert_eq!(c.roi_edit.y, 1072);
    assert_eq!(c.apply_roi(), ToupCmd::SetRoi(2, 1072, 100, 8));
    assert_eq!(c.full_frame_roi(), ToupCmd::SetRoi(0, 0, 0, 0));
    // In a frame under 8 pixels a size stays between that of the frame and 8.
    c.resolutions = vec![(4, 6)];
    c.resolution_index = 0;
    c.stage_roi(Roi { x: 3, y: 3, width: 4, height: 7 });
    assert_eq!(c.roi_edit, Roi { x: 0, y: 0, width: 4, height: 7 });
    c.stage_roi(Roi { x: 0, y: 0, width: 1, height: 100 });
    assert_eq!(c.roi_edit, Roi { x: 0, y: 0, width: 4, height: 8 });
}

#[test]
fn rows_and_groups_follow_the_camera() {
    let c = controls(FLAG_TEC, vec![]);
    assert_eq!(
        panel_rows(&c),
        [
            PanelRow::Exposure,
            PanelRow::Gain,
            PanelRow::Speed,
            PanelRow::Resolution,
            PanelRow::Superpixel,
            PanelRow::Cooler,
            PanelRow::TargetTemp,
            PanelRow::SensorTemp,
        ]
    );
    assert_eq!(panel_groups(&c), [PanelGroup::SensorRoi, PanelGroup::CameraInfo]);
    assert_eq!(slot_labels(2), ["Slot 1", "Slot 2"]);
    assert_eq!(temperature_text(-105), "-10.5 \u{b0}C");
    assert_eq!(tec_drive_text(50, Some(100)), "5.0 V / 10.0 V max");
    assert_eq!(tec_drive_text(50, None), "5.0 V");
    assert_eq!(humidity_text((500, 200)), "50.0 %RH  20.0 \u{b0}C");
    assert_eq!(
        resolution_labels(&vec![(3840, 2160), (1920, 1080)]),
        ["3840 \u{d7} 2160", "1920 \u{d7} 1080"]
    );
    assert_eq!(PanelGroup::Guide.title(), "Guide (ST4)");
    assert!(PanelGroup::Focuser.default_open() && !PanelGroup::Advanced.default_open());
}

#[test]
fn the_filter_wheel_shows_motion() {
    let mut c = controls(FLAG_FILTERWHEEL | FLAG_AUTOFOCUSER, vec![]);
    assert_eq!(c.filter_wheel.unwrap().shown_slot(), Some(2));
    assert_eq!(c.select_filter(5), None);
    assert_eq!(c.select_filter(4), Some(ToupCmd::SetFilterPosition(4)));
    assert_eq!(c.filter_wheel.unwrap().shown_slot(), None);
    assert_eq!(c.select_filter(1), None);
    assert_eq!(c.home_filter_wheel(), Some(ToupCmd::ResetFilterWheel));
    c.edit_focuser_target(99);
    assert_eq!(c.move_focuser(), Some(ToupCmd::SetFocuserPosition(1)));
    assert_eq!(c.halt_focuser(), Some(ToupCmd::FocuserHalt));
}

#[test]
fn advanced_edits_stay_on_the_list() {
    let mut c = controls(FLAG_LOW_NOISE, vec![(OPTION_LOW_NOISE, 0), (OPTION_BINNING, 1)]);
    assert_eq!(c.edit_advanced(0, 12345), None);
    assert_eq!(c.advanced[0].value, 1);
    let two = AdvChoices::Binning.entries()[1].0;
    assert_eq!(
        c.edit_advanced(0, two),
        Some(ToupCmd::SetOption(Opt(OPTION_BINNING), two))
    );
    assert_eq!(
        c.edit_advanced(1, 7),
        Some(ToupCmd::SetOption(Opt(OPTION_LOW_NOISE), 1))
    );
    c.advanced[1].kind = AdvKind::Int { min: 20, max: 10 };
    for (entered, taken) in [(5, 10), (25, 20), (15, 15)] {
        assert_eq!(
            c.edit_advanced(1, entered),
            Some(ToupCmd::SetOption(Opt(OPTION_LOW_NOISE), taken))
        );
    }
}

#[test]
fn format_codes_name_the_mosaic() {
    for name in ["RGGB", "BGGR", "GRBG", "GBRG"] {
        let b = name.as_bytes();
        assert_eq!(mosaic_of_code(u32::from_le_bytes([b[0], b[1], b[2], b[3]])), Some(name));
    }
    assert_eq!(mosaic_of_code(0), None);
    assert_eq!(mosaic_of_code(u32::from_be_bytes(*b"RGGB")), Some("BGGR"));
    assert_eq!(mosaic_of_code(u32::from_le_bytes(*b"RGGA")), None);
}

#[test]
fn channels_come_from_their_sites() {
    let img = RawImage::Luma16 { width: 3, height: 3, data: vec![1, 2, 3, 4, 5, 6, 7, 8, 9] };
    assert_eq!(site_samples(&img, "RGGB", 'R'), Some(vec![1, 3, 7, 9]));
    assert_eq!(site_samples(&img, "RGGB", 'G'), Some(vec![2, 4, 6, 8]));
    assert_eq!(site_samples(&img, "RGGB", 'B'), Some(vec![5]));
    let img = RawImage::Luma8 { width: 2, height: 2, data: vec![10, 20, 30, 40] };
    assert_eq!(site_samples(&img, "GBRG", 'R'), Some(vec![30]));
    assert_eq!(site_samples(&img, "G", 'G'), Some(vec![10]));
    let rgb = RawImage::Rgb8 { width: 1, height: 1, data: vec![10, 20, 30] };
    assert_eq!(site_samples(&rgb, "RGGB", 'R'), None);
    let none = RawImage::Luma8 { width: 0, height: 2, data: vec![] };
    assert_eq!(site_samples(&none, "RGGB", 'R'), Some(vec![]));
}

#[test]
fn exports_are_named_by_the_correction() {
    assert_eq!(Correction::FlatField.export_name(), "flat_field.dat");
    for kind in [Correction::DarkField, Correction::FixedPatternNoise] {
        let name = kind.label().to_lowercase().replace(' ', "_");
        assert_eq!(kind.export_name(), format!("{name}.dat"));
    }
}

#[test]
fn corrections_switch_and_capture() {
    let mut c = controls(0, vec![(OPTION_FFC, 0)]);
    let (cmd, note) = c.capture_correction(0);
    assert_eq!(cmd, ToupCmd::Correction(Correction::FlatField, CorrectionAction::Capture));
    assert!(note.starts_with("Flat Field: "));
    assert!(c.corrections[0].enabled);
    assert_eq!(
        c.switch_correction(0, false),
        ToupCmd::Correction(Correction::FlatField, CorrectionAction::Enable(false))
    );
    assert!(!c.corrections[0].enabled);
    c.import_correction(0, "/x".to_string());
    assert!(c.corrections[0].enabled);
    assert_eq!(
        c.export_correction(0, "/y".to_string()),
        ToupCmd::Correction(Correction::FlatField, CorrectionAction::Export("/y".to_string()))
    );
}

#[test]
fn the_capture_loop_sorts_commands() {
    let mut l = CaptureLoop::start("Cam".to_string(), true, 12, Some("RGGB"));
    assert_eq!(l.on_command(ToupCmd::Stop), CmdStep::Leave);
    assert_eq!(l.on_command(ToupCmd::SetResolution(1)), CmdStep::Restart(1));
    assert_eq!(l.on_command(ToupCmd::SetSuperpixel(true)), CmdStep::Absorbed);
    assert!(l.mosaic_plan().average);
    assert_eq!(l.mosaic_plan().label, None);
    assert_eq!(l.on_command(ToupCmd::SetGain(5)), CmdStep::Call(SdkCall::SetGain(5)));
    l.on_command(ToupCmd::SetOption(Opt(OPTION_BINNING), 0x82));
    assert!(!l.hw_bin_1x1);
    assert_eq!(l.mosaic_plan().histograms, None);
    l.on_command(ToupCmd::SetOption(Opt(OPTION_BINNING), 1));
    assert_eq!(l.mosaic_plan().histograms, Some("RGGB"));
    assert_eq!(l.on_event(CameraEvent::Image), EventStep::Pull);
    assert_eq!(l.on_event(CameraEvent::Timeout), EventStep::Wait);
    assert_eq!(
        l.on_event(CameraEvent::Disconnected),
        EventStep::Leave {
            stop_stream: false,
            error: Some("Cam: camera disconnected".to_string())
        }
    );
    assert_eq!(l.refused_note("no"), "Cam: set control failed: no");
    assert_eq!(l.restarted_note(8, 6), "Cam: resolution changed to 8 \u{d7} 6");
    assert!(receiver_gone(false, true));
    assert!(!receiver_gone(false, false));
}

#[test]
fn left_justified_samples_are_shifted_down() {
    let image = |data: Vec<u16>| RawImage::Luma16 { width: 2, height: 1, data };
    let mut l = CaptureLoop::start("Cam".to_string(), true, 12, None);
    let (out, note) = l.on_image(image(vec![10, 4095]));
    assert_eq!(out, image(vec![10, 4095]));
    assert_eq!(note, None);
    let (out, note) = l.on_image(image(vec![16, 65520]));
    assert_eq!(out, image(vec![1, 4095]));
    assert_eq!(
        note.unwrap(),
        "Cam: 16-bit samples are left-justified, shifting right by 4"
    );
    let (out, note) = l.on_image(image(vec![32, 48]));
    assert_eq!(out, image(vec![2, 3]));
    assert_eq!(note, None);
    assert_eq!(native_max(12), 4095);
    assert!(image_exceeds(&image(vec![4096, 0]), 4095));
    assert_eq!(shift_image_right(image(vec![16, 31]), 4), image(vec![1, 1]));
}

#[test]
fn superpixels_average_two_by_two_cells() {
    // The odd column and row are left out.
    let data = vec![0, 2, 10, 20, 9, 4, 6, 30, 41, 9, 9, 9, 9, 9, 9];
    assert_eq!(
        average_cells(RawImage::Luma16 { width: 5, height: 3, data }),
        RawImage::Luma16 { width: 2, height: 1, data: vec![3, 25] }
    );
    let white = RawImage::Luma16 { width: 2, height: 2, data: vec![65535; 4] };
    assert_eq!(
        average_cells(white),
        RawImage::Luma16 { width: 1, height: 1, data: vec![65535] }
    );
    let bytes = RawImage::Luma8 { width: 2, height: 4, data: vec![255, 255, 255, 255, 1, 2, 3, 5] };
    assert_eq!(
        average_cells(bytes),
        RawImage::Luma8 { width: 1, height: 2, data: vec![255, 2] }
    );
    let rgb = || RawImage::Rgb8 { width: 1, height: 1, data: vec![10, 20, 30] };
    assert_eq!(average_cells(rgb()), rgb());
}

#[test]
fn images_become_mono_frames() {
    let luma = |r: u8, g: u8, b: u8| 0.299 * r as f32 + 0.587 * g as f32 + 0.114 * b as f32;
    let widen = |x: u16| x as f32;
    let gray = RawImage::Luma8 { width: 2, height: 1, data: vec![3, 255] };
    let f = process_image(&gray, 8, luma);
    assert!(matches!(f.mono, Pixels::U16(_)));
    assert_eq!(f.mono.as_f32(widen), [3.0, 255.0]);
    let rgb = RawImage::Rgb8 { width: 1, height: 1, data: vec![10, 20, 30] };
    let f = process_image(&rgb, 8, luma);
    assert!(matches!(f.mono, Pixels::F32(_)));
    assert_eq!(f.mono.as_f32(widen), [luma(10, 20, 30)]);
    // Gray with alpha keeps the gray value.
    let la = RawImage::Other {
        width: 2,
        height: 1,
        channels: 2,
        wide: false,
        data: vec![7, 255, 200, 255],
    };
    let f = process_image(&la, 8, luma);
    assert_eq!(f.mono.as_f32(widen), [7.0, 200.0]);
    assert_eq!((f.width, f.height, f.bit_depth), (2, 1, 8));
}

fn typed(s: &str) -> Option<(f64, TimeUnit)> {
    typed_time(s, |n: &str| n.parse::<f64>().ok())
}

#[test]
fn typed_exposures_carry_a_unit() {
    assert_eq!(typed("250"), Some((250.0, TimeUnit::Microseconds)));
    assert_eq!(typed(" 2.5 ms "), Some((2.5, TimeUnit::Milliseconds)));
    assert_eq!(typed("7us"), Some((7.0, TimeUnit::Microseconds)));
    assert_eq!(typed("7 \u{b5}s"), Some((7.0, TimeUnit::Microseconds)));
    assert_eq!(typed("1.5s"), Some((1.5, TimeUnit::Seconds)));
    assert_eq!(typed("1 s"), Some((1.0, TimeUnit::Seconds)));
    assert_eq!(typed("x ms"), None);
    assert_eq!(typed(""), None);
    assert_eq!(TimeUnit::Milliseconds.micros(), 1_000);
    assert_eq!(TimeUnit::Seconds.micros(), 1_000_000);
    assert_eq!(TimeUnit::Microseconds.micros(), 1);
}

#[test]
fn entries_are_read_in_order() {
    let all = readings("5ms");
    let seen: Vec<(&str, TimeUnit)> = all.iter().map(|r| (r.number.as_str(), r.unit)).collect();
    assert_eq!(
        seen,
        [
            ("5", TimeUnit::Milliseconds),
            ("5m", TimeUnit::Seconds),
            ("5ms", TimeUnit::Microseconds)
        ]
    );
}
