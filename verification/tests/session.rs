use astroviewer::layout::BottomTab;
use astroviewer::logbook::LogLevel;
use astroviewer::playback::{clamp_playback_fps, file_bit_depth, Background};
use astroviewer::readouts::{
    depth_text, empty_hint, focuser_text, measured_text, recording_text, size_row, size_text,
};
use astroviewer::session::{
    address_to_remember, group_rows, initial_inputs, startup, CaptureKind, Keys, OpenPlan, PlayStep,
    Session, StopStep,
};
use astroviewer::sources::{
    backends, discover_all, find_backend, CameraSource, GevDevice, SourceInfo, SvbonyDevice,
};

fn svb(id: i32) -> SourceInfo {
    SourceInfo::SVBony(SvbonyDevice {
        camera_id: id,
        name: "SV305".to_string(),
        serial: "S1".to_string(),
    })
}

fn gige() -> SourceInfo {
    SourceInfo::Gev(GevDevice {
        id: "g".to_string(),
        display_name: "Mako".to_string(),
        ip: "10.0.0.9".to_string(),
    })
}

fn session() -> Session {
    Session::new(discover_all(&vec![vec![svb(0)], vec![], vec![gige()], vec![]]))
}

#[test]
fn a_file_is_loaded_and_played() {
    let mut s = session();
    let (stopped, note) = s.start_fits("/d/m31.fits".to_string(), "m31.fits");
    assert_eq!(stopped.closed, CaptureKind::Stopped);
    assert_eq!(note.text, "Loading FITS: m31.fits...");
    assert!(s.fits_pending);
    assert_eq!(s.descriptor_to_remember(), Some("file:/d/m31.fits".to_string()));
    let (step, note) = s.fits_loaded("m31.fits", 64, 48, 12, 9);
    assert_eq!(note.text, "FITS: m31.fits (64x48, 12-bit, 9 frames)");
    assert!(step.reset_range);
    assert_eq!(step.compute, None);
    assert!(s.running);
    assert_eq!(s.capture, CaptureKind::Fits);
    let stopped = s.stop_capture();
    assert_eq!(stopped.closed, CaptureKind::Fits);
    assert!(!s.running);
    assert_eq!(s.stop_capture().closed, CaptureKind::Stopped);
    let failed = s.fits_failed("bad file");
    assert_eq!(failed.level, LogLevel::Error);
    assert_eq!(failed.text, "Failed to open FITS: bad file");
}

#[test]
fn devices_open_from_the_discovered_list() {
    let s = session();
    assert_eq!(s.open_source(&CameraSource::SVBony(0), false), OpenPlan::Device(svb(0)));
    assert_eq!(
        s.open_source(&CameraSource::Gev("10.0.0.5".into()), false),
        OpenPlan::GevAddress("10.0.0.5".to_string())
    );
    let toupcam = find_backend(&backends(), "toupcam").unwrap();
    let missing = CameraSource::Toupcam("t".into());
    assert_eq!(s.open_source(&missing, false), OpenPlan::Refresh(toupcam));
    assert_eq!(s.open_source(&missing, true), OpenPlan::NotFound("toupcam:t".to_string()));
    assert_eq!(s.open_source(&CameraSource::NoSource, false), OpenPlan::Nothing);
    assert_eq!(
        s.open_source(&CameraSource::Indi("pi".into()), false),
        OpenPlan::Indi("pi".to_string())
    );
    let mut s = session();
    let note = s.source_not_found("toupcam:t");
    assert_eq!(note.text, "Source not found: toupcam:t");
    assert_eq!(s.camera_error, Some("Source not found: toupcam:t".to_string()));
}

#[test]
fn a_gige_session_pauses_and_resumes() {
    let mut s = session();
    s.begin_open();
    s.device_opened(&gige());
    assert_eq!(s.capture, CaptureKind::Gev);
    assert!(s.running);
    assert_eq!(s.pause_or_stop(), StopStep::PauseGev);
    assert!(!s.running);
    assert_eq!(s.play_or_resume(), PlayStep::ResumeGev);
    assert!(s.running);
    assert_eq!(s.capture, CaptureKind::Gev);
}

#[test]
fn other_captures_stop_and_reopen() {
    let mut s = session();
    s.begin_open();
    s.device_opened(&svb(0));
    assert!(matches!(s.pause_or_stop(), StopStep::Stop(_)));
    assert_eq!(s.capture, CaptureKind::Stopped);
    assert_eq!(s.play_or_resume(), PlayStep::Open(OpenPlan::Device(svb(0))));
}

#[test]
fn play_without_a_source_opens_the_connect_window() {
    let mut s = session();
    assert_eq!(s.play_or_resume(), PlayStep::ChooseSource);
    assert!(s.connect_open);
}

#[test]
fn the_play_key_without_a_source_opens_the_connect_window() {
    let keys = || Keys {
        open: false,
        connect: false,
        quit: false,
        side_panel: false,
        bottom_panel: false,
        play: true,
        record: false,
    };
    let mut s = session();
    let steps = s.shortcuts(keys(), true);
    assert!(!steps.play && !s.connect_open);
    let steps = s.shortcuts(keys(), false);
    assert!(!steps.stop && s.connect_open);
    let mut s = session();
    s.source = CameraSource::SVBony(0);
    let steps = s.shortcuts(keys(), false);
    assert!(steps.play && !s.connect_open);
}

#[test]
fn a_server_connects_or_fails() {
    let mut s = session();
    s.begin_open();
    let note = s.indi_connected("pi:7000", "pi", 7000);
    assert_eq!(note.text, "INDI: connected to pi:7000");
    assert_eq!(s.source, CameraSource::Indi("pi:7000".into()));
    assert_eq!(s.tab, BottomTab::Controls);
    let note = s.indi_failed("refused");
    assert_eq!(note.text, "INDI connect failed: refused");
    assert_eq!(s.camera_error, Some("INDI connect failed: refused".to_string()));
}

#[test]
fn recordings_count_the_frames_taken() {
    let mut s = session();
    assert_eq!(s.stop_recording(), None);
    s.recording_started("a.fits".to_string(), "/r/a.fits");
    s.frame_recorded(true);
    s.frame_recorded(false);
    s.frame_recorded(true);
    assert_eq!(
        recording_text(s.recording.as_ref().unwrap()),
        "\u{25cf} REC a.fits \u{b7} 2 frames"
    );
    let note = s.stop_recording().unwrap();
    assert_eq!(note.text, "Recording stopped: a.fits (2 frames)");
    assert_eq!(s.recording, None);
}

#[test]
fn superseded_frames_count_as_dropped() {
    let mut s = session();
    s.begin_open();
    s.device_opened(&gige());
    s.frames_drained(4, false);
    s.frames_drained(0, false);
    assert_eq!(s.drain_drops, 3);
    assert_eq!(s.dropped_total(10, 1, 2, 4), 20);
    s.frames_drained(1, true);
    assert!(!s.running);
    s.stop_capture();
    assert_eq!(s.dropped_total(10, 1, 2, 4), 10);
}

#[test]
fn bare_keys_stay_quiet_while_typing() {
    let all = Keys {
        open: true,
        connect: true,
        quit: true,
        side_panel: true,
        bottom_panel: true,
        play: true,
        record: true,
    };
    let mut s = session();
    let (side, bottom) = (s.side_open, s.bottom_open);
    let steps = s.shortcuts(all, true);
    assert!(steps.open_dialog && steps.quit);
    assert!(!steps.play && !steps.stop && !steps.start_recording);
    assert_eq!((s.side_open, s.bottom_open), (side, bottom));
    let steps = s.shortcuts(all, false);
    assert_eq!((s.side_open, s.bottom_open), (!side, !bottom));
    assert!(steps.start_recording && !steps.stop_recording);
}

#[test]
fn one_dialog_at_a_time() {
    let mut s = session();
    assert!(s.begin_dialog());
    assert!(!s.begin_dialog());
    s.end_dialog();
    assert!(s.begin_dialog());
}

#[test]
fn the_connect_window_closes_on_success() {
    let mut s = session();
    s.connect_open = true;
    s.camera_error = Some("old".to_string());
    s.connect_reported(true, None, false, true);
    assert_eq!(s.camera_error, None);
    s.connect_finished();
    assert!(!s.connect_open);
    s.connect_open = true;
    s.connect_reported(true, Some("bad address".to_string()), false, false);
    assert_eq!(s.camera_error, Some("bad address".to_string()));
    assert!(s.connect_open);
}

#[test]
fn refreshing_one_backend_keeps_the_others() {
    let mut s = session();
    let gev = find_backend(&backends(), "gev").unwrap();
    s.refresh_backend(&gev, &vec![]);
    assert_eq!(s.discovered.len(), 1);
    let svbony = find_backend(&backends(), "svb").unwrap();
    s.refresh_backend(&svbony, &vec![svb(1), svb(2)]);
    assert_eq!(group_rows(&s.discovered, &svbony), [0, 1]);
    assert_eq!(group_rows(&s.discovered, &gev), Vec::<usize>::new());
    s.refresh_sources(&vec![vec![], vec![], vec![gige()], vec![]]);
    assert_eq!(s.discovered.len(), 1);
}

#[test]
fn startup_prefers_the_command_line() {
    let s = startup(Some("svb:1"), Some("svb:2"));
    assert_eq!(s.open, Some(CameraSource::SVBony(1)));
    assert_eq!(s.note, None);
    let s = startup(Some("bogus:1"), Some("svb:2"));
    assert_eq!(s.open, None);
    assert!(s.note.unwrap().text.starts_with("Command-line source: "));
    let s = startup(None, Some(" svb:2\n"));
    assert_eq!(s.open, Some(CameraSource::SVBony(2)));
    assert_eq!(s.note.unwrap().text, "Reconnecting to last source: svb:2");
    let s = startup(None, Some("bogus:2"));
    assert!(s.note.unwrap().text.starts_with("Remembered source: "));
    let s = startup(None, Some("  "));
    assert_eq!((s.open, s.note), (None, None));
    let s = startup(None, None);
    assert_eq!((s.open, s.note), (None, None));
}

#[test]
fn an_opened_address_fills_its_field_next_time() {
    let kept = address_to_remember(&gige());
    assert_eq!(kept.as_deref(), Some("10.0.0.9"));
    assert_eq!(initial_inputs(kept.as_deref())[0], ("gev", "10.0.0.9".to_string()));
    assert_eq!(address_to_remember(&svb(1)), None);
}

#[test]
fn manual_fields_start_filled_in() {
    let inputs = initial_inputs(Some("10.0.0.3"));
    assert!(inputs.contains(&("gev", "10.0.0.3".to_string())));
    assert!(inputs.iter().any(|(scheme, _)| *scheme == "indi"));
}

#[test]
fn a_background_is_computed_once_per_percentile() {
    let mut b = Background::new();
    assert_eq!(b.set_enabled(true).compute, None);
    b.loaded(10);
    let step = b.set_enabled(true);
    assert_eq!(step.compute, Some(35));
    assert!(step.auto_scale && step.reset_range);
    assert_eq!(b.set_percent(20).compute, None);
    let step = b.landed(35);
    assert_eq!(step.compute, Some(20));
    assert_eq!(b.landed(20).compute, None);
    assert!(b.subtracts(100, 100));
    assert!(!b.subtracts(100, 99));
    assert!(b.full_scale_follows_data());
    b.loaded(1);
    assert!(!b.enabled);
    assert_eq!(b.set_percent(7).compute, None);
}

#[test]
fn playback_rates_are_positive() {
    assert_eq!(clamp_playback_fps(0), 1);
    assert_eq!(clamp_playback_fps(25), 25);
}

#[test]
fn readouts_read_well() {
    assert_eq!(size_text(640, 480), "640\u{d7}480");
    assert_eq!(size_row(640, 480), "640 x 480");
    assert_eq!(depth_text(12), "12-bit");
    assert_eq!(
        empty_hint(&CameraSource::NoSource, "No source"),
        "Open a FITS file or connect a camera to begin"
    );
    assert_eq!(empty_hint(&CameraSource::SVBony(1), "SV305"), "Press Play to start  SV305");
    assert_eq!(measured_text(3, 30), "3 of 30");
    assert_eq!(focuser_text(-4), "@ -4");
}

#[test]
fn escape_closes_the_connect_window() {
    let mut s = session();
    s.connect_open = true;
    s.dismiss_connect();
    assert!(!s.connect_open);
}

#[test]
fn the_header_decides_the_bit_depth_of_a_file() {
    assert_eq!(file_bit_depth(Some(12), Some(16), 14), 12);
    assert_eq!(file_bit_depth(None, Some(16), 14), 16);
    assert_eq!(file_bit_depth(None, None, 14), 14);
}
