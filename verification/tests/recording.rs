use astroviewer::fits_header::write_cards;
use astroviewer::gev::{gev_shot, GevControl, GevKind};
use astroviewer::pixels::Pixels;
use astroviewer::recording::{
    date_obs, date_obs_at, frame_cards, instrument, new_recording_name, primary_cards,
    recording_name, store_pixels, store_sample, svbony_shot, FrameMeta, Recorder, RecordingEnd,
    FIRST_DATED_US, LAST_DATED_US,
};
use astroviewer::sources::CameraSource;
use astroviewer::svbony_controls::{ControlType, ControlValue};
use astroviewer::wcs::WcsKeys;
use fitskit::{Header, HeaderValue};
use std::sync::Arc;

#[test]
fn samples_are_stored_with_an_offset() {
    assert_eq!(store_sample(0), -32768);
    assert_eq!(store_sample(32768), 0);
    assert_eq!(store_sample(65535), 32767);
    for px in [0u16, 1, 4095, 32767, 40000, 65535] {
        assert_eq!(store_sample(px) as i32 + 32768, px as i32);
    }
}

#[test]
fn float_pixels_are_quantized_first() {
    let quantize = |x: f32| x.clamp(0.0, 65535.0) as u16;
    let p: Pixels<f32> = Pixels::F32(Arc::new(vec![-5.0, 100.9, 70000.0]));
    assert_eq!(store_pixels(&p, quantize), [-32768, -32668, 32767]);
    let u: Pixels<f32> = Pixels::U16(Arc::new(vec![100, 32768]));
    assert_eq!(store_pixels(&u, quantize), [-32668, 0]);
}

fn meta() -> FrameMeta<f64> {
    FrameMeta {
        date_obs: "2026-01-02T03:04:05.678".to_string(),
        exptime: 0.25,
        bit_depth: 12,
        cfa: None,
        gain: None,
        offset: None,
        ccd_temp: None,
        set_temp: None,
        wcs: None,
    }
}

fn written(m: &FrameMeta<f64>) -> Header {
    let mut h = Header::new();
    write_cards(&mut h, &frame_cards(m), HeaderValue::Float);
    h
}

#[test]
fn a_bare_frame_has_five_cards() {
    let h = written(&meta());
    assert_eq!(frame_cards(&meta()).len(), 5);
    assert_eq!(h.get_float("BZERO"), Some(32768.0));
    assert_eq!(h.get_float("BSCALE"), Some(1.0));
    assert_eq!(h.get_string("DATE-OBS"), Some("2026-01-02T03:04:05.678"));
    assert_eq!(h.get_float("EXPTIME"), Some(0.25));
    assert_eq!(h.get_int("BITDEPTH"), Some(12));
    assert!(h.find("BAYERPAT").is_none());
    assert!(h.find("GAIN").is_none());
    assert!(h.find("CTYPE1").is_none());
}

#[test]
fn what_is_known_is_written() {
    let m = FrameMeta {
        cfa: Some("RGGB"),
        gain: Some(120.0),
        offset: Some(30.0),
        ccd_temp: Some(-10.5),
        set_temp: Some(-11.0),
        wcs: Some(WcsKeys {
            crpix: [1.0, 2.0],
            crval_deg: [3.0, 4.0],
            cd_deg: [[5.0, 6.0], [7.0, 8.0]],
        }),
        ..meta()
    };
    let h = written(&m);
    assert_eq!(h.get_string("BAYERPAT"), Some("RGGB"));
    assert_eq!(h.get_int("XBAYROFF"), Some(0));
    assert_eq!(h.get_int("YBAYROFF"), Some(0));
    assert_eq!(h.get_float("GAIN"), Some(120.0));
    assert_eq!(h.get_float("OFFSET"), Some(30.0));
    assert_eq!(h.get_float("CCD-TEMP"), Some(-10.5));
    assert_eq!(h.get_float("SET-TEMP"), Some(-11.0));
    assert_eq!(h.get_float("CRVAL1"), Some(3.0));
    assert_eq!(h.get_float("CD2_1"), Some(7.0));
}

#[test]
fn the_primary_header_names_the_camera() {
    let mut h = Header::new();
    let cards = primary_cards::<f64>(&Some("ATR585".to_string()));
    write_cards(&mut h, &cards, HeaderValue::Float);
    assert_eq!(h.get_string("OBJECT"), Some("Recording"));
    assert_eq!(h.get_string("INSTRUME"), Some("ATR585"));
    assert_eq!(primary_cards::<f64>(&None).len(), 1);
    assert_eq!(instrument(&CameraSource::NoSource, &vec![]), None);
    assert_eq!(instrument(&CameraSource::FitsFile("x".into()), &vec![]), None);
    assert_eq!(
        instrument(&CameraSource::Indi("pi".into()), &vec![]),
        Some("INDI: pi".to_string())
    );
    assert_eq!(instrument(&CameraSource::SVBony(2), &vec![]), Some("svb:2".to_string()));
}

#[test]
fn the_time_is_that_of_mid_exposure() {
    // 2001-09-09T01:46:40 UTC is 1000000000 seconds after the epoch.
    let now = 1_000_000_000_000_000;
    assert_eq!(date_obs_at(now, 0), Some("2001-09-09T01:46:40.000".to_string()));
    assert_eq!(date_obs_at(now, 3_000_000), Some("2001-09-09T01:46:38.500".to_string()));
    assert_eq!(
        date_obs_at(253_402_300_800_000_000, 0),
        Some("+10000-01-01T00:00:00.000".to_string())
    );
    assert_eq!(
        date_obs_at(-62_167_219_200_000_001, 0),
        Some("-0001-12-31T23:59:59.999".to_string())
    );
    assert_eq!(date_obs_at(i64::MIN, i64::MAX), None);
    assert_eq!(
        date_obs_at(LAST_DATED_US, 0),
        Some("+262142-12-31T23:59:59.999".to_string())
    );
    assert_eq!(date_obs_at(LAST_DATED_US + 1, 0), None);
    assert_eq!(
        date_obs_at(FIRST_DATED_US, 0),
        Some("-262143-01-01T00:00:00.000".to_string())
    );
    assert_eq!(date_obs_at(FIRST_DATED_US - 1, 0), None);
    assert!(date_obs(i64::MAX).is_some());
    let now_text = date_obs(0).unwrap();
    assert_eq!(now_text.len(), "2001-09-09T01:46:40.000".len());
    assert!(now_text.as_str() > "2020");
}

#[test]
fn recordings_are_named_by_the_clock() {
    assert_eq!(recording_name("20260102-030405"), "astroviewer-20260102-030405.fits");
    let name = new_recording_name();
    assert!(name.starts_with("astroviewer-20"));
    assert_eq!(name.len(), "astroviewer-20260102-030405.fits".len());
}

#[test]
fn shots_take_the_camera_settings() {
    let values = vec![
        ControlValue { control_type: ControlType::Gain, value: 40, auto: false },
        ControlValue { control_type: ControlType::Exposure, value: 20_000, auto: true },
    ];
    let s = svbony_shot::<f64>(&values);
    assert_eq!((s.exposure_us, s.gain, s.offset), (20_000, Some(40), None));
    assert_eq!(svbony_shot::<f64>(&vec![]).exposure_us, 0);
    let control = |name: &str, v: f64| GevControl {
        name: name.to_string(),
        display: String::new(),
        category: String::new(),
        unit: String::new(),
        kind: GevKind::Float,
        value: 0,
        min: 0,
        max: 0,
        fvalue: v,
        writable: true,
        needs_restart: false,
        ip_swapped: false,
    };
    let shot = gev_shot(&vec![control("ExposureTime", 5000.0), control("Gain", 2.5)]);
    assert_eq!(shot.0, Some(5000.0));
    assert_eq!(shot.1, Some(2.5));
}

#[test]
fn a_writer_reports_how_it_ended() {
    let mut r = Recorder::start("/r/a.fits".to_string(), None);
    assert!(r.wants_frame());
    r.frame_written(None);
    r.frame_written(None);
    assert_eq!(
        r.finish(None),
        RecordingEnd::Saved("Recording saved: /r/a.fits (2 frames)".to_string())
    );
    let r = Recorder::start("/r/b.fits".to_string(), None);
    assert_eq!(
        r.finish(None),
        RecordingEnd::Cancelled("Recording cancelled (no frames)".to_string())
    );
    let mut r = Recorder::start("/r/c.fits".to_string(), None);
    r.frame_written(None);
    r.frame_written(Some("disk full".to_string()));
    assert!(!r.wants_frame());
    assert_eq!(
        r.finish(Some("late".to_string())),
        RecordingEnd::Failed("Failed to write /r/c.fits: disk full (1 frames written)".to_string())
    );
    let r = Recorder::start("/r/d.fits".to_string(), Some("denied".to_string()));
    assert!(!r.wants_frame());
}

#[test]
fn a_file_that_cannot_be_created_is_named() {
    assert_eq!(
        Recorder::create_failed_note("/x/a.fits", "denied"),
        "Failed to create /x/a.fits: denied"
    );
}
