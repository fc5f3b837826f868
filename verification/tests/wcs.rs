use astroviewer::fits_header::{push_card, write_cards, Card, CardValue};
use astroviewer::wcs::{SolvedFrame, WcsKeys};
use fitskit::{Header, HeaderValue};

fn keys() -> WcsKeys<f64> {
    WcsKeys {
        crpix: [960.5, 540.5],
        crval_deg: [102.5, 72.4],
        cd_deg: [[-0.004, 0.001], [0.001, 0.004]],
    }
}

#[test]
fn writes_every_keyword() {
    let k = keys();
    let mut h = Header::new();
    k.write(&mut h, HeaderValue::Float);
    for key in [
        "WCSAXES", "CTYPE1", "CTYPE2", "CRPIX1", "CRPIX2", "CRVAL1", "CRVAL2", "CD1_1", "CD1_2",
        "CD2_1", "CD2_2", "RADESYS", "EQUINOX", "PLTSOLVD",
    ] {
        assert!(h.find(key).is_some(), "missing {key}");
    }
    assert_eq!(h.get_string("CTYPE1"), Some("RA---TAN"));
    assert_eq!(h.get_float("CRPIX1"), Some(960.5));
    assert_eq!(h.get_bool("PLTSOLVD"), Some(true));
}

#[test]
fn keywords_hold_their_own_values() {
    let mut h = Header::new();
    keys().write(&mut h, HeaderValue::Float);
    assert_eq!(h.get_float("CD1_1"), Some(-0.004));
    assert_eq!(h.get_float("CD1_2"), Some(0.001));
    assert_eq!(h.get_float("CD2_2"), Some(0.004));
    assert_eq!(h.get_float("CRVAL2"), Some(72.4));
    assert_eq!(h.get_float("EQUINOX"), Some(2000.0));
    assert_eq!(h.get_string("RADESYS"), Some("ICRS"));
}

fn solved(sol: &tetra3::Solution) -> SolvedFrame<f64> {
    SolvedFrame {
        width: sol.camera_model.image_width,
        height: sol.camera_model.image_height,
        crpix: sol.camera_model.crpix,
        crval_rad: sol.crval_rad,
        cd_rad: sol.cd_matrix,
    }
}

fn from_solved(s: &SolvedFrame<f64>, width: u32, height: u32) -> Option<WcsKeys<f64>> {
    WcsKeys::from_solution(
        s,
        width,
        height,
        |n: u32, offset: f64| (n as f64 + 1.0) / 2.0 + offset,
        |x: f64| x.to_degrees().rem_euclid(360.0),
        f64::to_degrees,
        f64::is_finite,
    )
}

/// Sky position of a 1-based FITS pixel through the keywords, degrees.
fn pixel_to_world(k: &WcsKeys<f64>, p1: f64, p2: f64) -> (f64, f64) {
    let dx = p1 - k.crpix[0];
    let dy = p2 - k.crpix[1];
    let xi = (k.cd_deg[0][0] * dx + k.cd_deg[0][1] * dy).to_radians();
    let eta = (k.cd_deg[1][0] * dx + k.cd_deg[1][1] * dy).to_radians();
    let (ra0, dec0) = (k.crval_deg[0].to_radians(), k.crval_deg[1].to_radians());
    let (sin_d0, cos_d0) = dec0.sin_cos();
    let denom = cos_d0 - eta * sin_d0;
    let ra = ra0 + xi.atan2(denom);
    let dec = ((sin_d0 + eta * cos_d0) / (1.0 + xi * xi + eta * eta).sqrt()).asin();
    (ra.to_degrees().rem_euclid(360.0), dec.to_degrees())
}

/// A pinhole solution with the given roll, parity and optical-center offset.
fn synthetic_solution(
    w: u32,
    h: u32,
    parity_flip: bool,
    theta: f64,
    crpix: [f64; 2],
) -> tetra3::Solution {
    let fov_rad = 8.0_f64.to_radians();
    let mut camera_model = tetra3::CameraModel::from_fov(fov_rad, w, h);
    camera_model.parity_flip = parity_flip;
    camera_model.crpix = crpix;
    let ps = 1.0 / camera_model.focal_length_px;
    let (s, c) = theta.sin_cos();
    let cd_matrix = if parity_flip {
        [[-ps * c, -ps * s], [-ps * s, ps * c]]
    } else {
        [[ps * c, -ps * s], [ps * s, ps * c]]
    };
    tetra3::Solution {
        qicrs2cam: tetra3::Quaternion::identity(),
        fov_rad: fov_rad as f32,
        num_matches: 0,
        rmse_rad: 0.0,
        p90e_rad: 0.0,
        max_err_rad: 0.0,
        prob: 0.0,
        solve_time_ms: 0.0,
        attitude_cov_rad2: [[0.0; 3]; 3],
        parity_flip,
        observer_velocity_km_s: None,
        matched_catalog_ids: Vec::new(),
        matched_centroid_indices: Vec::new(),
        cd_matrix,
        crval_rad: [102.8736_f64.to_radians(), 72.462_f64.to_radians()],
        camera_model,
        theta_rad: theta,
    }
}

/// The keywords agree with the solver's own pixel-to-sky mapping at the
/// reference pixel, the corners and an off-center point, in a mirrored field
/// and with an off-center optical axis too.
#[test]
fn round_trips_through_the_solver() {
    let (w, h) = (1920u32, 1080u32);
    for (parity, theta_deg, crpix) in [
        (false, 30.0_f64, [0.0_f64, 0.0]),
        (true, -75.0, [12.5, -8.0]),
        (false, 190.0, [0.0, 3.0]),
    ] {
        let sol = synthetic_solution(w, h, parity, theta_deg.to_radians(), crpix);
        let keys = from_solved(&solved(&sol), w, h).expect("dimensions match");
        let center_x = (w as f64 - 1.0) / 2.0;
        let center_y = (h as f64 - 1.0) / 2.0;
        for (col, row) in [
            (center_x + crpix[0], center_y + crpix[1]),
            (0.0, 0.0),
            (1919.0, 0.0),
            (0.0, 1079.0),
            (1919.0, 1079.0),
            (300.25, 800.75),
        ] {
            let (ra_s, dec_s) = sol.pixel_to_world(col - center_x, row - center_y);
            let (ra_k, dec_k) = pixel_to_world(&keys, col + 1.0, row + 1.0);
            let d_ra =
                ((ra_s - ra_k + 180.0).rem_euclid(360.0) - 180.0) * dec_s.to_radians().cos();
            let d_dec = dec_s - dec_k;
            let sep_arcsec = (d_ra * d_ra + d_dec * d_dec).sqrt() * 3600.0;
            assert!(
                sep_arcsec < 0.01,
                "parity {parity} \u{3b8} {theta_deg}: ({col},{row}) differs by {sep_arcsec:.4}\""
            );
        }
    }
    let sol = synthetic_solution(w, h, false, 0.0, [0.0, 0.0]);
    assert!(from_solved(&solved(&sol), w / 2, h / 2).is_none());
}

#[test]
fn numbers_that_are_not_finite_are_refused() {
    let good = SolvedFrame {
        width: 100,
        height: 50,
        crpix: [1.5, -2.0],
        crval_rad: [0.0, 0.0],
        cd_rad: [[1.0, 0.0], [0.0, 1.0]],
    };
    let keys = from_solved(&good, 100, 50).expect("all finite");
    assert_eq!(keys.crpix, [52.0, 23.5]);
    for bad in [
        SolvedFrame { crpix: [1.5, f64::NAN], ..good },
        SolvedFrame { crval_rad: [f64::INFINITY, 0.0], ..good },
        SolvedFrame { cd_rad: [[1.0, 0.0], [0.0, f64::NAN]], ..good },
    ] {
        assert!(from_solved(&bad, 100, 50).is_none());
    }
    assert!(from_solved(&good, 50, 100).is_none());
}

#[test]
fn writing_a_keyword_again_replaces_it() {
    let mut list: Vec<Card<f64>> = Vec::new();
    push_card(&mut list, "OBJECT", CardValue::Text("M31".to_string()), None);
    push_card(&mut list, "NFRAMES", CardValue::Integer(7), Some("count"));
    let mut h = Header::new();
    write_cards(&mut h, &list, HeaderValue::Float);
    assert_eq!(h.get_string("OBJECT"), Some("M31"));
    assert_eq!(h.get_int("NFRAMES"), Some(7));
    let mut again: Vec<Card<f64>> = Vec::new();
    push_card(&mut again, "OBJECT", CardValue::Text("M42".to_string()), None);
    push_card(&mut again, "DARK", CardValue::Logical(false), None);
    write_cards(&mut h, &again, HeaderValue::Float);
    assert_eq!(h.get_string("OBJECT"), Some("M42"));
    assert_eq!(h.get_int("NFRAMES"), Some(7));
    assert_eq!(h.get_bool("DARK"), Some(false));
}
