use astroviewer::sources::{
    backends, discover_all, discovered_source_list, find_backend, find_known_scheme, find_row,
    label_with_file_name, manual_gev, parse_ipv4, parse_with, source_label, split_host_port,
    splice_rows, Backend, CameraSource, DiscoveredSource, GevDevice, SourceInfo, SvbonyDevice,
    ToupcamDevice,
};

#[test]
fn file_roundtrip() {
    let src = CameraSource::parse_descriptor("file:/tmp/x.fits").unwrap();
    assert_eq!(src, CameraSource::FitsFile("/tmp/x.fits".into()));
    assert_eq!(src.descriptor().unwrap(), "file:/tmp/x.fits");
}

#[test]
fn bare_existing_path_is_fits() {
    // Any path that exists parses as a FITS source.
    let src = CameraSource::parse_descriptor("/dev/null").unwrap();
    assert!(matches!(src, CameraSource::FitsFile(_)));
    let src = parse_with(&backends(), "/tmp/astroviewer_desc_test.fits", true).unwrap();
    assert!(matches!(src, CameraSource::FitsFile(_)));
}

#[test]
fn none_has_no_descriptor() {
    assert_eq!(CameraSource::NoSource.descriptor(), None);
    assert_eq!(CameraSource::NoSource.scheme(), None);
}

fn without(scheme: &str) -> Vec<Backend> {
    backends().into_iter().filter(|b| b.scheme != scheme).collect()
}

#[test]
fn unknown_schemes_error() {
    assert!(CameraSource::parse_descriptor("bogus:thing").is_err());
    assert!(CameraSource::parse_descriptor("/no/such/path.fits").is_err());
    assert!(parse_with(&without("indi"), "indi:localhost", false).is_err());
}

#[test]
fn disabled_backend_error_names_the_feature() {
    // Whichever backends are left out must produce the "rebuild with
    // --features" hint rather than the generic unknown-scheme error.
    for scheme in ["svb", "toupcam", "gev", "indi"] {
        let (feature, _) = find_known_scheme(scheme).unwrap();
        let err = parse_with(&without(scheme), &format!("{}:x", scheme), false).unwrap_err();
        assert!(err.contains(feature), "error for {}: '{}'", scheme, err);
    }
    assert_eq!(find_known_scheme("bogus"), None);
    assert_eq!(
        parse_with(&without("gev"), "gev:10.0.0.7 \t", false).unwrap_err(),
        "this build has no GigE support (rebuild with --features gev)"
    );
}

#[test]
fn indi_roundtrip() {
    let src = CameraSource::parse_descriptor("indi:astro.local:7624").unwrap();
    assert_eq!(src, CameraSource::Indi("astro.local:7624".into()));
    assert_eq!(src.descriptor().unwrap(), "indi:astro.local:7624");
    // The scheme also accepts the // form.
    assert_eq!(
        CameraSource::parse_descriptor("indi://astro.local").unwrap(),
        CameraSource::Indi("astro.local".into())
    );
    assert!(CameraSource::parse_descriptor("indi:").is_err());
}

#[test]
fn toupcam_roundtrip() {
    let src = CameraSource::parse_descriptor("toupcam:abc-123").unwrap();
    assert_eq!(src, CameraSource::Toupcam("abc-123".into()));
    assert_eq!(src.descriptor().unwrap(), "toupcam:abc-123");
}

#[test]
fn svbony_roundtrip() {
    let src = CameraSource::parse_descriptor("svb:3").unwrap();
    assert_eq!(src, CameraSource::SVBony(3));
    assert_eq!(src.descriptor().unwrap(), "svb:3");
    assert!(CameraSource::parse_descriptor("svb:not-a-number").is_err());
}

#[test]
fn gev_roundtrip() {
    let src = CameraSource::parse_descriptor("gev:192.168.0.2").unwrap();
    assert_eq!(src, CameraSource::Gev("192.168.0.2".into()));
    assert_eq!(src.descriptor().unwrap(), "gev:192.168.0.2");
}

#[test]
fn every_scheme_round_trips() {
    for d in ["file:/data/a b.fits", "svb:-7", "toupcam:tp-1", "gev:cam", "indi:host"] {
        let src = CameraSource::parse_descriptor(d).unwrap();
        assert_eq!(src.descriptor().unwrap(), d);
        assert!(d.starts_with(src.scheme().unwrap()));
    }
}

#[test]
fn surrounding_space_is_ignored() {
    let src = CameraSource::parse_descriptor("  svb:12 \n").unwrap();
    assert_eq!(src, CameraSource::SVBony(12));
}

#[test]
fn manual_address_must_be_an_ip() {
    assert_eq!(manual_gev(" 10.0.0.7 "), Ok(CameraSource::Gev("10.0.0.7".into())));
    assert!(manual_gev("10.0.0").is_err());
    assert!(manual_gev("camera").is_err());
    assert_eq!(parse_ipv4("192.168.0.2"), Some((192, 168, 0, 2)));
    assert_eq!(parse_ipv4("256.1.1.1"), None);
    assert_eq!(parse_ipv4("1.2.3.4.5"), None);
    assert_eq!(parse_ipv4("01.2.3.4"), None);
}

#[test]
fn manual_entries_make_sources() {
    let list = backends();
    let gev = find_backend(&list, "gev").unwrap();
    assert_eq!(
        gev.manual.unwrap().make_source("10.1.2.3"),
        Ok(CameraSource::Gev("10.1.2.3".into()))
    );
    let indi = find_backend(&list, "indi").unwrap();
    assert_eq!(
        indi.manual.unwrap().make_source("pi:7624"),
        Ok(CameraSource::Indi("pi:7624".into()))
    );
    assert!(find_backend(&list, "svb").unwrap().manual.is_none());
    assert!(find_backend(&list, "bogus").is_none());
}

#[test]
fn host_and_port_split() {
    assert_eq!(split_host_port("astro.local:7000", 7624), ("astro.local".to_string(), 7000));
    assert_eq!(split_host_port("astro.local", 7624), ("astro.local".to_string(), 7624));
    assert_eq!(split_host_port(" pi:99999 ", 7624), ("pi:99999".to_string(), 7624));
}

fn svb(id: i32) -> SourceInfo {
    SourceInfo::SVBony(SvbonyDevice {
        camera_id: id,
        name: "SV305".to_string(),
        serial: "S1".to_string(),
    })
}

fn toup(id: &str) -> SourceInfo {
    SourceInfo::Toupcam(ToupcamDevice { id: id.to_string(), display_name: "ATR585".to_string() })
}

fn gige(id: &str) -> SourceInfo {
    SourceInfo::Gev(GevDevice {
        id: id.to_string(),
        display_name: "Mako".to_string(),
        ip: "10.0.0.9".to_string(),
    })
}

fn names(rows: &[DiscoveredSource]) -> Vec<&'static str> {
    rows.iter().map(|r| r.backend).collect()
}

#[test]
fn discovery_lists_backends_in_order() {
    let order: Vec<&str> = backends().iter().map(|b| b.scheme).collect();
    assert_eq!(order, ["svb", "toupcam", "gev", "indi"]);
    let found: Vec<Vec<SourceInfo>> = vec![vec![svb(0), svb(1)], vec![toup("t")], vec![gige("g")], vec![]];
    let rows = discover_all(&found);
    assert_eq!(rows.len(), 4);
    assert_eq!(rows[0].source, CameraSource::SVBony(0));
    assert_eq!(rows[1].source, CameraSource::SVBony(1));
    assert_eq!(rows[2].source, CameraSource::Toupcam("t".into()));
    assert_eq!(rows[3].source, CameraSource::Gev("g".into()));
    let list = discovered_source_list(&rows);
    assert_eq!(list.len(), 4);
    assert_eq!(list[2].0, CameraSource::Toupcam("t".into()));
    assert_eq!(list[2].1, rows[2].label());
    assert_eq!(find_row(&rows, &CameraSource::Gev("g".into())), Some(3));
    assert_eq!(find_row(&rows, &CameraSource::Gev("h".into())), None);
}

#[test]
fn splicing_replaces_one_backend_in_place() {
    let found: Vec<Vec<SourceInfo>> = vec![vec![svb(0)], vec![toup("t")], vec![gige("g")], vec![]];
    let rows = discover_all(&found);
    let toupcam = find_backend(&backends(), "toupcam").unwrap();
    let spliced = splice_rows(&rows, &toupcam, &vec![toup("u"), toup("v")]);
    assert_eq!(names(&spliced), [rows[0].backend, rows[1].backend, rows[1].backend, rows[2].backend]);
    assert_eq!(spliced[1].source, CameraSource::Toupcam("u".into()));
    assert_eq!(spliced[2].source, CameraSource::Toupcam("v".into()));
    assert_eq!(spliced[3].source, CameraSource::Gev("g".into()));
    let gone = splice_rows(&rows, &toupcam, &vec![]);
    assert_eq!(names(&gone), [rows[0].backend, rows[2].backend]);
}

#[test]
fn labels_name_the_source() {
    let rows = discover_all(&vec![vec![svb(4)], vec![], vec![], vec![]]);
    assert!(rows[0].title().contains("SV305"));
    assert_eq!(source_label(&CameraSource::NoSource, &rows), "No source");
    assert_eq!(
        source_label(&CameraSource::FitsFile("/data/night/m31.fits".into()), &rows),
        "FITS: m31.fits"
    );
    assert_eq!(source_label(&CameraSource::FitsFile("m33.fits".into()), &rows), "FITS: m33.fits");
    assert_eq!(source_label(&CameraSource::FitsFile("a/.hidden".into()), &rows), "FITS: .hidden");
    for (path, name) in [
        ("/data/M31_22:15.fits", "M31_22:15.fits"),
        ("night/m31.fits/", "m31.fits"),
        ("night/m31.fits/.", "m31.fits"),
        ("night//m31.fits/.//./", "m31.fits"),
        ("./m31.fits", "m31.fits"),
    ] {
        let label = source_label(&CameraSource::FitsFile(path.into()), &rows);
        assert_eq!(label, format!("FITS: {name}"));
    }
    assert_eq!(
        label_with_file_name(&CameraSource::FitsFile("x".into()), &rows, "m42.fits"),
        "FITS: m42.fits"
    );
}
