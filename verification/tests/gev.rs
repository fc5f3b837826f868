use astroviewer::gev::{
    categories, category_rows, commit_gate, filter_text, find_float, gev_category_default_open,
    GevCmd, GevControl, GevKind, GevShape,
};

fn control(name: &str, category: &str, kind: GevKind) -> GevControl<f64> {
    GevControl {
        name: name.to_string(),
        display: name.to_string(),
        category: category.to_string(),
        unit: String::new(),
        kind,
        value: 0,
        min: 0,
        max: 10,
        fvalue: 1.5,
        writable: true,
        needs_restart: false,
        ip_swapped: false,
    }
}

#[test]
fn important_categories_open_by_default() {
    assert!(gev_category_default_open("AcquisitionControl"));
    assert!(gev_category_default_open("ImageFormatControl"));
    assert!(gev_category_default_open("ANALOGCONTROL"));
    assert!(gev_category_default_open("Gain"));
    assert!(!gev_category_default_open("TransportLayerControl"));
    assert!(!gev_category_default_open(""));
}

#[test]
fn addresses_keep_their_byte_order() {
    let mut c = control("GevCurrentIPAddress", "Transport", GevKind::IpV4);
    c.value = 0xC0A8_0002;
    assert_eq!(c.octets(), [192, 168, 0, 2]);
    assert_eq!(c.ip_text(), "192.168.0.2");
    c.ip_swapped = true;
    assert_eq!(c.ip_text(), "2.0.168.192");
    c.set_octets([10, 0, 0, 7]);
    assert_eq!(c.octets(), [10, 0, 0, 7]);
    assert_eq!(c.value, 0x0700_000A);
    assert_eq!(
        c.send_int(),
        Some(GevCmd::SetInt("GevCurrentIPAddress".to_string(), 0x0700_000A))
    );
}

#[test]
fn hardware_addresses_read_in_hex() {
    let mut c = control("Mac", "Transport", GevKind::MacAddr);
    c.value = 0x000f_31ab_cdef;
    assert_eq!(c.mac_text(), "00:0f:31:ab:cd:ef");
    assert_eq!(c.mac_bytes(), [0x00, 0x0f, 0x31, 0xab, 0xcd, 0xef]);
    c.ip_swapped = true;
    assert_eq!(c.mac_text(), "ef:cd:ab:31:0f:00");
}

#[test]
fn edits_stay_in_range() {
    let mut c = control("Width", "ImageFormat", GevKind::Integer);
    assert_eq!(c.edit_int(4), Some(GevCmd::SetInt("Width".to_string(), 4)));
    assert_eq!(c.edit_int(4), None);
    assert_eq!(c.edit_int(99), Some(GevCmd::SetInt("Width".to_string(), 10)));
    let mut c = control("Gain", "Analog", GevKind::Float);
    assert_eq!(c.edit_float(2.0, true), Some(GevCmd::SetFloat("Gain".to_string(), 2.0)));
    assert_eq!(c.edit_float(3.0, false), None);
    assert_eq!(c.fvalue, 2.0);
    let mut c = control("Reverse", "Image", GevKind::Boolean);
    assert_eq!(c.edit_bool(true), Some(GevCmd::SetBool("Reverse".to_string(), true)));
    assert_eq!(c.value, 1);
    let symbols = vec!["Mono8".to_string(), "Mono12".to_string()];
    let mut c = control("PixelFormat", "Image", GevKind::Enumeration(symbols));
    assert_eq!(c.current_symbol(), "Mono8");
    assert_eq!(
        c.pick(1),
        Some(GevCmd::SetEnum("PixelFormat".to_string(), "Mono12".to_string()))
    );
    assert_eq!(c.current_symbol(), "Mono12");
    assert_eq!(c.pick(2), None);
}

#[test]
fn locked_controls_take_no_edits() {
    let kinds = || {
        vec![
            GevKind::Float,
            GevKind::ReadOnly,
            GevKind::Integer,
            GevKind::IpV4,
            GevKind::MacAddr,
            GevKind::Enumeration(vec!["A".to_string(), "B".to_string()]),
            GevKind::Boolean,
        ]
    };
    for (kind, again) in kinds().into_iter().zip(kinds()) {
        let mut c = control("X", "", kind);
        let mut same = control("X", "", again);
        c.writable = false;
        same.writable = false;
        assert_eq!(c.edit_int(4), None);
        assert_eq!(c.edit_float(2.0, true), None);
        assert_eq!(c.edit_bool(true), None);
        assert_eq!(c.pick(1), None);
        c.set_octets([10, 0, 0, 7]);
        assert_eq!(c.send_int(), None);
        assert_eq!(c.execute(), None);
        assert_eq!(c, same);
    }
    let mut c = control("Width", "", GevKind::Integer);
    c.writable = false;
    c.needs_restart = true;
    assert_eq!(c.edit_int(4), Some(GevCmd::SetInt("Width".to_string(), 4)));
    assert_eq!(c.edit_float(2.0, true), None);
    assert_eq!(c.edit_bool(true), None);
}

#[test]
fn shapes_follow_kind_and_access() {
    let mut c = control("X", "", GevKind::Integer);
    assert_eq!(c.shape(), GevShape::IntegerSlider);
    c.writable = false;
    assert_eq!(c.shape(), GevShape::IntegerText);
    c.needs_restart = true;
    assert_eq!(c.shape(), GevShape::IntegerSlider);
    assert!(c.enabled());
    assert_eq!(control("X", "", GevKind::Command).shape(), GevShape::Button);
    assert_eq!(control("X", "", GevKind::ReadOnly).shape(), GevShape::FloatText);
}

#[test]
fn buttons_and_truth_values_are_named() {
    let mut c = control("AcquisitionStart", "AcquisitionControl", GevKind::Command);
    assert_eq!(c.execute(), Some(GevCmd::Execute("AcquisitionStart".to_string())));
    assert_eq!(c.bool_text(), "Off");
    c.value = 1;
    assert_eq!(c.bool_text(), "On");
}

#[test]
fn categories_and_filters_select_rows() {
    let list = vec![
        control("ExposureTime", "Acquisition", GevKind::Float),
        control("Width", "Image", GevKind::Integer),
        control("Gain", "Acquisition", GevKind::Float),
    ];
    assert_eq!(categories(&list), ["Acquisition", "Image"]);
    assert_eq!(category_rows(&list, "Acquisition", ""), [0, 2]);
    assert_eq!(filter_text("  GaIn "), "gain");
    assert_eq!(category_rows(&list, "Acquisition", "gain"), [2]);
    assert_eq!(find_float(&list, "Gain"), Some(1.5));
    assert_eq!(find_float(&list, "Nothing"), None);
}

#[test]
fn edits_go_out_once_the_user_is_done() {
    assert_eq!(commit_gate(false, true, true), (false, true));
    assert_eq!(commit_gate(true, false, false), (true, false));
    assert_eq!(commit_gate(false, false, false), (false, false));
    assert_eq!(commit_gate(false, true, false), (true, false));
}
