use astroviewer::indi::{
    blob_text, connect, default_device, devices, disconnect, group_default_open, group_rows,
    group_title, groups, indi_switch_payload, is_connected, is_exposing, is_indigo, state_name,
    switch_text, IndiCapture, IndiCmd, IndiElement, IndiProperty, IndiValue, PropPerm, PropState,
    SwitchRule,
};

fn switch(name: &str, on: bool) -> IndiElement<f64> {
    IndiElement { name: name.to_string(), label: name.to_lowercase(), value: IndiValue::Switch(on) }
}

fn number(name: &str, value: f64) -> IndiElement<f64> {
    IndiElement {
        name: name.to_string(),
        label: name.to_string(),
        value: IndiValue::Number { value, min: 0.0, max: 10.0, step: 1.0 },
    }
}

fn prop(
    device: &str,
    name: &str,
    group: &str,
    elements: Vec<IndiElement<f64>>,
) -> IndiProperty<f64> {
    IndiProperty {
        device: device.to_string(),
        name: name.to_string(),
        label: name.to_string(),
        group: group.to_string(),
        perm: PropPerm::Rw,
        state: PropState::Idle,
        rule: Some(SwitchRule::OneOfMany),
        elements,
    }
}

#[test]
fn switch_writes_send_the_full_vector() {
    let mut p = prop("cam", "MODE", "Main", vec![switch("A", true), switch("B", false)]);
    assert_eq!(
        indi_switch_payload(&p),
        [("A".to_string(), true), ("B".to_string(), false)]
    );
    assert!(p.shows_as_choice());
    assert_eq!(p.selected(), Some(0));
    assert_eq!(p.selected_label(), "a");
    let cmd = p.pick_one(1);
    assert_eq!(
        cmd,
        Some(IndiCmd::SetSwitch {
            device: "cam".to_string(),
            property: "MODE".to_string(),
            values: vec![("A".to_string(), false), ("B".to_string(), true)],
        })
    );
    assert_eq!(p.selected(), Some(1));
    assert_eq!(p.set_switch(1, false), None);
    assert_eq!(p.selected(), Some(1));
    p.rule = Some(SwitchRule::AnyOfMany);
    assert_eq!(p.pick_one(0), None);
    assert_eq!(p.selected(), Some(1));
    assert_eq!(
        p.set_switch(1, false),
        Some(IndiCmd::SetSwitch {
            device: "cam".to_string(),
            property: "MODE".to_string(),
            values: vec![("A".to_string(), false), ("B".to_string(), false)],
        })
    );
    assert_eq!(p.selected(), None);
    assert_eq!(p.selected_label(), "");
}

#[test]
fn numbers_and_texts_send_the_full_vector() {
    let p = prop("cam", "GAIN", "Main", vec![number("X", 1.0), number("Y", 2.0)]);
    assert_eq!(
        p.number_write(),
        Some(IndiCmd::SetNumber {
            device: "cam".to_string(),
            property: "GAIN".to_string(),
            values: vec![("X".to_string(), 1.0), ("Y".to_string(), 2.0)],
        })
    );
    assert!(!p.shows_as_choice());
    let mut t = prop(
        "cam",
        "NAMES",
        "Main",
        vec![IndiElement {
            name: "OBJ".to_string(),
            label: "Object".to_string(),
            value: IndiValue::Text("M31".to_string()),
        }],
    );
    assert_eq!(t.end_text_edit(0, "M42", false), None);
    assert_eq!(t.end_text_edit(0, "M31", true), None);
    assert_eq!(
        t.end_text_edit(0, "M42", true),
        Some(IndiCmd::SetText {
            device: "cam".to_string(),
            property: "NAMES".to_string(),
            values: vec![("OBJ".to_string(), "M42".to_string())],
        })
    );
}

#[test]
fn edited_numbers_are_kept_until_they_are_written() {
    let mut p = prop("cam", "GAIN", "Main", vec![number("X", 1.0), number("Y", 2.0)]);
    p.set_number(1, 7.5);
    assert_eq!(p.elements[0], number("X", 1.0));
    assert_eq!(p.elements[1], number("Y", 7.5));
    assert_eq!(
        p.number_write(),
        Some(IndiCmd::SetNumber {
            device: "cam".to_string(),
            property: "GAIN".to_string(),
            values: vec![("X".to_string(), 1.0), ("Y".to_string(), 7.5)],
        })
    );
    p.perm = PropPerm::Ro;
    p.set_number(1, 3.0);
    assert_eq!(p.elements[1], number("Y", 7.5));
    let less = |a: f64, b: f64| a < b;
    assert_eq!(p.number_limits(0, less), Some((0.0, 10.0)));
    p.elements[0].value = IndiValue::Number { value: 1.0, min: 0.0, max: 0.0, step: 0.0 };
    assert_eq!(p.number_limits(0, less), None);
    let mut s = prop("cam", "MODE", "Main", vec![switch("A", true)]);
    s.rule = Some(SwitchRule::AnyOfMany);
    s.set_number(0, 3.0);
    assert_eq!(s.elements[0], switch("A", true));
    assert_eq!(s.number_limits(0, less), None);
}

#[test]
fn read_only_properties_are_never_written() {
    let mut p = prop("cam", "MODE", "Main", vec![switch("A", true), switch("B", false)]);
    p.perm = PropPerm::Ro;
    assert_eq!(p.pick_one(1), None);
    assert_eq!(p.selected(), Some(0));
    p.rule = Some(SwitchRule::AnyOfMany);
    assert_eq!(p.set_switch(0, false), None);
    assert_eq!(p.selected(), Some(0));
    assert_eq!(p.switch_write(), None);
    let mut n = prop("cam", "TEMP", "Main", vec![number("T", 1.0)]);
    n.perm = PropPerm::Ro;
    assert_eq!(n.number_write(), None);
    let mut t = prop(
        "cam",
        "NAMES",
        "Main",
        vec![IndiElement {
            name: "OBJ".to_string(),
            label: "Object".to_string(),
            value: IndiValue::Text("M31".to_string()),
        }],
    );
    t.perm = PropPerm::Ro;
    assert_eq!(t.end_text_edit(0, "M42", true), None);
    assert_eq!(t.elements[0].value, IndiValue::Text("M31".to_string()));
    assert_eq!(t.text_write(), None);
    t.perm = PropPerm::Wo;
    assert!(t.end_text_edit(0, "M42", true).is_some());
    // A number among switches has no checkbox.
    let mut m = prop("cam", "MIX", "Main", vec![number("X", 1.0), switch("A", false)]);
    assert_eq!(m.set_switch(0, true), None);
    assert!(m.set_switch(1, true).is_some());
}

#[test]
fn rows_are_labeled() {
    let p = prop("cam", "GAIN", "Main", vec![number("X", 1.0), number("GAIN", 2.0)]);
    assert_eq!(p.row_label(0), "GAIN \u{b7} X");
    assert_eq!(p.row_label(1), "GAIN");
    assert_eq!(p.row_hover(0), "GAIN.X");
    let single = prop("cam", "GAIN", "Main", vec![number("X", 1.0)]);
    assert_eq!(single.row_label(0), "GAIN");
    assert!(p.matches("gain"));
    assert!(p.matches("x"));
    assert!(p.matches(""));
    assert!(!p.matches("zoom"));
    assert!(p.writable());
}

#[test]
fn binary_elements_tell_their_size() {
    assert_eq!(blob_text(".fits", 42), ".fits (42 bytes)");
    assert_eq!(blob_text("", 0), "\u{2014}");
    assert_eq!(blob_text(".fits", 0), ".fits");
    assert_eq!(switch_text(true), "On");
    assert_eq!(state_name(PropState::Okay), "ok");
    assert_eq!(state_name(PropState::Alert), "alert");
}

fn two_devices() -> Vec<IndiProperty<f64>> {
    vec![
        prop("Server", "INFO", "", vec![]),
        prop("cam", "CONNECTION", "Main Control", vec![switch("CONNECT", true), switch("DISCONNECT", false)]),
        prop("cam", "CCD_EXPOSURE", "Main Control", vec![number("V", 1.0)]),
        prop("cam", "TEMP", "", vec![number("T", 1.0)]),
    ]
}

#[test]
fn the_default_device_can_be_connected() {
    let mut props = two_devices();
    assert_eq!(default_device(&props), Some("cam".to_string()));
    assert_eq!(devices(&props), ["Server", "cam"]);
    assert_eq!(groups(&props, "cam"), ["Main Control", ""]);
    assert_eq!(group_rows(&props, "cam", "Main Control", ""), [2]);
    assert_eq!(group_title(""), "Other");
    assert!(group_default_open("Main Control"));
    assert!(!group_default_open("Options"));
    let mut c = IndiCapture { device: String::new(), exposure: 1.0, live: false };
    c.choose_device(&props);
    assert_eq!(c.device, "cam");
    props.truncate(1);
    c.choose_device(&props);
    assert_eq!(c.device, "cam");
    assert_eq!(default_device(&props), Some("Server".to_string()));
    assert_eq!(default_device::<f64>(&vec![]), None);
}

#[test]
fn connection_items_differ_by_dialect() {
    let mut props = two_devices();
    assert!(is_connected(&props, "cam"));
    assert!(!is_connected(&props, "Server"));
    assert!(!is_indigo(&props, "cam"));
    assert_eq!(
        disconnect(&props, "cam"),
        IndiCmd::SetSwitch {
            device: "cam".to_string(),
            property: "CONNECTION".to_string(),
            values: vec![("CONNECT".to_string(), false), ("DISCONNECT".to_string(), true)],
        }
    );
    props[1].elements = vec![switch("CONNECTED", false), switch("DISCONNECTED", true)];
    assert!(!is_connected(&props, "cam"));
    assert!(is_indigo(&props, "cam"));
    assert_eq!(
        disconnect(&props, "cam"),
        IndiCmd::SetSwitch {
            device: "cam".to_string(),
            property: "CONNECTION".to_string(),
            values: vec![("CONNECTED".to_string(), false), ("DISCONNECTED".to_string(), true)],
        }
    );
    let cmds: Vec<IndiCmd<f64>> = connect("cam");
    assert_eq!(
        cmds,
        [
            IndiCmd::Connect { device: "cam".to_string() },
            IndiCmd::EnableBlob { device: "cam".to_string() },
        ]
    );
}

#[test]
fn live_exposures_run_until_stopped() {
    let mut c = IndiCapture { device: "cam".to_string(), exposure: 2.5, live: false };
    let cmds = c.expose(true);
    assert_eq!(
        cmds[1],
        IndiCmd::StartExposure { device: "cam".to_string(), seconds: 2.5, live: true }
    );
    assert!(c.live);
    assert_eq!(c.stop_live(), IndiCmd::StopLive);
    assert!(!c.live);
    c.expose(false);
    assert!(!c.live);
    let mut props = two_devices();
    assert!(!is_exposing(&props, "cam"));
    props[2].state = PropState::Busy;
    assert!(is_exposing(&props, "cam"));
    assert!(!is_exposing(&props, "Server"));
}
