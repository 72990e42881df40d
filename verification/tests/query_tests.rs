//! The `query` handler: per-address state, offline devices, unknown
//! addresses.

use homieflow::decimal::Decimal;
use homieflow::ghome::{Color, PayloadDeviceStatus, QueryPayloadDevice, State};
use homieflow::homie::{Datatype, Device, Node, Property, State as DeviceState};
use homieflow::query::{get_homie_device, get_homie_devices, handle};

fn property(id: &str, name: &str, datatype: Datatype, format: Option<&str>, value: &str) -> Property {
    Property {
        id: id.to_string(),
        name: Some(name.to_string()),
        datatype: Some(datatype),
        settable: true,
        retained: true,
        unit: None,
        format: format.map(|f| f.to_string()),
        value: Some(value.to_string()),
    }
}

fn device(state: DeviceState, properties: Vec<Property>) -> Vec<Device> {
    let node = Node {
        id: "node".to_string(),
        name: Some("Node name".to_string()),
        node_type: None,
        properties,
    };
    vec![Device {
        id: "device".to_string(),
        homie_version: "4.0".to_string(),
        name: Some("Device name".to_string()),
        state,
        nodes: vec![node],
    }]
}

fn empty_state() -> State {
    State {
        online: false,
        on: None,
        brightness: None,
        color: None,
        thermostat_temperature_ambient: None,
        thermostat_humidity_ambient: None,
    }
}

#[test]
fn query_light_with_brightness() {
    let on_property = Property {
        id: "on".to_string(),
        name: Some("On".to_string()),
        datatype: Some(Datatype::Boolean),
        settable: true,
        retained: true,
        unit: None,
        format: None,
        value: Some("true".to_string()),
    };
    let brightness_property =
        property("brightness", "Brightness", Datatype::Integer, Some("0:100"), "100");
    let devices = device(DeviceState::Ready, vec![on_property, brightness_property]);

    assert_eq!(
        get_homie_device(&devices, "device/node"),
        QueryPayloadDevice {
            status: PayloadDeviceStatus::Success,
            error_code: None,
            state: State {
                online: true,
                on: Some(true),
                brightness: Some(100),
                ..empty_state()
            },
        }
    );
}

#[test]
fn query_light_with_color() {
    let on_property = Property {
        id: "on".to_string(),
        name: Some("On".to_string()),
        datatype: Some(Datatype::Boolean),
        settable: true,
        retained: true,
        unit: None,
        format: None,
        value: Some("true".to_string()),
    };
    let color_property = property("color", "Colour", Datatype::Color, Some("rgb"), "255,255,0");
    let devices = device(DeviceState::Ready, vec![on_property, color_property]);

    assert_eq!(
        get_homie_device(&devices, "device/node"),
        QueryPayloadDevice {
            status: PayloadDeviceStatus::Success,
            error_code: None,
            state: State {
                online: true,
                on: Some(true),
                color: Some(Color::SpectrumRgb(0xffff00)),
                ..empty_state()
            },
        }
    );
}

#[test]
fn query_temperature_sensor() {
    let temperature_property = Property {
        id: "temperature".to_string(),
        name: Some("Temperature".to_string()),
        datatype: Some(Datatype::Float),
        settable: true,
        retained: true,
        unit: Some("\u{b0}C".to_string()),
        format: None,
        value: Some("21.3".to_string()),
    };
    let humidity_property = Property {
        id: "humidity".to_string(),
        name: Some("Humidity".to_string()),
        datatype: Some(Datatype::Integer),
        settable: true,
        retained: true,
        unit: Some("%".to_string()),
        format: Some("0:100".to_string()),
        value: Some("27".to_string()),
    };
    let devices = device(DeviceState::Ready, vec![temperature_property, humidity_property]);

    assert_eq!(
        get_homie_device(&devices, "device/node"),
        QueryPayloadDevice {
            status: PayloadDeviceStatus::Success,
            error_code: None,
            state: State {
                online: true,
                thermostat_temperature_ambient: Some(Decimal::new(213, 1)),
                thermostat_humidity_ambient: Some(Decimal::new(27, 0)),
                ..empty_state()
            },
        }
    );
}

#[test]
fn query_lost_device_reports_offline() {
    let on_property = property("on", "On", Datatype::Boolean, None, "true");
    let devices = device(DeviceState::Lost, vec![on_property]);
    let answer = get_homie_device(&devices, "device/node");
    assert_eq!(answer.status, PayloadDeviceStatus::Offline);
    let code = answer.error_code.unwrap();
    assert_eq!(code, "offline");
    assert!(!code.is_empty());
    assert_eq!(answer.state, empty_state());
}

#[test]
fn query_unknown_address_reports_device_not_found() {
    let on_property = property("on", "On", Datatype::Boolean, None, "true");
    let devices = device(DeviceState::Ready, vec![on_property]);
    for id in ["other/node", "device/other", "device", "device/node/extra"] {
        let answer = get_homie_device(&devices, id);
        assert_eq!(answer.status, PayloadDeviceStatus::Error);
        assert_eq!(answer.error_code, Some("deviceNotFound".to_string()));
    }
}

#[test]
fn query_batch_isolates_unknown_addresses() {
    let on_property = property("on", "On", Datatype::Boolean, None, "true");
    let devices = device(DeviceState::Ready, vec![on_property]);
    let request = vec![
        "device/node".to_string(),
        "missing/node".to_string(),
        "device/node".to_string(),
    ];
    let answers = get_homie_devices(&devices, &request);
    assert_eq!(answers.len(), 3);
    assert_eq!(answers[0].0, "device/node");
    assert_eq!(answers[0].1.status, PayloadDeviceStatus::Success);
    assert_eq!(answers[1].1.status, PayloadDeviceStatus::Error);
    assert_eq!(answers[1].1.error_code, Some("deviceNotFound".to_string()));
    assert_eq!(answers[2].1, answers[0].1);
}

#[test]
fn query_handle_reports_auth_failure_without_tree() {
    let payload = handle(None, &vec!["device/node".to_string()]);
    assert_eq!(payload.error_code, Some("authFailure".to_string()));
    assert_eq!(payload.debug_string, Some("No such user".to_string()));
    assert!(payload.devices.is_empty());
}
