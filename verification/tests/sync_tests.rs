//! The capability synthesizer and the `sync` handler.

use homieflow::ghome::{
    Attributes, ColorModel, DeviceTrait, DeviceType, ThermostatTemperatureUnit,
};
use homieflow::homie::{Datatype, Device, Node, Property, State as DeviceState};
use homieflow::sync::{handle, homie_devices_to_google_home, homie_node_to_google_home};

fn property(id: &str, name: &str, datatype: Datatype, format: Option<&str>, value: &str) -> Property {
    Property {
        id: id.to_string(),
        name: Some(name.to_string()),
        datatype: Some(datatype),
        settable: true,
        retained: true,
        unit: None,
        format: format.map(|f| f.to_string()),
        value: Some(value.to_string()),
    }
}

fn device(state: DeviceState, properties: Vec<Property>) -> Device {
    let node = Node {
        id: "node".to_string(),
        name: Some("Node name".to_string()),
        node_type: None,
        properties,
    };
    Device {
        id: "device".to_string(),
        homie_version: "4.0".to_string(),
        name: Some("Device name".to_string()),
        state,
        nodes: vec![node],
    }
}

fn empty_attributes() -> Attributes {
    Attributes {
        color_model: None,
        available_thermostat_modes: None,
        query_only_temperature_setting: None,
        thermostat_temperature_unit: None,
    }
}

#[test]
fn sync_light_with_brightness() {
    let on_property = property("on", "On", Datatype::Boolean, None, "true");
    let brightness_property =
        property("brightness", "Brightness", Datatype::Integer, Some("0:100"), "100");
    let device = device(DeviceState::Ready, vec![on_property, brightness_property]);
    let node = &device.nodes[0];

    let pd = homie_node_to_google_home(&device, node).unwrap();
    assert_eq!(pd.id, "device/node");
    assert_eq!(pd.device_type, DeviceType::Light);
    assert_eq!(pd.traits, vec![DeviceTrait::OnOff, DeviceTrait::Brightness]);
    assert_eq!(pd.name.default_names, None);
    assert_eq!(pd.name.name, "Device name Node name");
    assert_eq!(pd.name.nicknames, Some(vec!["Node name".to_string()]));
    assert!(pd.will_report_state);
    assert!(!pd.notification_supported_by_agent);
    assert_eq!(pd.room_hint, None);
    assert_eq!(pd.attributes, empty_attributes());
}

#[test]
fn sync_light_with_color() {
    let on_property = property("on", "On", Datatype::Boolean, None, "true");
    let color_property = property("color", "Colour", Datatype::Color, Some("rgb"), "255,255,0");
    let device = device(DeviceState::Ready, vec![on_property, color_property]);
    let node = &device.nodes[0];

    let pd = homie_node_to_google_home(&device, node).unwrap();
    assert_eq!(pd.id, "device/node");
    assert_eq!(pd.device_type, DeviceType::Light);
    assert_eq!(pd.traits, vec![DeviceTrait::OnOff, DeviceTrait::ColorSetting]);
    assert_eq!(pd.name.name, "Device name Node name");
    assert_eq!(pd.name.nicknames, Some(vec!["Node name".to_string()]));
    assert!(pd.will_report_state);
    assert_eq!(
        pd.attributes,
        Attributes { color_model: Some(ColorModel::Rgb), ..empty_attributes() }
    );
}

#[test]
fn sync_temperature_sensor() {
    let temperature_property = Property {
        id: "temperature".to_string(),
        name: Some("Temperature".to_string()),
        datatype: Some(Datatype::Float),
        settable: true,
        retained: true,
        unit: Some("\u{b0}C".to_string()),
        format: None,
        value: Some("21.3".to_string()),
    };
    let humidity_property = Property {
        id: "humidity".to_string(),
        name: Some("Humidity".to_string()),
        datatype: Some(Datatype::Integer),
        settable: true,
        retained: true,
        unit: Some("%".to_string()),
        format: Some("0:100".to_string()),
        value: Some("27".to_string()),
    };
    let device = device(DeviceState::Ready, vec![temperature_property, humidity_property]);
    let node = &device.nodes[0];

    let pd = homie_node_to_google_home(&device, node).unwrap();
    assert_eq!(pd.id, "device/node");
    assert_eq!(pd.device_type, DeviceType::Thermostat);
    assert_eq!(pd.traits, vec![DeviceTrait::TemperatureSetting]);
    assert_eq!(pd.name.name, "Device name Node name");
    assert!(pd.will_report_state);
    assert_eq!(
        pd.attributes,
        Attributes {
            available_thermostat_modes: Some(vec!["off".to_string()]),
            thermostat_temperature_unit: Some(ThermostatTemperatureUnit::C),
            query_only_temperature_setting: Some(true),
            ..empty_attributes()
        }
    );
}

#[test]
fn sync_skips_node_without_recognized_property() {
    let text_property = property("label", "Label", Datatype::Str, None, "hello");
    let device = device(DeviceState::Ready, vec![text_property]);
    let node = &device.nodes[0];
    assert_eq!(homie_node_to_google_home(&device, node), None);
}

#[test]
fn sync_excludes_unreachable_devices() {
    let make = |id: &str, state: DeviceState| {
        let mut d = device(state, vec![property("on", "On", Datatype::Boolean, None, "true")]);
        d.id = id.to_string();
        d
    };
    let devices = vec![
        make("ready", DeviceState::Ready),
        make("lost", DeviceState::Lost),
        make("sleeping", DeviceState::Sleeping),
        make("init", DeviceState::Init),
    ];
    let descriptors = homie_devices_to_google_home(&devices);
    let ids: Vec<String> = descriptors.iter().map(|pd| pd.id.clone()).collect();
    assert_eq!(ids, vec!["ready/node".to_string(), "sleeping/node".to_string()]);
}

#[test]
fn sync_handle_reports_auth_failure_without_tree() {
    let payload = handle("user".to_string(), None);
    assert_eq!(payload.agent_user_id, "user");
    assert_eq!(payload.error_code, Some("authFailure".to_string()));
    assert_eq!(payload.debug_string, Some("No such user".to_string()));
    assert!(payload.devices.is_empty());
}

#[test]
fn sync_handle_lists_descriptors_for_known_user() {
    let device = device(
        DeviceState::Ready,
        vec![property("on", "On", Datatype::Boolean, None, "true")],
    );
    let devices = vec![device];
    let payload = handle("user".to_string(), Some(&devices));
    assert_eq!(payload.agent_user_id, "user");
    assert_eq!(payload.error_code, None);
    assert_eq!(payload.devices.len(), 1);
    assert_eq!(payload.devices[0].device_type, DeviceType::Switch);
    assert_eq!(payload.devices[0].traits, vec![DeviceTrait::OnOff]);
}
