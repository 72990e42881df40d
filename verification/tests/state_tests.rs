//! The state reporter and its flat report payload.

use homieflow::decimal::Decimal;
use homieflow::ghome::State;
use homieflow::homie::{Datatype, Node, Property};
use homieflow::state::{
    homie_node_to_state, query_state_to_report_state, state_has_capability, StateKey, StateValue,
};

fn property(id: &str, name: &str, datatype: Datatype, format: Option<&str>, value: &str) -> Property {
    Property {
        id: id.to_string(),
        name: Some(name.to_string()),
        datatype: Some(datatype),
        settable: true,
        retained: true,
        unit: None,
        format: format.map(|f| f.to_string()),
        value: Some(value.to_string()),
    }
}

fn empty_state() -> State {
    State {
        online: false,
        on: None,
        brightness: None,
        color: None,
        thermostat_temperature_ambient: None,
        thermostat_humidity_ambient: None,
    }
}

#[test]
fn homie_convert_state() {
    let state = State {
        online: true,
        on: Some(true),
        brightness: Some(65),
        thermostat_temperature_ambient: Some(Decimal::new(22, 0)),
        thermostat_humidity_ambient: Some(Decimal::new(42, 0)),
        ..empty_state()
    };

    let entries = query_state_to_report_state(&state);
    assert_eq!(
        entries,
        vec![
            (StateKey::Online, StateValue::Bool(true)),
            (StateKey::On, StateValue::Bool(true)),
            (StateKey::Brightness, StateValue::Number(Decimal::new(65, 0))),
            (
                StateKey::ThermostatTemperatureAmbient,
                StateValue::Number(Decimal::new(22, 0))
            ),
            (
                StateKey::ThermostatHumidityAmbient,
                StateValue::Number(Decimal::new(42, 0))
            ),
        ]
    );
    assert_eq!(entries[0].0.key_string(), "online");
    assert_eq!(entries[2].0.key_string(), "brightness");
    assert_eq!(entries[3].0.key_string(), "thermostatTemperatureAmbient");
    assert_eq!(entries[4].0.key_string(), "thermostatHumidityAmbient");
}

#[test]
fn homegraph_convert_state() {
    let state = State {
        online: true,
        on: Some(true),
        brightness: Some(65),
        thermostat_temperature_ambient: Some(Decimal::new(22, 0)),
        thermostat_humidity_ambient: Some(Decimal::new(42, 0)),
        ..empty_state()
    };

    let entries = query_state_to_report_state(&state);
    assert_eq!(
        entries,
        vec![
            (StateKey::Online, StateValue::Bool(true)),
            (StateKey::On, StateValue::Bool(true)),
            (StateKey::Brightness, StateValue::Number(Decimal::new(65, 0))),
            (
                StateKey::ThermostatTemperatureAmbient,
                StateValue::Number(Decimal::new(22, 0))
            ),
            (
                StateKey::ThermostatHumidityAmbient,
                StateValue::Number(Decimal::new(42, 0))
            ),
        ]
    );
    assert_eq!(entries[0].0.key_string(), "online");
    assert_eq!(entries[2].0.key_string(), "brightness");
    assert_eq!(entries[3].0.key_string(), "thermostatTemperatureAmbient");
    assert_eq!(entries[4].0.key_string(), "thermostatHumidityAmbient");
}

#[test]
fn node_state_collects_recognized_properties() {
    let node = Node {
        id: "node".to_string(),
        name: Some("Node name".to_string()),
        node_type: None,
        properties: vec![
            property("on", "On", Datatype::Boolean, None, "true"),
            property("brightness", "Brightness", Datatype::Integer, Some("0:100"), "65"),
            property("temperature", "Temperature", Datatype::Float, None, "22.0"),
        ],
    };
    let state = homie_node_to_state(&node, true);
    assert_eq!(
        state,
        State {
            online: true,
            on: Some(true),
            brightness: Some(65),
            thermostat_temperature_ambient: Some(Decimal::new(22, 0)),
            ..empty_state()
        }
    );
    assert!(state_has_capability(&state));
}

#[test]
fn node_state_stamps_availability_from_caller() {
    let node = Node {
        id: "node".to_string(),
        name: None,
        node_type: None,
        properties: vec![property("on", "On", Datatype::Boolean, None, "false")],
    };
    let offline = homie_node_to_state(&node, false);
    assert!(!offline.online);
    assert_eq!(offline.on, Some(false));
    let online = homie_node_to_state(&node, true);
    assert!(online.online);
}

#[test]
fn node_state_skips_failed_conversions() {
    let node = Node {
        id: "node".to_string(),
        name: None,
        node_type: None,
        properties: vec![
            property("on", "On", Datatype::Boolean, None, "maybe"),
            property("brightness", "Brightness", Datatype::Integer, None, "65"),
        ],
    };
    let state = homie_node_to_state(&node, true);
    assert_eq!(state.on, None);
    assert_eq!(state.brightness, None);
    assert!(!state_has_capability(&state));
}
