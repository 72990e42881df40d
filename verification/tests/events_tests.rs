//! The bridge event loop's classification and report planning.

use homieflow::decimal::Decimal;
use homieflow::events::{
    handle_homie_event, node_state_changed, should_backoff, BusEvent, LoopAction, PollFault,
};
use homieflow::homie::{Datatype, Device, Node, Property, State as DeviceState};

fn tree(state: DeviceState, properties: Vec<Property>) -> Vec<Device> {
    let node = Node {
        id: "node".to_string(),
        name: None,
        node_type: None,
        properties,
    };
    vec![Device {
        id: "device".to_string(),
        homie_version: "4.0".to_string(),
        name: None,
        state,
        nodes: vec![node],
    }]
}

fn temperature_property() -> Property {
    Property {
        id: "temperature".to_string(),
        name: Some("Temperature".to_string()),
        datatype: Some(Datatype::Float),
        settable: false,
        retained: true,
        unit: None,
        format: None,
        value: Some("21.3".to_string()),
    }
}

#[test]
fn structural_changes_request_sync() {
    let event = BusEvent::DeviceUpdated {
        device_id: "device".to_string(),
        has_required_attributes: true,
    };
    assert_eq!(handle_homie_event(&event), LoopAction::RequestSync);
    let event = BusEvent::NodeUpdated {
        device_id: "device".to_string(),
        node_id: "node".to_string(),
        has_required_attributes: true,
    };
    assert_eq!(handle_homie_event(&event), LoopAction::RequestSync);
    let event = BusEvent::PropertyUpdated {
        device_id: "device".to_string(),
        node_id: "node".to_string(),
        property_id: "temperature".to_string(),
        has_required_attributes: true,
    };
    assert_eq!(handle_homie_event(&event), LoopAction::RequestSync);
}

#[test]
fn incomplete_structural_changes_are_ignored() {
    let event = BusEvent::DeviceUpdated {
        device_id: "device".to_string(),
        has_required_attributes: false,
    };
    assert_eq!(handle_homie_event(&event), LoopAction::Ignore);
    assert_eq!(handle_homie_event(&BusEvent::Connected), LoopAction::Ignore);
}

#[test]
fn fresh_value_changes_report_state() {
    let event = BusEvent::PropertyValueChanged {
        device_id: "device".to_string(),
        node_id: "node".to_string(),
        property_id: "temperature".to_string(),
        value: "21.4".to_string(),
        fresh: true,
    };
    assert_eq!(
        handle_homie_event(&event),
        LoopAction::ReportState {
            device_id: "device".to_string(),
            node_id: "node".to_string(),
        }
    );
}

#[test]
fn stale_value_echoes_are_ignored() {
    let event = BusEvent::PropertyValueChanged {
        device_id: "device".to_string(),
        node_id: "node".to_string(),
        property_id: "temperature".to_string(),
        value: "21.3".to_string(),
        fresh: false,
    };
    assert_eq!(handle_homie_event(&event), LoopAction::Ignore);
}

#[test]
fn report_plan_carries_address_and_payload() {
    let devices = tree(DeviceState::Ready, vec![temperature_property()]);
    let (address, state) = node_state_changed(&devices, "device", "node").unwrap();
    assert_eq!(address, "device/node");
    assert!(state.online);
    assert_eq!(state.thermostat_temperature_ambient, Some(Decimal::new(213, 1)));
}

#[test]
fn report_plan_marks_unreachable_devices_offline() {
    let devices = tree(DeviceState::Lost, vec![temperature_property()]);
    let (_, state) = node_state_changed(&devices, "device", "node").unwrap();
    assert!(!state.online);
}

#[test]
fn report_plan_skips_empty_payloads_and_unknown_nodes() {
    let text = Property {
        id: "label".to_string(),
        name: None,
        datatype: Some(Datatype::Str),
        settable: false,
        retained: true,
        unit: None,
        format: None,
        value: Some("hello".to_string()),
    };
    let devices = tree(DeviceState::Ready, vec![text]);
    assert_eq!(node_state_changed(&devices, "device", "node"), None);
    assert_eq!(node_state_changed(&devices, "device", "other"), None);
    assert_eq!(node_state_changed(&devices, "other", "node"), None);
}

#[test]
fn only_connection_io_faults_back_off() {
    assert!(should_backoff(&PollFault::ConnectionIo));
    assert!(!should_backoff(&PollFault::ConnectionOther));
    assert!(!should_backoff(&PollFault::Protocol));
}
