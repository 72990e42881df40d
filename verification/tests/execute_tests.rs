//! The `execute` handler's command planning and response shaping.

use homieflow::execute::{
    command_error, execute_homie_device, execute_homie_devices, handle, set_value_outcome,
    CommandPlan, ExecuteError,
};
use homieflow::ghome::{
    BrightnessAbsolute, ColorAbsolute, ColorValue, Command, CommandColor, OnOff,
    PayloadCommandStatus,
};
use homieflow::homie::{Datatype, Device, Node, Property, State as DeviceState};

fn property(id: &str, name: &str, datatype: Datatype, format: Option<&str>, value: &str) -> Property {
    Property {
        id: id.to_string(),
        name: Some(name.to_string()),
        datatype: Some(datatype),
        settable: true,
        retained: true,
        unit: None,
        format: format.map(|f| f.to_string()),
        value: Some(value.to_string()),
    }
}

fn tree() -> Vec<Device> {
    let node = Node {
        id: "node".to_string(),
        name: Some("Node name".to_string()),
        node_type: None,
        properties: vec![
            property("on", "On", Datatype::Boolean, None, "true"),
            property("brightness", "Brightness", Datatype::Integer, Some("10:20"), "13"),
            property("color", "Colour", Datatype::Color, Some("rgb"), "17,34,51"),
        ],
    };
    vec![Device {
        id: "device".to_string(),
        homie_version: "4.0".to_string(),
        name: Some("Device name".to_string()),
        state: DeviceState::Ready,
        nodes: vec![node],
    }]
}

#[test]
fn execute_plans_on_off_write() {
    let devices = tree();
    let plan = execute_homie_device(&devices, "device/node", &Command::OnOff(OnOff { on: false }));
    assert_eq!(
        plan,
        CommandPlan::Write {
            device_id: "device".to_string(),
            node_id: "node".to_string(),
            property_id: "on".to_string(),
            value: "false".to_string(),
        }
    );
}

#[test]
fn execute_plans_brightness_write() {
    let devices = tree();
    let plan = execute_homie_device(
        &devices,
        "device/node",
        &Command::BrightnessAbsolute(BrightnessAbsolute { brightness: 70 }),
    );
    assert_eq!(
        plan,
        CommandPlan::Write {
            device_id: "device".to_string(),
            node_id: "node".to_string(),
            property_id: "brightness".to_string(),
            value: "17".to_string(),
        }
    );
}

#[test]
fn execute_plans_color_write() {
    let devices = tree();
    let plan = execute_homie_device(
        &devices,
        "device/node",
        &Command::ColorAbsolute(ColorAbsolute {
            color: CommandColor {
                name: None,
                value: ColorValue::Rgb { spectrum_rgb: 0x445566 },
            },
        }),
    );
    assert_eq!(
        plan,
        CommandPlan::Write {
            device_id: "device".to_string(),
            node_id: "node".to_string(),
            property_id: "color".to_string(),
            value: "68,85,102".to_string(),
        }
    );
}

#[test]
fn execute_rejects_unknown_address() {
    let devices = tree();
    let plan =
        execute_homie_device(&devices, "missing/node", &Command::OnOff(OnOff { on: true }));
    assert_eq!(plan, CommandPlan::Reject { error: ExecuteError::DeviceNotFound });
    assert_eq!(
        CommandPlan::Reject { error: ExecuteError::DeviceNotFound },
        CommandPlan::Reject { error: ExecuteError::DeviceNotFound }
    );
    assert_eq!(ExecuteError::DeviceNotFound.code_string(), "deviceNotFound");
}

#[test]
fn execute_rejects_unsupported_capability() {
    let node = Node {
        id: "node".to_string(),
        name: None,
        node_type: None,
        properties: vec![property("temperature", "Temperature", Datatype::Float, None, "21.3")],
    };
    let devices = vec![Device {
        id: "device".to_string(),
        homie_version: "4.0".to_string(),
        name: None,
        state: DeviceState::Ready,
        nodes: vec![node],
    }];
    let plan = execute_homie_device(&devices, "device/node", &Command::OnOff(OnOff { on: true }));
    assert_eq!(plan, CommandPlan::Reject { error: ExecuteError::ActionNotAvailable });
    assert_eq!(ExecuteError::ActionNotAvailable.code_string(), "actionNotAvailable");
}

#[test]
fn execute_batch_isolates_unknown_addresses() {
    let devices = tree();
    let requests = vec![
        ("device/node".to_string(), Command::OnOff(OnOff { on: true })),
        ("missing/node".to_string(), Command::OnOff(OnOff { on: true })),
        ("device/node".to_string(), Command::OnOff(OnOff { on: true })),
    ];
    let plans = execute_homie_devices(&devices, &requests);
    assert_eq!(plans.len(), 3);
    assert_eq!(plans[1], CommandPlan::Reject { error: ExecuteError::DeviceNotFound });
    assert_eq!(plans[0], plans[2]);
    assert!(matches!(plans[0], CommandPlan::Write { .. }));
}

#[test]
fn execute_outcomes_shape_responses() {
    let ok = set_value_outcome(vec!["device/node".to_string()], true);
    assert_eq!(ok.status, PayloadCommandStatus::Pending);
    assert_eq!(ok.error_code, None);
    let failed = set_value_outcome(vec!["device/node".to_string()], false);
    assert_eq!(failed.status, PayloadCommandStatus::Error);
    assert_eq!(failed.error_code, Some("transientError".to_string()));
    let missing = command_error(vec!["x/y".to_string()], "deviceNotFound");
    assert_eq!(missing.status, PayloadCommandStatus::Error);
    assert_eq!(missing.error_code, Some("deviceNotFound".to_string()));
    assert_eq!(missing.ids, vec!["x/y".to_string()]);
}

#[test]
fn execute_handle_reports_auth_failure_without_user() {
    let payload = handle(None);
    assert_eq!(payload.error_code, Some("authFailure".to_string()));
    assert_eq!(payload.debug_string, Some("No such user".to_string()));
    assert!(payload.commands.is_empty());
}
