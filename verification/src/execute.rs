//! The `execute` fulfillment handler: decides, for each command of a
//! batch, which property write to perform, and shapes the per-command
//! response once the transport has performed it. The write itself is
//! I/O and happens outside this crate; this module fixes everything
//! around it.

use vstd::prelude::*;
use crate::convert::{
    color_absolute_to_property_value, percentage_to_property_value, spec_property_from_color,
    spec_property_from_percentage,
};
use crate::ghome::{
    Command, ExecutePayload, PayloadCommand, PayloadCommandStatus,
};
use crate::homie::{get_property, spec_find_property, Datatype, Device};
use crate::query::{get_homie_device_by_id, spec_lookup_address};

verus! {

/// Why a command could not be turned into a property write.
#[derive(Clone, Copy, Debug, PartialEq, Eq, Structural)]
pub enum ExecuteError {
    /// The address resolves to no node of the tree.
    DeviceNotFound,
    /// The node has no property able to carry the command.
    ActionNotAvailable,
}

impl ExecuteError {
    /// The cloud error code for this failure.
    pub fn code_string(&self) -> (r: String)
        ensures
            r@ == match *self {
                ExecuteError::DeviceNotFound => "deviceNotFound"@,
                ExecuteError::ActionNotAvailable => "actionNotAvailable"@,
            },
    {
        match self {
            ExecuteError::DeviceNotFound => "deviceNotFound".to_owned(),
            ExecuteError::ActionNotAvailable => "actionNotAvailable".to_owned(),
        }
    }
}

/// The decision for one command: either the property write to perform,
/// or the structured error to report.
#[derive(Clone, Debug, PartialEq, Eq)]
pub enum CommandPlan {
    /// Write `value` to the property.
    Write {
        /// The device to write to.
        device_id: String,
        /// The node to write to.
        node_id: String,
        /// The property to write to.
        property_id: String,
        /// The bus-native value to write.
        value: String,
    },
    /// Report the error without touching the bus.
    Reject {
        /// Why the command cannot be carried out.
        error: ExecuteError,
    },
}

/// What the correct decision for `cmd` at address `id` holds: an unknown
/// address is rejected as not found; an on/off command needs a boolean
/// `on` property; a brightness command needs a `brightness` property
/// whose range converts the percentage; a colour command needs a `color`
/// property in the command's encoding; anything else is rejected as
/// unavailable, and a write always carries the resolved address and the
/// converted value.
pub open spec fn plan_matches(devices: Seq<Device>, id: Seq<char>, cmd: Command, r: CommandPlan)
    -> bool {
    match spec_lookup_address(devices, id) {
        None => r == (CommandPlan::Reject { error: ExecuteError::DeviceNotFound }),
        Some((d, n)) => match cmd {
            Command::OnOff(onoff) => match spec_find_property(n.properties@, "on"@) {
                Some(p) if p.datatype == Some(Datatype::Boolean) => {
                    &&& r matches CommandPlan::Write { device_id, node_id, property_id, value }
                    &&& device_id@ == d.id@
                    &&& node_id@ == n.id@
                    &&& property_id@ == "on"@
                    &&& value@ == (if onoff.on {
                        "true"@
                    } else {
                        "false"@
                    })
                },
                _ => r == (CommandPlan::Reject { error: ExecuteError::ActionNotAvailable }),
            },
            Command::BrightnessAbsolute(b) => match spec_find_property(
                n.properties@,
                "brightness"@,
            ) {
                Some(p) => match spec_property_from_percentage(p, b.brightness as int) {
                    Some(s) => {
                        &&& r matches CommandPlan::Write { device_id, node_id, property_id, value }
                        &&& device_id@ == d.id@
                        &&& node_id@ == n.id@
                        &&& property_id@ == "brightness"@
                        &&& value@ == s
                    },
                    None => r == (CommandPlan::Reject {
                        error: ExecuteError::ActionNotAvailable,
                    }),
                },
                None => r == (CommandPlan::Reject { error: ExecuteError::ActionNotAvailable }),
            },
            Command::ColorAbsolute(ca) => match spec_find_property(n.properties@, "color"@) {
                Some(p) => match spec_property_from_color(p, ca) {
                    Some(s) => {
                        &&& r matches CommandPlan::Write { device_id, node_id, property_id, value }
                        &&& device_id@ == d.id@
                        &&& node_id@ == n.id@
                        &&& property_id@ == "color"@
                        &&& value@ == s
                    },
                    None => r == (CommandPlan::Reject {
                        error: ExecuteError::ActionNotAvailable,
                    }),
                },
                None => r == (CommandPlan::Reject { error: ExecuteError::ActionNotAvailable }),
            },
            _ => r == (CommandPlan::Reject { error: ExecuteError::ActionNotAvailable }),
        },
    }
}

/// Decides what to do for one command at one address.
pub fn execute_homie_device(devices: &Vec<Device>, id: &str, command: &Command) -> (r: CommandPlan)
    ensures
        plan_matches(devices@, id@, *command, r),
{
    let (device, node) = match get_homie_device_by_id(devices, id) {
        Some(x) => x,
        None => {
            return CommandPlan::Reject { error: ExecuteError::DeviceNotFound };
        },
    };
    match command {
        Command::OnOff(onoff) => {
            if let Some(on) = get_property(node, "on") {
                let is_bool = match on.datatype {
                    Some(Datatype::Boolean) => true,
                    _ => false,
                };
                if is_bool {
                    let value: String = if onoff.on {
                        "true".to_owned()
                    } else {
                        "false".to_owned()
                    };
                    return CommandPlan::Write {
                        device_id: device.id.clone(),
                        node_id: node.id.clone(),
                        property_id: "on".to_owned(),
                        value,
                    };
                }
            }
            CommandPlan::Reject { error: ExecuteError::ActionNotAvailable }
        },
        Command::BrightnessAbsolute(b) => {
            if let Some(brightness) = get_property(node, "brightness") {
                if let Some(value) = percentage_to_property_value(brightness, b.brightness) {
                    return CommandPlan::Write {
                        device_id: device.id.clone(),
                        node_id: node.id.clone(),
                        property_id: "brightness".to_owned(),
                        value,
                    };
                }
            }
            CommandPlan::Reject { error: ExecuteError::ActionNotAvailable }
        },
        Command::ColorAbsolute(ca) => {
            if let Some(color) = get_property(node, "color") {
                if let Some(value) = color_absolute_to_property_value(color, ca) {
                    return CommandPlan::Write {
                        device_id: device.id.clone(),
                        node_id: node.id.clone(),
                        property_id: "color".to_owned(),
                        value,
                    };
                }
            }
            CommandPlan::Reject { error: ExecuteError::ActionNotAvailable }
        },
        _ => CommandPlan::Reject { error: ExecuteError::ActionNotAvailable },
    }
}

/// Decides what to do for each command of a batch: one plan per
/// (address, command) pair, in order, each depending on its own pair
/// alone.
pub fn execute_homie_devices(devices: &Vec<Device>, requests: &Vec<(String, Command)>) -> (r: Vec<
    CommandPlan,
>)
    ensures
        r@.len() == requests@.len(),
        forall|i: int|
            0 <= i < r@.len() ==> plan_matches(
                devices@,
                (#[trigger] requests@[i]).0@,
                requests@[i].1,
                r@[i],
            ),
{
    let mut out: Vec<CommandPlan> = Vec::new();
    let n = requests.len();
    let mut i: usize = 0;
    while i < n
        invariant
            i <= n == requests@.len(),
            out@.len() == i,
            forall|k: int|
                0 <= k < i ==> plan_matches(
                    devices@,
                    (#[trigger] requests@[k]).0@,
                    requests@[k].1,
                    out@[k],
                ),
        decreases n - i,
    {
        let (id, command) = &requests[i];
        let plan = execute_homie_device(devices, id.as_str(), command);
        out.push(plan);
        i = i + 1;
    }
    out
}

/// Shapes the response entry for a rejected command.
pub fn command_error(ids: Vec<String>, error_code: &str) -> (r: PayloadCommand)
    ensures
        r.ids == ids,
        r.status == PayloadCommandStatus::Error,
        r.error_code matches Some(e) && e@ == error_code@,
{
    PayloadCommand {
        ids,
        status: PayloadCommandStatus::Error,
        error_code: Some(error_code.to_owned()),
    }
}

/// Shapes the response entry for a performed write: pending when the
/// transport took the value, a transient error when it refused.
pub fn set_value_outcome(ids: Vec<String>, accepted: bool) -> (r: PayloadCommand)
    ensures
        r.ids == ids,
        accepted ==> r.status == PayloadCommandStatus::Pending && r.error_code is None,
        !accepted ==> r.status == PayloadCommandStatus::Error && (r.error_code matches Some(e)
            && e@ == "transientError"@),
{
    if accepted {
        PayloadCommand { ids, status: PayloadCommandStatus::Pending, error_code: None }
    } else {
        PayloadCommand {
            ids,
            status: PayloadCommandStatus::Error,
            error_code: Some("transientError".to_owned()),
        }
    }
}

/// Wraps the per-command entries into an `execute` response payload; an
/// absent entry list means the user is unknown.
pub fn handle(commands: Option<Vec<PayloadCommand>>) -> (r: ExecutePayload)
    ensures
        match commands {
            Some(cs) => r.error_code is None && r.debug_string is None && r.commands == cs,
            None => {
                &&& (r.error_code matches Some(e) && e@ == "authFailure"@)
                &&& (r.debug_string matches Some(d) && d@ == "No such user"@)
                &&& r.commands@.len() == 0
            },
        },
{
    match commands {
        Some(cs) => ExecutePayload { error_code: None, debug_string: None, commands: cs },
        None => ExecutePayload {
            error_code: Some("authFailure".to_owned()),
            debug_string: Some("No such user".to_owned()),
            commands: Vec::new(),
        },
    }
}

} // verus!
