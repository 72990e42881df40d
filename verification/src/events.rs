//! The bridge event loop's decisions: classifying each bus event into
//! the action the loop takes, planning a state report, and choosing
//! whether a transport fault calls for a backoff. The loop itself — the
//! polling, the sleeping, the cloud calls — runs outside this crate and
//! asks these functions what to do.

use vstd::prelude::*;
use crate::ghome::State;
use crate::homie::{get_homie_node, spec_get_node, Device};
use crate::state::{
    homie_node_to_state, spec_node_state, spec_state_has_capability, state_has_capability,
};

verus! {

/// One event from the bus transport.
#[derive(Clone, Debug, PartialEq, Eq)]
pub enum BusEvent {
    /// A device was discovered or one of its attributes changed.
    DeviceUpdated {
        /// The device.
        device_id: String,
        /// Whether the device now has everything it needs to be
        /// addressed.
        has_required_attributes: bool,
    },
    /// A node's attributes changed.
    NodeUpdated {
        /// The owning device.
        device_id: String,
        /// The node.
        node_id: String,
        /// Whether the node now has everything it needs to be addressed.
        has_required_attributes: bool,
    },
    /// A property's attributes changed.
    PropertyUpdated {
        /// The owning device.
        device_id: String,
        /// The owning node.
        node_id: String,
        /// The property.
        property_id: String,
        /// Whether the property now has everything it needs to be
        /// addressed.
        has_required_attributes: bool,
    },
    /// A property's value changed.
    PropertyValueChanged {
        /// The owning device.
        device_id: String,
        /// The owning node.
        node_id: String,
        /// The property.
        property_id: String,
        /// The new value.
        value: String,
        /// Whether the value differs from the one observed before, as
        /// opposed to a replay of retained state.
        fresh: bool,
    },
    /// The transport (re)connected to the bus.
    Connected,
}

/// What the loop does with one event.
#[derive(Clone, Debug, PartialEq, Eq)]
pub enum LoopAction {
    /// Signal the debounced notifier to request a cloud re-sync.
    RequestSync,
    /// Report the node's state to the cloud at once.
    ReportState {
        /// The owning device.
        device_id: String,
        /// The node whose state changed.
        node_id: String,
    },
    /// Log and move on.
    Ignore,
}

/// What the correct classification of an event holds: a structural
/// change that completed its attributes coalesces into a sync request, a
/// fresh value change reports that node's state at once, and everything
/// else — incomplete structure, value echoes, connection notices — is
/// ignored.
pub open spec fn classify_matches(e: BusEvent, r: LoopAction) -> bool {
    match e {
        BusEvent::DeviceUpdated { has_required_attributes, .. } => r == (if has_required_attributes {
            LoopAction::RequestSync
        } else {
            LoopAction::Ignore
        }),
        BusEvent::NodeUpdated { has_required_attributes, .. } => r == (if has_required_attributes {
            LoopAction::RequestSync
        } else {
            LoopAction::Ignore
        }),
        BusEvent::PropertyUpdated { has_required_attributes, .. } => r == (
        if has_required_attributes {
            LoopAction::RequestSync
        } else {
            LoopAction::Ignore
        }),
        BusEvent::PropertyValueChanged { device_id, node_id, fresh, .. } => if fresh {
            &&& r matches LoopAction::ReportState { device_id: d, node_id: n }
            &&& d@ == device_id@
            &&& n@ == node_id@
        } else {
            r == LoopAction::Ignore
        },
        BusEvent::Connected => r == LoopAction::Ignore,
    }
}

/// Classifies one bus event into the loop's action.
pub fn handle_homie_event(event: &BusEvent) -> (r: LoopAction)
    ensures
        classify_matches(*event, r),
{
    match event {
        BusEvent::DeviceUpdated { has_required_attributes: true, .. } => LoopAction::RequestSync,
        BusEvent::NodeUpdated { has_required_attributes: true, .. } => LoopAction::RequestSync,
        BusEvent::PropertyUpdated { has_required_attributes: true, .. } => LoopAction::RequestSync,
        BusEvent::PropertyValueChanged { device_id, node_id, fresh: true, .. } => {
            LoopAction::ReportState { device_id: device_id.clone(), node_id: node_id.clone() }
        },
        _ => LoopAction::Ignore,
    }
}

/// Plans the state report for a changed node: the composite address and
/// the payload, or nothing when the node is unknown or none of its
/// properties converts to a capability entry.
pub fn node_state_changed(devices: &Vec<Device>, device_id: &str, node_id: &str) -> (r: Option<
    (String, State),
>)
    ensures
        match spec_get_node(devices@, device_id@, node_id@) {
            None => r is None,
            Some((d, n)) => {
                let st = spec_node_state(n, d.state.spec_reachable());
                if spec_state_has_capability(st) {
                    &&& r matches Some((addr, s))
                    &&& addr@ == device_id@ + "/"@ + node_id@
                    &&& s == st
                } else {
                    r is None
                }
            },
        },
{
    let (device, node) = match get_homie_node(devices, device_id, node_id) {
        Some(x) => x,
        None => {
            return None;
        },
    };
    let online = device.state.reachable();
    let state = homie_node_to_state(node, online);
    if !state_has_capability(&state) {
        return None;
    }
    let mut addr = device_id.to_owned();
    addr.append("/");
    addr.append(node_id);
    Some((addr, state))
}

/// One fault of the transport's polling.
#[derive(Clone, Copy, Debug, PartialEq, Eq, Structural)]
pub enum PollFault {
    /// The connection itself failed on I/O.
    ConnectionIo,
    /// The connection failed for another reason.
    ConnectionOther,
    /// The bus spoke, but not by the convention; the connection stands.
    Protocol,
}

/// Whether the loop sleeps out the reconnect interval before polling
/// again: only a connection-level I/O fault calls for it; on a usable
/// connection polling continues at once.
pub fn should_backoff(fault: &PollFault) -> (r: bool)
    ensures
        r == (*fault == PollFault::ConnectionIo),
{
    match fault {
        PollFault::ConnectionIo => true,
        _ => false,
    }
}

} // verus!
