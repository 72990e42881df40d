//! The `query` fulfillment handler: reports the current state of each
//! requested node address, with a structured per-address error where the
//! address is unknown or the device unreachable.

use vstd::prelude::*;
use crate::ghome::{PayloadDeviceStatus, QueryPayload, QueryPayloadDevice, State};
use crate::homie::{
    get_homie_node, spec_get_node, Device, Node,
};
use crate::state::{homie_node_to_state, spec_node_state};
use crate::text::{find_char, find_from, str_eq, string_from_chars, sub_vec};

verus! {

/// The two parts of a composite `"device_id/node_id"` address, when it
/// holds exactly one separator.
pub open spec fn spec_address_parts(id: Seq<char>) -> Option<(Seq<char>, Seq<char>)> {
    match find_from(id, 0, '/') {
        None => None,
        Some(i) => if find_from(id, i + 1, '/') is None {
            Some((id.take(i), id.skip(i + 1)))
        } else {
            None
        },
    }
}

/// The node a composite address resolves to in the tree.
pub open spec fn spec_lookup_address(devices: Seq<Device>, id: Seq<char>) -> Option<
    (Device, Node),
> {
    match spec_address_parts(id) {
        None => None,
        Some((did, nid)) => spec_get_node(devices, did, nid),
    }
}

/// Given an ID of the form `"device_id/node_id"`, looks up the
/// corresponding node (if any).
pub fn get_homie_device_by_id<'a>(devices: &'a Vec<Device>, id: &str) -> (r: Option<
    (&'a Device, &'a Node),
>)
    ensures
        match r {
            Some((d, n)) => spec_lookup_address(devices@, id@) == Some((*d, *n)),
            None => spec_lookup_address(devices@, id@) is None,
        },
{
    let chars = crate::text::str_chars(id);
    let n = chars.len();
    let i = match find_char(&chars, 0, '/') {
        Some(i) => i,
        None => {
            return None;
        },
    };
    match find_char(&chars, i + 1, '/') {
        Some(_) => None,
        None => {
            let device_id = sub_vec(&chars, 0, i);
            let node_id = sub_vec(&chars, i + 1, n);
            proof {
                assert(device_id@ =~= id@.take(i as int));
                assert(node_id@ =~= id@.skip(i + 1));
            }
            let device_str = string_from_chars(&device_id);
            let node_str = string_from_chars(&node_id);
            get_homie_node(devices, device_str.as_str(), node_str.as_str())
        },
    }
}

/// What a correct `query` answer for one address holds: the node's state
/// when the address resolves to a reachable device, a non-empty offline
/// code when the device is unreachable, and a not-found error when the
/// address resolves to nothing.
pub open spec fn query_result_matches(devices: Seq<Device>, id: Seq<char>, r: QueryPayloadDevice)
    -> bool {
    match spec_lookup_address(devices, id) {
        Some((d, n)) => if d.state.spec_reachable() {
            &&& r.status == PayloadDeviceStatus::Success
            &&& r.error_code is None
            &&& r.state == spec_node_state(n, true)
        } else {
            &&& r.status == PayloadDeviceStatus::Offline
            &&& (r.error_code matches Some(e) && e@ == "offline"@ && e@.len() > 0)
            &&& r.state == empty_state()
        },
        None => {
            &&& r.status == PayloadDeviceStatus::Error
            &&& (r.error_code matches Some(e) && e@ == "deviceNotFound"@)
            &&& r.state == empty_state()
        },
    }
}

/// The state reported alongside a failed query: nothing known, offline.
pub open spec fn empty_state() -> State {
    State {
        online: false,
        on: None,
        brightness: None,
        color: None,
        thermostat_temperature_ambient: None,
        thermostat_humidity_ambient: None,
    }
}

/// Answers a `query` for one requested address.
pub fn get_homie_device(devices: &Vec<Device>, id: &str) -> (r: QueryPayloadDevice)
    ensures
        query_result_matches(devices@, id@, r),
{
    match get_homie_device_by_id(devices, id) {
        Some((device, node)) => {
            if device.state.reachable() {
                let state = homie_node_to_state(node, true);
                QueryPayloadDevice {
                    status: PayloadDeviceStatus::Success,
                    error_code: None,
                    state,
                }
            } else {
                proof {
                    reveal_strlit("offline");
                }
                QueryPayloadDevice {
                    status: PayloadDeviceStatus::Offline,
                    error_code: Some("offline".to_owned()),
                    state: State::empty(),
                }
            }
        },
        None => QueryPayloadDevice {
            status: PayloadDeviceStatus::Error,
            error_code: Some("deviceNotFound".to_owned()),
            state: State::empty(),
        },
    }
}

/// Answers a `query` for a batch of requested addresses: one answer per
/// address, in order, each depending on its own address alone.
pub fn get_homie_devices(devices: &Vec<Device>, request_devices: &Vec<String>) -> (r: Vec<
    (String, QueryPayloadDevice),
>)
    ensures
        r@.len() == request_devices@.len(),
        forall|i: int|
            0 <= i < r@.len() ==> (#[trigger] r@[i]).0 == request_devices@[i]
                && query_result_matches(devices@, request_devices@[i]@, r@[i].1),
{
    let mut out: Vec<(String, QueryPayloadDevice)> = Vec::new();
    let n = request_devices.len();
    let mut i: usize = 0;
    while i < n
        invariant
            i <= n == request_devices@.len(),
            out@.len() == i,
            forall|k: int|
                0 <= k < i ==> (#[trigger] out@[k]).0 == request_devices@[k]
                    && query_result_matches(devices@, request_devices@[k]@, out@[k].1),
        decreases n - i,
    {
        let id = &request_devices[i];
        let answer = get_homie_device(devices, id.as_str());
        out.push((id.clone(), answer));
        i = i + 1;
    }
    out
}

/// Answers a `query` request: per-address answers when the user has a
/// device tree, an auth failure otherwise.
pub fn handle(devices: Option<&Vec<Device>>, request_devices: &Vec<String>) -> (r: QueryPayload)
    ensures
        match devices {
            Some(tree) => {
                &&& r.error_code is None
                &&& r.debug_string is None
                &&& r.devices@.len() == request_devices@.len()
                &&& forall|i: int|
                    0 <= i < r.devices@.len() ==> (#[trigger] r.devices@[i]).0
                        == request_devices@[i] && query_result_matches(
                        tree@,
                        request_devices@[i]@,
                        r.devices@[i].1,
                    )
            },
            None => {
                &&& (r.error_code matches Some(e) && e@ == "authFailure"@)
                &&& (r.debug_string matches Some(d) && d@ == "No such user"@)
                &&& r.devices@.len() == 0
            },
        },
{
    match devices {
        Some(tree) => QueryPayload {
            error_code: None,
            debug_string: None,
            devices: get_homie_devices(tree, request_devices),
        },
        None => QueryPayload {
            error_code: Some("authFailure".to_owned()),
            debug_string: Some("No such user".to_owned()),
            devices: Vec::new(),
        },
    }
}

/// An unknown address in a batch answers `deviceNotFound` for itself and
/// leaves every other address's answer exactly what it would have been
/// alone: each answer of the batch is fixed by the tree and its own
/// address.
pub proof fn lemma_query_batch_independent(
    devices: Seq<Device>,
    request: Seq<String>,
    out: Seq<(String, QueryPayloadDevice)>,
    i: int,
    single: QueryPayloadDevice,
)
    requires
        out.len() == request.len(),
        forall|k: int|
            0 <= k < out.len() ==> (#[trigger] out[k]).0 == request[k] && query_result_matches(
                devices,
                request[k]@,
                out[k].1,
            ),
        0 <= i < request.len(),
        spec_lookup_address(devices, request[i]@) is None,
        query_result_matches(devices, request[i]@, single),
    ensures
        out[i].1.status == PayloadDeviceStatus::Error,
        out[i].1.error_code matches Some(e) && e@ == "deviceNotFound"@,
        out[i].1.status == single.status,
        (out[i].1.error_code matches Some(e1) && single.error_code matches Some(e2) && e1@ == e2@),
        out[i].1.state == single.state,
{
    assert((out[i]).0 == request[i] && query_result_matches(devices, request[i]@, out[i].1));
}

} // verus!
