//! The in-memory model of one user's device tree: devices, their nodes,
//! and the nodes' properties, as the bus transport reports them. The
//! bridge only reads this tree; the transport writes it.

use vstd::prelude::*;
use crate::text::str_eq;

verus! {

/// The data type a property declares for its values.
#[derive(Clone, Copy, Debug, PartialEq, Eq, Structural)]
pub enum Datatype {
    /// A 64-bit signed integer.
    Integer,
    /// A 64-bit floating-point number, carried on the bus as a decimal
    /// string.
    Float,
    /// A boolean, carried as `"true"` or `"false"`.
    Boolean,
    /// A UTF-8 string.
    Str,
    /// One value out of a set that the format string lists.
    Enum,
    /// A colour, in the format the format string names.
    Color,
}

/// The lifecycle state of a device.
#[derive(Clone, Copy, Debug, PartialEq, Eq, Structural)]
pub enum State {
    /// Discovery has not yet reported a state.
    Unknown,
    /// Connected but not yet operational.
    Init,
    /// Connected and operational.
    Ready,
    /// Cleanly disconnected.
    Disconnected,
    /// Temporarily asleep.
    Sleeping,
    /// Uncleanly disconnected.
    Lost,
    /// Connected but requiring attention.
    Alert,
}

impl State {
    /// A device is exposed to the cloud exactly when it is ready or
    /// sleeping.
    pub open spec fn spec_reachable(self) -> bool {
        self == State::Ready || self == State::Sleeping
    }

    /// Whether the device may be exposed to the cloud.
    pub fn reachable(&self) -> (r: bool)
        ensures
            r == self.spec_reachable(),
    {
        match self {
            State::Ready => true,
            State::Sleeping => true,
            _ => false,
        }
    }
}

/// The colour encoding a colour property declares.
#[derive(Clone, Copy, Debug, PartialEq, Eq, Structural)]
pub enum ColorFormat {
    /// Red, green and blue channels, each 0 to 255.
    Rgb,
    /// Hue 0 to 360, saturation and value 0 to 100.
    Hsv,
}

/// One property of a node, with the last value observed on the bus.
/// An absent `value` means the device never published one.
#[derive(Clone, Debug, PartialEq, Eq)]
pub struct Property {
    /// The property id, unique within its node.
    pub id: String,
    /// The human-readable name, when announced.
    pub name: Option<String>,
    /// The declared datatype, when announced.
    pub datatype: Option<Datatype>,
    /// Whether the property accepts writes.
    pub settable: bool,
    /// Whether the bus retains the last value.
    pub retained: bool,
    /// The unit annotation, when announced.
    pub unit: Option<String>,
    /// The format annotation: a `"min:max"` range for numeric types, or
    /// a colour space tag.
    pub format: Option<String>,
    /// The last value observed on the bus.
    pub value: Option<String>,
}

/// One independently controllable unit of a device.
#[derive(Clone, Debug, PartialEq, Eq)]
pub struct Node {
    /// The node id, unique within its device.
    pub id: String,
    /// The human-readable name, when announced.
    pub name: Option<String>,
    /// The node type annotation, when announced.
    pub node_type: Option<String>,
    /// The node's properties, ids unique.
    pub properties: Vec<Property>,
}

/// One device on the bus.
#[derive(Clone, Debug, PartialEq, Eq)]
pub struct Device {
    /// The device id, unique within the tree.
    pub id: String,
    /// The convention version the device announced.
    pub homie_version: String,
    /// The human-readable name, when announced.
    pub name: Option<String>,
    /// The lifecycle state.
    pub state: State,
    /// The device's nodes, ids unique.
    pub nodes: Vec<Node>,
}

/// The first property of `props` whose id reads `id`.
pub open spec fn spec_find_property(props: Seq<Property>, id: Seq<char>) -> Option<Property>
    decreases props.len(),
{
    if props.len() == 0 {
        None
    } else if props[0].id@ == id {
        Some(props[0])
    } else {
        spec_find_property(props.skip(1), id)
    }
}

/// The first node of `nodes` whose id reads `id`.
pub open spec fn spec_find_node(nodes: Seq<Node>, id: Seq<char>) -> Option<Node>
    decreases nodes.len(),
{
    if nodes.len() == 0 {
        None
    } else if nodes[0].id@ == id {
        Some(nodes[0])
    } else {
        spec_find_node(nodes.skip(1), id)
    }
}

/// The first device of `devices` whose id reads `id`.
pub open spec fn spec_find_device(devices: Seq<Device>, id: Seq<char>) -> Option<Device>
    decreases devices.len(),
{
    if devices.len() == 0 {
        None
    } else if devices[0].id@ == id {
        Some(devices[0])
    } else {
        spec_find_device(devices.skip(1), id)
    }
}

/// The node of the tree at `device_id` / `node_id`, when both resolve.
pub open spec fn spec_get_node(devices: Seq<Device>, device_id: Seq<char>, node_id: Seq<char>)
    -> Option<(Device, Node)> {
    match spec_find_device(devices, device_id) {
        None => None,
        Some(d) => match spec_find_node(d.nodes@, node_id) {
            None => None,
            Some(n) => Some((d, n)),
        },
    }
}

/// Looks a property up by id within a node.
pub fn get_property<'a>(node: &'a Node, id: &str) -> (r: Option<&'a Property>)
    ensures
        match r {
            Some(p) => spec_find_property(node.properties@, id@) == Some(*p),
            None => spec_find_property(node.properties@, id@) is None,
        },
{
    let n = node.properties.len();
    let mut i: usize = 0;
    proof {
        assert(node.properties@.skip(0) =~= node.properties@);
    }
    while i < n
        invariant
            i <= n == node.properties@.len(),
            spec_find_property(node.properties@, id@) == spec_find_property(
                node.properties@.skip(i as int),
                id@,
            ),
        decreases n - i,
    {
        proof {
            assert(node.properties@.skip(i as int)[0] == node.properties@[i as int]);
            assert(node.properties@.skip(i as int).skip(1) =~= node.properties@.skip(i + 1));
        }
        if str_eq(node.properties[i].id.as_str(), id) {
            return Some(&node.properties[i]);
        }
        i = i + 1;
    }
    None
}

/// Looks a node up by device id and node id.
pub fn get_homie_node<'a>(devices: &'a Vec<Device>, device_id: &str, node_id: &str) -> (r: Option<
    (&'a Device, &'a Node),
>)
    ensures
        match r {
            Some((d, n)) => spec_get_node(devices@, device_id@, node_id@) == Some((*d, *n)),
            None => spec_get_node(devices@, device_id@, node_id@) is None,
        },
{
    match get_device(devices, device_id) {
        None => None,
        Some(d) => match get_node(d, node_id) {
            None => None,
            Some(n) => Some((d, n)),
        },
    }
}

/// Looks a device up by id.
pub fn get_device<'a>(devices: &'a Vec<Device>, id: &str) -> (r: Option<&'a Device>)
    ensures
        match r {
            Some(d) => spec_find_device(devices@, id@) == Some(*d),
            None => spec_find_device(devices@, id@) is None,
        },
{
    let n = devices.len();
    let mut i: usize = 0;
    proof {
        assert(devices@.skip(0) =~= devices@);
    }
    while i < n
        invariant
            i <= n == devices@.len(),
            spec_find_device(devices@, id@) == spec_find_device(devices@.skip(i as int), id@),
        decreases n - i,
    {
        proof {
            assert(devices@.skip(i as int)[0] == devices@[i as int]);
            assert(devices@.skip(i as int).skip(1) =~= devices@.skip(i + 1));
        }
        if str_eq(devices[i].id.as_str(), id) {
            return Some(&devices[i]);
        }
        i = i + 1;
    }
    None
}

/// Looks a node up by id within a device.
pub fn get_node<'a>(device: &'a Device, id: &str) -> (r: Option<&'a Node>)
    ensures
        match r {
            Some(n) => spec_find_node(device.nodes@, id@) == Some(*n),
            None => spec_find_node(device.nodes@, id@) is None,
        },
{
    let n = device.nodes.len();
    let mut i: usize = 0;
    proof {
        assert(device.nodes@.skip(0) =~= device.nodes@);
    }
    while i < n
        invariant
            i <= n == device.nodes@.len(),
            spec_find_node(device.nodes@, id@) == spec_find_node(device.nodes@.skip(i as int), id@),
        decreases n - i,
    {
        proof {
            assert(device.nodes@.skip(i as int)[0] == device.nodes@[i as int]);
            assert(device.nodes@.skip(i as int).skip(1) =~= device.nodes@.skip(i + 1));
        }
        if str_eq(device.nodes[i].id.as_str(), id) {
            return Some(&device.nodes[i]);
        }
        i = i + 1;
    }
    None
}

} // verus!
