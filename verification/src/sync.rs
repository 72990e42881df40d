//! The capability synthesizer and the `sync` fulfillment handler:
//! derives a cloud device descriptor from each node's property set, for
//! every reachable device of the tree.

use vstd::prelude::*;
use crate::convert::spec_color_format;
use crate::ghome::{
    Attributes, ColorModel, DeviceTrait, DeviceType, PayloadDevice, PayloadDeviceName, SyncPayload,
    ThermostatTemperatureUnit,
};
use crate::homie::{
    get_property, spec_find_property, ColorFormat, Device, Node,
};

verus! {

/// The colour encoding of a node's `color` property, when that property
/// exists and declares a valid colour format.
pub open spec fn spec_node_color_format(node: Node) -> Option<ColorFormat> {
    match spec_find_property(node.properties@, "color"@) {
        Some(p) => spec_color_format(p),
        None => None,
    }
}

/// The device type a node's properties add up to. The rules write the
/// type in order: `on` makes a switch, `on` with `brightness` a light, a
/// valid colour makes a light, and `temperature` overrides all with a
/// thermostat.
pub open spec fn spec_node_type(node: Node) -> Option<DeviceType> {
    let has_on = spec_find_property(node.properties@, "on"@) is Some;
    let has_brightness = spec_find_property(node.properties@, "brightness"@) is Some;
    let has_color = spec_node_color_format(node) is Some;
    let has_temperature = spec_find_property(node.properties@, "temperature"@) is Some;
    if has_temperature {
        Some(DeviceType::Thermostat)
    } else if has_color {
        Some(DeviceType::Light)
    } else if has_brightness && has_on {
        Some(DeviceType::Light)
    } else if has_on {
        Some(DeviceType::Switch)
    } else {
        None
    }
}

/// The trait list a node's properties add up to, in rule order.
pub open spec fn spec_node_traits(node: Node) -> Seq<DeviceTrait> {
    let has_on = spec_find_property(node.properties@, "on"@) is Some;
    let has_brightness = spec_find_property(node.properties@, "brightness"@) is Some;
    let has_color = spec_node_color_format(node) is Some;
    let has_temperature = spec_find_property(node.properties@, "temperature"@) is Some;
    (if has_on {
        seq![DeviceTrait::OnOff]
    } else {
        Seq::empty()
    }) + (if has_brightness {
        seq![DeviceTrait::Brightness]
    } else {
        Seq::empty()
    }) + (if has_color {
        seq![DeviceTrait::ColorSetting]
    } else {
        Seq::empty()
    }) + (if has_temperature {
        seq![DeviceTrait::TemperatureSetting]
    } else {
        Seq::empty()
    })
}

/// The display name of a device: its announced name, or its id.
pub open spec fn spec_device_name(device: Device) -> Seq<char> {
    match device.name {
        Some(n) => n@,
        None => device.id@,
    }
}

/// The display name of a node: its announced name, or its id.
pub open spec fn spec_node_name(node: Node) -> Seq<char> {
    match node.name {
        Some(n) => n@,
        None => node.id@,
    }
}

/// What a correct descriptor for `node` of `device` holds: the composite
/// address, the synthesized type and traits, the display names, the
/// per-trait attributes, and a report promise exactly when a trait is on
/// offer.
pub open spec fn descriptor_matches(device: Device, node: Node, pd: PayloadDevice) -> bool {
    let has_temperature = spec_find_property(node.properties@, "temperature"@) is Some;
    &&& spec_node_type(node) == Some(pd.device_type)
    &&& pd.id@ == device.id@ + "/"@ + node.id@
    &&& pd.traits@ == spec_node_traits(node)
    &&& pd.name.default_names is None
    &&& pd.name.name@ == spec_device_name(device) + " "@ + spec_node_name(node)
    &&& (pd.name.nicknames matches Some(ns) && ns@.len() == 1 && ns@[0]@ == spec_node_name(node))
    &&& pd.will_report_state == (spec_node_traits(node).len() > 0)
    &&& !pd.notification_supported_by_agent
    &&& pd.room_hint is None
    &&& pd.attributes.color_model == (match spec_node_color_format(node) {
        Some(ColorFormat::Rgb) => Some(ColorModel::Rgb),
        Some(ColorFormat::Hsv) => Some(ColorModel::Hsv),
        None => None,
    })
    &&& (if has_temperature {
        &&& (pd.attributes.available_thermostat_modes matches Some(ms) && ms@.len() == 1
            && ms@[0]@ == "off"@)
        &&& pd.attributes.query_only_temperature_setting == Some(true)
        &&& pd.attributes.thermostat_temperature_unit == Some(ThermostatTemperatureUnit::C)
    } else {
        &&& pd.attributes.available_thermostat_modes is None
        &&& pd.attributes.query_only_temperature_setting is None
        &&& pd.attributes.thermostat_temperature_unit is None
    })
}

/// Synthesizes the cloud descriptor of one node, when any of its
/// properties is a recognized capability.
pub fn homie_node_to_google_home(device: &Device, node: &Node) -> (r: Option<PayloadDevice>)
    ensures
        r is Some <==> spec_node_type(*node) is Some,
        r matches Some(pd) ==> descriptor_matches(*device, *node, pd),
{
    let mut id = device.id.clone();
    id.append("/");
    id.append(node.id.as_str());

    let mut traits: Vec<DeviceTrait> = Vec::new();
    let mut attributes = Attributes::empty();
    let mut device_type: Option<DeviceType> = None;
    let has_on = get_property(node, "on").is_some();
    if has_on {
        device_type = Some(DeviceType::Switch);
        traits.push(DeviceTrait::OnOff);
    }
    if get_property(node, "brightness").is_some() {
        if has_on {
            device_type = Some(DeviceType::Light);
        }
        traits.push(DeviceTrait::Brightness);
    }
    if let Some(color) = get_property(node, "color") {
        if let Some(color_format) = crate::convert::color_format(color) {
            let color_model = match color_format {
                ColorFormat::Rgb => ColorModel::Rgb,
                ColorFormat::Hsv => ColorModel::Hsv,
            };
            device_type = Some(DeviceType::Light);
            traits.push(DeviceTrait::ColorSetting);
            attributes.color_model = Some(color_model);
        }
    }
    if get_property(node, "temperature").is_some() {
        device_type = Some(DeviceType::Thermostat);
        traits.push(DeviceTrait::TemperatureSetting);
        let mut modes: Vec<String> = Vec::new();
        modes.push("off".to_owned());
        attributes.available_thermostat_modes = Some(modes);
        attributes.thermostat_temperature_unit = Some(ThermostatTemperatureUnit::C);
        attributes.query_only_temperature_setting = Some(true);
    }
    proof {
        assert(traits@ =~= spec_node_traits(*node));
    }

    let device_name = match &device.name {
        Some(n) => n.clone(),
        None => device.id.clone(),
    };
    let node_name = match &node.name {
        Some(n) => n.clone(),
        None => node.id.clone(),
    };
    let will_report_state = traits.len() > 0;
    let device_type = match device_type {
        Some(t) => t,
        None => {
            return None;
        },
    };
    let mut display = device_name;
    display.append(" ");
    display.append(node_name.as_str());
    let mut nicknames: Vec<String> = Vec::new();
    nicknames.push(node_name);
    Some(
        PayloadDevice {
            id,
            device_type,
            traits,
            name: PayloadDeviceName {
                default_names: None,
                name: display,
                nicknames: Some(nicknames),
            },
            will_report_state,
            notification_supported_by_agent: false,
            room_hint: None,
            attributes,
        },
    )
}

/// The descriptor-bearing pairs of one device's node list, in order.
pub open spec fn node_pairs(d: Device, nodes: Seq<Node>) -> Seq<(Device, Node)>
    decreases nodes.len(),
{
    if nodes.len() == 0 {
        Seq::empty()
    } else {
        (if spec_node_type(nodes[0]) is Some {
            seq![(d, nodes[0])]
        } else {
            Seq::empty()
        }) + node_pairs(d, nodes.skip(1))
    }
}

/// The descriptor-bearing (device, node) pairs of a tree, in order,
/// drawn from reachable devices only.
pub open spec fn spec_sync_pairs(devices: Seq<Device>) -> Seq<(Device, Node)>
    decreases devices.len(),
{
    if devices.len() == 0 {
        Seq::empty()
    } else {
        (if devices[0].state.spec_reachable() {
            node_pairs(devices[0], devices[0].nodes@)
        } else {
            Seq::empty()
        }) + spec_sync_pairs(devices.skip(1))
    }
}

/// Synthesizes the descriptors of one device's nodes, in order.
fn device_descriptors(device: &Device) -> (r: Vec<PayloadDevice>)
    ensures
        r@.len() == node_pairs(*device, device.nodes@).len(),
        forall|k: int|
            0 <= k < r@.len() ==> descriptor_matches(
                #[trigger] node_pairs(*device, device.nodes@)[k].0,
                node_pairs(*device, device.nodes@)[k].1,
                r@[k],
            ),
{
    let nodes = &device.nodes;
    let m = nodes.len();
    let mut out: Vec<PayloadDevice> = Vec::new();
    let mut j: usize = 0;
    proof {
        assert(nodes@.take(0) =~= Seq::<Node>::empty());
    }
    while j < m
        invariant
            j <= m == nodes@.len(),
            out@.len() == node_pairs(*device, nodes@.take(j as int)).len(),
            forall|k: int|
                0 <= k < out@.len() ==> descriptor_matches(
                    #[trigger] node_pairs(*device, nodes@.take(j as int))[k].0,
                    node_pairs(*device, nodes@.take(j as int))[k].1,
                    out@[k],
                ),
        decreases m - j,
    {
        let ghost old_out = out@;
        let ghost old_pairs = node_pairs(*device, nodes@.take(j as int));
        proof {
            lemma_node_pairs_snoc(*device, nodes@, j as int);
        }
        if let Some(pd) = homie_node_to_google_home(device, &nodes[j]) {
            out.push(pd);
        }
        proof {
            let new_pairs = node_pairs(*device, nodes@.take(j as int + 1));
            assert forall|k: int| 0 <= k < out@.len() implies descriptor_matches(
                #[trigger] new_pairs[k].0,
                new_pairs[k].1,
                out@[k],
            ) by {
                if k < old_pairs.len() {
                    assert(descriptor_matches(old_pairs[k].0, old_pairs[k].1, old_out[k]));
                    assert(new_pairs[k] == old_pairs[k]);
                } else {
                    assert(new_pairs[k] == (*device, nodes@[j as int]));
                }
            }
        }
        j = j + 1;
    }
    proof {
        assert(nodes@.take(m as int) =~= nodes@);
    }
    out
}

/// Synthesizes the descriptors of every node of every reachable device.
pub fn homie_devices_to_google_home(devices: &Vec<Device>) -> (r: Vec<PayloadDevice>)
    ensures
        r@.len() == spec_sync_pairs(devices@).len(),
        forall|i: int|
            0 <= i < r@.len() ==> descriptor_matches(
                #[trigger] spec_sync_pairs(devices@)[i].0,
                spec_sync_pairs(devices@)[i].1,
                r@[i],
            ),
{
    let mut out: Vec<PayloadDevice> = Vec::new();
    let n = devices.len();
    let mut i: usize = 0;
    proof {
        assert(devices@.take(0) =~= Seq::<Device>::empty());
    }
    while i < n
        invariant
            i <= n == devices@.len(),
            out@.len() == spec_sync_pairs(devices@.take(i as int)).len(),
            forall|k: int|
                0 <= k < out@.len() ==> descriptor_matches(
                    #[trigger] spec_sync_pairs(devices@.take(i as int))[k].0,
                    spec_sync_pairs(devices@.take(i as int))[k].1,
                    out@[k],
                ),
        decreases n - i,
    {
        let ghost old_out = out@;
        let ghost old_pairs = spec_sync_pairs(devices@.take(i as int));
        proof {
            lemma_sync_pairs_snoc(devices@, i as int);
        }
        let device = &devices[i];
        if device.state.reachable() {
            let mut part = device_descriptors(device);
            let ghost part_view = part@;
            out.append(&mut part);
            proof {
                let new_pairs = spec_sync_pairs(devices@.take(i as int + 1));
                assert(out@ == old_out + part_view);
                assert forall|k: int| 0 <= k < out@.len() implies descriptor_matches(
                    #[trigger] new_pairs[k].0,
                    new_pairs[k].1,
                    out@[k],
                ) by {
                    if k < old_pairs.len() {
                        assert(descriptor_matches(old_pairs[k].0, old_pairs[k].1, old_out[k]));
                        assert(new_pairs[k] == old_pairs[k]);
                    } else {
                        let dp = node_pairs(devices@[i as int], devices@[i as int].nodes@);
                        assert(descriptor_matches(
                            dp[k - old_pairs.len()].0,
                            dp[k - old_pairs.len()].1,
                            part_view[k - old_pairs.len()],
                        ));
                        assert(new_pairs[k] == dp[k - old_pairs.len()]);
                        assert(out@[k] == part_view[k - old_pairs.len()]);
                    }
                }
            }
        } else {
            proof {
                let new_pairs = spec_sync_pairs(devices@.take(i as int + 1));
                assert(new_pairs =~= old_pairs);
            }
        }
        i = i + 1;
    }
    proof {
        assert(devices@.take(n as int) =~= devices@);
        assert forall|k: int| 0 <= k < out@.len() implies descriptor_matches(
            #[trigger] spec_sync_pairs(devices@)[k].0,
            spec_sync_pairs(devices@)[k].1,
            out@[k],
        ) by {
            assert(descriptor_matches(
                spec_sync_pairs(devices@.take(n as int))[k].0,
                spec_sync_pairs(devices@.take(n as int))[k].1,
                out@[k],
            ));
        }
    }
    out
}

/// Taking one more node extends a device's pair list by that node's
/// pairs.
proof fn lemma_node_pairs_snoc(d: Device, nodes: Seq<Node>, j: int)
    requires
        0 <= j < nodes.len(),
    ensures
        node_pairs(d, nodes.take(j + 1)) =~= node_pairs(d, nodes.take(j)) + (
        if spec_node_type(nodes[j]) is Some {
            seq![(d, nodes[j])]
        } else {
            Seq::<(Device, Node)>::empty()
        }),
    decreases j,
{
    let pre = nodes.take(j + 1);
    if j == 0 {
        assert(pre.skip(1) =~= Seq::<Node>::empty());
        assert(nodes.take(0) =~= Seq::<Node>::empty());
        assert(pre[0] == nodes[0]);
    } else {
        assert(pre[0] == nodes[0]);
        assert(pre.skip(1) =~= nodes.skip(1).take(j));
        assert(nodes.take(j)[0] == nodes[0]);
        assert(nodes.take(j).skip(1) =~= nodes.skip(1).take(j - 1));
        assert(nodes.skip(1)[j - 1] == nodes[j]);
        lemma_node_pairs_snoc(d, nodes.skip(1), j - 1);
    }
}

/// Taking one more device extends the tree's pair list by that device's
/// pairs.
proof fn lemma_sync_pairs_snoc(devices: Seq<Device>, i: int)
    requires
        0 <= i < devices.len(),
    ensures
        spec_sync_pairs(devices.take(i + 1)) =~= spec_sync_pairs(devices.take(i)) + (
        if devices[i].state.spec_reachable() {
            node_pairs(devices[i], devices[i].nodes@)
        } else {
            Seq::<(Device, Node)>::empty()
        }),
    decreases i,
{
    let pre = devices.take(i + 1);
    if i == 0 {
        assert(pre.skip(1) =~= Seq::<Device>::empty());
        assert(devices.take(0) =~= Seq::<Device>::empty());
        assert(pre[0] == devices[0]);
    } else {
        assert(pre[0] == devices[0]);
        assert(pre.skip(1) =~= devices.skip(1).take(i));
        assert(devices.take(i)[0] == devices[0]);
        assert(devices.take(i).skip(1) =~= devices.skip(1).take(i - 1));
        assert(devices.skip(1)[i - 1] == devices[i]);
        lemma_sync_pairs_snoc(devices.skip(1), i - 1);
    }
}

/// The pair list distributes over concatenation of device lists.
proof fn lemma_sync_pairs_concat(a: Seq<Device>, b: Seq<Device>)
    ensures
        spec_sync_pairs(a + b) =~= spec_sync_pairs(a) + spec_sync_pairs(b),
    decreases a.len(),
{
    if a.len() == 0 {
        assert(a + b =~= b);
        assert(spec_sync_pairs(a) + spec_sync_pairs(b) =~= spec_sync_pairs(b));
    } else {
        assert((a + b)[0] == a[0]);
        assert((a + b).skip(1) =~= a.skip(1) + b);
        lemma_sync_pairs_concat(a.skip(1), b);
    }
}

/// The exclusion law for unreachable devices. A device that is neither
/// ready nor sleeping contributes nothing to `sync`: the pair list of
/// the tree is exactly the pair list of the tree with that device taken
/// out.
pub proof fn lemma_sync_excludes_unreachable(devices: Seq<Device>, i: int)
    requires
        0 <= i < devices.len(),
        !devices[i].state.spec_reachable(),
    ensures
        spec_sync_pairs(devices) =~= spec_sync_pairs(devices.take(i) + devices.skip(i + 1)),
{
    let mid = seq![devices[i]];
    assert(devices =~= devices.take(i) + mid + devices.skip(i + 1));
    lemma_sync_pairs_concat(devices.take(i) + mid, devices.skip(i + 1));
    lemma_sync_pairs_concat(devices.take(i), mid);
    lemma_sync_pairs_concat(devices.take(i), devices.skip(i + 1));
    assert(devices.take(i) + mid + devices.skip(i + 1) =~= (devices.take(i) + mid) + devices.skip(
        i + 1,
    ));
    assert(spec_sync_pairs(mid) =~= Seq::<(Device, Node)>::empty()) by {
        assert(mid[0] == devices[i]);
        assert(mid.skip(1) =~= Seq::<Device>::empty());
        assert(spec_sync_pairs(mid.skip(1)) =~= Seq::<(Device, Node)>::empty());
        assert(spec_sync_pairs(mid) =~= Seq::<(Device, Node)>::empty() + spec_sync_pairs(
            mid.skip(1),
        ));
    }
}

/// Every pair that `sync` reports belongs to a reachable device.
pub proof fn lemma_sync_pairs_reachable(devices: Seq<Device>)
    ensures
        forall|k: int|
            0 <= k < spec_sync_pairs(devices).len() ==> (#[trigger] spec_sync_pairs(
                devices,
            )[k]).0.state.spec_reachable(),
    decreases devices.len(),
{
    if devices.len() > 0 {
        lemma_sync_pairs_reachable(devices.skip(1));
        if devices[0].state.spec_reachable() {
            lemma_node_pairs_device(devices[0], devices[0].nodes@);
        }
    }
}

/// Every pair of one device's node list carries that device.
proof fn lemma_node_pairs_device(d: Device, nodes: Seq<Node>)
    ensures
        forall|k: int|
            0 <= k < node_pairs(d, nodes).len() ==> (#[trigger] node_pairs(d, nodes)[k]).0 == d,
    decreases nodes.len(),
{
    if nodes.len() > 0 {
        lemma_node_pairs_device(d, nodes.skip(1));
    }
}

/// Answers a `sync` request: the synthesized descriptors when the user
/// has a device tree, an auth failure otherwise.
pub fn handle(agent_user_id: String, devices: Option<&Vec<Device>>) -> (r: SyncPayload)
    ensures
        r.agent_user_id == agent_user_id,
        match devices {
            Some(tree) => {
                &&& r.error_code is None
                &&& r.debug_string is None
                &&& r.devices@.len() == spec_sync_pairs(tree@).len()
                &&& forall|i: int|
                    0 <= i < r.devices@.len() ==> descriptor_matches(
                        #[trigger] spec_sync_pairs(tree@)[i].0,
                        spec_sync_pairs(tree@)[i].1,
                        r.devices@[i],
                    )
            },
            None => {
                &&& (r.error_code matches Some(e) && e@ == "authFailure"@)
                &&& (r.debug_string matches Some(d) && d@ == "No such user"@)
                &&& r.devices@.len() == 0
            },
        },
{
    match devices {
        Some(tree) => {
            let out = homie_devices_to_google_home(tree);
            SyncPayload {
                agent_user_id,
                error_code: None,
                debug_string: None,
                devices: out,
            }
        },
        None => SyncPayload {
            agent_user_id,
            error_code: Some("authFailure".to_owned()),
            debug_string: Some("No such user".to_owned()),
            devices: Vec::new(),
        },
    }
}

} // verus!
