//! The state reporter: turns a node's current property values into the
//! flat cloud state payload, stamping availability from the owning
//! device's reachability.

use vstd::prelude::*;
use crate::convert::{
    bool_value, property_value_to_color, property_value_to_number, property_value_to_percentage,
    spec_bool_value, spec_property_color, spec_property_number, spec_property_percentage,
};
use crate::decimal::Decimal;
use crate::ghome::{Color, State};
use crate::homie::{get_property, spec_find_property, Node};

verus! {

/// The cloud state of a node: each recognized property that converts
/// successfully contributes its entry; the rest stay absent.
pub open spec fn spec_node_state(node: Node, online: bool) -> State {
    State {
        online,
        on: match spec_find_property(node.properties@, "on"@) {
            Some(p) => spec_bool_value(p),
            None => None,
        },
        brightness: match spec_find_property(node.properties@, "brightness"@) {
            Some(p) => match spec_property_percentage(p) {
                Some(n) => Some(n as u8),
                None => None,
            },
            None => None,
        },
        color: match spec_find_property(node.properties@, "color"@) {
            Some(p) => spec_property_color(p),
            None => None,
        },
        thermostat_temperature_ambient: match spec_find_property(
            node.properties@,
            "temperature"@,
        ) {
            Some(p) => match spec_property_number(p) {
                Some((n, sc)) => Some(Decimal { mantissa: n as i128, scale: sc as u32 }),
                None => None,
            },
            None => None,
        },
        thermostat_humidity_ambient: match spec_find_property(node.properties@, "humidity"@) {
            Some(p) => match spec_property_number(p) {
                Some((n, sc)) => Some(Decimal { mantissa: n as i128, scale: sc as u32 }),
                None => None,
            },
            None => None,
        },
    }
}

/// Builds the cloud state of a node, with availability as given.
pub fn homie_node_to_state(node: &Node, online: bool) -> (s: State)
    ensures
        s == spec_node_state(*node, online),
{
    let mut state = State::empty();
    state.online = online;
    if let Some(on) = get_property(node, "on") {
        state.on = bool_value(on);
    }
    if let Some(brightness) = get_property(node, "brightness") {
        state.brightness = property_value_to_percentage(brightness);
    }
    if let Some(color) = get_property(node, "color") {
        state.color = property_value_to_color(color);
    }
    if let Some(temperature) = get_property(node, "temperature") {
        state.thermostat_temperature_ambient = property_value_to_number(temperature);
    }
    if let Some(humidity) = get_property(node, "humidity") {
        state.thermostat_humidity_ambient = property_value_to_number(humidity);
    }
    state
}

/// One key of the flat report payload.
#[derive(Clone, Copy, Debug, PartialEq, Eq, Structural)]
pub enum StateKey {
    /// Whether the device is reachable.
    Online,
    /// The on/off state.
    On,
    /// The brightness percentage.
    Brightness,
    /// The colour.
    ColorKey,
    /// The ambient temperature.
    ThermostatTemperatureAmbient,
    /// The ambient humidity.
    ThermostatHumidityAmbient,
}

impl StateKey {
    /// The cloud JSON key for this entry.
    pub fn key_string(&self) -> (r: String)
        ensures
            r@ == match *self {
                StateKey::Online => "online"@,
                StateKey::On => "on"@,
                StateKey::Brightness => "brightness"@,
                StateKey::ColorKey => "color"@,
                StateKey::ThermostatTemperatureAmbient => "thermostatTemperatureAmbient"@,
                StateKey::ThermostatHumidityAmbient => "thermostatHumidityAmbient"@,
            },
    {
        match self {
            StateKey::Online => "online".to_owned(),
            StateKey::On => "on".to_owned(),
            StateKey::Brightness => "brightness".to_owned(),
            StateKey::ColorKey => "color".to_owned(),
            StateKey::ThermostatTemperatureAmbient => "thermostatTemperatureAmbient".to_owned(),
            StateKey::ThermostatHumidityAmbient => "thermostatHumidityAmbient".to_owned(),
        }
    }
}

/// One value of the flat report payload.
#[derive(Clone, Copy, Debug, PartialEq, Eq, Structural)]
pub enum StateValue {
    /// A truth value.
    Bool(bool),
    /// A number.
    Number(Decimal),
    /// A colour.
    ColorValue(Color),
}

/// The flat entries of the report payload for a state: the availability
/// stamp first, then one entry per present capability value.
pub open spec fn spec_state_entries(s: State) -> Seq<(StateKey, StateValue)> {
    seq![(StateKey::Online, StateValue::Bool(s.online))] + (match s.on {
        Some(b) => seq![(StateKey::On, StateValue::Bool(b))],
        None => Seq::empty(),
    }) + (match s.brightness {
        Some(b) => seq![
            (StateKey::Brightness, StateValue::Number(Decimal { mantissa: b as i128, scale: 0 })),
        ],
        None => Seq::empty(),
    }) + (match s.color {
        Some(c) => seq![(StateKey::ColorKey, StateValue::ColorValue(c))],
        None => Seq::empty(),
    }) + (match s.thermostat_temperature_ambient {
        Some(d) => seq![(StateKey::ThermostatTemperatureAmbient, StateValue::Number(d))],
        None => Seq::empty(),
    }) + (match s.thermostat_humidity_ambient {
        Some(d) => seq![(StateKey::ThermostatHumidityAmbient, StateValue::Number(d))],
        None => Seq::empty(),
    })
}

/// Flattens a cloud state into the report payload entries.
pub fn query_state_to_report_state(state: &State) -> (r: Vec<(StateKey, StateValue)>)
    ensures
        r@ == spec_state_entries(*state),
{
    let mut entries: Vec<(StateKey, StateValue)> = Vec::new();
    entries.push((StateKey::Online, StateValue::Bool(state.online)));
    if let Some(b) = state.on {
        entries.push((StateKey::On, StateValue::Bool(b)));
    }
    if let Some(b) = state.brightness {
        entries.push((StateKey::Brightness, StateValue::Number(
            Decimal { mantissa: b as i128, scale: 0 },
        )));
    }
    if let Some(c) = state.color {
        entries.push((StateKey::ColorKey, StateValue::ColorValue(c)));
    }
    if let Some(d) = state.thermostat_temperature_ambient {
        entries.push((StateKey::ThermostatTemperatureAmbient, StateValue::Number(d)));
    }
    if let Some(d) = state.thermostat_humidity_ambient {
        entries.push((StateKey::ThermostatHumidityAmbient, StateValue::Number(d)));
    }
    proof {
        assert(entries@ =~= spec_state_entries(*state));
    }
    entries
}

/// Whether a state carries any capability entry beyond the availability
/// stamp. A report is sent only for states that do.
pub open spec fn spec_state_has_capability(s: State) -> bool {
    ||| s.on is Some
    ||| s.brightness is Some
    ||| s.color is Some
    ||| s.thermostat_temperature_ambient is Some
    ||| s.thermostat_humidity_ambient is Some
}

/// Whether the state carries any capability entry.
pub fn state_has_capability(state: &State) -> (r: bool)
    ensures
        r == spec_state_has_capability(*state),
{
    state.on.is_some() || state.brightness.is_some() || state.color.is_some()
        || state.thermostat_temperature_ambient.is_some()
        || state.thermostat_humidity_ambient.is_some()
}

} // verus!
