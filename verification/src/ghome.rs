//! The cloud-protocol model: device descriptors for `sync`, state for
//! `query`, and commands for `execute`. Fractional cloud values (a hue,
//! a saturation) are carried as integers: a hue in degrees, parts in
//! percent. The HTTP layer converts between these and the cloud's JSON
//! numbers.

use vstd::prelude::*;

verus! {

/// The hardware type a descriptor announces for a node.
#[derive(Clone, Copy, Debug, PartialEq, Eq, Structural)]
pub enum DeviceType {
    /// A plain switch.
    Switch,
    /// A light.
    Light,
    /// A thermostat.
    Thermostat,
}

/// A capability category a descriptor announces.
#[derive(Clone, Copy, Debug, PartialEq, Eq, Structural)]
pub enum DeviceTrait {
    /// On and off.
    OnOff,
    /// Dimming.
    Brightness,
    /// Colour control.
    ColorSetting,
    /// Temperature reporting and control.
    TemperatureSetting,
}

/// The colour model announced with the ColorSetting trait.
#[derive(Clone, Copy, Debug, PartialEq, Eq, Structural)]
pub enum ColorModel {
    /// Red-green-blue.
    Rgb,
    /// Hue-saturation-value.
    Hsv,
}

/// The temperature unit announced with the TemperatureSetting trait.
#[derive(Clone, Copy, Debug, PartialEq, Eq, Structural)]
pub enum ThermostatTemperatureUnit {
    /// Degrees Celsius.
    C,
    /// Degrees Fahrenheit.
    F,
}

/// Per-trait attributes of a descriptor.
#[derive(Clone, Debug, PartialEq, Eq)]
pub struct Attributes {
    /// The colour model, when the node has a colour property.
    pub color_model: Option<ColorModel>,
    /// The thermostat modes on offer.
    pub available_thermostat_modes: Option<Vec<String>>,
    /// Whether temperature may only be read, never set.
    pub query_only_temperature_setting: Option<bool>,
    /// The unit temperatures are reported in.
    pub thermostat_temperature_unit: Option<ThermostatTemperatureUnit>,
}

impl Attributes {
    /// Attributes with nothing announced.
    pub fn empty() -> (r: Attributes)
        ensures
            r == (Attributes {
                color_model: None,
                available_thermostat_modes: None,
                query_only_temperature_setting: None,
                thermostat_temperature_unit: None,
            }),
    {
        Attributes {
            color_model: None,
            available_thermostat_modes: None,
            query_only_temperature_setting: None,
            thermostat_temperature_unit: None,
        }
    }
}

/// The names of a descriptor.
#[derive(Clone, Debug, PartialEq, Eq)]
pub struct PayloadDeviceName {
    /// Manufacturer-provided default names.
    pub default_names: Option<Vec<String>>,
    /// The primary name.
    pub name: String,
    /// Additional names the user may use.
    pub nicknames: Option<Vec<String>>,
}

/// One device descriptor of a `sync` response.
#[derive(Clone, Debug, PartialEq, Eq)]
pub struct PayloadDevice {
    /// The composite `"device_id/node_id"` address.
    pub id: String,
    /// The hardware type.
    pub device_type: DeviceType,
    /// The capability categories on offer.
    pub traits: Vec<DeviceTrait>,
    /// The names.
    pub name: PayloadDeviceName,
    /// Whether state reports flow through the live feed.
    pub will_report_state: bool,
    /// Whether the agent sends notifications for the device.
    pub notification_supported_by_agent: bool,
    /// The room the device sits in, when known.
    pub room_hint: Option<String>,
    /// Per-trait attributes.
    pub attributes: Attributes,
}

/// A `sync` response payload.
#[derive(Clone, Debug, PartialEq, Eq)]
pub struct SyncPayload {
    /// The user the answer is for.
    pub agent_user_id: String,
    /// The whole-request error code, when the request failed.
    pub error_code: Option<String>,
    /// Detail on the error, for logs.
    pub debug_string: Option<String>,
    /// One descriptor per exposed node.
    pub devices: Vec<PayloadDevice>,
}

/// A colour value reported to the cloud.
#[derive(Clone, Copy, Debug, PartialEq, Eq, Structural)]
pub enum Color {
    /// A packed 24-bit red-green-blue value.
    SpectrumRgb(u32),
    /// Hue in degrees, saturation and value in percent.
    SpectrumHsv {
        /// Hue, 0 to 360 degrees.
        hue: u16,
        /// Saturation, in percent.
        saturation_pct: u8,
        /// Value, in percent.
        value_pct: u8,
    },
}

/// The state of one node as reported to the cloud.
#[derive(Clone, Debug, PartialEq, Eq)]
pub struct State {
    /// Whether the owning device is reachable.
    pub online: bool,
    /// The on/off state, when an `on` property reports one.
    pub on: Option<bool>,
    /// The brightness percentage, when a `brightness` property reports
    /// one.
    pub brightness: Option<u8>,
    /// The colour, when a `color` property reports one.
    pub color: Option<Color>,
    /// The ambient temperature, when a `temperature` property reports
    /// one.
    pub thermostat_temperature_ambient: Option<crate::decimal::Decimal>,
    /// The ambient humidity, when a `humidity` property reports one.
    pub thermostat_humidity_ambient: Option<crate::decimal::Decimal>,
}

impl State {
    /// State with nothing known and the device unreachable.
    pub fn empty() -> (r: State)
        ensures
            r == (State {
                online: false,
                on: None,
                brightness: None,
                color: None,
                thermostat_temperature_ambient: None,
                thermostat_humidity_ambient: None,
            }),
    {
        State {
            online: false,
            on: None,
            brightness: None,
            color: None,
            thermostat_temperature_ambient: None,
            thermostat_humidity_ambient: None,
        }
    }
}

/// The outcome reported for one queried address.
#[derive(Clone, Copy, Debug, PartialEq, Eq, Structural)]
pub enum PayloadDeviceStatus {
    /// The query succeeded.
    Success,
    /// The device is unreachable.
    Offline,
    /// The query carries an alert.
    Exceptions,
    /// The device could not be queried.
    Error,
}

/// One entry of a `query` response.
#[derive(Clone, Debug, PartialEq, Eq)]
pub struct QueryPayloadDevice {
    /// The outcome for this address.
    pub status: PayloadDeviceStatus,
    /// The error code, when the outcome is not success.
    pub error_code: Option<String>,
    /// The node's state, when the outcome is success.
    pub state: State,
}

/// A `query` response payload.
#[derive(Clone, Debug, PartialEq, Eq)]
pub struct QueryPayload {
    /// The whole-request error code, when the request failed.
    pub error_code: Option<String>,
    /// Detail on the error, for logs.
    pub debug_string: Option<String>,
    /// One answer per requested address, keyed by the address.
    pub devices: Vec<(String, QueryPayloadDevice)>,
}

/// A brightness command.
#[derive(Clone, Copy, Debug, PartialEq, Eq, Structural)]
pub struct BrightnessAbsolute {
    /// The brightness percentage asked for.
    pub brightness: u8,
}

/// A relative brightness command.
#[derive(Clone, Copy, Debug, PartialEq, Eq, Structural)]
pub enum BrightnessRelative {
    /// A percentage change.
    Percent {
        /// The percentage points to move by.
        brightness_relative_percent: i8,
    },
    /// An unscaled change between -5 and 5.
    Weight {
        /// The weight to move by.
        brightness_relative_weight: i8,
    },
}

/// A hue-saturation-value colour in a command, parts in percent.
#[derive(Clone, Copy, Debug, PartialEq, Eq, Structural)]
pub struct Hsv {
    /// Hue, in degrees.
    pub hue: u16,
    /// Saturation, in percent.
    pub saturation_pct: u8,
    /// Value, in percent.
    pub value_pct: u8,
}

/// The colour a command asks for.
#[derive(Clone, Copy, Debug, PartialEq, Eq, Structural)]
pub enum ColorValue {
    /// A white-light colour temperature in Kelvin.
    Temperature {
        /// The temperature in Kelvin.
        temperature: u16,
    },
    /// A packed 24-bit red-green-blue value.
    Rgb {
        /// The packed value.
        spectrum_rgb: u32,
    },
    /// A hue-saturation-value colour.
    Hsv {
        /// The colour.
        spectrum_hsv: Hsv,
    },
}

/// The colour of a colour command, optionally named.
#[derive(Clone, Debug, PartialEq, Eq)]
pub struct CommandColor {
    /// A display name for the colour.
    pub name: Option<String>,
    /// The colour value.
    pub value: ColorValue,
}

/// A colour command.
#[derive(Clone, Debug, PartialEq, Eq)]
pub struct ColorAbsolute {
    /// The colour asked for.
    pub color: CommandColor,
}

/// An on/off command.
#[derive(Clone, Copy, Debug, PartialEq, Eq, Structural)]
pub struct OnOff {
    /// Whether to switch on.
    pub on: bool,
}

/// An open/close command.
#[derive(Clone, Copy, Debug, PartialEq, Eq, Structural)]
pub struct OpenClose {
    /// How far to open, in percent.
    pub open_percent: u8,
}

/// A device command of an `execute` request.
#[derive(Clone, Debug, PartialEq, Eq)]
pub enum Command {
    /// Set an absolute brightness.
    BrightnessAbsolute(BrightnessAbsolute),
    /// Move the brightness.
    BrightnessRelative(BrightnessRelative),
    /// Set a colour.
    ColorAbsolute(ColorAbsolute),
    /// Switch on or off.
    OnOff(OnOff),
    /// Open or close.
    OpenClose(OpenClose),
}

/// The outcome reported for one executed command.
#[derive(Clone, Copy, Debug, PartialEq, Eq, Structural)]
pub enum PayloadCommandStatus {
    /// The command succeeded.
    Success,
    /// The command is underway and expected to succeed.
    Pending,
    /// The device is unreachable.
    Offline,
    /// The command carries an alert.
    Exceptions,
    /// The command failed.
    Error,
}

/// One entry of an `execute` response.
#[derive(Clone, Debug, PartialEq, Eq)]
pub struct PayloadCommand {
    /// The addresses this entry answers for.
    pub ids: Vec<String>,
    /// The outcome.
    pub status: PayloadCommandStatus,
    /// The error code, when the outcome is an error.
    pub error_code: Option<String>,
}

/// An `execute` response payload.
#[derive(Clone, Debug, PartialEq, Eq)]
pub struct ExecutePayload {
    /// The whole-request error code, when the request failed.
    pub error_code: Option<String>,
    /// Detail on the error, for logs.
    pub debug_string: Option<String>,
    /// One entry per command of the request.
    pub commands: Vec<PayloadCommand>,
}

} // verus!
