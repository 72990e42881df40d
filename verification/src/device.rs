//! The gateway's own device vocabulary: the capability traits, device
//! types, commands and statuses its internal API speaks.

use vstd::prelude::*;

verus! {

/// A capability category a device supports.
#[derive(Clone, Copy, Debug, Hash, PartialEq, Eq, Structural)]
#[non_exhaustive]
pub enum Trait {
    /// On and off.
    OnOff,
    /// Opening and closing.
    OpenClose,
}

/// The kind of a device.
#[derive(Clone, Copy, Debug, PartialEq, Eq, Structural)]
#[non_exhaustive]
pub enum Type {
    /// A garage door.
    Garage,
    /// A gate.
    Gate,
    /// A light.
    Light,
}

/// An on/off command.
#[derive(Clone, Copy, Debug, PartialEq, Eq, Structural)]
pub struct OnOff {
    /// Whether to switch on.
    pub on: bool,
}

/// An open/close command.
#[derive(Clone, Copy, Debug, PartialEq, Eq, Structural)]
pub struct OpenClose {
    /// How far to open, in percent.
    pub open_percent: u8,
}

/// A command sent to a device.
#[derive(Clone, Copy, Debug, PartialEq, Eq, Structural)]
#[non_exhaustive]
pub enum Command {
    /// Switch on or off.
    OnOff(OnOff),
    /// Open or close.
    OpenClose(OpenClose),
}

/// Why a device refused a command.
#[derive(Clone, Copy, Debug, PartialEq, Eq, Structural)]
#[non_exhaustive]
pub enum Error {
    /// The device does not support that functionality.
    FunctionNotSupported,
    /// The device does not support the sent parameters.
    InvalidParameters,
}

/// What a device answered to a command.
#[derive(Clone, Copy, Debug, PartialEq, Eq, Structural)]
#[non_exhaustive]
pub enum Status {
    /// The command succeeded.
    Success,
    /// The device could not perform the command.
    Error(Error),
}

} // verus!
