//! Users and their bus connection settings.

use vstd::prelude::*;

verus! {

/// The connection settings of one user's device bus.
#[derive(Clone, Debug, PartialEq, Eq)]
pub struct Homie {
    /// The hostname of the broker.
    pub host: String,
    /// The port of the broker.
    pub port: u16,
    /// Whether to reach the broker over TLS.
    pub use_tls: bool,
    /// The username to authenticate with, if any.
    pub username: Option<String>,
    /// The password to authenticate with, if any.
    pub password: Option<String>,
    /// The client id of the connection.
    pub client_id: String,
    /// The base topic the devices announce under.
    pub homie_prefix: String,
    /// How many seconds to wait before reconnecting after a connection
    /// fault.
    pub reconnect_interval_seconds: u64,
}

/// One user of the gateway.
#[derive(Clone, Debug, PartialEq, Eq)]
pub struct User {
    /// The unique id of the user.
    pub id: String,
    /// The email of the user.
    pub email: String,
    /// The user's device bus, when one is configured.
    pub homie: Option<Homie>,
}

/// The base topic used when a user names none.
pub fn default_homie_prefix() -> (r: String)
    ensures
        r@ == "homie"@,
{
    "homie".to_owned()
}

} // verus!
