//! The API clients tokens are issued to.

use vstd::prelude::*;

verus! {

/// Who an access token is issued to.
#[derive(Clone, Copy, Debug, PartialEq, Eq, Structural)]
pub enum Client {
    /// The gateway's own tooling.
    Internal,
    /// The cloud fulfillment caller.
    GoogleHome,
}

impl Client {
    /// How long an access token for this client lives, in seconds.
    pub fn access_token_duration(&self) -> (r: u64)
        ensures
            r == 600,
    {
        match *self {
            Client::Internal => 600,
            Client::GoogleHome => 600,
        }
    }
}

} // verus!
