//! The gateway's error types, and the mapping from command failures to
//! HTTP status codes.

use vstd::prelude::*;

verus! {

/// A token that could not be decoded or verified.
#[derive(Clone, Debug, PartialEq, Eq)]
pub struct TokenError {
    /// What went wrong.
    pub description: String,
}

/// An authentication failure.
#[derive(Clone, Debug, PartialEq, Eq)]
pub enum AuthError {
    /// The authorization header has invalid syntax.
    InvalidAuthorizationHeader(String),
    /// The client sent an invalid token.
    InvalidToken(TokenError),
    /// The login identity token did not verify.
    InvalidGoogleJwt(String),
    /// The cross-site token was missing or did not match.
    InvalidCsrfToken,
}

/// A fault of the gateway itself.
#[derive(Clone, Debug, PartialEq, Eq)]
pub enum InternalError {
    /// A clerk task failed.
    Clerk(String),
    /// Mail could not be sent.
    Mailer(String),
    /// Anything else.
    Other(String),
    /// A page template failed to render.
    Template(String),
}

/// A failure of the authorization flow.
#[derive(Clone, Debug, PartialEq, Eq)]
pub enum OAuthError {
    /// The caller is not a known client.
    InvalidClient(Option<String>),
    /// The request is malformed.
    InvalidRequest(Option<String>),
}

/// Any error a request handler can answer with.
#[derive(Clone, Debug, PartialEq, Eq)]
pub enum ServerError {
    /// A fault of the gateway.
    Internal(InternalError),
    /// The configuration or request did not validate.
    Validation(String),
    /// Authentication failed.
    Auth(AuthError),
    /// The authorization flow failed.
    OAuth(OAuthError),
}

impl ServerError {
    /// The HTTP status code this error answers with: a malformed request
    /// or a failed authorization flow is the caller's fault, a failed
    /// authentication is unauthorized, and anything internal is the
    /// gateway's own.
    pub fn status_code(&self) -> (r: u16)
        ensures
            r == match *self {
                ServerError::Validation(_) => 400int,
                ServerError::Internal(_) => 500int,
                ServerError::Auth(_) => 401int,
                ServerError::OAuth(_) => 400int,
            },
    {
        match self {
            ServerError::Validation(_) => 400,
            ServerError::Internal(_) => 500,
            ServerError::Auth(_) => 401,
            ServerError::OAuth(_) => 400,
        }
    }
}

impl From<TokenError> for AuthError {
    /// A bad token is an authentication failure.
    fn from(e: TokenError) -> (r: AuthError) {
        AuthError::InvalidToken(e)
    }
}

impl vstd::std_specs::convert::FromSpecImpl<TokenError> for AuthError {
    open spec fn obeys_from_spec() -> bool {
        true
    }

    open spec fn from_spec(e: TokenError) -> AuthError {
        AuthError::InvalidToken(e)
    }
}

impl From<AuthError> for ServerError {
    /// An authentication failure is a server error.
    fn from(e: AuthError) -> (r: ServerError) {
        ServerError::Auth(e)
    }
}

impl vstd::std_specs::convert::FromSpecImpl<AuthError> for ServerError {
    open spec fn obeys_from_spec() -> bool {
        true
    }

    open spec fn from_spec(e: AuthError) -> ServerError {
        ServerError::Auth(e)
    }
}

impl From<InternalError> for ServerError {
    /// A gateway fault is a server error.
    fn from(e: InternalError) -> (r: ServerError) {
        ServerError::Internal(e)
    }
}

impl vstd::std_specs::convert::FromSpecImpl<InternalError> for ServerError {
    open spec fn obeys_from_spec() -> bool {
        true
    }

    open spec fn from_spec(e: InternalError) -> ServerError {
        ServerError::Internal(e)
    }
}

impl From<OAuthError> for ServerError {
    /// An authorization-flow failure is a server error.
    fn from(e: OAuthError) -> (r: ServerError) {
        ServerError::OAuth(e)
    }
}

impl vstd::std_specs::convert::FromSpecImpl<OAuthError> for ServerError {
    open spec fn obeys_from_spec() -> bool {
        true
    }

    open spec fn from_spec(e: OAuthError) -> ServerError {
        ServerError::OAuth(e)
    }
}

impl From<TokenError> for ServerError {
    /// A bad token is an authentication failure, so a server error.
    fn from(e: TokenError) -> (r: ServerError) {
        ServerError::Auth(AuthError::InvalidToken(e))
    }
}

impl vstd::std_specs::convert::FromSpecImpl<TokenError> for ServerError {
    open spec fn obeys_from_spec() -> bool {
        true
    }

    open spec fn from_spec(e: TokenError) -> ServerError {
        ServerError::Auth(AuthError::InvalidToken(e))
    }
}

/// A failure of the link to a device.
#[derive(Clone, Copy, Debug, PartialEq, Eq, Structural)]
pub enum DeviceCommunicationError {
    /// The device did not answer in time.
    Timeout,
}

/// Why an execute request against a linked device failed.
#[derive(Clone, Debug, PartialEq, Eq)]
pub enum ExecuteResponseError {
    /// A fault of the gateway.
    InternalError(String),
    /// The token header could not be decoded.
    DecodeTokenHeaderError(String),
    /// The token did not verify.
    TokenVerifyError(String),
    /// The user may not command this device.
    NoDevicePermission,
    /// The device is not connected.
    DeviceNotConnected,
    /// Talking to the device failed.
    DeviceCommunicationError(DeviceCommunicationError),
}

impl ExecuteResponseError {
    /// The HTTP status code this failure answers with.
    pub fn status_code(&self) -> (r: u16)
        ensures
            r == match *self {
                ExecuteResponseError::InternalError(_) => 500int,
                ExecuteResponseError::DecodeTokenHeaderError(_) => 400int,
                ExecuteResponseError::TokenVerifyError(_) => 401int,
                ExecuteResponseError::NoDevicePermission => 403int,
                ExecuteResponseError::DeviceNotConnected => 404int,
                ExecuteResponseError::DeviceCommunicationError(
                    DeviceCommunicationError::Timeout,
                ) => 504int,
            },
    {
        match self {
            ExecuteResponseError::InternalError(_) => 500,
            ExecuteResponseError::DecodeTokenHeaderError(_) => 400,
            ExecuteResponseError::TokenVerifyError(_) => 401,
            ExecuteResponseError::NoDevicePermission => 403,
            ExecuteResponseError::DeviceNotConnected => 404,
            ExecuteResponseError::DeviceCommunicationError(DeviceCommunicationError::Timeout) => {
                504
            },
        }
    }
}

} // verus!
