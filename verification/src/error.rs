//! The failure taxonomy: every error a caller can be handed, as plain
//! values.

use vstd::prelude::*;
use crate::common::ApiErrorModel;

verus! {

/// Failures shared across the library.  Outside failures (I/O, transport,
/// serialization) are carried as their rendered message.
#[derive(Clone, Debug, PartialEq, Eq)]
pub enum CommonError {
    FileNotFound(String),
    IOError(String),
    EmptyArgument(String),
    EndOfFile,
    ApiError(ApiErrorModel),
    Json(String),
}

/// Failures of the configuration store.
#[derive(Clone, Debug, PartialEq, Eq)]
pub enum ConfigError {
    /// The home directory could not be determined.
    NoHome,
    IOError(String),
    /// The explicitly requested configuration path cannot be used.
    InvalidConfigPath(String),
    FailedRead(String),
    FailedWrite(String),
    FailedSerialize(String),
    /// The configuration file exists but does not parse.
    FailedDeserialize(String),
    NoDefaultConnection,
    NoDefaultSubscription,
}

/// Failures when prompting for or producing a password.
#[derive(Clone, Debug, PartialEq, Eq)]
pub enum BasicAuthError {
    IOError(String),
}

/// Failures of the OAuth device-code protocol.
#[derive(Clone, Debug, PartialEq, Eq)]
pub enum OAuthError {
    /// An endpoint URL did not parse.
    ParseError(String),
    /// The client is not usable as configured, e.g. the server advertises no
    /// OAuth configuration at all.
    ConfigurationError(String),
    /// The device-authorization exchange was rejected.
    DeviceTokenErrorResponse(String),
    /// The token endpoint rejected the grant while polling.
    TokenErrorResponse(String),
    /// A required endpoint is missing or empty.
    MissingEndpoint(String),
    /// The requested grant flow is declared but not implemented.
    UnsupportedFlow,
}

/// Failures of an authentication attempt.
#[derive(Clone, Debug, PartialEq, Eq)]
pub enum AuthError {
    /// The stored credential has timed out and cannot be silently refreshed.
    Expired,
    BasicAuth(BasicAuthError),
    OAuth(OAuthError),
}

/// Failures while connecting or re-authenticating a connection.
#[derive(Clone, Debug, PartialEq, Eq)]
pub enum ConnectError {
    Config(ConfigError),
    /// No connection exists under the given name.
    NoConnection(String),
    /// The transport failed or the server answered with a failure status.
    Network(String),
    Auth(AuthError),
    HttpResponseFailed(u16),
    /// The connection has no credential and none was requested.
    NoAuthentication,
    HttpError(String),
    InvalidConfigError(String),
}

/// Failures surfaced to consumers of the authenticated client.
#[derive(Clone, Debug, PartialEq, Eq)]
pub enum ClientError {
    Common(CommonError),
    Config(ConfigError),
    Reqwest(String),
    ConnectionNotFound(String),
    SubscriptionNotFound(String),
    /// The resolved connection holds no bearer token.
    NoToken,
}

/// Failures while uploading a file.
#[derive(Clone, Debug, PartialEq, Eq)]
pub enum UploadError {
    Common(CommonError),
    Config(ConfigError),
    Client(ClientError),
    UnsupportedFileExtension(String),
    FailedToReadFile(String),
    FailedToReadFileContent(String),
    Reqwest(String),
    UploadFailureStatus(i32, String),
    FileIO(String),
}

} // verus!
