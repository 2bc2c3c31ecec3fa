//! Connection status and connection errors.
use vstd::prelude::*;
use vstd::std_specs::convert::FromSpecImpl;

verus! {

/// How long to wait before the first attempt to reconnect, in milliseconds.
pub const INITIAL_RECONNECTION_DELAY: u64 = 100;

/// How long an attempt to connect may take, in milliseconds.
pub const CONNECTION_TIMEOUT: u64 = 5000;

/// HTTP status of a handshake that lacks valid credentials.
pub const HTTP_UNAUTHORIZED: u16 = 401;

/// HTTP status of a handshake by a client that is too old.
pub const HTTP_UPGRADE_REQUIRED: u16 = 426;

/// A peer of the collaboration server.
#[derive(Clone, Copy, Debug, PartialEq, Eq, Structural)]
pub struct PeerId {
    pub owner_id: u32,
    pub id: u32,
}

/// A connection to a peer.
#[derive(Clone, Copy, Debug, PartialEq, Eq, Structural)]
pub struct ConnectionId {
    pub owner_id: u32,
    pub id: u32,
}

/// Where the client stands with the server.
#[derive(Clone, Copy, Debug, PartialEq, Eq, Structural)]
pub enum Status {
    SignedOut,
    UpgradeRequired,
    Authenticating,
    Connecting,
    ConnectionError,
    Connected { peer_id: PeerId, connection_id: ConnectionId },
    ConnectionLost,
    Reauthenticating,
    Reconnecting,
    /// The next attempt comes at this time, in milliseconds of the application's clock.
    ReconnectionError { next_reconnection: u64 },
}

impl Status {
    /// Whether there is a connection.
    pub fn is_connected(&self) -> (r: bool)
        ensures
            r == (self is Connected),
    {
        matches!(self, Status::Connected { .. })
    }

    /// Whether the user has to act before a connection can be made.
    pub fn is_signed_out(&self) -> (r: bool)
        ensures
            r == (self is SignedOut || self is UpgradeRequired),
    {
        matches!(self, Status::SignedOut | Status::UpgradeRequired)
    }
}

/// Why the websocket handshake failed.
#[derive(Debug)]
pub struct WebsocketError {
    /// The HTTP status that the server answered with, if it answered.
    pub http_status: Option<u16>,
    /// The failure in words.
    pub message: String,
}

/// Why no connection was established.
#[derive(Debug)]
pub enum EstablishConnectionError {
    UpgradeRequired,
    Unauthorized,
    Other(String),
    Http(String),
    Io(String),
    Websocket(String),
}

impl EstablishConnectionError {
    /// An error of no particular kind.
    pub fn other(error: String) -> (r: Self)
        ensures
            r == EstablishConnectionError::Other(error),
    {
        EstablishConnectionError::Other(error)
    }

    /// The error in words.
    pub open spec fn words(self) -> Seq<char> {
        match self {
            EstablishConnectionError::UpgradeRequired => "upgrade required"@,
            EstablishConnectionError::Unauthorized => "unauthorized"@,
            EstablishConnectionError::Other(error) => error@,
            EstablishConnectionError::Http(error) => error@,
            EstablishConnectionError::Io(error) => error@,
            EstablishConnectionError::Websocket(error) => error@,
        }
    }

    /// The error in words.
    pub fn message(&self) -> (r: String)
        ensures
            r@ == self.words(),
    {
        match self {
            EstablishConnectionError::UpgradeRequired => "upgrade required".to_string(),
            EstablishConnectionError::Unauthorized => "unauthorized".to_string(),
            EstablishConnectionError::Other(error) => error.clone(),
            EstablishConnectionError::Http(error) => error.clone(),
            EstablishConnectionError::Io(error) => error.clone(),
            EstablishConnectionError::Websocket(error) => error.clone(),
        }
    }
}

/// What a failed handshake means for the connection.
pub open spec fn connection_error(error: WebsocketError) -> EstablishConnectionError {
    if error.http_status == Some(HTTP_UNAUTHORIZED) {
        EstablishConnectionError::Unauthorized
    } else if error.http_status == Some(HTTP_UPGRADE_REQUIRED) {
        EstablishConnectionError::UpgradeRequired
    } else {
        EstablishConnectionError::Other(error.message)
    }
}

impl From<WebsocketError> for EstablishConnectionError {
    fn from(error: WebsocketError) -> (r: Self) {
        if let Some(status) = error.http_status {
            if status == HTTP_UNAUTHORIZED {
                return EstablishConnectionError::Unauthorized;
            }
            if status == HTTP_UPGRADE_REQUIRED {
                return EstablishConnectionError::UpgradeRequired;
            }
        }
        EstablishConnectionError::Other(error.message)
    }
}

impl FromSpecImpl<WebsocketError> for EstablishConnectionError {
    open spec fn obeys_from_spec() -> bool {
        true
    }

    open spec fn from_spec(error: WebsocketError) -> Self {
        connection_error(error)
    }
}

}
