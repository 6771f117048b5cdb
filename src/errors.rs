//! Structured errors: the close reasons of a runner's WebSocket and the API's
//! error envelope.

use vstd::prelude::*;
use vstd::string::*;

verus! {

/// Why a runner's WebSocket is closed.
pub enum WsError {
    NewRunnerConnected,
    ConnectionClosed,
    Eviction,
    TimedOutWaitingForInit,
    InvalidInitialPacket(String),
    InvalidPacket(String),
    InvalidUrl(String),
}

/// The code of a close reason, without its group.
pub open spec fn ws_error_code(e: WsError) -> Seq<char> {
    match e {
        WsError::NewRunnerConnected => "new_runner_connected"@,
        WsError::ConnectionClosed => "connection_closed"@,
        WsError::Eviction => "eviction"@,
        WsError::TimedOutWaitingForInit => "timed_out_waiting_for_init"@,
        WsError::InvalidInitialPacket(_) => "invalid_initial_packet"@,
        WsError::InvalidPacket(_) => "invalid_packet"@,
        WsError::InvalidUrl(_) => "invalid_url"@,
    }
}

impl WsError {
    /// The error's group.
    pub fn group(&self) -> (r: &'static str)
        ensures
            r@ == "ws"@,
    {
        "ws"
    }

    /// The error's code.
    pub fn code(&self) -> (r: &'static str)
        ensures
            r@ == ws_error_code(*self),
    {
        match self {
            WsError::NewRunnerConnected => "new_runner_connected",
            WsError::ConnectionClosed => "connection_closed",
            WsError::Eviction => "eviction",
            WsError::TimedOutWaitingForInit => "timed_out_waiting_for_init",
            WsError::InvalidInitialPacket(_) => "invalid_initial_packet",
            WsError::InvalidPacket(_) => "invalid_packet",
            WsError::InvalidUrl(_) => "invalid_url",
        }
    }

    /// The close code sent with the error: a normal close for
    /// `connection_closed`, an internal error for every other reason.
    pub fn close_code(&self) -> (r: u16)
        ensures
            *self is ConnectionClosed ==> r == 1000,
            !(*self is ConnectionClosed) ==> r == 1011,
    {
        match self {
            WsError::ConnectionClosed => 1000,
            _ => 1011,
        }
    }

    /// The reason carried by the close frame: `<group>.<code>`.
    pub fn close_reason(&self) -> (r: String)
        ensures
            r@ == "ws."@ + ws_error_code(*self),
    {
        let prefix = "ws.".to_owned();
        prefix.concat(self.code())
    }
}

/// An error of the control-plane API, sent as `{group, code, message}`.
pub enum ApiError {
    NotFound,
    InvalidToken,
    Unauthorized,
    Forbidden,
    InternalError,
    BadRequest { reason: String },
    MissingHeader { header: String },
}

/// The HTTP status of an API error, by its group and code.
pub open spec fn api_status(e: ApiError) -> u16 {
    match e {
        ApiError::NotFound => 404,
        ApiError::Forbidden => 403,
        ApiError::InvalidToken | ApiError::Unauthorized => 401,
        ApiError::BadRequest { .. } | ApiError::MissingHeader { .. } => 400,
        ApiError::InternalError => 500,
    }
}

impl ApiError {
    pub fn status(&self) -> (r: u16)
        ensures
            r == api_status(*self),
    {
        match self {
            ApiError::NotFound => 404,
            ApiError::Forbidden => 403,
            ApiError::InvalidToken | ApiError::Unauthorized => 401,
            ApiError::BadRequest { .. } | ApiError::MissingHeader { .. } => 400,
            ApiError::InternalError => 500,
        }
    }

    pub fn group(&self) -> (r: &'static str)
        ensures
            r@ == (if *self is MissingHeader { "guard"@ } else { "api"@ }),
    {
        match self {
            ApiError::MissingHeader { .. } => "guard",
            _ => "api",
        }
    }

    pub fn code(&self) -> (r: &'static str)
        ensures
            r@ == match *self {
                ApiError::NotFound => "not_found"@,
                ApiError::InvalidToken => "invalid_token"@,
                ApiError::Unauthorized => "unauthorized"@,
                ApiError::Forbidden => "forbidden"@,
                ApiError::InternalError => "internal_error"@,
                ApiError::BadRequest { .. } => "bad_request"@,
                ApiError::MissingHeader { .. } => "missing_header"@,
            },
    {
        match self {
            ApiError::NotFound => "not_found",
            ApiError::InvalidToken => "invalid_token",
            ApiError::Unauthorized => "unauthorized",
            ApiError::Forbidden => "forbidden",
            ApiError::InternalError => "internal_error",
            ApiError::BadRequest { .. } => "bad_request",
            ApiError::MissingHeader { .. } => "missing_header",
        }
    }
}

/// The requested resource was not found.
pub struct ApiNotFound;

/// The provided authentication token is invalid.
pub struct ApiInvalidToken;

/// Authentication required.
pub struct ApiUnauthorized;

/// Access denied.
pub struct ApiForbidden;

/// An internal server error occurred.
pub struct ApiInternalError;

/// Request is invalid.
pub struct ApiBadRequest {
    pub reason: String,
}

impl ApiNotFound {
    pub fn build(&self) -> (r: ApiError)
        ensures
            r is NotFound,
    {
        ApiError::NotFound
    }
}

impl ApiInvalidToken {
    pub fn build(&self) -> (r: ApiError)
        ensures
            r is InvalidToken,
    {
        ApiError::InvalidToken
    }
}

impl ApiUnauthorized {
    pub fn build(&self) -> (r: ApiError)
        ensures
            r is Unauthorized,
    {
        ApiError::Unauthorized
    }
}

impl ApiForbidden {
    pub fn build(&self) -> (r: ApiError)
        ensures
            r is Forbidden,
    {
        ApiError::Forbidden
    }
}

impl ApiInternalError {
    pub fn build(&self) -> (r: ApiError)
        ensures
            r is InternalError,
    {
        ApiError::InternalError
    }
}

impl ApiBadRequest {
    pub fn build(self) -> (r: ApiError)
        ensures
            r == (ApiError::BadRequest { reason: self.reason }),
    {
        ApiError::BadRequest { reason: self.reason }
    }
}

} // verus!
