//! Verified core of the runner tunnel: the frames exchanged between
//! gateways, runner connectors and runners; the gateway's tables of
//! in-flight requests and unacknowledged frames; the connector's decisions on
//! each frame and on its own setup; authentication and routing; and the
//! helpers that merge what several datacenters return.

pub mod protocol;
pub mod codec;
pub mod errors;
pub mod text;
pub mod gateway;
pub mod connector;
pub mod url_data;
pub mod setup;
pub mod websocket_handle;
pub mod auth;
pub mod ctx;
pub mod fanout;
pub mod api;
