//! The control-plane bridge of a telemetry log viewer: the wire protocol
//! between an automation gateway and the viewer, the decisions taken by the
//! command server's connection handler and by the gateway's reconnecting
//! client, the gateway's tool catalog, and channel-name normalization.
pub mod json;
pub mod command;
pub mod response;
pub mod server;
pub mod client;
pub mod normalize;
pub mod tools;
