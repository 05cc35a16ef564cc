//! A network-controlled actuator bridge for a small vehicle.
//!
//! The crate holds the decision logic of the bridge: the actuator model,
//! the decoder of path parameters, the connection state machine and the
//! request router. Every function carries a contract that Verus proves.

pub mod actuator;
pub mod connection;
pub mod decoder;
pub mod laws;
pub mod page;
pub mod router;
pub mod sink;
pub mod text;
