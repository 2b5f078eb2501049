//! Presence-driven synchronization for a network-controlled light.
//!
//! The crate holds the verified core of the application: the device
//! protocol layer (unit conversions and the wire encoding of a light
//! state), the presence-probe evaluation, the controller state machine
//! that reconciles the light against camera presence, and the supervisor
//! that owns at most one live controller. All network, registry and
//! display work stays outside, handing this crate plain values.

pub mod controller;
pub mod convert;
pub mod host;
pub mod light;
pub mod probe;
pub mod settings;
pub mod supervisor;
