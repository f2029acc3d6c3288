//! Protocol engine for arcade slider controllers: per-vendor report decoding,
//! LED frame encoding, the decisions of the USB polling job, and the settings
//! that select a controller.
pub mod buffer;
pub mod config;
pub mod controller_state;
pub mod device;
pub mod pairing;
pub mod protocol;
