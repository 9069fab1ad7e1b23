//! Driver core for a command/response protocol that controls a consumer
//! electronics device (power, volume, mute) over a point-to-point serial link.
//!
//! The crate holds the verified protocol engine: encoding logical commands
//! into their exact wire byte sequences, computing and validating the 8-bit
//! wrapping checksum that terminates every frame, validating device response
//! frames, decoding query payloads, and parsing command tokens. The serial
//! transport itself (opening the port, blocking reads and writes) is an
//! external collaborator and lives outside this crate.

pub mod checksum;
pub mod command;
pub mod error;
pub mod parse;
pub mod response;
pub mod wire;
