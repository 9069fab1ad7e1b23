//! The protocol's wire constants, gathered in one table so that the byte
//! format stays centrally auditable.

use vstd::prelude::*;

verus! {

/// First byte of every outbound control frame: a fire-and-forget command
/// whose response carries no payload.
pub const CONTROL_REQUEST: u8 = 0x8c;

/// First byte of every outbound query frame: a command whose response
/// carries a variable-length payload.
pub const QUERY_REQUEST: u8 = 0x83;

/// Second byte of every outbound frame: the device category.
pub const CATEGORY: u8 = 0x00;

/// Function byte selecting the power circuit.
pub const POWER_FUNCTION: u8 = 0x00;

/// Function byte selecting volume control.
pub const VOLUME_FUNCTION: u8 = 0x05;

/// Function byte selecting muting.
pub const MUTING_FUNCTION: u8 = 0x06;

/// Required first byte of every inbound response frame.
pub const RESPONSE_HEADER: u8 = 0x70;

/// Required second byte of every inbound response frame: the device's
/// "answer ok" marker.
pub const RESPONSE_ANSWER: u8 = 0x00;

} // verus!
