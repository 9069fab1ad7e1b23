//! Logical commands and the command encoder: the exact mapping from each
//! logical command to its wire byte sequence (checksum not yet appended).

use vstd::prelude::*;

use crate::wire::CATEGORY;
use crate::wire::CONTROL_REQUEST;
use crate::wire::MUTING_FUNCTION;
use crate::wire::POWER_FUNCTION;
use crate::wire::QUERY_REQUEST;
use crate::wire::VOLUME_FUNCTION;

verus! {

/// The closed set of logical commands. A value is built once per invocation
/// from user input and never changes.
#[derive(Clone, Copy, Debug, PartialEq, Eq, Structural)]
pub enum LogicalCommand {
    /// Switch the device on.
    PowerOn,
    /// Switch the device off.
    PowerOff,
    /// Switch the device to the opposite power state. Not a wire command:
    /// the executor resolves it to `PowerOn` or `PowerOff` after a
    /// `QueryPower` exchange.
    PowerToggle,
    /// Raise the volume one step.
    VolumeUp,
    /// Lower the volume one step.
    VolumeDown,
    /// Set the volume to an absolute level.
    VolumeSet(u8),
    /// Switch muting to its opposite state.
    MuteToggle,
    /// Ask the device for its power state.
    QueryPower,
}

/// Whether a command is a query: its response carries a payload after the
/// header. Every other wire command is a control command.
pub open spec fn is_query_spec(cmd: LogicalCommand) -> bool {
    cmd is QueryPower
}

/// The exact wire bytes of each wire command, without the trailing checksum:
/// `[request_type, category, function, ...function_args]`.
///
/// `VolumeSet` sends the argument block `[0x03, 0x01, level]`: the length
/// byte `0x03` (two data bytes plus the checksum, matching the step
/// commands), then `0x01` selecting absolute-level mode as opposed to the
/// step mode `0x00` of `VolumeUp`/`VolumeDown`, then the level itself as one
/// linear byte. The device's absolute-volume argument format is not pinned
/// down by observed behaviour; this linear mapping is a deliberate,
/// documented design decision.
///
/// `PowerToggle` is not a wire command and has no encoding; it is mapped to
/// the empty sequence here and excluded by `encode`'s precondition.
pub open spec fn encode_spec(cmd: LogicalCommand) -> Seq<u8> {
    match cmd {
        LogicalCommand::PowerOn => seq![CONTROL_REQUEST, CATEGORY, POWER_FUNCTION, 0x02, 0x01],
        LogicalCommand::PowerOff => seq![CONTROL_REQUEST, CATEGORY, POWER_FUNCTION, 0x02, 0x00],
        LogicalCommand::PowerToggle => Seq::empty(),
        LogicalCommand::VolumeUp => seq![
            CONTROL_REQUEST,
            CATEGORY,
            VOLUME_FUNCTION,
            0x03,
            0x00,
            0x00,
        ],
        LogicalCommand::VolumeDown => seq![
            CONTROL_REQUEST,
            CATEGORY,
            VOLUME_FUNCTION,
            0x03,
            0x00,
            0x01,
        ],
        LogicalCommand::VolumeSet(level) => seq![
            CONTROL_REQUEST,
            CATEGORY,
            VOLUME_FUNCTION,
            0x03,
            0x01,
            level,
        ],
        LogicalCommand::MuteToggle => seq![CONTROL_REQUEST, CATEGORY, MUTING_FUNCTION, 0x02, 0x00],
        LogicalCommand::QueryPower => seq![QUERY_REQUEST, CATEGORY, POWER_FUNCTION, 0xff, 0xff],
    }
}

/// Whether a command is a query, decided exactly as `is_query_spec` says.
pub fn is_query(cmd: &LogicalCommand) -> (r: bool)
    ensures
        r == is_query_spec(*cmd),
{
    match cmd {
        LogicalCommand::QueryPower => true,
        _ => false,
    }
}

/// Encodes a wire command to its exact byte sequence, checksum not
/// included. `PowerToggle` has no wire encoding and is excluded.
pub fn encode(cmd: &LogicalCommand) -> (frame: Vec<u8>)
    requires
        !(cmd is PowerToggle),
    ensures
        frame@ == encode_spec(*cmd),
        frame@.len() > 0,
        frame@[0] == (if is_query_spec(*cmd) {
            QUERY_REQUEST
        } else {
            CONTROL_REQUEST
        }),
{
    let frame: Vec<u8> = match cmd {
        LogicalCommand::PowerOn => vec![CONTROL_REQUEST, CATEGORY, POWER_FUNCTION, 0x02, 0x01],
        LogicalCommand::PowerOff => vec![CONTROL_REQUEST, CATEGORY, POWER_FUNCTION, 0x02, 0x00],
        LogicalCommand::PowerToggle => vec![],
        LogicalCommand::VolumeUp => vec![
            CONTROL_REQUEST,
            CATEGORY,
            VOLUME_FUNCTION,
            0x03,
            0x00,
            0x00,
        ],
        LogicalCommand::VolumeDown => vec![
            CONTROL_REQUEST,
            CATEGORY,
            VOLUME_FUNCTION,
            0x03,
            0x00,
            0x01,
        ],
        LogicalCommand::VolumeSet(level) => vec![
            CONTROL_REQUEST,
            CATEGORY,
            VOLUME_FUNCTION,
            0x03,
            0x01,
            *level,
        ],
        LogicalCommand::MuteToggle => vec![CONTROL_REQUEST, CATEGORY, MUTING_FUNCTION, 0x02, 0x00],
        LogicalCommand::QueryPower => vec![QUERY_REQUEST, CATEGORY, POWER_FUNCTION, 0xff, 0xff],
    };
    proof {
        assert(frame@ =~= encode_spec(*cmd));
    }
    frame
}

} // verus!
