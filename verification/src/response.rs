//! Response-frame validation and payload decoding. A response is a 3-byte
//! header `[response_header, response_answer, data_length]`, followed for
//! query commands by `data_length` further bytes (payload plus trailing
//! checksum). Control and query responses share one checksum-validation
//! routine, parameterized by the bytes that precede the checked tail.

use vstd::prelude::*;

use crate::checksum::checksum;
use crate::checksum::checksum_spec;
use crate::command::LogicalCommand;
use crate::command::is_query_spec;
use crate::error::CommandFailure;
use crate::wire::RESPONSE_ANSWER;
use crate::wire::RESPONSE_HEADER;

verus! {

/// Whether a 3-byte response header is acceptable: it begins with the
/// response-header marker and carries the "answer ok" marker.
pub open spec fn header_ok(header: Seq<u8>) -> bool {
    header[0] == RESPONSE_HEADER && header[1] == RESPONSE_ANSWER
}

/// Whether a checked sequence and the checksum received after it agree.
pub open spec fn tail_checksum_ok(prefix: Seq<u8>, tail: Seq<u8>) -> bool {
    tail.len() > 0 && tail.last() == checksum_spec(prefix + tail.drop_last())
}

/// The power-state decoding rule, the single source of truth for
/// interpreting a `QueryPower` payload: the device is on exactly when the
/// payload starts with the byte `1`; an empty payload means off.
pub open spec fn powered_on_spec(payload: Seq<u8>) -> bool {
    payload.len() > 0 && payload[0] == 1
}

/// The command a power toggle resolves to once the current power state is
/// known: off when the device is on, on when it is off.
pub open spec fn resolve_toggle_spec(powered_on: bool) -> LogicalCommand {
    if powered_on {
        LogicalCommand::PowerOff
    } else {
        LogicalCommand::PowerOn
    }
}

/// Validates a response header before any payload byte is read. Exactly the
/// headers accepted by `header_ok` pass; a wrong first byte is reported
/// before the answer byte is looked at.
pub fn check_response_header(header: &Vec<u8>) -> (r: Result<(), CommandFailure>)
    requires
        header@.len() == 3,
    ensures
        r is Ok <==> header_ok(header@),
        header@[0] != RESPONSE_HEADER ==> (r matches Err(
            CommandFailure::UnexpectedResponseHeader(b),
        ) && b == header@[0]),
        header@[0] == RESPONSE_HEADER && header@[1] != RESPONSE_ANSWER ==> (r matches Err(
            CommandFailure::UnexpectedResponseAnswer(b),
        ) && b == header@[1]),
{
    if header[0] != RESPONSE_HEADER {
        Err(CommandFailure::UnexpectedResponseHeader(header[0]))
    } else if header[1] != RESPONSE_ANSWER {
        Err(CommandFailure::UnexpectedResponseAnswer(header[1]))
    } else {
        Ok(())
    }
}

/// The checksum-validation routine shared by control and query responses.
/// `prefix` holds the already-validated bytes that precede `tail` on the
/// wire; `tail` ends in the received checksum. An empty tail is
/// `EmptyResponse`; a checksum mismatch is `InvalidResponseChecksum` and
/// yields no payload; otherwise the payload (the tail without its checksum
/// byte) is returned.
pub fn validate_response_tail(prefix: &Vec<u8>, tail: &Vec<u8>) -> (r: Result<
    Vec<u8>,
    CommandFailure,
>)
    ensures
        tail@.len() == 0 ==> (r matches Err(CommandFailure::EmptyResponse)),
        tail_checksum_ok(prefix@, tail@) ==> (r matches Ok(payload) && payload@
            == tail@.drop_last()),
        tail@.len() > 0 && !tail_checksum_ok(prefix@, tail@) ==> (r matches Err(
            CommandFailure::InvalidResponseChecksum,
        )),
        r is Ok <==> tail_checksum_ok(prefix@, tail@),
{
    let mut payload = tail.clone();
    proof {
        assert(payload@ =~= tail@);
    }
    let received = match payload.pop() {
        Some(b) => b,
        None => {
            return Err(CommandFailure::EmptyResponse);
        },
    };
    let mut checked = prefix.clone();
    proof {
        assert(checked@ =~= prefix@);
    }
    let mut i: usize = 0;
    while i < payload.len()
        invariant
            i <= payload@.len(),
            checked@ == prefix@ + payload@.take(i as int),
        decreases payload@.len() - i,
    {
        checked.push(payload[i]);
        proof {
            assert(prefix@ + payload@.take(i + 1) =~= (prefix@ + payload@.take(i as int)).push(
                payload@[i as int],
            ));
        }
        i = i + 1;
    }
    proof {
        assert(payload@.take(payload@.len() as int) =~= payload@);
        assert(payload@ == tail@.drop_last());
    }
    let c = checksum(&checked);
    if received == c {
        Ok(payload)
    } else {
        Err(CommandFailure::InvalidResponseChecksum)
    }
}

/// Extracts the payload of a query response: `data` is the `data_length`
/// bytes read after a validated header, ending in the received checksum,
/// which must match the checksum of header plus payload.
pub fn extract_query_payload(header: &Vec<u8>, data: &Vec<u8>) -> (r: Result<
    Vec<u8>,
    CommandFailure,
>)
    requires
        header@.len() == 3,
    ensures
        data@.len() == 0 ==> (r matches Err(CommandFailure::EmptyResponse)),
        tail_checksum_ok(header@, data@) ==> (r matches Ok(payload) && payload@
            == data@.drop_last()),
        data@.len() > 0 && !tail_checksum_ok(header@, data@) ==> (r matches Err(
            CommandFailure::InvalidResponseChecksum,
        )),
        r is Ok <==> tail_checksum_ok(header@, data@),
{
    validate_response_tail(header, data)
}

/// Validates a control response, whose 3 header bytes are all the device
/// sends: the third byte is the received checksum of the first two.
pub fn check_control_response(header: &Vec<u8>) -> (r: Result<(), CommandFailure>)
    requires
        header@.len() == 3,
    ensures
        r is Ok <==> header@[2] == checksum_spec(header@.take(2)),
        header@[2] != checksum_spec(header@.take(2)) ==> (r matches Err(
            CommandFailure::InvalidResponseChecksum,
        )),
{
    let prefix: Vec<u8> = vec![header[0], header[1]];
    let tail: Vec<u8> = vec![header[2]];
    proof {
        assert(prefix@ =~= header@.take(2));
        assert(tail@.drop_last() =~= Seq::<u8>::empty());
        assert(prefix@ + tail@.drop_last() =~= header@.take(2));
        assert(tail@.last() == header@[2]);
    }
    match validate_response_tail(&prefix, &tail) {
        Ok(_) => Ok(()),
        Err(e) => Err(e),
    }
}

/// Applies the power-state decoding rule to a query payload.
pub fn is_powered_on(payload: &Vec<u8>) -> (on: bool)
    ensures
        on == powered_on_spec(payload@),
{
    payload.len() > 0 && payload[0] == 1
}

/// Resolves a power toggle to the wire command for the opposite of the
/// current power state.
pub fn resolve_toggle(powered_on: bool) -> (cmd: LogicalCommand)
    ensures
        cmd == resolve_toggle_spec(powered_on),
        !(cmd is PowerToggle),
        !is_query_spec(cmd),
{
    if powered_on {
        LogicalCommand::PowerOff
    } else {
        LogicalCommand::PowerOn
    }
}

/// Law: toggling against a powered-on device issues `PowerOff` next, and
/// against a powered-off device issues `PowerOn`, with the power state read
/// by the same decoding rule that status reporting uses.
pub proof fn lemma_power_toggle_resolution(payload: Seq<u8>)
    ensures
        powered_on_spec(payload) ==> resolve_toggle_spec(powered_on_spec(payload))
            == LogicalCommand::PowerOff,
        !powered_on_spec(payload) ==> resolve_toggle_spec(powered_on_spec(payload))
            == LogicalCommand::PowerOn,
{
}

} // verus!
