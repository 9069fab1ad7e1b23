//! Error taxonomies: input errors raised before any I/O, and protocol errors
//! raised during a transaction. Every protocol error is fatal to its
//! transaction; nothing is retried.

use vstd::prelude::*;

verus! {

/// Declares `std::io::Error` so that protocol errors can carry the
/// underlying I/O failure. The value is opaque to this crate; it is only
/// stored and handed back to the caller.
#[verifier::external_type_specification]
#[verifier::external_body]
pub struct ExIoError(std::io::Error);

/// A command token rejected before any I/O takes place. These errors never
/// reach the transaction executor.
#[derive(Debug)]
pub enum InvalidCommand {
    /// The token names no known command; carries the token.
    UnknownCommand(String),
    /// The token asked for a specific volume, but its level is not an
    /// integer in 0–255; carries the token.
    InvalidSpecificVolume(String),
}

/// A failure during the single request/response exchange of a transaction.
/// All variants are fatal: the executor returns on the first failure.
#[derive(Debug)]
pub enum CommandFailure {
    /// The encoded command could not be written to the channel.
    WriteCommand(std::io::Error),
    /// The trailing checksum byte could not be written to the channel.
    WriteChecksum(std::io::Error),
    /// The response began with a byte other than the response-header marker;
    /// carries the offending byte.
    UnexpectedResponseHeader(u8),
    /// The response's answer byte was not the "answer ok" marker; carries
    /// the offending byte.
    UnexpectedResponseAnswer(u8),
    /// The 3-byte response header could not be read from the channel.
    ReadResponse(std::io::Error),
    /// The response payload could not be read from the channel.
    ReadResponseData(std::io::Error),
    /// The response carried no byte where at least a checksum was owed.
    EmptyResponse,
    /// The response's trailing checksum did not match the checksum of the
    /// bytes preceding it.
    InvalidResponseChecksum,
}

} // verus!
