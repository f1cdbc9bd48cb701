//! Errors surfaced by codec construction, submission and draining.  Native
//! failures carry the engine's status code and its decoded human-readable
//! message.

use vstd::prelude::*;

verus! {

/// Everything that can go wrong while constructing a codec or moving data
/// through it.  None of these are retried internally; retry policy belongs to
/// the caller.
#[derive(Debug, PartialEq, Eq, Clone)]
pub enum Error {
    /// No codec of the requested name exists in the engine's registry.
    CodecNotFound(String),
    /// The codec handed to the encoder is not an encoder.
    CodecIsNotEncoder(String),
    /// The codec handed to the decoder is not a decoder.
    CodecIsNotDecoder(String),
    /// The engine could not allocate a codec context.
    CreateContextFailed,
    /// The engine refused to open the codec: native status code and decoded
    /// message.
    CodecOpenError(i32, String),
    /// The engine could not allocate a frame: native status code and decoded
    /// message.
    AllocateFrameFailed(i32, String),
    /// The engine rejected a submitted raw frame: native status code and
    /// decoded message.
    EncodeFrameFailed(i32, String),
    /// The engine rejected a submitted compressed packet: native status code
    /// and decoded message.
    DecodePacketFailed(i32, String),
    /// The engine reported a failure while a packet was being drained: native
    /// status code and decoded message.
    ReceivePacketFailed(i32, String),
    /// The engine reported a failure while a frame was being drained: native
    /// status code and decoded message.
    ReceiveFrameFailed(i32, String),
    /// The engine could not allocate memory; names the allocation that failed.
    AlllocateFailed(String),
}

} // verus!
