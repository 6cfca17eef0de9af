//! The FF-A side of a service: the direct-request register payload, what a
//! service does with it, and the raw-value response payloads.

use vstd::prelude::*;
use vstd::slice::slice_subrange;
use crate::relay::{RelayRequest, RelayRequestModel};
use crate::wire::{le_u32, push_u32_le};

verus! {

/// Bytes in an FF-A direct request/response (version 2) register payload.
pub const FFA_PAYLOAD_LEN: usize = 112;

/// Value that a getter answers with when the relay fails locally or the EC
/// reports an error; AML reads it as an error.
pub const LOCAL_ERROR_SENTINEL: u32 = 0xFFFF_FFFF;

/// An FF-A error that a service hands back instead of a response.
#[derive(Debug, Clone, Copy, PartialEq, Eq)]
pub enum FfaError {
    Other(&'static str),
}

/// What a service does with an FF-A request: answer at once with this
/// payload prefix, or relay this request to the EC first.
pub enum FfaStep {
    Respond(Vec<u8>),
    Relay(RelayRequest),
}

/// The mathematical model of an [`FfaStep`].
pub enum FfaStepModel {
    Respond(Seq<u8>),
    Relay(RelayRequestModel),
}

impl View for FfaStep {
    type V = FfaStepModel;

    open spec fn view(&self) -> FfaStepModel {
        match self {
            FfaStep::Respond(p) => FfaStepModel::Respond(p@),
            FfaStep::Relay(r) => FfaStepModel::Relay(r@),
        }
    }
}

/// The model of a service's first reaction to an FF-A request.
pub open spec fn step_result(r: Result<FfaStep, FfaError>) -> Result<FfaStepModel, FfaError> {
    match r {
        Ok(step) => Ok(step@),
        Err(e) => Err(e),
    }
}

/// The model of an FF-A response payload prefix, or the error.
pub open spec fn payload_result(r: Result<Vec<u8>, FfaError>) -> Result<Seq<u8>, FfaError> {
    match r {
        Ok(p) => Ok(p@),
        Err(e) => Err(e),
    }
}

/// The request body that follows the command byte, when a body of `size`
/// bytes fits in the payload.
pub open spec fn spec_parse_ffa_request(payload: Seq<u8>, size: nat) -> Option<Seq<u8>> {
    if 1 + size <= payload.len() {
        Some(payload.subrange(1, 1 + size as int))
    } else {
        None
    }
}

/// Takes the `size`-byte request body that follows the command byte of an
/// FF-A payload; `None` when it would run past the payload.
pub fn parse_ffa_request(payload: &[u8; FFA_PAYLOAD_LEN], size: usize) -> (r: Option<&[u8]>)
    ensures
        match r {
            Some(b) => spec_parse_ffa_request(payload@, size as nat) == Some(b@),
            None => spec_parse_ffa_request(payload@, size as nat) is None,
        },
{
    let bytes = payload.as_slice();
    if size < FFA_PAYLOAD_LEN {
        Some(slice_subrange(bytes, 1, 1 + size))
    } else {
        None
    }
}

/// A payload holding one little-endian `u32` at offset zero.
pub fn scalar_payload(value: u32) -> (p: Vec<u8>)
    ensures
        p@ == le_u32(value),
{
    let mut p = Vec::new();
    push_u32_le(&mut p, value);
    p
}

} // verus!
