//! The EC relay boundary: what a service hands to the relay for one
//! round-trip, what comes back, and the body-slicing helpers that every
//! service uses to decode a reply.

use vstd::prelude::*;
use vstd::slice::slice_subrange;

verus! {

/// Why a relay round-trip with the EC produced no usable value.
#[derive(Debug, Clone, Copy, PartialEq, Eq)]
pub enum EcRelayError {
    /// The transport gave up waiting for the EC's reply.
    TransportReadTimeout,
    /// The reply did not answer the request that was sent.
    UnexpectedResponse,
    /// The EC answered with an error envelope carrying this code.
    Remote(u16),
    /// The reply body is shorter than the wire format requires.
    BodyTooShort,
    /// The reply body carries bytes past the end of the wire format.
    BodyTooLong,
}

/// One request for the EC relay: the ODP service and message ids, the
/// message id that the reply must carry, and the request body.
pub struct RelayRequest {
    pub service_id: u8,
    pub message_id: u16,
    pub response_id: u16,
    pub body: Vec<u8>,
}

/// The mathematical model of a [`RelayRequest`].
#[verifier::ext_equal]
pub struct RelayRequestModel {
    pub service_id: u8,
    pub message_id: u16,
    pub response_id: u16,
    pub body: Seq<u8>,
}

impl View for RelayRequest {
    type V = RelayRequestModel;

    open spec fn view(&self) -> RelayRequestModel {
        RelayRequestModel {
            service_id: self.service_id,
            message_id: self.message_id,
            response_id: self.response_id,
            body: self.body@,
        }
    }
}

/// The reply of a relay round-trip, its body taken as a sequence of bytes.
pub open spec fn reply_bytes(reply: Result<Vec<u8>, EcRelayError>) -> Result<Seq<u8>, EcRelayError> {
    match reply {
        Ok(body) => Ok(body@),
        Err(e) => Err(e),
    }
}

/// A body that must hold exactly `n` bytes.
pub open spec fn spec_take_exact(body: Seq<u8>, n: nat) -> Result<Seq<u8>, EcRelayError> {
    if body.len() < n {
        Err(EcRelayError::BodyTooShort)
    } else if body.len() > n {
        Err(EcRelayError::BodyTooLong)
    } else {
        Ok(body)
    }
}

/// The first `n` bytes of a body, and what follows them.
pub open spec fn spec_take(body: Seq<u8>, n: nat) -> Result<(Seq<u8>, Seq<u8>), EcRelayError> {
    if body.len() < n {
        Err(EcRelayError::BodyTooShort)
    } else {
        Ok((body.take(n as int), body.skip(n as int)))
    }
}

/// Splits off the first `n` bytes of `body`.
pub fn take_array(body: &[u8], n: usize) -> (r: Result<(&[u8], &[u8]), EcRelayError>)
    ensures
        match r {
            Ok((head, rest)) => spec_take(body@, n as nat) == Ok::<(Seq<u8>, Seq<u8>), EcRelayError>((head@, rest@)),
            Err(e) => spec_take(body@, n as nat) == Err::<(Seq<u8>, Seq<u8>), EcRelayError>(e),
        },
{
    if body.len() < n {
        Err(EcRelayError::BodyTooShort)
    } else {
        let head = slice_subrange(body, 0, n);
        let rest = slice_subrange(body, n, body.len());
        Ok((head, rest))
    }
}

/// Accepts `body` only when it holds exactly `n` bytes.
pub fn take_exact_array(body: &[u8], n: usize) -> (r: Result<&[u8], EcRelayError>)
    ensures
        match r {
            Ok(b) => spec_take_exact(body@, n as nat) == Ok::<Seq<u8>, EcRelayError>(b@),
            Err(e) => spec_take_exact(body@, n as nat) == Err::<Seq<u8>, EcRelayError>(e),
        },
{
    if body.len() < n {
        Err(EcRelayError::BodyTooShort)
    } else if body.len() > n {
        Err(EcRelayError::BodyTooLong)
    } else {
        Ok(body)
    }
}

/// Accepts only an empty body: the reply of a command whose success
/// carries no payload.
pub fn parse_empty_response(body: &[u8]) -> (r: Result<(), EcRelayError>)
    ensures
        r == (if body@.len() == 0 { Ok::<(), EcRelayError>(()) } else { Err(EcRelayError::BodyTooLong) }),
{
    match take_exact_array(body, 0) {
        Ok(_) => Ok(()),
        Err(e) => Err(e),
    }
}

} // verus!
