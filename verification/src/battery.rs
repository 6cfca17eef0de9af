//! `Battery`: relays Normal-World `GetBix`, `GetBst` and `SetBtp` requests
//! to the EC.
//!
//! Battery service id `0x08`. `GetBst` sends the battery id and gets back
//! 16 bytes (four little-endian `u32`: state, present rate, remaining
//! capacity, present voltage); `GetBix` sends the battery id and gets back
//! the canonical 100-byte BIX body; `SetBtp` sends the battery id followed
//! by one little-endian `u32` trip point and gets back an empty body.
//!
//! Each round-trip is split in two: a `*_request` function gives what the
//! relay sends, and the function named after the operation decodes what
//! came back.

use vstd::prelude::*;
use crate::ffa::{payload_result, step_result, FfaError, FfaStep, FfaStepModel, FFA_PAYLOAD_LEN};
use crate::relay::{
    parse_empty_response, reply_bytes, spec_take_exact, take_array, take_exact_array,
    EcRelayError, RelayRequest, RelayRequestModel,
};
use crate::wire::{le_u32, le_u32_at, lemma_le_u32_roundtrip, push_bytes, push_u32_le, read_u32_le};

verus! {

/// Battery service id in the EC's ODP relay.
pub const BATTERY_SERVICE_ID: u8 = 0x08;

/// Bytes in a `GetBix` reply body.
pub const BIX_RESPONSE_LEN: usize = 100;

/// Bytes of the `GetBst` reply that carry the four `BST` dwords.
pub const BST_RESPONSE_LEN: usize = 16;

/// Battery command ids (FF-A request byte 0 / ODP message id).
#[derive(Debug, Clone, Copy, PartialEq, Eq)]
pub enum BatteryCommand {
    GetBix,
    GetBst,
    SetBtp,
}

impl BatteryCommand {
    /// The command's wire id.
    pub open spec fn spec_id(self) -> u16 {
        match self {
            BatteryCommand::GetBix => 1,
            BatteryCommand::GetBst => 2,
            BatteryCommand::SetBtp => 6,
        }
    }

    /// The command that a wire id names, if any.
    pub open spec fn spec_from_id(id: u16) -> Option<BatteryCommand> {
        if id == 1 {
            Some(BatteryCommand::GetBix)
        } else if id == 2 {
            Some(BatteryCommand::GetBst)
        } else if id == 6 {
            Some(BatteryCommand::SetBtp)
        } else {
            None
        }
    }
}

impl From<BatteryCommand> for u16 {
    fn from(command: BatteryCommand) -> (id: u16) {
        match command {
            BatteryCommand::GetBix => 1,
            BatteryCommand::GetBst => 2,
            BatteryCommand::SetBtp => 6,
        }
    }
}

impl vstd::std_specs::convert::FromSpecImpl<BatteryCommand> for u16 {
    open spec fn obeys_from_spec() -> bool {
        true
    }

    open spec fn from_spec(command: BatteryCommand) -> u16 {
        command.spec_id()
    }
}

impl TryFrom<u16> for BatteryCommand {
    /// The id that names no command.
    type Error = u16;

    fn try_from(id: u16) -> (r: Result<BatteryCommand, u16>) {
        if id == 1 {
            Ok(BatteryCommand::GetBix)
        } else if id == 2 {
            Ok(BatteryCommand::GetBst)
        } else if id == 6 {
            Ok(BatteryCommand::SetBtp)
        } else {
            Err(id)
        }
    }
}

impl vstd::std_specs::convert::TryFromSpecImpl<u16> for BatteryCommand {
    open spec fn obeys_try_from_spec() -> bool {
        true
    }

    open spec fn try_from_spec(id: u16) -> Result<BatteryCommand, u16> {
        match BatteryCommand::spec_from_id(id) {
            Some(c) => Ok(c),
            None => Err(id),
        }
    }
}

/// A decoded `GetBst` reply.
#[derive(Debug, Clone, Copy, PartialEq, Eq)]
pub struct BstReturnRaw {
    pub battery_state: u32,
    pub battery_present_rate: u32,
    pub battery_remaining_capacity: u32,
    pub battery_present_voltage: u32,
}

/// Errors of a Battery round-trip.
#[derive(Debug, Clone, Copy, PartialEq, Eq)]
pub enum BatteryError {
    /// The relay failed, or the reply body did not fit the wire format.
    Relay(EcRelayError),
    /// The EC's reply to `GetBst` was not a Battery service reply with the
    /// `GetBst` message id (the relay reports such a reply as
    /// [`EcRelayError::UnexpectedResponse`]).
    UnexpectedResponse,
}

impl From<EcRelayError> for BatteryError {
    fn from(e: EcRelayError) -> (r: BatteryError) {
        BatteryError::Relay(e)
    }
}

impl vstd::std_specs::convert::FromSpecImpl<EcRelayError> for BatteryError {
    open spec fn obeys_from_spec() -> bool {
        true
    }

    open spec fn from_spec(e: EcRelayError) -> BatteryError {
        BatteryError::Relay(e)
    }
}

/// The relay request of a Battery command with this body.
pub open spec fn battery_request(command: BatteryCommand, body: Seq<u8>) -> RelayRequestModel {
    RelayRequestModel {
        service_id: BATTERY_SERVICE_ID,
        message_id: command.spec_id(),
        response_id: command.spec_id(),
        body,
    }
}

/// The decoded `GetBst` reply: four little-endian dwords at the start of
/// the body; bytes past them are not read. A reply that does not answer the
/// `GetBst` request is an unexpected response.
pub open spec fn spec_get_bst(reply: Result<Seq<u8>, EcRelayError>) -> Result<BstReturnRaw, BatteryError> {
    match reply {
        Err(EcRelayError::UnexpectedResponse) => Err(BatteryError::UnexpectedResponse),
        Err(e) => Err(BatteryError::Relay(e)),
        Ok(b) => if b.len() < 16 {
            Err(BatteryError::Relay(EcRelayError::BodyTooShort))
        } else {
            Ok(
                BstReturnRaw {
                    battery_state: le_u32_at(b, 0),
                    battery_present_rate: le_u32_at(b, 4),
                    battery_remaining_capacity: le_u32_at(b, 8),
                    battery_present_voltage: le_u32_at(b, 12),
                },
            )
        },
    }
}

/// The decoded `GetBix` reply: exactly the 100-byte BIX body.
pub open spec fn spec_get_bix(reply: Result<Seq<u8>, EcRelayError>) -> Result<Seq<u8>, BatteryError> {
    match reply {
        Err(e) => Err(BatteryError::Relay(e)),
        Ok(b) => match spec_take_exact(b, BIX_RESPONSE_LEN as nat) {
            Ok(bix) => Ok(bix),
            Err(e) => Err(BatteryError::Relay(e)),
        },
    }
}

/// The decoded `SetBtp` reply: success carries an empty body.
pub open spec fn spec_set_btp(reply: Result<Seq<u8>, EcRelayError>) -> Result<(), BatteryError> {
    match reply {
        Err(e) => Err(BatteryError::Relay(e)),
        Ok(b) => if b.len() == 0 {
            Ok(())
        } else {
            Err(BatteryError::Relay(EcRelayError::BodyTooLong))
        },
    }
}

/// The `GetBix` result, the array taken as a sequence.
pub open spec fn bix_result(r: Result<[u8; BIX_RESPONSE_LEN], BatteryError>) -> Result<Seq<u8>, BatteryError> {
    match r {
        Ok(a) => Ok(a@),
        Err(e) => Err(e),
    }
}

/// The four `BST` dwords, little-endian, in wire order.
pub open spec fn bst_bytes(bst: BstReturnRaw) -> Seq<u8> {
    le_u32(bst.battery_state) + le_u32(bst.battery_present_rate) + le_u32(
        bst.battery_remaining_capacity,
    ) + le_u32(bst.battery_present_voltage)
}

/// What the service does with an FF-A request payload.
pub open spec fn spec_battery_ffa_request(p: Seq<u8>) -> Result<FfaStepModel, FfaError> {
    match BatteryCommand::spec_from_id(p[0] as u16) {
        None => Err(FfaError::Other("Unknown Battery Command")),
        Some(BatteryCommand::GetBst) => Ok(
            FfaStepModel::Relay(battery_request(BatteryCommand::GetBst, seq![p[1]])),
        ),
        Some(BatteryCommand::GetBix) => Ok(
            FfaStepModel::Relay(battery_request(BatteryCommand::GetBix, seq![p[1]])),
        ),
        Some(BatteryCommand::SetBtp) => Ok(
            FfaStepModel::Relay(
                battery_request(BatteryCommand::SetBtp, seq![p[1]] + le_u32(le_u32_at(p, 4))),
            ),
        ),
    }
}

/// The FF-A response payload prefix once the relay gave `reply`.
pub open spec fn spec_battery_ffa_response(
    p: Seq<u8>,
    reply: Result<Seq<u8>, EcRelayError>,
) -> Result<Seq<u8>, FfaError> {
    match BatteryCommand::spec_from_id(p[0] as u16) {
        None => Err(FfaError::Other("Unknown Battery Command")),
        Some(BatteryCommand::GetBst) => match spec_get_bst(reply) {
            Ok(bst) => Ok(bst_bytes(bst)),
            Err(_) => Err(
                FfaError::Other("Battery: GetBst round-trip failed (transport or wire decode)"),
            ),
        },
        Some(BatteryCommand::GetBix) => match spec_get_bix(reply) {
            Ok(bix) => Ok(bix),
            Err(_) => Err(
                FfaError::Other("Battery: GetBix round-trip failed (transport or wire decode)"),
            ),
        },
        Some(BatteryCommand::SetBtp) => match spec_set_btp(reply) {
            Ok(()) => Ok(Seq::empty()),
            Err(_) => Err(
                FfaError::Other("Battery: SetBtp round-trip failed (transport or wire decode)"),
            ),
        },
    }
}

/// The Battery service. It keeps no state: every operation is a relay
/// round-trip.
pub struct Battery;

impl Battery {
    pub fn new() -> (b: Battery) {
        Battery
    }

    /// The relay request of a `GetBst` round-trip.
    pub fn get_bst_request(&self, battery_id: u8) -> (r: RelayRequest)
        ensures
            r@ == battery_request(BatteryCommand::GetBst, seq![battery_id]),
    {
        let mut body = Vec::new();
        body.push(battery_id);
        RelayRequest {
            service_id: BATTERY_SERVICE_ID,
            message_id: u16::from(BatteryCommand::GetBst),
            response_id: u16::from(BatteryCommand::GetBst),
            body,
        }
    }

    /// Decodes the reply of a `GetBst` round-trip.
    pub fn get_bst(&self, reply: Result<Vec<u8>, EcRelayError>) -> (r: Result<BstReturnRaw, BatteryError>)
        ensures
            r == spec_get_bst(reply_bytes(reply)),
    {
        let body = match &reply {
            Ok(b) => b.as_slice(),
            Err(EcRelayError::UnexpectedResponse) => {
                return Err(BatteryError::UnexpectedResponse);
            },
            Err(e) => {
                return Err(BatteryError::Relay(*e));
            },
        };
        let (state, body1) = match take_array(body, 4) {
            Ok(x) => x,
            Err(e) => {
                return Err(BatteryError::Relay(e));
            },
        };
        let (rate, body2) = match take_array(body1, 4) {
            Ok(x) => x,
            Err(e) => {
                return Err(BatteryError::Relay(e));
            },
        };
        let (capacity, body3) = match take_array(body2, 4) {
            Ok(x) => x,
            Err(e) => {
                return Err(BatteryError::Relay(e));
            },
        };
        let (voltage, _) = match take_array(body3, 4) {
            Ok(x) => x,
            Err(e) => {
                return Err(BatteryError::Relay(e));
            },
        };
        assert(state@.subrange(0, 4) == body@.subrange(0, 4));
        assert(rate@.subrange(0, 4) == body@.subrange(4, 8));
        assert(capacity@.subrange(0, 4) == body@.subrange(8, 12));
        assert(voltage@.subrange(0, 4) == body@.subrange(12, 16));
        Ok(
            BstReturnRaw {
                battery_state: read_u32_le(state, 0),
                battery_present_rate: read_u32_le(rate, 0),
                battery_remaining_capacity: read_u32_le(capacity, 0),
                battery_present_voltage: read_u32_le(voltage, 0),
            },
        )
    }

    /// The relay request of a `GetBix` round-trip.
    pub fn get_bix_request(&self, battery_id: u8) -> (r: RelayRequest)
        ensures
            r@ == battery_request(BatteryCommand::GetBix, seq![battery_id]),
    {
        let mut body = Vec::new();
        body.push(battery_id);
        RelayRequest {
            service_id: BATTERY_SERVICE_ID,
            message_id: u16::from(BatteryCommand::GetBix),
            response_id: u16::from(BatteryCommand::GetBix),
            body,
        }
    }

    /// Decodes the reply of a `GetBix` round-trip.
    pub fn get_bix(&self, reply: Result<Vec<u8>, EcRelayError>) -> (r: Result<
        [u8; BIX_RESPONSE_LEN],
        BatteryError,
    >)
        ensures
            bix_result(r) == spec_get_bix(reply_bytes(reply)),
    {
        let body = match &reply {
            Ok(b) => b.as_slice(),
            Err(e) => {
                return Err(BatteryError::Relay(*e));
            },
        };
        let bix = match take_exact_array(body, BIX_RESPONSE_LEN) {
            Ok(b) => b,
            Err(e) => {
                return Err(BatteryError::Relay(e));
            },
        };
        let mut out = [0u8; BIX_RESPONSE_LEN];
        let mut i: usize = 0;
        while i < BIX_RESPONSE_LEN
            invariant
                i <= BIX_RESPONSE_LEN,
                bix@.len() == BIX_RESPONSE_LEN,
                out@.len() == BIX_RESPONSE_LEN,
                forall|j: int| 0 <= j < i ==> out@[j] == bix@[j],
            decreases BIX_RESPONSE_LEN - i,
        {
            out[i] = bix[i];
            i = i + 1;
        }
        assert(out@ == bix@);
        Ok(out)
    }

    /// The relay request of a `SetBtp` round-trip.
    pub fn set_btp_request(&self, battery_id: u8, trip_point: u32) -> (r: RelayRequest)
        ensures
            r@ == battery_request(BatteryCommand::SetBtp, seq![battery_id] + le_u32(trip_point)),
    {
        let mut body = Vec::new();
        body.push(battery_id);
        push_u32_le(&mut body, trip_point);
        RelayRequest {
            service_id: BATTERY_SERVICE_ID,
            message_id: u16::from(BatteryCommand::SetBtp),
            response_id: u16::from(BatteryCommand::SetBtp),
            body,
        }
    }

    /// Decodes the reply of a `SetBtp` round-trip.
    pub fn set_btp(&self, reply: Result<Vec<u8>, EcRelayError>) -> (r: Result<(), BatteryError>)
        ensures
            r == spec_set_btp(reply_bytes(reply)),
    {
        match &reply {
            Ok(b) => match parse_empty_response(b.as_slice()) {
                Ok(()) => Ok(()),
                Err(e) => Err(BatteryError::Relay(e)),
            },
            Err(e) => Err(BatteryError::Relay(*e)),
        }
    }

    /// What the service does with an FF-A request: reject an unknown
    /// command before any relay I/O, or relay the command's request.
    pub fn ffa_request(&self, payload: &[u8; FFA_PAYLOAD_LEN]) -> (r: Result<FfaStep, FfaError>)
        ensures
            step_result(r) == spec_battery_ffa_request(payload@),
    {
        let command = match BatteryCommand::try_from(payload[0] as u16) {
            Ok(c) => c,
            Err(_) => {
                return Err(FfaError::Other("Unknown Battery Command"));
            },
        };
        let battery_id = payload[1];
        match command {
            BatteryCommand::GetBst => Ok(FfaStep::Relay(self.get_bst_request(battery_id))),
            BatteryCommand::GetBix => Ok(FfaStep::Relay(self.get_bix_request(battery_id))),
            BatteryCommand::SetBtp => {
                let trip_point = read_u32_le(payload.as_slice(), 4);
                Ok(FfaStep::Relay(self.set_btp_request(battery_id, trip_point)))
            },
        }
    }

    /// The FF-A response payload prefix of a request once the relay gave
    /// `reply`: the four `BST` dwords, the BIX body, or nothing for
    /// `SetBtp`; a failed round-trip is an FF-A error.
    pub fn ffa_response(
        &self,
        payload: &[u8; FFA_PAYLOAD_LEN],
        reply: Result<Vec<u8>, EcRelayError>,
    ) -> (r: Result<Vec<u8>, FfaError>)
        ensures
            payload_result(r) == spec_battery_ffa_response(payload@, reply_bytes(reply)),
    {
        let command = match BatteryCommand::try_from(payload[0] as u16) {
            Ok(c) => c,
            Err(_) => {
                return Err(FfaError::Other("Unknown Battery Command"));
            },
        };
        match command {
            BatteryCommand::GetBst => match self.get_bst(reply) {
                Ok(bst) => {
                    let mut out = Vec::new();
                    push_u32_le(&mut out, bst.battery_state);
                    push_u32_le(&mut out, bst.battery_present_rate);
                    push_u32_le(&mut out, bst.battery_remaining_capacity);
                    push_u32_le(&mut out, bst.battery_present_voltage);
                    Ok(out)
                },
                Err(_) => Err(
                    FfaError::Other("Battery: GetBst round-trip failed (transport or wire decode)"),
                ),
            },
            BatteryCommand::GetBix => match self.get_bix(reply) {
                Ok(bix) => {
                    let mut out = Vec::new();
                    push_bytes(&mut out, bix.as_slice());
                    Ok(out)
                },
                Err(_) => Err(
                    FfaError::Other("Battery: GetBix round-trip failed (transport or wire decode)"),
                ),
            },
            BatteryCommand::SetBtp => match self.set_btp(reply) {
                Ok(()) => Ok(Vec::new()),
                Err(_) => Err(
                    FfaError::Other("Battery: SetBtp round-trip failed (transport or wire decode)"),
                ),
            },
        }
    }
}

// ---------------------------------------------------------------------
// Laws.
// ---------------------------------------------------------------------

/// Every command id survives the trip to the wire and back, and every wire
/// id that names a command is that command's id.
pub proof fn lemma_battery_command_id_roundtrip(command: BatteryCommand, id: u16)
    ensures
        BatteryCommand::spec_from_id(command.spec_id()) == Some(command),
        BatteryCommand::spec_from_id(id) matches Some(c) ==> c.spec_id() == id,
{
}

/// Decoding a `GetBst` body that starts with the four encoded dwords of a
/// `BST` gives that `BST` back, whatever follows them.
pub proof fn lemma_get_bst_decodes_encoding(bst: BstReturnRaw, rest: Seq<u8>)
    ensures
        spec_get_bst(Ok(bst_bytes(bst) + rest)) == Ok::<BstReturnRaw, BatteryError>(bst),
{
    let b = bst_bytes(bst) + rest;
    lemma_le_u32_roundtrip(bst.battery_state, Seq::empty());
    lemma_le_u32_roundtrip(bst.battery_present_rate, Seq::empty());
    lemma_le_u32_roundtrip(bst.battery_remaining_capacity, Seq::empty());
    lemma_le_u32_roundtrip(bst.battery_present_voltage, Seq::empty());
    assert(b.subrange(0, 4) == le_u32(bst.battery_state).subrange(0, 4));
    assert(b.subrange(4, 8) == le_u32(bst.battery_present_rate).subrange(0, 4));
    assert(b.subrange(8, 12) == le_u32(bst.battery_remaining_capacity).subrange(0, 4));
    assert(b.subrange(12, 16) == le_u32(bst.battery_present_voltage).subrange(0, 4));
}

/// An FF-A `GetBst` relays exactly the requested battery id, and its
/// response payload is the first sixteen bytes of the EC's reply body, the
/// four `BST` dwords unchanged.
pub proof fn lemma_ffa_get_bst_preserves_reply(p: Seq<u8>, body: Seq<u8>)
    requires
        p.len() == FFA_PAYLOAD_LEN,
        p[0] as u16 == BatteryCommand::GetBst.spec_id(),
        body.len() >= BST_RESPONSE_LEN,
    ensures
        spec_battery_ffa_request(p) == Ok::<FfaStepModel, FfaError>(
            FfaStepModel::Relay(battery_request(BatteryCommand::GetBst, seq![p[1]])),
        ),
        spec_battery_ffa_response(p, Ok(body)) == Ok::<Seq<u8>, FfaError>(body.take(16)),
{
    lemma_le_u32_roundtrip(0, body.subrange(0, 4));
    lemma_le_u32_roundtrip(0, body.subrange(4, 8));
    lemma_le_u32_roundtrip(0, body.subrange(8, 12));
    lemma_le_u32_roundtrip(0, body.subrange(12, 16));
    assert(body.subrange(0, 4).subrange(0, 4) == body.subrange(0, 4));
    assert(body.subrange(4, 8).subrange(0, 4) == body.subrange(4, 8));
    assert(body.subrange(8, 12).subrange(0, 4) == body.subrange(8, 12));
    assert(body.subrange(12, 16).subrange(0, 4) == body.subrange(12, 16));
    assert(body.take(16) == body.subrange(0, 4) + body.subrange(4, 8) + body.subrange(8, 12)
        + body.subrange(12, 16));
}

/// An FF-A `GetBix` whose EC reply is the canonical 100-byte body answers
/// with that body unchanged.
pub proof fn lemma_ffa_get_bix_preserves_reply(p: Seq<u8>, body: Seq<u8>)
    requires
        p.len() == FFA_PAYLOAD_LEN,
        p[0] as u16 == BatteryCommand::GetBix.spec_id(),
        body.len() == BIX_RESPONSE_LEN,
    ensures
        spec_battery_ffa_response(p, Ok(body)) == Ok::<Seq<u8>, FfaError>(body),
{
}

/// An FF-A `SetBtp` compacts the AML padding: the EC request is the battery
/// id followed by the four trip-point bytes at payload offset four.
pub proof fn lemma_ffa_set_btp_request_body(p: Seq<u8>)
    requires
        p.len() == FFA_PAYLOAD_LEN,
        p[0] as u16 == BatteryCommand::SetBtp.spec_id(),
    ensures
        spec_battery_ffa_request(p) == Ok::<FfaStepModel, FfaError>(
            FfaStepModel::Relay(battery_request(BatteryCommand::SetBtp, seq![p[1]] + p.subrange(4, 8))),
        ),
{
    lemma_le_u32_roundtrip(0, p.subrange(4, 8));
    assert(p.subrange(4, 8).subrange(0, 4) == p.subrange(4, 8));
}

/// An unknown command is rejected before any relay I/O, and the response
/// step rejects it the same way.
pub proof fn lemma_battery_unknown_command_rejected(p: Seq<u8>, reply: Result<Seq<u8>, EcRelayError>)
    requires
        p.len() == FFA_PAYLOAD_LEN,
        BatteryCommand::spec_from_id(p[0] as u16) is None,
    ensures
        spec_battery_ffa_request(p) == Err::<FfaStepModel, FfaError>(FfaError::Other("Unknown Battery Command")),
        spec_battery_ffa_response(p, reply) == Err::<Seq<u8>, FfaError>(FfaError::Other("Unknown Battery Command")),
{
}

/// What each FF-A Battery command relays: service `0x08`, the command's own
/// message id (reply id the same), and as body the battery id at payload
/// byte 1 (followed, for `SetBtp`, by the trip-point bytes at offsets 4..8).
pub proof fn lemma_ffa_battery_requests(p: Seq<u8>)
    requires
        p.len() == FFA_PAYLOAD_LEN,
    ensures
        p[0] == 1u8 ==> spec_battery_ffa_request(p) == Ok::<FfaStepModel, FfaError>(
            FfaStepModel::Relay(
                RelayRequestModel { service_id: 0x08, message_id: 1, response_id: 1, body: seq![p[1]] },
            ),
        ),
        p[0] == 2u8 ==> spec_battery_ffa_request(p) == Ok::<FfaStepModel, FfaError>(
            FfaStepModel::Relay(
                RelayRequestModel { service_id: 0x08, message_id: 2, response_id: 2, body: seq![p[1]] },
            ),
        ),
        p[0] == 6u8 ==> spec_battery_ffa_request(p) == Ok::<FfaStepModel, FfaError>(
            FfaStepModel::Relay(
                RelayRequestModel {
                    service_id: 0x08,
                    message_id: 6,
                    response_id: 6,
                    body: seq![p[1]] + p.subrange(4, 8),
                },
            ),
        ),
{
    if p[0] == 6u8 {
        lemma_ffa_set_btp_request_body(p);
    }
}

} // verus!
