//! `Thermal`: relays Normal-World Thermal requests to the EC.
//!
//! Service id `0x09`; commands `GetTmp=1, SetThrs=2, GetThrs=3, SetScp=4,
//! GetVar=5, SetVar=6`.
//!
//! All six commands are relayed to the EC. FF-A requests use one command
//! byte followed by the canonical EC request body; FF-A responses expose
//! the AML-compatible raw value/status prefix at payload offset zero.
//!
//! Each round-trip is split in two: a `*_request` function gives what the
//! relay sends, and the function named after the operation decodes what
//! came back.

use vstd::prelude::*;
use crate::ffa::{
    payload_result, scalar_payload, spec_parse_ffa_request, step_result, parse_ffa_request,
    FfaError, FfaStep, FfaStepModel, FFA_PAYLOAD_LEN, LOCAL_ERROR_SENTINEL,
};
use crate::relay::{
    parse_empty_response, reply_bytes, spec_take_exact, take_array, take_exact_array,
    EcRelayError, RelayRequest, RelayRequestModel,
};
use crate::wire::{
    bytes16, le_u16, le_u16_at, le_u32, le_u32_at, lemma_le_u16_roundtrip, lemma_le_u32_roundtrip,
    push_bytes, push_u16_le, push_u32_le, read_u16_le, read_u32_le,
};

verus! {

pub const THERMAL_SERVICE_ID: u8 = 0x09;

/// AML status word for an FF-A request that the service rejects before
/// relaying (a variable command whose length is not the canonical DWORD).
pub const INVALID_PARAMETER_STATUS: u32 = 1;

/// Canonical MPTF variable payload length: a single DWORD value.
pub const VARIABLE_VALUE_LEN: u16 = 4;

/// Bytes in the `SetThrs` and `SetScp` request bodies.
pub const SET_THRESHOLD_REQUEST_LEN: usize = 13;

/// Bytes in the `SetScp` request body.
pub const SET_COOLING_POLICY_REQUEST_LEN: usize = 13;

/// Bytes in the `GetVar` request body.
pub const GET_VARIABLE_REQUEST_LEN: usize = 19;

/// Bytes in the `SetVar` request body.
pub const SET_VARIABLE_REQUEST_LEN: usize = 23;

/// Thermal command ids (FF-A request byte 0 / ODP message id).
#[derive(Debug, Clone, Copy, PartialEq, Eq)]
pub enum ThermalCommand {
    GetTmp,
    SetThrs,
    GetThrs,
    SetScp,
    GetVar,
    SetVar,
}

impl ThermalCommand {
    /// The command's wire id.
    pub open spec fn spec_id(self) -> u16 {
        match self {
            ThermalCommand::GetTmp => 1,
            ThermalCommand::SetThrs => 2,
            ThermalCommand::GetThrs => 3,
            ThermalCommand::SetScp => 4,
            ThermalCommand::GetVar => 5,
            ThermalCommand::SetVar => 6,
        }
    }

    /// The command that a wire id names, if any.
    pub open spec fn spec_from_id(id: u16) -> Option<ThermalCommand> {
        if id == 1 {
            Some(ThermalCommand::GetTmp)
        } else if id == 2 {
            Some(ThermalCommand::SetThrs)
        } else if id == 3 {
            Some(ThermalCommand::GetThrs)
        } else if id == 4 {
            Some(ThermalCommand::SetScp)
        } else if id == 5 {
            Some(ThermalCommand::GetVar)
        } else if id == 6 {
            Some(ThermalCommand::SetVar)
        } else {
            None
        }
    }
}

impl From<ThermalCommand> for u16 {
    fn from(command: ThermalCommand) -> (id: u16) {
        match command {
            ThermalCommand::GetTmp => 1,
            ThermalCommand::SetThrs => 2,
            ThermalCommand::GetThrs => 3,
            ThermalCommand::SetScp => 4,
            ThermalCommand::GetVar => 5,
            ThermalCommand::SetVar => 6,
        }
    }
}

impl vstd::std_specs::convert::FromSpecImpl<ThermalCommand> for u16 {
    open spec fn obeys_from_spec() -> bool {
        true
    }

    open spec fn from_spec(command: ThermalCommand) -> u16 {
        command.spec_id()
    }
}

impl TryFrom<u16> for ThermalCommand {
    /// The id that names no command.
    type Error = u16;

    fn try_from(id: u16) -> (r: Result<ThermalCommand, u16>) {
        if id == 1 {
            Ok(ThermalCommand::GetTmp)
        } else if id == 2 {
            Ok(ThermalCommand::SetThrs)
        } else if id == 3 {
            Ok(ThermalCommand::GetThrs)
        } else if id == 4 {
            Ok(ThermalCommand::SetScp)
        } else if id == 5 {
            Ok(ThermalCommand::GetVar)
        } else if id == 6 {
            Ok(ThermalCommand::SetVar)
        } else {
            Err(id)
        }
    }
}

impl vstd::std_specs::convert::TryFromSpecImpl<u16> for ThermalCommand {
    open spec fn obeys_try_from_spec() -> bool {
        true
    }

    open spec fn try_from_spec(id: u16) -> Result<ThermalCommand, u16> {
        match ThermalCommand::spec_from_id(id) {
            Some(c) => Ok(c),
            None => Err(id),
        }
    }
}

/// Errors of a Thermal round-trip.
#[derive(Debug, Clone, Copy, PartialEq, Eq)]
pub enum ThermalError {
    /// The relay failed, or the reply body did not fit the wire format. A
    /// reply that does not answer the request is reported by the relay as
    /// `Relay(EcRelayError::UnexpectedResponse)`.
    Relay(EcRelayError),
    /// Not produced by any Thermal round-trip; kept for callers that match
    /// on it.
    UnexpectedResponse,
}

impl From<EcRelayError> for ThermalError {
    fn from(e: EcRelayError) -> (r: ThermalError) {
        ThermalError::Relay(e)
    }
}

impl vstd::std_specs::convert::FromSpecImpl<EcRelayError> for ThermalError {
    open spec fn obeys_from_spec() -> bool {
        true
    }

    open spec fn from_spec(e: EcRelayError) -> ThermalError {
        ThermalError::Relay(e)
    }
}

// ---------------------------------------------------------------------
// Request bodies: little-endian, packed, command byte stripped.
// ---------------------------------------------------------------------

/// `SetThrs` request body: instance, timeout, low and high thresholds.
#[derive(Debug, Clone, Copy, PartialEq, Eq)]
pub struct SetThresholdRequest {
    pub instance_id: u8,
    pub timeout: u32,
    pub low: u32,
    pub high: u32,
}

/// `SetScp` request body: instance, policy, acoustic and power limits.
#[derive(Debug, Clone, Copy, PartialEq, Eq)]
pub struct SetCoolingPolicyRequest {
    pub instance_id: u8,
    pub policy_id: u32,
    pub acoustic_lim: u32,
    pub power_lim: u32,
}

/// `GetVar` request body: instance, value length, variable UUID.
#[derive(Debug, Clone, Copy, PartialEq, Eq)]
pub struct GetVariableRequest {
    pub instance_id: u8,
    pub len: u16,
    pub uuid: [u8; 16],
}

/// `SetVar` request body: instance, value length, variable UUID, value.
#[derive(Debug, Clone, Copy, PartialEq, Eq)]
pub struct SetVariableRequest {
    pub instance_id: u8,
    pub len: u16,
    pub uuid: [u8; 16],
    pub value: u32,
}

/// The model of a [`GetVariableRequest`].
pub struct GetVariableRequestModel {
    pub instance_id: u8,
    pub len: u16,
    pub uuid: Seq<u8>,
}

/// The model of a [`SetVariableRequest`].
pub struct SetVariableRequestModel {
    pub instance_id: u8,
    pub len: u16,
    pub uuid: Seq<u8>,
    pub value: u32,
}

impl View for GetVariableRequest {
    type V = GetVariableRequestModel;

    open spec fn view(&self) -> GetVariableRequestModel {
        GetVariableRequestModel { instance_id: self.instance_id, len: self.len, uuid: self.uuid@ }
    }
}

impl View for SetVariableRequest {
    type V = SetVariableRequestModel;

    open spec fn view(&self) -> SetVariableRequestModel {
        SetVariableRequestModel {
            instance_id: self.instance_id,
            len: self.len,
            uuid: self.uuid@,
            value: self.value,
        }
    }
}

impl SetThresholdRequest {
    /// The request's wire bytes.
    pub open spec fn spec_bytes(self) -> Seq<u8> {
        seq![self.instance_id] + le_u32(self.timeout) + le_u32(self.low) + le_u32(self.high)
    }

    /// The request that thirteen wire bytes hold.
    pub open spec fn spec_from_bytes(s: Seq<u8>) -> SetThresholdRequest {
        SetThresholdRequest {
            instance_id: s[0],
            timeout: le_u32_at(s, 1),
            low: le_u32_at(s, 5),
            high: le_u32_at(s, 9),
        }
    }

    /// Decodes a request from its wire bytes.
    pub fn from_bytes(s: &[u8]) -> (r: SetThresholdRequest)
        requires
            s@.len() == SET_THRESHOLD_REQUEST_LEN,
        ensures
            r == SetThresholdRequest::spec_from_bytes(s@),
    {
        SetThresholdRequest {
            instance_id: s[0],
            timeout: read_u32_le(s, 1),
            low: read_u32_le(s, 5),
            high: read_u32_le(s, 9),
        }
    }

    /// The request's wire bytes.
    pub fn as_bytes(&self) -> (b: Vec<u8>)
        ensures
            b@ == self.spec_bytes(),
    {
        let mut b = Vec::new();
        b.push(self.instance_id);
        push_u32_le(&mut b, self.timeout);
        push_u32_le(&mut b, self.low);
        push_u32_le(&mut b, self.high);
        b
    }
}

impl SetCoolingPolicyRequest {
    /// The request's wire bytes.
    pub open spec fn spec_bytes(self) -> Seq<u8> {
        seq![self.instance_id] + le_u32(self.policy_id) + le_u32(self.acoustic_lim) + le_u32(
            self.power_lim,
        )
    }

    /// The request that thirteen wire bytes hold.
    pub open spec fn spec_from_bytes(s: Seq<u8>) -> SetCoolingPolicyRequest {
        SetCoolingPolicyRequest {
            instance_id: s[0],
            policy_id: le_u32_at(s, 1),
            acoustic_lim: le_u32_at(s, 5),
            power_lim: le_u32_at(s, 9),
        }
    }

    /// Decodes a request from its wire bytes.
    pub fn from_bytes(s: &[u8]) -> (r: SetCoolingPolicyRequest)
        requires
            s@.len() == SET_COOLING_POLICY_REQUEST_LEN,
        ensures
            r == SetCoolingPolicyRequest::spec_from_bytes(s@),
    {
        SetCoolingPolicyRequest {
            instance_id: s[0],
            policy_id: read_u32_le(s, 1),
            acoustic_lim: read_u32_le(s, 5),
            power_lim: read_u32_le(s, 9),
        }
    }

    /// The request's wire bytes.
    pub fn as_bytes(&self) -> (b: Vec<u8>)
        ensures
            b@ == self.spec_bytes(),
    {
        let mut b = Vec::new();
        b.push(self.instance_id);
        push_u32_le(&mut b, self.policy_id);
        push_u32_le(&mut b, self.acoustic_lim);
        push_u32_le(&mut b, self.power_lim);
        b
    }
}

impl GetVariableRequestModel {
    /// The request's wire bytes.
    pub open spec fn spec_bytes(self) -> Seq<u8> {
        seq![self.instance_id] + le_u16(self.len) + self.uuid
    }

    /// The request that nineteen wire bytes hold.
    pub open spec fn spec_from_bytes(s: Seq<u8>) -> GetVariableRequestModel {
        GetVariableRequestModel {
            instance_id: s[0],
            len: le_u16_at(s, 1),
            uuid: s.subrange(3, 19),
        }
    }
}

impl GetVariableRequest {
    /// Decodes a request from its wire bytes.
    pub fn from_bytes(s: &[u8]) -> (r: GetVariableRequest)
        requires
            s@.len() == GET_VARIABLE_REQUEST_LEN,
        ensures
            r@ == GetVariableRequestModel::spec_from_bytes(s@),
    {
        let uuid = bytes16(vstd::slice::slice_subrange(s, 3, 19));
        GetVariableRequest { instance_id: s[0], len: read_u16_le(s, 1), uuid }
    }

    /// The request's wire bytes.
    pub fn as_bytes(&self) -> (b: Vec<u8>)
        ensures
            b@ == self@.spec_bytes(),
    {
        let mut b = Vec::new();
        b.push(self.instance_id);
        push_u16_le(&mut b, self.len);
        push_bytes(&mut b, self.uuid.as_slice());
        b
    }
}

impl SetVariableRequestModel {
    /// The request's wire bytes.
    pub open spec fn spec_bytes(self) -> Seq<u8> {
        seq![self.instance_id] + le_u16(self.len) + self.uuid + le_u32(self.value)
    }

    /// The request that twenty-three wire bytes hold.
    pub open spec fn spec_from_bytes(s: Seq<u8>) -> SetVariableRequestModel {
        SetVariableRequestModel {
            instance_id: s[0],
            len: le_u16_at(s, 1),
            uuid: s.subrange(3, 19),
            value: le_u32_at(s, 19),
        }
    }
}

impl SetVariableRequest {
    /// Decodes a request from its wire bytes.
    pub fn from_bytes(s: &[u8]) -> (r: SetVariableRequest)
        requires
            s@.len() == SET_VARIABLE_REQUEST_LEN,
        ensures
            r@ == SetVariableRequestModel::spec_from_bytes(s@),
    {
        let uuid = bytes16(vstd::slice::slice_subrange(s, 3, 19));
        SetVariableRequest {
            instance_id: s[0],
            len: read_u16_le(s, 1),
            uuid,
            value: read_u32_le(s, 19),
        }
    }

    /// The request's wire bytes.
    pub fn as_bytes(&self) -> (b: Vec<u8>)
        ensures
            b@ == self@.spec_bytes(),
    {
        let mut b = Vec::new();
        b.push(self.instance_id);
        push_u16_le(&mut b, self.len);
        push_bytes(&mut b, self.uuid.as_slice());
        push_u32_le(&mut b, self.value);
        b
    }
}

// ---------------------------------------------------------------------
// Layout laws: each request body survives its wire encoding.
// ---------------------------------------------------------------------

/// A `SetThrs` body is thirteen bytes, decoding its bytes gives the request
/// back, and any thirteen bytes are the encoding of what they decode to.
pub proof fn lemma_set_threshold_request_roundtrip(r: SetThresholdRequest, s: Seq<u8>)
    ensures
        r.spec_bytes().len() == SET_THRESHOLD_REQUEST_LEN,
        SetThresholdRequest::spec_from_bytes(r.spec_bytes()) == r,
        s.len() == SET_THRESHOLD_REQUEST_LEN ==> SetThresholdRequest::spec_from_bytes(s).spec_bytes() == s,
{
    let b = r.spec_bytes();
    lemma_le_u32_roundtrip(r.timeout, s.subrange(1, 5));
    lemma_le_u32_roundtrip(r.low, s.subrange(5, 9));
    lemma_le_u32_roundtrip(r.high, s.subrange(9, 13));
    assert(b.subrange(1, 5) == le_u32(r.timeout));
    assert(b.subrange(5, 9) == le_u32(r.low));
    assert(b.subrange(9, 13) == le_u32(r.high));
    assert(le_u32(r.timeout).subrange(0, 4) == le_u32(r.timeout));
    assert(le_u32(r.low).subrange(0, 4) == le_u32(r.low));
    assert(le_u32(r.high).subrange(0, 4) == le_u32(r.high));
    if s.len() == SET_THRESHOLD_REQUEST_LEN {
        assert(s.subrange(1, 5).subrange(0, 4) == s.subrange(1, 5));
        assert(s.subrange(5, 9).subrange(0, 4) == s.subrange(5, 9));
        assert(s.subrange(9, 13).subrange(0, 4) == s.subrange(9, 13));
        assert(s == seq![s[0]] + s.subrange(1, 5) + s.subrange(5, 9) + s.subrange(9, 13));
    }
}

/// A `SetScp` body is thirteen bytes, decoding its bytes gives the request
/// back, and any thirteen bytes are the encoding of what they decode to.
pub proof fn lemma_set_cooling_policy_request_roundtrip(r: SetCoolingPolicyRequest, s: Seq<u8>)
    ensures
        r.spec_bytes().len() == SET_COOLING_POLICY_REQUEST_LEN,
        SetCoolingPolicyRequest::spec_from_bytes(r.spec_bytes()) == r,
        s.len() == SET_COOLING_POLICY_REQUEST_LEN ==> SetCoolingPolicyRequest::spec_from_bytes(s).spec_bytes() == s,
{
    let b = r.spec_bytes();
    lemma_le_u32_roundtrip(r.policy_id, s.subrange(1, 5));
    lemma_le_u32_roundtrip(r.acoustic_lim, s.subrange(5, 9));
    lemma_le_u32_roundtrip(r.power_lim, s.subrange(9, 13));
    assert(b.subrange(1, 5) == le_u32(r.policy_id));
    assert(b.subrange(5, 9) == le_u32(r.acoustic_lim));
    assert(b.subrange(9, 13) == le_u32(r.power_lim));
    assert(le_u32(r.policy_id).subrange(0, 4) == le_u32(r.policy_id));
    assert(le_u32(r.acoustic_lim).subrange(0, 4) == le_u32(r.acoustic_lim));
    assert(le_u32(r.power_lim).subrange(0, 4) == le_u32(r.power_lim));
    if s.len() == SET_COOLING_POLICY_REQUEST_LEN {
        assert(s.subrange(1, 5).subrange(0, 4) == s.subrange(1, 5));
        assert(s.subrange(5, 9).subrange(0, 4) == s.subrange(5, 9));
        assert(s.subrange(9, 13).subrange(0, 4) == s.subrange(9, 13));
        assert(s == seq![s[0]] + s.subrange(1, 5) + s.subrange(5, 9) + s.subrange(9, 13));
    }
}

/// A `GetVar` body is nineteen bytes, decoding its bytes gives the request
/// back, and any nineteen bytes are the encoding of what they decode to.
pub proof fn lemma_get_variable_request_roundtrip(r: GetVariableRequestModel, s: Seq<u8>)
    requires
        r.uuid.len() == 16,
    ensures
        r.spec_bytes().len() == GET_VARIABLE_REQUEST_LEN,
        GetVariableRequestModel::spec_from_bytes(r.spec_bytes()) == r,
        s.len() == GET_VARIABLE_REQUEST_LEN ==> GetVariableRequestModel::spec_from_bytes(s).spec_bytes() == s,
{
    let b = r.spec_bytes();
    lemma_le_u16_roundtrip(r.len, s.subrange(1, 3));
    assert(b.subrange(1, 3) == le_u16(r.len));
    assert(le_u16(r.len).subrange(0, 2) == le_u16(r.len));
    assert(b.subrange(3, 19) == r.uuid);
    if s.len() == GET_VARIABLE_REQUEST_LEN {
        assert(s.subrange(1, 3).subrange(0, 2) == s.subrange(1, 3));
        assert(s == seq![s[0]] + s.subrange(1, 3) + s.subrange(3, 19));
    }
}

/// A `SetVar` body is twenty-three bytes, decoding its bytes gives the
/// request back, and any twenty-three bytes are the encoding of what they
/// decode to.
pub proof fn lemma_set_variable_request_roundtrip(r: SetVariableRequestModel, s: Seq<u8>)
    requires
        r.uuid.len() == 16,
    ensures
        r.spec_bytes().len() == SET_VARIABLE_REQUEST_LEN,
        SetVariableRequestModel::spec_from_bytes(r.spec_bytes()) == r,
        s.len() == SET_VARIABLE_REQUEST_LEN ==> SetVariableRequestModel::spec_from_bytes(s).spec_bytes() == s,
{
    let b = r.spec_bytes();
    lemma_le_u16_roundtrip(r.len, s.subrange(1, 3));
    lemma_le_u32_roundtrip(r.value, s.subrange(19, 23));
    assert(b.subrange(1, 3) == le_u16(r.len));
    assert(le_u16(r.len).subrange(0, 2) == le_u16(r.len));
    assert(b.subrange(3, 19) == r.uuid);
    assert(b.subrange(19, 23) == le_u32(r.value));
    assert(le_u32(r.value).subrange(0, 4) == le_u32(r.value));
    if s.len() == SET_VARIABLE_REQUEST_LEN {
        assert(s.subrange(1, 3).subrange(0, 2) == s.subrange(1, 3));
        assert(s.subrange(19, 23).subrange(0, 4) == s.subrange(19, 23));
        assert(s == seq![s[0]] + s.subrange(1, 3) + s.subrange(3, 19) + s.subrange(19, 23));
    }
}

// ---------------------------------------------------------------------
// Round-trips.
// ---------------------------------------------------------------------

/// The relay request of a Thermal command with this body.
pub open spec fn thermal_request(command: ThermalCommand, body: Seq<u8>) -> RelayRequestModel {
    RelayRequestModel {
        service_id: THERMAL_SERVICE_ID,
        message_id: command.spec_id(),
        response_id: command.spec_id(),
        body,
    }
}

/// A reply whose body is exactly one little-endian dword.
pub open spec fn spec_dword_reply(reply: Result<Seq<u8>, EcRelayError>) -> Result<u32, ThermalError> {
    match reply {
        Err(e) => Err(ThermalError::Relay(e)),
        Ok(b) => match spec_take_exact(b, 4) {
            Ok(_) => Ok(le_u32_at(b, 0)),
            Err(e) => Err(ThermalError::Relay(e)),
        },
    }
}

/// A reply whose success carries no payload.
pub open spec fn spec_empty_reply(reply: Result<Seq<u8>, EcRelayError>) -> Result<(), ThermalError> {
    match reply {
        Err(e) => Err(ThermalError::Relay(e)),
        Ok(b) => if b.len() == 0 {
            Ok(())
        } else {
            Err(ThermalError::Relay(EcRelayError::BodyTooLong))
        },
    }
}

/// The decoded `GetThrs` reply: exactly three little-endian dwords,
/// timeout, low, high.
pub open spec fn spec_get_threshold(reply: Result<Seq<u8>, EcRelayError>) -> Result<
    (u32, u32, u32),
    ThermalError,
> {
    match reply {
        Err(e) => Err(ThermalError::Relay(e)),
        Ok(b) => if b.len() < 12 {
            Err(ThermalError::Relay(EcRelayError::BodyTooShort))
        } else if b.len() > 12 {
            Err(ThermalError::Relay(EcRelayError::BodyTooLong))
        } else {
            Ok((le_u32_at(b, 0), le_u32_at(b, 4), le_u32_at(b, 8)))
        },
    }
}

/// The AML status word of a setter round-trip: `0` on success, the EC's
/// code for a remote error, the local sentinel otherwise.
pub open spec fn spec_setter_status(result: Result<(), ThermalError>) -> u32 {
    match result {
        Ok(()) => 0,
        Err(ThermalError::Relay(EcRelayError::Remote(code))) => code as u32,
        Err(_) => LOCAL_ERROR_SENTINEL,
    }
}

/// A getter's value, or the local sentinel when the round-trip failed.
pub open spec fn value_or_sentinel(result: Result<u32, ThermalError>) -> u32 {
    match result {
        Ok(v) => v,
        Err(_) => LOCAL_ERROR_SENTINEL,
    }
}

/// The three threshold dwords, little-endian, in wire order.
pub open spec fn threshold_bytes(timeout: u32, low: u32, high: u32) -> Seq<u8> {
    le_u32(timeout) + le_u32(low) + le_u32(high)
}

/// Collapses a setter round-trip into the AML status word.
pub fn setter_status(result: Result<(), ThermalError>) -> (status: u32)
    ensures
        status == spec_setter_status(result),
{
    match result {
        Ok(()) => 0,
        Err(ThermalError::Relay(EcRelayError::Remote(code))) => code as u32,
        Err(_) => LOCAL_ERROR_SENTINEL,
    }
}

/// The payload of a `GetThrs` response: timeout, low and high.
pub fn threshold_payload(timeout: u32, low: u32, high: u32) -> (p: Vec<u8>)
    ensures
        p@ == threshold_bytes(timeout, low, high),
{
    let mut p = Vec::new();
    push_u32_le(&mut p, timeout);
    push_u32_le(&mut p, low);
    push_u32_le(&mut p, high);
    p
}

fn thermal_relay_request(command: ThermalCommand, body: Vec<u8>) -> (r: RelayRequest)
    ensures
        r@ == thermal_request(command, body@),
{
    RelayRequest {
        service_id: THERMAL_SERVICE_ID,
        message_id: u16::from(command),
        response_id: u16::from(command),
        body,
    }
}

fn dword_reply(reply: Result<Vec<u8>, EcRelayError>) -> (r: Result<u32, ThermalError>)
    ensures
        r == spec_dword_reply(reply_bytes(reply)),
{
    match &reply {
        Ok(b) => match take_exact_array(b.as_slice(), 4) {
            Ok(value) => Ok(read_u32_le(value, 0)),
            Err(e) => Err(ThermalError::Relay(e)),
        },
        Err(e) => Err(ThermalError::Relay(*e)),
    }
}

fn empty_reply(reply: Result<Vec<u8>, EcRelayError>) -> (r: Result<(), ThermalError>)
    ensures
        r == spec_empty_reply(reply_bytes(reply)),
{
    match &reply {
        Ok(b) => match parse_empty_response(b.as_slice()) {
            Ok(()) => Ok(()),
            Err(e) => Err(ThermalError::Relay(e)),
        },
        Err(e) => Err(ThermalError::Relay(*e)),
    }
}

/// What the service does with an FF-A request payload: reject an unknown
/// command; relay the request body that follows the command byte
/// unchanged (the instance byte for the getters); answer a variable
/// command whose length is not the canonical DWORD without relaying.
pub open spec fn spec_thermal_ffa_request(p: Seq<u8>) -> Result<FfaStepModel, FfaError> {
    match ThermalCommand::spec_from_id(p[0] as u16) {
        None => Err(FfaError::Other("Unknown Thermal Command")),
        Some(ThermalCommand::GetTmp) => Ok(
            FfaStepModel::Relay(thermal_request(ThermalCommand::GetTmp, seq![p[1]])),
        ),
        Some(ThermalCommand::SetThrs) => match spec_parse_ffa_request(p, SET_THRESHOLD_REQUEST_LEN as nat) {
            Some(b) => Ok(FfaStepModel::Relay(thermal_request(ThermalCommand::SetThrs, b))),
            None => Ok(FfaStepModel::Respond(le_u32(LOCAL_ERROR_SENTINEL))),
        },
        Some(ThermalCommand::GetThrs) => Ok(
            FfaStepModel::Relay(thermal_request(ThermalCommand::GetThrs, seq![p[1]])),
        ),
        Some(ThermalCommand::SetScp) => match spec_parse_ffa_request(p, SET_COOLING_POLICY_REQUEST_LEN as nat) {
            Some(b) => Ok(FfaStepModel::Relay(thermal_request(ThermalCommand::SetScp, b))),
            None => Ok(FfaStepModel::Respond(le_u32(LOCAL_ERROR_SENTINEL))),
        },
        Some(ThermalCommand::GetVar) => match spec_parse_ffa_request(p, GET_VARIABLE_REQUEST_LEN as nat) {
            Some(b) => if le_u16_at(b, 1) == VARIABLE_VALUE_LEN {
                Ok(FfaStepModel::Relay(thermal_request(ThermalCommand::GetVar, b)))
            } else {
                Ok(FfaStepModel::Respond(le_u32(LOCAL_ERROR_SENTINEL)))
            },
            None => Ok(FfaStepModel::Respond(le_u32(LOCAL_ERROR_SENTINEL))),
        },
        Some(ThermalCommand::SetVar) => match spec_parse_ffa_request(p, SET_VARIABLE_REQUEST_LEN as nat) {
            Some(b) => if le_u16_at(b, 1) == VARIABLE_VALUE_LEN {
                Ok(FfaStepModel::Relay(thermal_request(ThermalCommand::SetVar, b)))
            } else {
                Ok(FfaStepModel::Respond(le_u32(INVALID_PARAMETER_STATUS)))
            },
            None => Ok(FfaStepModel::Respond(le_u32(LOCAL_ERROR_SENTINEL))),
        },
    }
}

/// The FF-A response payload prefix of a request once the relay gave
/// `reply` (a command that is not relayed ignores `reply`): getters expose
/// the raw value, or the sentinel on any failure; setters expose the AML
/// status word.
pub open spec fn spec_thermal_ffa_response(
    p: Seq<u8>,
    reply: Result<Seq<u8>, EcRelayError>,
) -> Result<Seq<u8>, FfaError> {
    match ThermalCommand::spec_from_id(p[0] as u16) {
        None => Err(FfaError::Other("Unknown Thermal Command")),
        Some(ThermalCommand::GetTmp) => Ok(le_u32(value_or_sentinel(spec_dword_reply(reply)))),
        Some(ThermalCommand::SetThrs) => match spec_parse_ffa_request(p, SET_THRESHOLD_REQUEST_LEN as nat) {
            Some(_) => Ok(le_u32(spec_setter_status(spec_empty_reply(reply)))),
            None => Ok(le_u32(LOCAL_ERROR_SENTINEL)),
        },
        Some(ThermalCommand::GetThrs) => match spec_get_threshold(reply) {
            Ok((timeout, low, high)) => Ok(threshold_bytes(timeout, low, high)),
            Err(_) => Ok(threshold_bytes(LOCAL_ERROR_SENTINEL, LOCAL_ERROR_SENTINEL, LOCAL_ERROR_SENTINEL)),
        },
        Some(ThermalCommand::SetScp) => match spec_parse_ffa_request(p, SET_COOLING_POLICY_REQUEST_LEN as nat) {
            Some(_) => Ok(le_u32(spec_setter_status(spec_empty_reply(reply)))),
            None => Ok(le_u32(LOCAL_ERROR_SENTINEL)),
        },
        Some(ThermalCommand::GetVar) => match spec_parse_ffa_request(p, GET_VARIABLE_REQUEST_LEN as nat) {
            Some(b) => if le_u16_at(b, 1) == VARIABLE_VALUE_LEN {
                Ok(le_u32(value_or_sentinel(spec_dword_reply(reply))))
            } else {
                Ok(le_u32(LOCAL_ERROR_SENTINEL))
            },
            None => Ok(le_u32(LOCAL_ERROR_SENTINEL)),
        },
        Some(ThermalCommand::SetVar) => match spec_parse_ffa_request(p, SET_VARIABLE_REQUEST_LEN as nat) {
            Some(b) => if le_u16_at(b, 1) == VARIABLE_VALUE_LEN {
                Ok(le_u32(spec_setter_status(spec_empty_reply(reply))))
            } else {
                Ok(le_u32(INVALID_PARAMETER_STATUS))
            },
            None => Ok(le_u32(LOCAL_ERROR_SENTINEL)),
        },
    }
}

/// The Thermal service. It keeps no state: every operation is a relay
/// round-trip.
pub struct Thermal;

impl Thermal {
    pub fn new() -> (t: Thermal) {
        Thermal
    }

    /// The relay request of a `GetTmp` round-trip.
    pub fn get_temperature_request(&self, instance_id: u8) -> (r: RelayRequest)
        ensures
            r@ == thermal_request(ThermalCommand::GetTmp, seq![instance_id]),
    {
        let mut body = Vec::new();
        body.push(instance_id);
        thermal_relay_request(ThermalCommand::GetTmp, body)
    }

    /// Decodes the reply of a `GetTmp` round-trip: the EC's `u32`
    /// DeciKelvin from an exact 4-byte body.
    pub fn get_temperature(&self, reply: Result<Vec<u8>, EcRelayError>) -> (r: Result<u32, ThermalError>)
        ensures
            r == spec_dword_reply(reply_bytes(reply)),
    {
        dword_reply(reply)
    }

    /// The relay request of a `SetThrs` round-trip: the canonical 13-byte
    /// body.
    pub fn set_threshold_request(&self, request: &SetThresholdRequest) -> (r: RelayRequest)
        ensures
            r@ == thermal_request(ThermalCommand::SetThrs, request.spec_bytes()),
    {
        thermal_relay_request(ThermalCommand::SetThrs, request.as_bytes())
    }

    /// Decodes the reply of a `SetThrs` round-trip: success carries no
    /// payload.
    pub fn set_threshold(&self, reply: Result<Vec<u8>, EcRelayError>) -> (r: Result<(), ThermalError>)
        ensures
            r == spec_empty_reply(reply_bytes(reply)),
    {
        empty_reply(reply)
    }

    /// The relay request of a `GetThrs` round-trip.
    pub fn get_threshold_request(&self, instance_id: u8) -> (r: RelayRequest)
        ensures
            r@ == thermal_request(ThermalCommand::GetThrs, seq![instance_id]),
    {
        let mut body = Vec::new();
        body.push(instance_id);
        thermal_relay_request(ThermalCommand::GetThrs, body)
    }

    /// Decodes the reply of a `GetThrs` round-trip: `(timeout, low, high)`
    /// from an exact 12-byte body.
    pub fn get_threshold(&self, reply: Result<Vec<u8>, EcRelayError>) -> (r: Result<
        (u32, u32, u32),
        ThermalError,
    >)
        ensures
            r == spec_get_threshold(reply_bytes(reply)),
    {
        let body = match &reply {
            Ok(b) => b.as_slice(),
            Err(e) => {
                return Err(ThermalError::Relay(*e));
            },
        };
        let (timeout, body1) = match take_array(body, 4) {
            Ok(x) => x,
            Err(e) => {
                return Err(ThermalError::Relay(e));
            },
        };
        let (low, body2) = match take_array(body1, 4) {
            Ok(x) => x,
            Err(e) => {
                return Err(ThermalError::Relay(e));
            },
        };
        let high = match take_exact_array(body2, 4) {
            Ok(x) => x,
            Err(e) => {
                return Err(ThermalError::Relay(e));
            },
        };
        assert(timeout@.subrange(0, 4) == body@.subrange(0, 4));
        assert(low@.subrange(0, 4) == body@.subrange(4, 8));
        assert(high@.subrange(0, 4) == body@.subrange(8, 12));
        Ok((read_u32_le(timeout, 0), read_u32_le(low, 0), read_u32_le(high, 0)))
    }

    /// The relay request of a `SetScp` round-trip: the canonical 13-byte
    /// body.
    pub fn set_scp_request(&self, request: &SetCoolingPolicyRequest) -> (r: RelayRequest)
        ensures
            r@ == thermal_request(ThermalCommand::SetScp, request.spec_bytes()),
    {
        thermal_relay_request(ThermalCommand::SetScp, request.as_bytes())
    }

    /// Decodes the reply of a `SetScp` round-trip: success carries no
    /// payload.
    pub fn set_scp(&self, reply: Result<Vec<u8>, EcRelayError>) -> (r: Result<(), ThermalError>)
        ensures
            r == spec_empty_reply(reply_bytes(reply)),
    {
        empty_reply(reply)
    }

    /// The relay request of a `GetVar` round-trip: the canonical 19-byte
    /// body.
    pub fn get_var_request(&self, request: &GetVariableRequest) -> (r: RelayRequest)
        ensures
            r@ == thermal_request(ThermalCommand::GetVar, request@.spec_bytes()),
    {
        thermal_relay_request(ThermalCommand::GetVar, request.as_bytes())
    }

    /// Decodes the reply of a `GetVar` round-trip: the EC's `u32` value
    /// from an exact 4-byte body.
    pub fn get_var(&self, reply: Result<Vec<u8>, EcRelayError>) -> (r: Result<u32, ThermalError>)
        ensures
            r == spec_dword_reply(reply_bytes(reply)),
    {
        dword_reply(reply)
    }

    /// The relay request of a `SetVar` round-trip: the canonical 23-byte
    /// body.
    pub fn set_var_request(&self, request: &SetVariableRequest) -> (r: RelayRequest)
        ensures
            r@ == thermal_request(ThermalCommand::SetVar, request@.spec_bytes()),
    {
        thermal_relay_request(ThermalCommand::SetVar, request.as_bytes())
    }

    /// Decodes the reply of a `SetVar` round-trip: success carries no
    /// payload.
    pub fn set_var(&self, reply: Result<Vec<u8>, EcRelayError>) -> (r: Result<(), ThermalError>)
        ensures
            r == spec_empty_reply(reply_bytes(reply)),
    {
        empty_reply(reply)
    }
    /// What the service does with an FF-A request.
    pub fn ffa_request(&self, payload: &[u8; FFA_PAYLOAD_LEN]) -> (r: Result<FfaStep, FfaError>)
        ensures
            step_result(r) == spec_thermal_ffa_request(payload@),
    {
        let command = match ThermalCommand::try_from(payload[0] as u16) {
            Ok(c) => c,
            Err(_) => {
                return Err(FfaError::Other("Unknown Thermal Command"));
            },
        };
        match command {
            ThermalCommand::GetTmp => Ok(FfaStep::Relay(self.get_temperature_request(payload[1]))),
            ThermalCommand::SetThrs => match parse_ffa_request(payload, SET_THRESHOLD_REQUEST_LEN) {
                Some(b) => {
                    let request = SetThresholdRequest::from_bytes(b);
                    proof {
                        lemma_set_threshold_request_roundtrip(request, b@);
                    }
                    Ok(FfaStep::Relay(self.set_threshold_request(&request)))
                },
                None => Ok(FfaStep::Respond(scalar_payload(LOCAL_ERROR_SENTINEL))),
            },
            ThermalCommand::GetThrs => Ok(FfaStep::Relay(self.get_threshold_request(payload[1]))),
            ThermalCommand::SetScp => match parse_ffa_request(payload, SET_COOLING_POLICY_REQUEST_LEN) {
                Some(b) => {
                    let request = SetCoolingPolicyRequest::from_bytes(b);
                    proof {
                        lemma_set_cooling_policy_request_roundtrip(request, b@);
                    }
                    Ok(FfaStep::Relay(self.set_scp_request(&request)))
                },
                None => Ok(FfaStep::Respond(scalar_payload(LOCAL_ERROR_SENTINEL))),
            },
            ThermalCommand::GetVar => match parse_ffa_request(payload, GET_VARIABLE_REQUEST_LEN) {
                Some(b) => {
                    let request = GetVariableRequest::from_bytes(b);
                    proof {
                        lemma_get_variable_request_roundtrip(request@, b@);
                    }
                    if request.len == VARIABLE_VALUE_LEN {
                        Ok(FfaStep::Relay(self.get_var_request(&request)))
                    } else {
                        Ok(FfaStep::Respond(scalar_payload(LOCAL_ERROR_SENTINEL)))
                    }
                },
                None => Ok(FfaStep::Respond(scalar_payload(LOCAL_ERROR_SENTINEL))),
            },
            ThermalCommand::SetVar => match parse_ffa_request(payload, SET_VARIABLE_REQUEST_LEN) {
                Some(b) => {
                    let request = SetVariableRequest::from_bytes(b);
                    proof {
                        lemma_set_variable_request_roundtrip(request@, b@);
                    }
                    if request.len == VARIABLE_VALUE_LEN {
                        Ok(FfaStep::Relay(self.set_var_request(&request)))
                    } else {
                        Ok(FfaStep::Respond(scalar_payload(INVALID_PARAMETER_STATUS)))
                    }
                },
                None => Ok(FfaStep::Respond(scalar_payload(LOCAL_ERROR_SENTINEL))),
            },
        }
    }

    /// The FF-A response payload prefix of a request once the relay gave
    /// `reply`.
    pub fn ffa_response(
        &self,
        payload: &[u8; FFA_PAYLOAD_LEN],
        reply: Result<Vec<u8>, EcRelayError>,
    ) -> (r: Result<Vec<u8>, FfaError>)
        ensures
            payload_result(r) == spec_thermal_ffa_response(payload@, reply_bytes(reply)),
    {
        let command = match ThermalCommand::try_from(payload[0] as u16) {
            Ok(c) => c,
            Err(_) => {
                return Err(FfaError::Other("Unknown Thermal Command"));
            },
        };
        match command {
            ThermalCommand::GetTmp => {
                let value = match self.get_temperature(reply) {
                    Ok(v) => v,
                    Err(_) => LOCAL_ERROR_SENTINEL,
                };
                Ok(scalar_payload(value))
            },
            ThermalCommand::SetThrs => match parse_ffa_request(payload, SET_THRESHOLD_REQUEST_LEN) {
                Some(_) => Ok(scalar_payload(setter_status(self.set_threshold(reply)))),
                None => Ok(scalar_payload(LOCAL_ERROR_SENTINEL)),
            },
            ThermalCommand::GetThrs => match self.get_threshold(reply) {
                Ok((timeout, low, high)) => Ok(threshold_payload(timeout, low, high)),
                Err(_) => Ok(
                    threshold_payload(LOCAL_ERROR_SENTINEL, LOCAL_ERROR_SENTINEL, LOCAL_ERROR_SENTINEL),
                ),
            },
            ThermalCommand::SetScp => match parse_ffa_request(payload, SET_COOLING_POLICY_REQUEST_LEN) {
                Some(_) => Ok(scalar_payload(setter_status(self.set_scp(reply)))),
                None => Ok(scalar_payload(LOCAL_ERROR_SENTINEL)),
            },
            ThermalCommand::GetVar => match parse_ffa_request(payload, GET_VARIABLE_REQUEST_LEN) {
                Some(b) => {
                    if read_u16_le(b, 1) == VARIABLE_VALUE_LEN {
                        let value = match self.get_var(reply) {
                            Ok(v) => v,
                            Err(_) => LOCAL_ERROR_SENTINEL,
                        };
                        Ok(scalar_payload(value))
                    } else {
                        Ok(scalar_payload(LOCAL_ERROR_SENTINEL))
                    }
                },
                None => Ok(scalar_payload(LOCAL_ERROR_SENTINEL)),
            },
            ThermalCommand::SetVar => match parse_ffa_request(payload, SET_VARIABLE_REQUEST_LEN) {
                Some(b) => {
                    if read_u16_le(b, 1) == VARIABLE_VALUE_LEN {
                        Ok(scalar_payload(setter_status(self.set_var(reply))))
                    } else {
                        Ok(scalar_payload(INVALID_PARAMETER_STATUS))
                    }
                },
                None => Ok(scalar_payload(LOCAL_ERROR_SENTINEL)),
            },
        }
    }
}

// ---------------------------------------------------------------------
// Laws.
// ---------------------------------------------------------------------

/// Every command id survives the trip to the wire and back, and every wire
/// id that names a command is that command's id.
pub proof fn lemma_thermal_command_id_roundtrip(command: ThermalCommand, id: u16)
    ensures
        ThermalCommand::spec_from_id(command.spec_id()) == Some(command),
        ThermalCommand::spec_from_id(id) matches Some(c) ==> c.spec_id() == id,
{
}

/// A dword reply decodes to the value that the EC encoded.
pub proof fn lemma_dword_reply_decodes_encoding(value: u32)
    ensures
        spec_dword_reply(Ok(le_u32(value))) == Ok::<u32, ThermalError>(value),
{
    lemma_le_u32_roundtrip(value, Seq::empty());
}

/// A `GetThrs` reply decodes to the three thresholds that the EC encoded.
pub proof fn lemma_get_threshold_decodes_encoding(timeout: u32, low: u32, high: u32)
    ensures
        spec_get_threshold(Ok(threshold_bytes(timeout, low, high)))
            == Ok::<(u32, u32, u32), ThermalError>((timeout, low, high)),
{
    let b = threshold_bytes(timeout, low, high);
    lemma_le_u32_roundtrip(timeout, Seq::empty());
    lemma_le_u32_roundtrip(low, Seq::empty());
    lemma_le_u32_roundtrip(high, Seq::empty());
    assert(b.subrange(0, 4) == le_u32(timeout).subrange(0, 4));
    assert(b.subrange(4, 8) == le_u32(low).subrange(0, 4));
    assert(b.subrange(8, 12) == le_u32(high).subrange(0, 4));
}

/// The getters expose the EC's raw reply at payload offset zero: a 4-byte
/// `GetTmp` body and a 12-byte `GetThrs` body come back unchanged.
pub proof fn lemma_ffa_getters_preserve_reply(p: Seq<u8>, body: Seq<u8>)
    requires
        p.len() == FFA_PAYLOAD_LEN,
    ensures
        p[0] as u16 == ThermalCommand::GetTmp.spec_id() && body.len() == 4
            ==> spec_thermal_ffa_response(p, Ok(body)) == Ok::<Seq<u8>, FfaError>(body),
        p[0] as u16 == ThermalCommand::GetThrs.spec_id() && body.len() == 12
            ==> spec_thermal_ffa_response(p, Ok(body)) == Ok::<Seq<u8>, FfaError>(body),
{
    if body.len() == 4 {
        lemma_le_u32_roundtrip(0, body);
    }
    if body.len() == 12 {
        lemma_le_u32_roundtrip(0, body.subrange(0, 4));
        lemma_le_u32_roundtrip(0, body.subrange(4, 8));
        lemma_le_u32_roundtrip(0, body.subrange(8, 12));
        assert(body.subrange(0, 4).subrange(0, 4) == body.subrange(0, 4));
        assert(body.subrange(4, 8).subrange(0, 4) == body.subrange(4, 8));
        assert(body.subrange(8, 12).subrange(0, 4) == body.subrange(8, 12));
        assert(body == body.subrange(0, 4) + body.subrange(4, 8) + body.subrange(8, 12));
    }
}

/// A failed getter round-trip, whatever the failure (a local one or an EC
/// error), answers with the all-ones sentinel in every value slot.
pub proof fn lemma_ffa_getters_answer_sentinel_on_failure(p: Seq<u8>, e: EcRelayError)
    requires
        p.len() == FFA_PAYLOAD_LEN,
    ensures
        p[0] as u16 == ThermalCommand::GetTmp.spec_id()
            ==> spec_thermal_ffa_response(p, Err(e)) == Ok::<Seq<u8>, FfaError>(le_u32(LOCAL_ERROR_SENTINEL)),
        p[0] as u16 == ThermalCommand::GetThrs.spec_id()
            ==> spec_thermal_ffa_response(p, Err(e)) == Ok::<Seq<u8>, FfaError>(
                threshold_bytes(LOCAL_ERROR_SENTINEL, LOCAL_ERROR_SENTINEL, LOCAL_ERROR_SENTINEL),
            ),
        p[0] as u16 == ThermalCommand::GetVar.spec_id()
            ==> spec_thermal_ffa_response(p, Err(e)) == Ok::<Seq<u8>, FfaError>(le_u32(LOCAL_ERROR_SENTINEL)),
{
}

/// The setters answer with the AML status word: `0` for an empty success
/// body, the EC's code for a remote error, the sentinel for a local
/// failure.
pub proof fn lemma_ffa_setters_status(p: Seq<u8>, e: EcRelayError)
    requires
        p.len() == FFA_PAYLOAD_LEN,
        p[0] as u16 == ThermalCommand::SetThrs.spec_id() || p[0] as u16 == ThermalCommand::SetScp.spec_id(),
    ensures
        spec_thermal_ffa_response(p, Ok(Seq::empty())) == Ok::<Seq<u8>, FfaError>(le_u32(0)),
        e matches EcRelayError::Remote(code)
            ==> spec_thermal_ffa_response(p, Err(e)) == Ok::<Seq<u8>, FfaError>(le_u32(code as u32)),
        !(e is Remote)
            ==> spec_thermal_ffa_response(p, Err(e)) == Ok::<Seq<u8>, FfaError>(le_u32(LOCAL_ERROR_SENTINEL)),
{
}

/// FF-A setter requests are the command byte followed by the canonical EC
/// request body: the relay gets exactly the body written after the command
/// byte.
pub proof fn lemma_ffa_setters_relay_canonical_body(
    p: Seq<u8>,
    thresholds: SetThresholdRequest,
    policy: SetCoolingPolicyRequest,
)
    requires
        p.len() == FFA_PAYLOAD_LEN,
    ensures
        p[0] as u16 == ThermalCommand::SetThrs.spec_id()
            && p.subrange(1, 1 + SET_THRESHOLD_REQUEST_LEN) == thresholds.spec_bytes()
            ==> spec_thermal_ffa_request(p) == Ok::<FfaStepModel, FfaError>(
                FfaStepModel::Relay(thermal_request(ThermalCommand::SetThrs, thresholds.spec_bytes())),
            ),
        p[0] as u16 == ThermalCommand::SetScp.spec_id()
            && p.subrange(1, 1 + SET_COOLING_POLICY_REQUEST_LEN) == policy.spec_bytes()
            ==> spec_thermal_ffa_request(p) == Ok::<FfaStepModel, FfaError>(
                FfaStepModel::Relay(thermal_request(ThermalCommand::SetScp, policy.spec_bytes())),
            ),
{
}

/// A variable command whose length field is not the canonical DWORD is
/// answered without relaying: `GetVar` with the sentinel, `SetVar` with
/// the invalid-parameter status.
pub proof fn lemma_variable_length_rejected_without_relay(p: Seq<u8>)
    requires
        p.len() == FFA_PAYLOAD_LEN,
        le_u16_at(p, 2) != VARIABLE_VALUE_LEN,
    ensures
        p[0] as u16 == ThermalCommand::GetVar.spec_id()
            ==> spec_thermal_ffa_request(p) == Ok::<FfaStepModel, FfaError>(
                FfaStepModel::Respond(le_u32(LOCAL_ERROR_SENTINEL)),
            ),
        p[0] as u16 == ThermalCommand::SetVar.spec_id()
            ==> spec_thermal_ffa_request(p) == Ok::<FfaStepModel, FfaError>(
                FfaStepModel::Respond(le_u32(INVALID_PARAMETER_STATUS)),
            ),
{
    assert(p.subrange(1, 20).subrange(1, 3) == p.subrange(2, 4));
    assert(p.subrange(1, 24).subrange(1, 3) == p.subrange(2, 4));
}

/// The two steps agree: when the request step answers at once, the
/// response step gives that answer whatever the relay reply; when it
/// rejects the request, the response step rejects it the same way.
pub proof fn lemma_thermal_steps_agree(p: Seq<u8>, reply: Result<Seq<u8>, EcRelayError>)
    requires
        p.len() == FFA_PAYLOAD_LEN,
    ensures
        spec_thermal_ffa_request(p) matches Ok(FfaStepModel::Respond(x))
            ==> spec_thermal_ffa_response(p, reply) == Ok::<Seq<u8>, FfaError>(x),
        spec_thermal_ffa_request(p) matches Err(e)
            ==> spec_thermal_ffa_response(p, reply) == Err::<Seq<u8>, FfaError>(e),
{
}

/// What each FF-A Thermal command relays: service `0x09`, the command's own
/// message id (reply id the same), and as body the instance id at payload
/// byte 1 for the getters, or the request body written after the command
/// byte (13, 13, 19 or 23 bytes) for the others.
pub proof fn lemma_ffa_thermal_requests(p: Seq<u8>)
    requires
        p.len() == FFA_PAYLOAD_LEN,
    ensures
        p[0] == 1u8 ==> spec_thermal_ffa_request(p) == Ok::<FfaStepModel, FfaError>(
            FfaStepModel::Relay(
                RelayRequestModel { service_id: 0x09, message_id: 1, response_id: 1, body: seq![p[1]] },
            ),
        ),
        p[0] == 2u8 ==> spec_thermal_ffa_request(p) == Ok::<FfaStepModel, FfaError>(
            FfaStepModel::Relay(
                RelayRequestModel { service_id: 0x09, message_id: 2, response_id: 2, body: p.subrange(1, 14) },
            ),
        ),
        p[0] == 3u8 ==> spec_thermal_ffa_request(p) == Ok::<FfaStepModel, FfaError>(
            FfaStepModel::Relay(
                RelayRequestModel { service_id: 0x09, message_id: 3, response_id: 3, body: seq![p[1]] },
            ),
        ),
        p[0] == 4u8 ==> spec_thermal_ffa_request(p) == Ok::<FfaStepModel, FfaError>(
            FfaStepModel::Relay(
                RelayRequestModel { service_id: 0x09, message_id: 4, response_id: 4, body: p.subrange(1, 14) },
            ),
        ),
        p[0] == 5u8 && le_u16_at(p, 2) == 4u16 ==> spec_thermal_ffa_request(p) == Ok::<FfaStepModel, FfaError>(
            FfaStepModel::Relay(
                RelayRequestModel { service_id: 0x09, message_id: 5, response_id: 5, body: p.subrange(1, 20) },
            ),
        ),
        p[0] == 6u8 && le_u16_at(p, 2) == 4u16 ==> spec_thermal_ffa_request(p) == Ok::<FfaStepModel, FfaError>(
            FfaStepModel::Relay(
                RelayRequestModel { service_id: 0x09, message_id: 6, response_id: 6, body: p.subrange(1, 24) },
            ),
        ),
{
    assert(p.subrange(1, 20).subrange(1, 3) == p.subrange(2, 4));
    assert(p.subrange(1, 24).subrange(1, 3) == p.subrange(2, 4));
}

/// FF-A `SetVar` with the canonical DWORD length answers with the AML
/// status word: `0` for an empty success body, the EC's code for a remote
/// error, all ones for any other failure (a non-empty body included).
/// FF-A `GetVar` with that length answers with the EC's encoded value, and
/// all ones on any failure.
pub proof fn lemma_ffa_variables_reply(p: Seq<u8>, body: Seq<u8>, value: u32, e: EcRelayError)
    requires
        p.len() == FFA_PAYLOAD_LEN,
        le_u16_at(p, 2) == 4u16,
    ensures
        p[0] == 6u8 ==> spec_thermal_ffa_response(p, Ok(Seq::empty())) == Ok::<Seq<u8>, FfaError>(le_u32(0)),
        p[0] == 6u8 && body.len() > 0 ==> spec_thermal_ffa_response(p, Ok(body)) == Ok::<Seq<u8>, FfaError>(
            le_u32(0xFFFF_FFFFu32),
        ),
        p[0] == 6u8 ==> (e matches EcRelayError::Remote(code)
            ==> spec_thermal_ffa_response(p, Err(e)) == Ok::<Seq<u8>, FfaError>(le_u32(code as u32))),
        p[0] == 6u8 && !(e is Remote) ==> spec_thermal_ffa_response(p, Err(e)) == Ok::<Seq<u8>, FfaError>(
            le_u32(0xFFFF_FFFFu32),
        ),
        p[0] == 5u8 ==> spec_thermal_ffa_response(p, Ok(le_u32(value))) == Ok::<Seq<u8>, FfaError>(le_u32(value)),
        p[0] == 5u8 ==> spec_thermal_ffa_response(p, Err(e)) == Ok::<Seq<u8>, FfaError>(le_u32(0xFFFF_FFFFu32)),
{
    assert(p.subrange(1, 20).subrange(1, 3) == p.subrange(2, 4));
    assert(p.subrange(1, 24).subrange(1, 3) == p.subrange(2, 4));
    lemma_dword_reply_decodes_encoding(value);
}

/// FF-A `SetThrs` and `SetScp` answer all ones when the EC's success reply
/// carries a body.
pub proof fn lemma_ffa_setters_reject_nonempty_reply(p: Seq<u8>, body: Seq<u8>)
    requires
        p.len() == FFA_PAYLOAD_LEN,
        p[0] == 2u8 || p[0] == 4u8,
        body.len() > 0,
    ensures
        spec_thermal_ffa_response(p, Ok(body)) == Ok::<Seq<u8>, FfaError>(le_u32(0xFFFF_FFFFu32)),
{
}

} // verus!
