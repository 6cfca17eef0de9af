//! `TimeAlarm`: relays Normal-World ACPI time and alarm requests to the EC.
//!
//! Service id `0x0B`. The real-time clock is read as the 16-byte ACPI
//! timestamp; the timer commands carry little-endian timer ids and
//! seconds, and the EC answers each with a reply whose message id names
//! the kind of answer (capabilities, timer status, wake policy, timer
//! seconds, or an empty success).
//!
//! Each round-trip is split in two: a `*_request` function gives what the
//! relay sends, and the function named after the operation decodes what
//! came back.

use vstd::prelude::*;
use crate::ffa::{
    payload_result, scalar_payload, spec_parse_ffa_request, step_result, parse_ffa_request,
    FfaError, FfaStep, FfaStepModel, FFA_PAYLOAD_LEN, LOCAL_ERROR_SENTINEL,
};
use crate::relay::{
    parse_empty_response, reply_bytes, spec_take_exact, take_exact_array, EcRelayError,
    RelayRequest, RelayRequestModel,
};
use crate::wire::{bytes16, le_u32, le_u32_at, lemma_le_u32_roundtrip, push_bytes, push_u32_le, read_u32_le};

verus! {

pub const TIME_ALARM_SERVICE_ID: u8 = 0x0B;

/// Bytes in an ACPI timestamp.
pub const ACPI_TIMESTAMP_LEN: usize = 16;

/// Bytes in a request body that holds one timer id.
pub const TIMER_ID_REQUEST_LEN: usize = 4;

/// Bytes in the `SetTimerValue` request body.
pub const SET_TIMER_VALUE_REQUEST_LEN: usize = 8;

/// TimeAlarm command ids (FF-A request byte 0 / ODP message id).
#[derive(Debug, Clone, Copy, PartialEq, Eq)]
pub enum TimeAlarmCommand {
    GetCapabilities,
    GetRealTime,
    GetWakeStatus,
    SetTimerValue,
    GetTimerValue,
    GetExpiredTimerPolicy,
}

impl TimeAlarmCommand {
    /// The command's wire id.
    pub open spec fn spec_id(self) -> u16 {
        match self {
            TimeAlarmCommand::GetCapabilities => 1,
            TimeAlarmCommand::GetRealTime => 2,
            TimeAlarmCommand::GetWakeStatus => 4,
            TimeAlarmCommand::SetTimerValue => 6,
            TimeAlarmCommand::GetTimerValue => 7,
            TimeAlarmCommand::GetExpiredTimerPolicy => 9,
        }
    }

    /// The command that a wire id names, if any.
    pub open spec fn spec_from_id(id: u16) -> Option<TimeAlarmCommand> {
        if id == 1 {
            Some(TimeAlarmCommand::GetCapabilities)
        } else if id == 2 {
            Some(TimeAlarmCommand::GetRealTime)
        } else if id == 4 {
            Some(TimeAlarmCommand::GetWakeStatus)
        } else if id == 6 {
            Some(TimeAlarmCommand::SetTimerValue)
        } else if id == 7 {
            Some(TimeAlarmCommand::GetTimerValue)
        } else if id == 9 {
            Some(TimeAlarmCommand::GetExpiredTimerPolicy)
        } else {
            None
        }
    }
}

impl From<TimeAlarmCommand> for u16 {
    fn from(command: TimeAlarmCommand) -> (id: u16) {
        match command {
            TimeAlarmCommand::GetCapabilities => 1,
            TimeAlarmCommand::GetRealTime => 2,
            TimeAlarmCommand::GetWakeStatus => 4,
            TimeAlarmCommand::SetTimerValue => 6,
            TimeAlarmCommand::GetTimerValue => 7,
            TimeAlarmCommand::GetExpiredTimerPolicy => 9,
        }
    }
}

impl vstd::std_specs::convert::FromSpecImpl<TimeAlarmCommand> for u16 {
    open spec fn obeys_from_spec() -> bool {
        true
    }

    open spec fn from_spec(command: TimeAlarmCommand) -> u16 {
        command.spec_id()
    }
}

impl TryFrom<u16> for TimeAlarmCommand {
    /// The id that names no command.
    type Error = u16;

    fn try_from(id: u16) -> (r: Result<TimeAlarmCommand, u16>) {
        if id == 1 {
            Ok(TimeAlarmCommand::GetCapabilities)
        } else if id == 2 {
            Ok(TimeAlarmCommand::GetRealTime)
        } else if id == 4 {
            Ok(TimeAlarmCommand::GetWakeStatus)
        } else if id == 6 {
            Ok(TimeAlarmCommand::SetTimerValue)
        } else if id == 7 {
            Ok(TimeAlarmCommand::GetTimerValue)
        } else if id == 9 {
            Ok(TimeAlarmCommand::GetExpiredTimerPolicy)
        } else {
            Err(id)
        }
    }
}

impl vstd::std_specs::convert::TryFromSpecImpl<u16> for TimeAlarmCommand {
    open spec fn obeys_try_from_spec() -> bool {
        true
    }

    open spec fn try_from_spec(id: u16) -> Result<TimeAlarmCommand, u16> {
        match TimeAlarmCommand::spec_from_id(id) {
            Some(c) => Ok(c),
            None => Err(id),
        }
    }
}

/// The message id that the EC's reply carries, naming the kind of answer.
#[derive(Debug, Clone, Copy, PartialEq, Eq)]
pub enum TimeAlarmResponseDiscriminant {
    Capabilities,
    TimerStatus,
    WakePolicy,
    TimerSeconds,
    OkNoData,
}

impl TimeAlarmResponseDiscriminant {
    /// The discriminant's wire id.
    pub open spec fn spec_id(self) -> u16 {
        match self {
            TimeAlarmResponseDiscriminant::Capabilities => 1,
            TimeAlarmResponseDiscriminant::TimerStatus => 3,
            TimeAlarmResponseDiscriminant::WakePolicy => 4,
            TimeAlarmResponseDiscriminant::TimerSeconds => 5,
            TimeAlarmResponseDiscriminant::OkNoData => 6,
        }
    }
}

impl From<TimeAlarmResponseDiscriminant> for u16 {
    fn from(d: TimeAlarmResponseDiscriminant) -> (id: u16) {
        match d {
            TimeAlarmResponseDiscriminant::Capabilities => 1,
            TimeAlarmResponseDiscriminant::TimerStatus => 3,
            TimeAlarmResponseDiscriminant::WakePolicy => 4,
            TimeAlarmResponseDiscriminant::TimerSeconds => 5,
            TimeAlarmResponseDiscriminant::OkNoData => 6,
        }
    }
}

impl vstd::std_specs::convert::FromSpecImpl<TimeAlarmResponseDiscriminant> for u16 {
    open spec fn obeys_from_spec() -> bool {
        true
    }

    open spec fn from_spec(d: TimeAlarmResponseDiscriminant) -> u16 {
        d.spec_id()
    }
}

/// Errors of a TimeAlarm round-trip.
#[derive(Debug, Clone, Copy, PartialEq, Eq)]
pub enum TimeAlarmError {
    /// The relay failed, or the reply body did not fit the wire format.
    Relay(EcRelayError),
}

impl From<EcRelayError> for TimeAlarmError {
    fn from(error: EcRelayError) -> (r: TimeAlarmError) {
        TimeAlarmError::Relay(error)
    }
}

impl vstd::std_specs::convert::FromSpecImpl<EcRelayError> for TimeAlarmError {
    open spec fn obeys_from_spec() -> bool {
        true
    }

    open spec fn from_spec(e: EcRelayError) -> TimeAlarmError {
        TimeAlarmError::Relay(e)
    }
}

// ---------------------------------------------------------------------
// Request bodies: little-endian, packed, command byte stripped.
// ---------------------------------------------------------------------

/// Request body of `GetWakeStatus`, `GetTimerValue` and
/// `GetExpiredTimerPolicy`: the ACPI timer id.
#[derive(Debug, Clone, Copy, PartialEq, Eq)]
pub struct TimerIdRequest {
    pub timer_id: u32,
}

/// `SetTimerValue` request body: the ACPI timer id and the seconds.
#[derive(Debug, Clone, Copy, PartialEq, Eq)]
pub struct SetTimerValueRequest {
    pub timer_id: u32,
    pub seconds: u32,
}

impl TimerIdRequest {
    /// The request's wire bytes.
    pub open spec fn spec_bytes(self) -> Seq<u8> {
        le_u32(self.timer_id)
    }

    /// The request that four wire bytes hold.
    pub open spec fn spec_from_bytes(s: Seq<u8>) -> TimerIdRequest {
        TimerIdRequest { timer_id: le_u32_at(s, 0) }
    }

    /// Decodes a request from its wire bytes.
    pub fn from_bytes(s: &[u8]) -> (r: TimerIdRequest)
        requires
            s@.len() == TIMER_ID_REQUEST_LEN,
        ensures
            r == TimerIdRequest::spec_from_bytes(s@),
    {
        TimerIdRequest { timer_id: read_u32_le(s, 0) }
    }

    /// The request's wire bytes.
    pub fn as_bytes(&self) -> (b: Vec<u8>)
        ensures
            b@ == self.spec_bytes(),
    {
        let mut b = Vec::new();
        push_u32_le(&mut b, self.timer_id);
        b
    }
}

impl SetTimerValueRequest {
    /// The request's wire bytes.
    pub open spec fn spec_bytes(self) -> Seq<u8> {
        le_u32(self.timer_id) + le_u32(self.seconds)
    }

    /// The request that eight wire bytes hold.
    pub open spec fn spec_from_bytes(s: Seq<u8>) -> SetTimerValueRequest {
        SetTimerValueRequest { timer_id: le_u32_at(s, 0), seconds: le_u32_at(s, 4) }
    }

    /// Decodes a request from its wire bytes.
    pub fn from_bytes(s: &[u8]) -> (r: SetTimerValueRequest)
        requires
            s@.len() == SET_TIMER_VALUE_REQUEST_LEN,
        ensures
            r == SetTimerValueRequest::spec_from_bytes(s@),
    {
        SetTimerValueRequest { timer_id: read_u32_le(s, 0), seconds: read_u32_le(s, 4) }
    }

    /// The request's wire bytes.
    pub fn as_bytes(&self) -> (b: Vec<u8>)
        ensures
            b@ == self.spec_bytes(),
    {
        let mut b = Vec::new();
        push_u32_le(&mut b, self.timer_id);
        push_u32_le(&mut b, self.seconds);
        b
    }
}

/// A timer-id body is four bytes, decoding its bytes gives the request
/// back, and any four bytes are the encoding of what they decode to.
pub proof fn lemma_timer_id_request_roundtrip(r: TimerIdRequest, s: Seq<u8>)
    ensures
        r.spec_bytes().len() == TIMER_ID_REQUEST_LEN,
        TimerIdRequest::spec_from_bytes(r.spec_bytes()) == r,
        s.len() == TIMER_ID_REQUEST_LEN ==> TimerIdRequest::spec_from_bytes(s).spec_bytes() == s,
{
    lemma_le_u32_roundtrip(r.timer_id, s);
}

/// A `SetTimerValue` body is eight bytes, decoding its bytes gives the
/// request back, and any eight bytes are the encoding of what they decode
/// to.
pub proof fn lemma_set_timer_value_request_roundtrip(r: SetTimerValueRequest, s: Seq<u8>)
    ensures
        r.spec_bytes().len() == SET_TIMER_VALUE_REQUEST_LEN,
        SetTimerValueRequest::spec_from_bytes(r.spec_bytes()) == r,
        s.len() == SET_TIMER_VALUE_REQUEST_LEN ==> SetTimerValueRequest::spec_from_bytes(s).spec_bytes() == s,
{
    let b = r.spec_bytes();
    lemma_le_u32_roundtrip(r.timer_id, s.subrange(0, 4));
    lemma_le_u32_roundtrip(r.seconds, s.subrange(4, 8));
    assert(b.subrange(0, 4) == le_u32(r.timer_id));
    assert(b.subrange(4, 8) == le_u32(r.seconds));
    assert(le_u32(r.timer_id).subrange(0, 4) == le_u32(r.timer_id));
    assert(le_u32(r.seconds).subrange(0, 4) == le_u32(r.seconds));
    if s.len() == SET_TIMER_VALUE_REQUEST_LEN {
        assert(s.subrange(0, 4).subrange(0, 4) == s.subrange(0, 4));
        assert(s.subrange(4, 8).subrange(0, 4) == s.subrange(4, 8));
        assert(s == s.subrange(0, 4) + s.subrange(4, 8));
    }
}

// ---------------------------------------------------------------------
// Round-trips.
// ---------------------------------------------------------------------

/// The relay request of a TimeAlarm command whose reply must carry the
/// message id `response_id`.
pub open spec fn time_alarm_request(command: TimeAlarmCommand, response_id: u16, body: Seq<u8>) -> RelayRequestModel {
    RelayRequestModel {
        service_id: TIME_ALARM_SERVICE_ID,
        message_id: command.spec_id(),
        response_id,
        body,
    }
}

/// A reply whose body is exactly one little-endian dword.
pub open spec fn spec_dword_reply(reply: Result<Seq<u8>, EcRelayError>) -> Result<u32, TimeAlarmError> {
    match reply {
        Err(e) => Err(TimeAlarmError::Relay(e)),
        Ok(b) => match spec_take_exact(b, 4) {
            Ok(_) => Ok(le_u32_at(b, 0)),
            Err(e) => Err(TimeAlarmError::Relay(e)),
        },
    }
}

/// A reply whose success carries no payload.
pub open spec fn spec_empty_reply(reply: Result<Seq<u8>, EcRelayError>) -> Result<(), TimeAlarmError> {
    match reply {
        Err(e) => Err(TimeAlarmError::Relay(e)),
        Ok(b) => if b.len() == 0 {
            Ok(())
        } else {
            Err(TimeAlarmError::Relay(EcRelayError::BodyTooLong))
        },
    }
}

/// The decoded `GetRealTime` reply: exactly the 16-byte ACPI timestamp.
pub open spec fn spec_get_real_time(reply: Result<Seq<u8>, EcRelayError>) -> Result<Seq<u8>, TimeAlarmError> {
    match reply {
        Err(e) => Err(TimeAlarmError::Relay(e)),
        Ok(b) => match spec_take_exact(b, ACPI_TIMESTAMP_LEN as nat) {
            Ok(ts) => Ok(ts),
            Err(e) => Err(TimeAlarmError::Relay(e)),
        },
    }
}

/// The `GetRealTime` result, the array taken as a sequence.
pub open spec fn timestamp_result(r: Result<[u8; ACPI_TIMESTAMP_LEN], TimeAlarmError>) -> Result<Seq<u8>, TimeAlarmError> {
    match r {
        Ok(a) => Ok(a@),
        Err(e) => Err(e),
    }
}

/// The AML status word of a setter round-trip: `0` on success, the EC's
/// code for a remote error, the local sentinel otherwise.
pub open spec fn spec_setter_status(result: Result<(), TimeAlarmError>) -> u32 {
    match result {
        Ok(()) => 0,
        Err(TimeAlarmError::Relay(EcRelayError::Remote(code))) => code as u32,
        Err(_) => LOCAL_ERROR_SENTINEL,
    }
}

/// A getter's value, or the local sentinel when the round-trip failed.
pub open spec fn value_or_sentinel(result: Result<u32, TimeAlarmError>) -> u32 {
    match result {
        Ok(v) => v,
        Err(_) => LOCAL_ERROR_SENTINEL,
    }
}

/// Collapses a setter round-trip into the AML status word.
pub fn setter_status(result: Result<(), TimeAlarmError>) -> (status: u32)
    ensures
        status == spec_setter_status(result),
{
    match result {
        Ok(()) => 0,
        Err(TimeAlarmError::Relay(EcRelayError::Remote(code))) => code as u32,
        Err(_) => LOCAL_ERROR_SENTINEL,
    }
}

fn time_alarm_relay_request(command: TimeAlarmCommand, response_id: u16, body: Vec<u8>) -> (r: RelayRequest)
    ensures
        r@ == time_alarm_request(command, response_id, body@),
{
    RelayRequest {
        service_id: TIME_ALARM_SERVICE_ID,
        message_id: u16::from(command),
        response_id,
        body,
    }
}

fn dword_reply(reply: Result<Vec<u8>, EcRelayError>) -> (r: Result<u32, TimeAlarmError>)
    ensures
        r == spec_dword_reply(reply_bytes(reply)),
{
    match &reply {
        Ok(b) => match take_exact_array(b.as_slice(), 4) {
            Ok(value) => Ok(read_u32_le(value, 0)),
            Err(e) => Err(TimeAlarmError::Relay(e)),
        },
        Err(e) => Err(TimeAlarmError::Relay(*e)),
    }
}

/// The ACPI timestamp that marks a failed `GetRealTime`: all zero.
pub open spec fn invalid_timestamp() -> Seq<u8> {
    Seq::new(ACPI_TIMESTAMP_LEN as nat, |i: int| 0u8)
}

/// What the service does with an FF-A request payload: reject an unknown
/// command; otherwise relay it, with the timer request body that follows
/// the command byte unchanged.
pub open spec fn spec_time_alarm_ffa_request(p: Seq<u8>) -> Result<FfaStepModel, FfaError> {
    match TimeAlarmCommand::spec_from_id(p[0] as u16) {
        None => Err(FfaError::Other("Unknown TimeAlarm Command")),
        Some(TimeAlarmCommand::GetCapabilities) => Ok(
            FfaStepModel::Relay(
                time_alarm_request(
                    TimeAlarmCommand::GetCapabilities,
                    TimeAlarmResponseDiscriminant::Capabilities.spec_id(),
                    Seq::empty(),
                ),
            ),
        ),
        Some(TimeAlarmCommand::GetRealTime) => Ok(
            FfaStepModel::Relay(
                time_alarm_request(
                    TimeAlarmCommand::GetRealTime,
                    TimeAlarmCommand::GetRealTime.spec_id(),
                    Seq::empty(),
                ),
            ),
        ),
        Some(TimeAlarmCommand::GetWakeStatus) => match spec_parse_ffa_request(p, TIMER_ID_REQUEST_LEN as nat) {
            Some(b) => Ok(
                FfaStepModel::Relay(
                    time_alarm_request(
                        TimeAlarmCommand::GetWakeStatus,
                        TimeAlarmResponseDiscriminant::TimerStatus.spec_id(),
                        b,
                    ),
                ),
            ),
            None => Ok(FfaStepModel::Respond(le_u32(LOCAL_ERROR_SENTINEL))),
        },
        Some(TimeAlarmCommand::SetTimerValue) => match spec_parse_ffa_request(p, SET_TIMER_VALUE_REQUEST_LEN as nat) {
            Some(b) => Ok(
                FfaStepModel::Relay(
                    time_alarm_request(
                        TimeAlarmCommand::SetTimerValue,
                        TimeAlarmResponseDiscriminant::OkNoData.spec_id(),
                        b,
                    ),
                ),
            ),
            None => Ok(FfaStepModel::Respond(le_u32(LOCAL_ERROR_SENTINEL))),
        },
        Some(TimeAlarmCommand::GetTimerValue) => match spec_parse_ffa_request(p, TIMER_ID_REQUEST_LEN as nat) {
            Some(b) => Ok(
                FfaStepModel::Relay(
                    time_alarm_request(
                        TimeAlarmCommand::GetTimerValue,
                        TimeAlarmResponseDiscriminant::TimerSeconds.spec_id(),
                        b,
                    ),
                ),
            ),
            None => Ok(FfaStepModel::Respond(le_u32(LOCAL_ERROR_SENTINEL))),
        },
        Some(TimeAlarmCommand::GetExpiredTimerPolicy) => match spec_parse_ffa_request(p, TIMER_ID_REQUEST_LEN as nat) {
            Some(b) => Ok(
                FfaStepModel::Relay(
                    time_alarm_request(
                        TimeAlarmCommand::GetExpiredTimerPolicy,
                        TimeAlarmResponseDiscriminant::WakePolicy.spec_id(),
                        b,
                    ),
                ),
            ),
            None => Ok(FfaStepModel::Respond(le_u32(LOCAL_ERROR_SENTINEL))),
        },
    }
}

/// The FF-A response payload prefix of a request once the relay gave
/// `reply`: getters expose the raw value (the timestamp for
/// `GetRealTime`), or the sentinel (the all-zero timestamp) on any failure;
/// `SetTimerValue` exposes the AML status word.
pub open spec fn spec_time_alarm_ffa_response(
    p: Seq<u8>,
    reply: Result<Seq<u8>, EcRelayError>,
) -> Result<Seq<u8>, FfaError> {
    match TimeAlarmCommand::spec_from_id(p[0] as u16) {
        None => Err(FfaError::Other("Unknown TimeAlarm Command")),
        Some(TimeAlarmCommand::GetCapabilities) => Ok(le_u32(value_or_sentinel(spec_dword_reply(reply)))),
        Some(TimeAlarmCommand::GetRealTime) => match spec_get_real_time(reply) {
            Ok(ts) => Ok(ts),
            Err(_) => Ok(invalid_timestamp()),
        },
        Some(TimeAlarmCommand::SetTimerValue) => match spec_parse_ffa_request(p, SET_TIMER_VALUE_REQUEST_LEN as nat) {
            Some(_) => Ok(le_u32(spec_setter_status(spec_empty_reply(reply)))),
            None => Ok(le_u32(LOCAL_ERROR_SENTINEL)),
        },
        Some(_) => match spec_parse_ffa_request(p, TIMER_ID_REQUEST_LEN as nat) {
            Some(_) => Ok(le_u32(value_or_sentinel(spec_dword_reply(reply)))),
            None => Ok(le_u32(LOCAL_ERROR_SENTINEL)),
        },
    }
}

/// The TimeAlarm service. It keeps no state: every operation is a relay
/// round-trip.
pub struct TimeAlarm;

impl TimeAlarm {
    pub fn new() -> (t: TimeAlarm) {
        TimeAlarm
    }

    /// The relay request of a `GetRealTime` round-trip: no body; the reply
    /// carries the command's own id.
    pub fn get_real_time_request(&self) -> (r: RelayRequest)
        ensures
            r@ == time_alarm_request(
                TimeAlarmCommand::GetRealTime,
                TimeAlarmCommand::GetRealTime.spec_id(),
                Seq::empty(),
            ),
    {
        time_alarm_relay_request(
            TimeAlarmCommand::GetRealTime,
            u16::from(TimeAlarmCommand::GetRealTime),
            Vec::new(),
        )
    }

    /// Decodes the reply of a `GetRealTime` round-trip: the exact 16-byte
    /// ACPI timestamp.
    pub fn get_real_time(&self, reply: Result<Vec<u8>, EcRelayError>) -> (r: Result<
        [u8; ACPI_TIMESTAMP_LEN],
        TimeAlarmError,
    >)
        ensures
            timestamp_result(r) == spec_get_real_time(reply_bytes(reply)),
    {
        match &reply {
            Ok(b) => match take_exact_array(b.as_slice(), ACPI_TIMESTAMP_LEN) {
                Ok(ts) => Ok(bytes16(ts)),
                Err(e) => Err(TimeAlarmError::Relay(e)),
            },
            Err(e) => Err(TimeAlarmError::Relay(*e)),
        }
    }

    /// The relay request of a `GetCapabilities` round-trip.
    pub fn get_capabilities_request(&self) -> (r: RelayRequest)
        ensures
            r@ == time_alarm_request(
                TimeAlarmCommand::GetCapabilities,
                TimeAlarmResponseDiscriminant::Capabilities.spec_id(),
                Seq::empty(),
            ),
    {
        time_alarm_relay_request(
            TimeAlarmCommand::GetCapabilities,
            u16::from(TimeAlarmResponseDiscriminant::Capabilities),
            Vec::new(),
        )
    }

    /// Decodes the reply of a `GetCapabilities` round-trip: one exact
    /// dword.
    pub fn get_capabilities(&self, reply: Result<Vec<u8>, EcRelayError>) -> (r: Result<u32, TimeAlarmError>)
        ensures
            r == spec_dword_reply(reply_bytes(reply)),
    {
        dword_reply(reply)
    }

    /// The relay request of a `GetWakeStatus` round-trip.
    pub fn get_wake_status_request(&self, request: &TimerIdRequest) -> (r: RelayRequest)
        ensures
            r@ == time_alarm_request(
                TimeAlarmCommand::GetWakeStatus,
                TimeAlarmResponseDiscriminant::TimerStatus.spec_id(),
                request.spec_bytes(),
            ),
    {
        time_alarm_relay_request(
            TimeAlarmCommand::GetWakeStatus,
            u16::from(TimeAlarmResponseDiscriminant::TimerStatus),
            request.as_bytes(),
        )
    }

    /// Decodes the reply of a `GetWakeStatus` round-trip: one exact dword.
    pub fn get_wake_status(&self, reply: Result<Vec<u8>, EcRelayError>) -> (r: Result<u32, TimeAlarmError>)
        ensures
            r == spec_dword_reply(reply_bytes(reply)),
    {
        dword_reply(reply)
    }

    /// The relay request of a `SetTimerValue` round-trip.
    pub fn set_timer_value_request(&self, request: &SetTimerValueRequest) -> (r: RelayRequest)
        ensures
            r@ == time_alarm_request(
                TimeAlarmCommand::SetTimerValue,
                TimeAlarmResponseDiscriminant::OkNoData.spec_id(),
                request.spec_bytes(),
            ),
    {
        time_alarm_relay_request(
            TimeAlarmCommand::SetTimerValue,
            u16::from(TimeAlarmResponseDiscriminant::OkNoData),
            request.as_bytes(),
        )
    }

    /// Decodes the reply of a `SetTimerValue` round-trip: success carries
    /// no payload.
    pub fn set_timer_value(&self, reply: Result<Vec<u8>, EcRelayError>) -> (r: Result<(), TimeAlarmError>)
        ensures
            r == spec_empty_reply(reply_bytes(reply)),
    {
        match &reply {
            Ok(b) => match parse_empty_response(b.as_slice()) {
                Ok(()) => Ok(()),
                Err(e) => Err(TimeAlarmError::Relay(e)),
            },
            Err(e) => Err(TimeAlarmError::Relay(*e)),
        }
    }

    /// The relay request of a `GetTimerValue` round-trip.
    pub fn get_timer_value_request(&self, request: &TimerIdRequest) -> (r: RelayRequest)
        ensures
            r@ == time_alarm_request(
                TimeAlarmCommand::GetTimerValue,
                TimeAlarmResponseDiscriminant::TimerSeconds.spec_id(),
                request.spec_bytes(),
            ),
    {
        time_alarm_relay_request(
            TimeAlarmCommand::GetTimerValue,
            u16::from(TimeAlarmResponseDiscriminant::TimerSeconds),
            request.as_bytes(),
        )
    }

    /// Decodes the reply of a `GetTimerValue` round-trip: one exact dword.
    pub fn get_timer_value(&self, reply: Result<Vec<u8>, EcRelayError>) -> (r: Result<u32, TimeAlarmError>)
        ensures
            r == spec_dword_reply(reply_bytes(reply)),
    {
        dword_reply(reply)
    }

    /// The relay request of a `GetExpiredTimerPolicy` round-trip.
    pub fn get_expired_timer_policy_request(&self, request: &TimerIdRequest) -> (r: RelayRequest)
        ensures
            r@ == time_alarm_request(
                TimeAlarmCommand::GetExpiredTimerPolicy,
                TimeAlarmResponseDiscriminant::WakePolicy.spec_id(),
                request.spec_bytes(),
            ),
    {
        time_alarm_relay_request(
            TimeAlarmCommand::GetExpiredTimerPolicy,
            u16::from(TimeAlarmResponseDiscriminant::WakePolicy),
            request.as_bytes(),
        )
    }

    /// Decodes the reply of a `GetExpiredTimerPolicy` round-trip: one
    /// exact dword.
    pub fn get_expired_timer_policy(&self, reply: Result<Vec<u8>, EcRelayError>) -> (r: Result<u32, TimeAlarmError>)
        ensures
            r == spec_dword_reply(reply_bytes(reply)),
    {
        dword_reply(reply)
    }
    /// What the service does with an FF-A request.
    pub fn ffa_request(&self, payload: &[u8; FFA_PAYLOAD_LEN]) -> (r: Result<FfaStep, FfaError>)
        ensures
            step_result(r) == spec_time_alarm_ffa_request(payload@),
    {
        let command = match TimeAlarmCommand::try_from(payload[0] as u16) {
            Ok(c) => c,
            Err(_) => {
                return Err(FfaError::Other("Unknown TimeAlarm Command"));
            },
        };
        match command {
            TimeAlarmCommand::GetCapabilities => Ok(FfaStep::Relay(self.get_capabilities_request())),
            TimeAlarmCommand::GetRealTime => Ok(FfaStep::Relay(self.get_real_time_request())),
            TimeAlarmCommand::SetTimerValue => match parse_ffa_request(payload, SET_TIMER_VALUE_REQUEST_LEN) {
                Some(b) => {
                    let request = SetTimerValueRequest::from_bytes(b);
                    proof {
                        lemma_set_timer_value_request_roundtrip(request, b@);
                    }
                    Ok(FfaStep::Relay(self.set_timer_value_request(&request)))
                },
                None => Ok(FfaStep::Respond(scalar_payload(LOCAL_ERROR_SENTINEL))),
            },
            _ => match parse_ffa_request(payload, TIMER_ID_REQUEST_LEN) {
                Some(b) => {
                    let request = TimerIdRequest::from_bytes(b);
                    proof {
                        lemma_timer_id_request_roundtrip(request, b@);
                    }
                    let relay = match command {
                        TimeAlarmCommand::GetWakeStatus => self.get_wake_status_request(&request),
                        TimeAlarmCommand::GetTimerValue => self.get_timer_value_request(&request),
                        _ => self.get_expired_timer_policy_request(&request),
                    };
                    Ok(FfaStep::Relay(relay))
                },
                None => Ok(FfaStep::Respond(scalar_payload(LOCAL_ERROR_SENTINEL))),
            },
        }
    }

    /// The FF-A response payload prefix of a request once the relay gave
    /// `reply`.
    pub fn ffa_response(
        &self,
        payload: &[u8; FFA_PAYLOAD_LEN],
        reply: Result<Vec<u8>, EcRelayError>,
    ) -> (r: Result<Vec<u8>, FfaError>)
        ensures
            payload_result(r) == spec_time_alarm_ffa_response(payload@, reply_bytes(reply)),
    {
        let command = match TimeAlarmCommand::try_from(payload[0] as u16) {
            Ok(c) => c,
            Err(_) => {
                return Err(FfaError::Other("Unknown TimeAlarm Command"));
            },
        };
        match command {
            TimeAlarmCommand::GetCapabilities => {
                let value = match self.get_capabilities(reply) {
                    Ok(v) => v,
                    Err(_) => LOCAL_ERROR_SENTINEL,
                };
                Ok(scalar_payload(value))
            },
            TimeAlarmCommand::GetRealTime => {
                let timestamp = match self.get_real_time(reply) {
                    Ok(ts) => ts,
                    Err(_) => {
                        let invalid = [0u8; ACPI_TIMESTAMP_LEN];
                        assert(invalid@ == invalid_timestamp());
                        invalid
                    },
                };
                let mut out = Vec::new();
                push_bytes(&mut out, timestamp.as_slice());
                Ok(out)
            },
            TimeAlarmCommand::SetTimerValue => match parse_ffa_request(payload, SET_TIMER_VALUE_REQUEST_LEN) {
                Some(_) => Ok(scalar_payload(setter_status(self.set_timer_value(reply)))),
                None => Ok(scalar_payload(LOCAL_ERROR_SENTINEL)),
            },
            _ => match parse_ffa_request(payload, TIMER_ID_REQUEST_LEN) {
                Some(_) => {
                    let result = match command {
                        TimeAlarmCommand::GetWakeStatus => self.get_wake_status(reply),
                        TimeAlarmCommand::GetTimerValue => self.get_timer_value(reply),
                        _ => self.get_expired_timer_policy(reply),
                    };
                    let value = match result {
                        Ok(v) => v,
                        Err(_) => LOCAL_ERROR_SENTINEL,
                    };
                    Ok(scalar_payload(value))
                },
                None => Ok(scalar_payload(LOCAL_ERROR_SENTINEL)),
            },
        }
    }
}

// ---------------------------------------------------------------------
// Laws.
// ---------------------------------------------------------------------

/// Every command id survives the trip to the wire and back, and every wire
/// id that names a command is that command's id.
pub proof fn lemma_time_alarm_command_id_roundtrip(command: TimeAlarmCommand, id: u16)
    ensures
        TimeAlarmCommand::spec_from_id(command.spec_id()) == Some(command),
        TimeAlarmCommand::spec_from_id(id) matches Some(c) ==> c.spec_id() == id,
{
}

/// `GetRealTime` answers with the EC's 16-byte timestamp at payload offset
/// zero, and with the all-zero invalid timestamp when the round-trip
/// fails, an EC error envelope included.
pub proof fn lemma_ffa_get_real_time_reply(p: Seq<u8>, body: Seq<u8>, e: EcRelayError)
    requires
        p.len() == FFA_PAYLOAD_LEN,
        p[0] as u16 == TimeAlarmCommand::GetRealTime.spec_id(),
    ensures
        body.len() == ACPI_TIMESTAMP_LEN ==> spec_time_alarm_ffa_response(p, Ok(body)) == Ok::<Seq<u8>, FfaError>(body),
        body.len() != ACPI_TIMESTAMP_LEN ==> spec_time_alarm_ffa_response(p, Ok(body)) == Ok::<Seq<u8>, FfaError>(invalid_timestamp()),
        spec_time_alarm_ffa_response(p, Err(e)) == Ok::<Seq<u8>, FfaError>(invalid_timestamp()),
{
}

/// The dword getters answer with the value that the EC encoded, and with
/// the sentinel on any failure, an EC error included.
pub proof fn lemma_ffa_time_alarm_getters(p: Seq<u8>, value: u32, e: EcRelayError)
    requires
        p.len() == FFA_PAYLOAD_LEN,
        p[0] as u16 == TimeAlarmCommand::GetCapabilities.spec_id()
            || p[0] as u16 == TimeAlarmCommand::GetWakeStatus.spec_id()
            || p[0] as u16 == TimeAlarmCommand::GetTimerValue.spec_id()
            || p[0] as u16 == TimeAlarmCommand::GetExpiredTimerPolicy.spec_id(),
    ensures
        spec_time_alarm_ffa_response(p, Ok(le_u32(value))) == Ok::<Seq<u8>, FfaError>(le_u32(value)),
        spec_time_alarm_ffa_response(p, Err(e)) == Ok::<Seq<u8>, FfaError>(le_u32(LOCAL_ERROR_SENTINEL)),
{
    lemma_le_u32_roundtrip(value, Seq::empty());
}

/// `SetTimerValue` answers with the AML status word: `0` for an empty
/// success body, the EC's code for a remote error, the sentinel for a
/// local failure.
pub proof fn lemma_ffa_set_timer_value_status(p: Seq<u8>, e: EcRelayError)
    requires
        p.len() == FFA_PAYLOAD_LEN,
        p[0] as u16 == TimeAlarmCommand::SetTimerValue.spec_id(),
    ensures
        spec_time_alarm_ffa_response(p, Ok(Seq::empty())) == Ok::<Seq<u8>, FfaError>(le_u32(0)),
        e matches EcRelayError::Remote(code)
            ==> spec_time_alarm_ffa_response(p, Err(e)) == Ok::<Seq<u8>, FfaError>(le_u32(code as u32)),
        !(e is Remote)
            ==> spec_time_alarm_ffa_response(p, Err(e)) == Ok::<Seq<u8>, FfaError>(le_u32(LOCAL_ERROR_SENTINEL)),
{
}

/// The two steps agree: when the request step answers at once, the
/// response step gives that answer whatever the relay reply; when it
/// rejects the request, the response step rejects it the same way.
pub proof fn lemma_time_alarm_steps_agree(p: Seq<u8>, reply: Result<Seq<u8>, EcRelayError>)
    requires
        p.len() == FFA_PAYLOAD_LEN,
    ensures
        spec_time_alarm_ffa_request(p) matches Ok(FfaStepModel::Respond(x))
            ==> spec_time_alarm_ffa_response(p, reply) == Ok::<Seq<u8>, FfaError>(x),
        spec_time_alarm_ffa_request(p) matches Err(e)
            ==> spec_time_alarm_ffa_response(p, reply) == Err::<Seq<u8>, FfaError>(e),
{
}

/// What each FF-A TimeAlarm command relays: service `0x0B`, the command's
/// own message id, the id of the reply kind that must come back, and as
/// body nothing (`GetCapabilities`, `GetRealTime`) or the timer request
/// written after the command byte (the 4-byte timer id, or timer id and
/// seconds for `SetTimerValue`).
pub proof fn lemma_ffa_time_alarm_requests(p: Seq<u8>)
    requires
        p.len() == FFA_PAYLOAD_LEN,
    ensures
        p[0] == 1u8 ==> spec_time_alarm_ffa_request(p) == Ok::<FfaStepModel, FfaError>(
            FfaStepModel::Relay(
                RelayRequestModel { service_id: 0x0B, message_id: 1, response_id: 1, body: Seq::empty() },
            ),
        ),
        p[0] == 2u8 ==> spec_time_alarm_ffa_request(p) == Ok::<FfaStepModel, FfaError>(
            FfaStepModel::Relay(
                RelayRequestModel { service_id: 0x0B, message_id: 2, response_id: 2, body: Seq::empty() },
            ),
        ),
        p[0] == 4u8 ==> spec_time_alarm_ffa_request(p) == Ok::<FfaStepModel, FfaError>(
            FfaStepModel::Relay(
                RelayRequestModel { service_id: 0x0B, message_id: 4, response_id: 3, body: p.subrange(1, 5) },
            ),
        ),
        p[0] == 6u8 ==> spec_time_alarm_ffa_request(p) == Ok::<FfaStepModel, FfaError>(
            FfaStepModel::Relay(
                RelayRequestModel { service_id: 0x0B, message_id: 6, response_id: 6, body: p.subrange(1, 9) },
            ),
        ),
        p[0] == 7u8 ==> spec_time_alarm_ffa_request(p) == Ok::<FfaStepModel, FfaError>(
            FfaStepModel::Relay(
                RelayRequestModel { service_id: 0x0B, message_id: 7, response_id: 5, body: p.subrange(1, 5) },
            ),
        ),
        p[0] == 9u8 ==> spec_time_alarm_ffa_request(p) == Ok::<FfaStepModel, FfaError>(
            FfaStepModel::Relay(
                RelayRequestModel { service_id: 0x0B, message_id: 9, response_id: 4, body: p.subrange(1, 5) },
            ),
        ),
{
}

} // verus!
