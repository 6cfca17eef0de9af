use ec_service_lib::ffa::{parse_ffa_request, FfaStep, FFA_PAYLOAD_LEN};
use ec_service_lib::relay::{EcRelayError, RelayRequest};
use ec_service_lib::thermal::{
    SetCoolingPolicyRequest, SetThresholdRequest, Thermal, ThermalCommand, ThermalError,
    GET_VARIABLE_REQUEST_LEN, SET_COOLING_POLICY_REQUEST_LEN, SET_THRESHOLD_REQUEST_LEN,
    SET_VARIABLE_REQUEST_LEN, THERMAL_SERVICE_ID,
};

const UUID: [u8; 16] = [0xA5; 16];

/// An FF-A payload: the command byte, the arguments, zero padding.
fn make_ffa_request(command: ThermalCommand, args: &[u8]) -> [u8; FFA_PAYLOAD_LEN] {
    let mut payload = [0u8; FFA_PAYLOAD_LEN];
    payload[0] = u16::from(command) as u8;
    payload[1..1 + args.len()].copy_from_slice(args);
    payload
}

fn relayed(step: Result<FfaStep, ec_service_lib::ffa::FfaError>) -> RelayRequest {
    match step {
        Ok(FfaStep::Relay(request)) => request,
        Ok(FfaStep::Respond(_)) => panic!("request answered without relaying"),
        Err(e) => panic!("request rejected: {:?}", e),
    }
}

fn answered(step: Result<FfaStep, ec_service_lib::ffa::FfaError>) -> Vec<u8> {
    match step {
        Ok(FfaStep::Respond(payload)) => payload,
        Ok(FfaStep::Relay(_)) => panic!("request relayed"),
        Err(e) => panic!("request rejected: {:?}", e),
    }
}

/// The ODP message bytes that the relay frames: header
/// `[0x02, service, id_hi, id_lo]` followed by the body.
fn inner_request_bytes(request: &RelayRequest) -> Vec<u8> {
    let mut inner = vec![0x02, request.service_id];
    inner.extend_from_slice(&request.message_id.to_be_bytes());
    inner.extend_from_slice(&request.body);
    inner
}

// ---- GetTmp -----------------------------------------------------------

#[test]
fn produces_canonical_get_tmp_request_bytes() {
    // EC GetTmp response: 2982 dK ≈ 25 °C.
    let response_payload = 2982u32.to_le_bytes().to_vec();
    assert_eq!(response_payload.len(), 4, "GetTmp response body must be 4 bytes");

    let svc = Thermal::new();
    let request = svc.get_temperature_request(0x07);
    let dk = svc.get_temperature(Ok(response_payload)).expect("relay GetTmp");
    assert_eq!(dk, 2982);

    let inner_tx = inner_request_bytes(&request);
    assert_eq!(
        inner_tx,
        vec![0x02, 0x09, 0x00, 0x01, 0x07],
        "Thermal GetTmp request wire bytes must match the EC's expected encoding exactly"
    );
    assert_eq!(request.service_id, THERMAL_SERVICE_ID);
    assert_eq!(request.message_id, u16::from(ThermalCommand::GetTmp));
    assert_eq!(request.response_id, u16::from(ThermalCommand::GetTmp));
}

#[test]
fn get_temperature_surfaces_transport_read_timeout_as_relay_err() {
    let svc = Thermal::new();
    let err = svc
        .get_temperature(Err(EcRelayError::TransportReadTimeout))
        .expect_err("timeout should propagate");
    assert_eq!(err, ThermalError::Relay(EcRelayError::TransportReadTimeout));
}

#[test]
fn get_temperature_rejects_short_response_body() {
    // EC replies with a valid GetTmp header but a 2-byte payload (< 4).
    let svc = Thermal::new();
    assert_eq!(
        svc.get_temperature(Ok(vec![0xAA, 0xBB])),
        Err(ThermalError::Relay(EcRelayError::BodyTooShort))
    );
}

#[test]
fn get_temperature_rejects_trailing_response_body() {
    let svc = Thermal::new();
    assert_eq!(
        svc.get_temperature(Ok(vec![0xA6, 0x0B, 0x00, 0x00, 0xFF])),
        Err(ThermalError::Relay(EcRelayError::BodyTooLong))
    );
}

#[test]
fn ffa_get_tmp_returns_raw_u32_at_offset_zero() {
    let body = 2982u32.to_le_bytes().to_vec();
    let svc = Thermal::new();
    let payload = make_ffa_request(ThermalCommand::GetTmp, &[0x07]);

    let request = relayed(svc.ffa_request(&payload));
    assert_eq!(request.body, vec![0x07]);
    let response = svc.ffa_response(&payload, Ok(body)).expect("known command returns DIRECT_RESP2");

    assert_eq!(response, 2982u32.to_le_bytes().to_vec());
}

#[test]
fn ffa_get_tmp_returns_all_ones_on_local_failure() {
    let svc = Thermal::new();
    let payload = make_ffa_request(ThermalCommand::GetTmp, &[0x07]);

    let response = svc
        .ffa_response(&payload, Err(EcRelayError::TransportReadTimeout))
        .expect("known command returns DIRECT_RESP2");

    assert_eq!(response, u32::MAX.to_le_bytes().to_vec());
}

// ---- Request layout ---------------------------------------------------

#[test]
fn set_threshold_request_names_and_preserves_wire_fields() {
    assert_eq!(SET_THRESHOLD_REQUEST_LEN, 13);
    assert_eq!(SET_COOLING_POLICY_REQUEST_LEN, 13);
    assert_eq!(GET_VARIABLE_REQUEST_LEN, 19);
    assert_eq!(SET_VARIABLE_REQUEST_LEN, 23);

    let mut args = [0u8; 13];
    args[0] = 7;
    args[1..5].copy_from_slice(&0x1122_3344u32.to_le_bytes());
    args[5..9].copy_from_slice(&3000u32.to_le_bytes());
    args[9..13].copy_from_slice(&3100u32.to_le_bytes());
    let payload = make_ffa_request(ThermalCommand::SetThrs, &args);

    let bytes = parse_ffa_request(&payload, SET_THRESHOLD_REQUEST_LEN).expect("typed request");
    let request = SetThresholdRequest::from_bytes(bytes);

    assert_eq!(request.instance_id, 7);
    assert_eq!(request.timeout, 0x1122_3344);
    assert_eq!(request.low, 3000);
    assert_eq!(request.high, 3100);
    assert_eq!(request.as_bytes(), args.to_vec());
}

#[test]
fn parse_request_rejects_type_larger_than_payload() {
    // A request type whose command-byte-skipped prefix would run past the
    // 112-byte payload must yield None.
    let payload = [0u8; FFA_PAYLOAD_LEN];
    assert!(parse_ffa_request(&payload, 112).is_none());
}

// ---- SetScp -----------------------------------------------------------

#[test]
fn set_scp_produces_canonical_request_bytes() {
    let svc = Thermal::new();
    let request = svc.set_scp_request(&SetCoolingPolicyRequest {
        instance_id: 0,
        policy_id: 1,
        acoustic_lim: 75,
        power_lim: 25,
    });
    svc.set_scp(Ok(vec![])).expect("synthetic success");

    let inner = inner_request_bytes(&request);
    let mut expected_body = vec![0u8];
    expected_body.extend_from_slice(&1u32.to_le_bytes());
    expected_body.extend_from_slice(&75u32.to_le_bytes());
    expected_body.extend_from_slice(&25u32.to_le_bytes());
    assert_eq!(&inner[..4], &[0x02, 0x09, 0x00, 0x04]);
    assert_eq!(inner[4..].to_vec(), expected_body);
    assert_eq!(
        SetCoolingPolicyRequest::from_bytes(&inner[4..]),
        SetCoolingPolicyRequest { instance_id: 0, policy_id: 1, acoustic_lim: 75, power_lim: 25 }
    );
}

#[test]
fn set_scp_surfaces_ec_invalid_parameter() {
    let svc = Thermal::new();
    assert_eq!(
        svc.set_scp(Err(EcRelayError::Remote(1))),
        Err(ThermalError::Relay(EcRelayError::Remote(1)))
    );
}

fn scp_args() -> [u8; 13] {
    let mut args = [0u8; 13];
    args[0] = 0;
    args[1..5].copy_from_slice(&1u32.to_le_bytes());
    args[5..9].copy_from_slice(&75u32.to_le_bytes());
    args[9..13].copy_from_slice(&25u32.to_le_bytes());
    args
}

#[test]
fn ffa_set_scp_returns_ec_error_code() {
    let svc = Thermal::new();
    let payload = make_ffa_request(ThermalCommand::SetScp, &scp_args());

    let request = relayed(svc.ffa_request(&payload));
    assert_eq!(request.body, scp_args().to_vec());
    let response = svc
        .ffa_response(&payload, Err(EcRelayError::Remote(1)))
        .expect("known command returns DIRECT_RESP2");

    assert_eq!(response, 1u32.to_le_bytes().to_vec());
}

#[test]
fn set_scp_rejects_trailing_success_body() {
    let svc = Thermal::new();
    assert_eq!(svc.set_scp(Ok(vec![0xAA])), Err(ThermalError::Relay(EcRelayError::BodyTooLong)));
}

#[test]
fn ffa_set_scp_returns_all_ones_on_local_timeout() {
    let svc = Thermal::new();
    let payload = make_ffa_request(ThermalCommand::SetScp, &scp_args());

    let response = svc
        .ffa_response(&payload, Err(EcRelayError::TransportReadTimeout))
        .expect("known command returns DIRECT_RESP2");

    assert_eq!(response, u32::MAX.to_le_bytes().to_vec());
}

// ---- Thresholds -------------------------------------------------------

#[test]
fn set_threshold_produces_canonical_request_bytes() {
    let svc = Thermal::new();
    let request = svc.set_threshold_request(&SetThresholdRequest { instance_id: 0, timeout: 0, low: 3000, high: 3100 });
    svc.set_threshold(Ok(vec![])).expect("SetThrs success");

    let inner = inner_request_bytes(&request);
    assert_eq!(
        inner,
        vec![0x02, 0x09, 0x00, 0x02, 0x00, 0x00, 0x00, 0x00, 0x00, 0xB8, 0x0B, 0x00, 0x00, 0x1C, 0x0C, 0x00, 0x00,]
    );
    assert_eq!(
        SetThresholdRequest::from_bytes(&inner[4..]),
        SetThresholdRequest { instance_id: 0, timeout: 0, low: 3000, high: 3100 }
    );
}

fn threshold_body() -> Vec<u8> {
    let mut body = Vec::new();
    body.extend_from_slice(&0u32.to_le_bytes());
    body.extend_from_slice(&3000u32.to_le_bytes());
    body.extend_from_slice(&3100u32.to_le_bytes());
    body
}

#[test]
fn get_threshold_parses_exact_canonical_response() {
    let body = threshold_body();
    assert_eq!(body.len(), 12);
    let svc = Thermal::new();
    assert_eq!(svc.get_threshold(Ok(body)), Ok((0, 3000, 3100)));
}

#[test]
fn set_threshold_rejects_trailing_success_body() {
    let svc = Thermal::new();
    assert_eq!(svc.set_threshold(Ok(vec![0xAA])), Err(ThermalError::Relay(EcRelayError::BodyTooLong)));
}

#[test]
fn get_threshold_rejects_short_body() {
    let svc = Thermal::new();
    assert_eq!(svc.get_threshold(Ok(vec![0u8; 11])), Err(ThermalError::Relay(EcRelayError::BodyTooShort)));
}

#[test]
fn get_threshold_rejects_trailing_body() {
    let svc = Thermal::new();
    assert_eq!(svc.get_threshold(Ok(vec![0u8; 13])), Err(ThermalError::Relay(EcRelayError::BodyTooLong)));
}

#[test]
fn ffa_set_threshold_uses_u32_timeout_at_offset_two() {
    let svc = Thermal::new();
    let mut args = [0u8; 13];
    args[0] = 0;
    args[1..5].copy_from_slice(&0x1122_3344u32.to_le_bytes());
    args[5..9].copy_from_slice(&3000u32.to_le_bytes());
    args[9..13].copy_from_slice(&3100u32.to_le_bytes());
    let payload = make_ffa_request(ThermalCommand::SetThrs, &args);

    let request = relayed(svc.ffa_request(&payload));
    let response = svc.ffa_response(&payload, Ok(vec![])).expect("known command returns DIRECT_RESP2");

    assert_eq!(response, 0u32.to_le_bytes().to_vec());
    let inner = inner_request_bytes(&request);
    assert_eq!(&inner[5..9], &0x1122_3344u32.to_le_bytes());
}

#[test]
fn ffa_get_threshold_returns_raw_three_u32_prefix() {
    let body = threshold_body();
    let svc = Thermal::new();
    let payload = make_ffa_request(ThermalCommand::GetThrs, &[0]);

    let request = relayed(svc.ffa_request(&payload));
    assert_eq!(request.body, vec![0]);
    let response = svc.ffa_response(&payload, Ok(body.clone())).expect("known command returns DIRECT_RESP2");

    assert_eq!(response, body);
}

#[test]
fn ffa_get_threshold_returns_all_ones_on_failure() {
    let svc = Thermal::new();
    let payload = make_ffa_request(ThermalCommand::GetThrs, &[0]);

    let response = svc.ffa_response(&payload, Ok(vec![0u8; 11])).expect("known command returns DIRECT_RESP2");

    assert_eq!(response, vec![0xFF; 12]);
}

// ---- Variables --------------------------------------------------------

#[test]
fn ffa_get_var_rejects_non_dword_length_without_relaying() {
    let svc = Thermal::new();
    let mut args = [0u8; 19];
    args[0] = 0;
    args[1..3].copy_from_slice(&8u16.to_le_bytes());
    args[3..19].copy_from_slice(&UUID);
    let payload = make_ffa_request(ThermalCommand::GetVar, &args);

    let response = answered(svc.ffa_request(&payload));

    assert_eq!(response, u32::MAX.to_le_bytes().to_vec());
}

#[test]
fn ffa_set_var_rejects_non_dword_length_as_invalid_parameter() {
    let svc = Thermal::new();
    let mut args = [0u8; 23];
    args[0] = 0;
    args[1..3].copy_from_slice(&8u16.to_le_bytes());
    args[3..19].copy_from_slice(&UUID);
    args[19..23].copy_from_slice(&3500u32.to_le_bytes());
    let payload = make_ffa_request(ThermalCommand::SetVar, &args);

    let response = answered(svc.ffa_request(&payload));

    assert_eq!(response, 1u32.to_le_bytes().to_vec());
}
