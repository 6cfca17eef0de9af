use ec_service_lib::battery::{Battery, BatteryCommand, BstReturnRaw, BATTERY_SERVICE_ID, BIX_RESPONSE_LEN};
use ec_service_lib::ffa::{FfaError, FfaStep, FFA_PAYLOAD_LEN};
use ec_service_lib::relay::RelayRequest;

/// The four `BST` dwords that the EC serializes for a discharging battery.
fn canned_bst() -> BstReturnRaw {
    BstReturnRaw {
        battery_state: 0x0000_0001, // discharging
        battery_present_rate: 0x1122_3344,
        battery_remaining_capacity: 0x5566_7788,
        battery_present_voltage: 0x99AA_BBCC,
    }
}

fn serialized_bst(bst: &BstReturnRaw) -> Vec<u8> {
    let mut body = Vec::new();
    body.extend_from_slice(&bst.battery_state.to_le_bytes());
    body.extend_from_slice(&bst.battery_present_rate.to_le_bytes());
    body.extend_from_slice(&bst.battery_remaining_capacity.to_le_bytes());
    body.extend_from_slice(&bst.battery_present_voltage.to_le_bytes());
    body
}

/// The ODP message bytes that the relay frames: header
/// `[0x02, service, id_hi, id_lo]` followed by the body.
fn inner_request_bytes(request: &RelayRequest) -> Vec<u8> {
    let mut inner = vec![0x02, request.service_id];
    inner.extend_from_slice(&request.message_id.to_be_bytes());
    inner.extend_from_slice(&request.body);
    inner
}

fn make_ffa_request(opcode: u8, args: &[u8]) -> [u8; FFA_PAYLOAD_LEN] {
    let mut payload = [0u8; FFA_PAYLOAD_LEN];
    payload[0] = opcode;
    payload[1..1 + args.len()].copy_from_slice(args);
    payload
}

fn relayed(step: Result<FfaStep, FfaError>) -> RelayRequest {
    match step {
        Ok(FfaStep::Relay(request)) => request,
        Ok(FfaStep::Respond(_)) => panic!("request answered without relaying"),
        Err(e) => panic!("request rejected: {:?}", e),
    }
}

fn u32_at(payload: &[u8], offset: usize) -> u32 {
    u32::from_le_bytes([payload[offset], payload[offset + 1], payload[offset + 2], payload[offset + 3]])
}

#[test]
fn produces_canonical_get_bst_request_bytes() {
    let bst = canned_bst();
    let response_payload = serialized_bst(&bst);
    assert_eq!(response_payload.len(), 16, "GetBst response body must be 16 bytes");

    let svc = Battery::new();
    let request = svc.get_bst_request(0);
    let result = svc.get_bst(Ok(response_payload)).expect("get_bst should decode synthesized response");

    let inner_tx = inner_request_bytes(&request);
    assert_eq!(
        inner_tx,
        vec![0x02, 0x08, 0x00, 0x02, 0x00],
        "Battery GetBst request wire bytes must match the EC's expected encoding exactly"
    );
    assert_eq!(request.service_id, BATTERY_SERVICE_ID);
    assert_eq!(request.message_id, u16::from(BatteryCommand::GetBst));
    assert_eq!(BatteryCommand::try_from(request.message_id), Ok(BatteryCommand::GetBst));
    assert_eq!(request.body, vec![0]);

    assert_eq!(result.battery_state, bst.battery_state);
    assert_eq!(result.battery_present_rate, bst.battery_present_rate);
    assert_eq!(result.battery_remaining_capacity, bst.battery_remaining_capacity);
    assert_eq!(result.battery_present_voltage, bst.battery_present_voltage);
}

#[test]
fn ffa_get_bst_relays_requested_battery_id_and_preserves_response() {
    let bst = canned_bst();
    let body = serialized_bst(&bst);
    let svc = Battery::new();

    let battery_id = 0x03;
    let payload = make_ffa_request(u16::from(BatteryCommand::GetBst) as u8, &[battery_id]);
    let request = relayed(svc.ffa_request(&payload));
    let response = svc.ffa_response(&payload, Ok(body)).expect("valid GetBst returns DIRECT_RESP2");

    assert_eq!(
        inner_request_bytes(&request),
        vec![0x02, 0x08, 0x00, 0x02, battery_id],
        "requested battery_id must appear as the last EC request byte"
    );
    assert_eq!(u32_at(&response, 0), bst.battery_state);
    assert_eq!(u32_at(&response, 4), bst.battery_present_rate);
    assert_eq!(u32_at(&response, 8), bst.battery_remaining_capacity);
    assert_eq!(u32_at(&response, 12), bst.battery_present_voltage);
}

#[test]
fn ffa_unknown_opcode_is_rejected_without_relaying() {
    let svc = Battery::new();
    let result = svc.ffa_request(&make_ffa_request(0xFF, &[0x00]));
    assert!(matches!(result, Err(FfaError::Other("Unknown Battery Command"))));
}

#[test]
fn ffa_get_bix_preserves_canonical_full_response() {
    let body: Vec<u8> = (0..BIX_RESPONSE_LEN).map(|i| (i * 7 + 3) as u8).collect();
    assert_eq!(body.len(), BIX_RESPONSE_LEN);

    let svc = Battery::new();
    let payload = make_ffa_request(u16::from(BatteryCommand::GetBix) as u8, &[0]);
    let request = relayed(svc.ffa_request(&payload));
    assert_eq!(request.body, vec![0]);
    let response = svc.ffa_response(&payload, Ok(body.clone())).expect("GetBix returns DIRECT_RESP2");

    assert_eq!(response, body);
    assert_eq!(svc.get_bix(Ok(body.clone())).map(|a| a.to_vec()), Ok(body));
}

#[test]
fn ffa_set_btp_compacts_aml_padding_to_canonical_ec_request() {
    let battery_id = 3;
    let trip_point = 0x1122_3344u32;
    let mut args = [0u8; 7];
    args[0] = battery_id;
    args[3..].copy_from_slice(&trip_point.to_le_bytes());
    let svc = Battery::new();
    let payload = make_ffa_request(u16::from(BatteryCommand::SetBtp) as u8, &args);

    let request = relayed(svc.ffa_request(&payload));
    let response = svc.ffa_response(&payload, Ok(vec![])).expect("SetBtp returns DIRECT_RESP2");

    assert!(response.is_empty());
    let mut expected = vec![0x02, BATTERY_SERVICE_ID, 0x00, 0x06];
    expected.push(battery_id);
    expected.extend_from_slice(&trip_point.to_le_bytes());
    assert_eq!(inner_request_bytes(&request), expected);
    let direct = svc.set_btp_request(battery_id, trip_point);
    assert_eq!(direct.body, request.body);
}
