use ec_service_lib::battery::{Battery, BatteryCommand, BatteryError};
use ec_service_lib::ffa::{parse_ffa_request, scalar_payload, FfaError, FfaStep, FFA_PAYLOAD_LEN};
use ec_service_lib::panic_guard::{panic_entry, panic_location, PanicEntry};
use ec_service_lib::relay::{parse_empty_response, take_array, take_exact_array, EcRelayError};
use ec_service_lib::thermal::{
    setter_status as thermal_setter_status, threshold_payload, GetVariableRequest, SetCoolingPolicyRequest,
    SetThresholdRequest, SetVariableRequest, Thermal, ThermalCommand, ThermalError, INVALID_PARAMETER_STATUS,
};
use ec_service_lib::time_alarm::{
    setter_status as time_alarm_setter_status, SetTimerValueRequest, TimeAlarm, TimeAlarmCommand, TimeAlarmError,
    TimerIdRequest,
};

fn payload(command: u8, args: &[u8]) -> [u8; FFA_PAYLOAD_LEN] {
    let mut p = [0u8; FFA_PAYLOAD_LEN];
    p[0] = command;
    p[1..1 + args.len()].copy_from_slice(args);
    p
}

#[test]
fn command_ids_survive_the_wire() {
    for c in [BatteryCommand::GetBix, BatteryCommand::GetBst, BatteryCommand::SetBtp] {
        assert_eq!(BatteryCommand::try_from(u16::from(c)), Ok(c));
    }
    assert_eq!(u16::from(BatteryCommand::GetBix), 1);
    assert_eq!(u16::from(BatteryCommand::GetBst), 2);
    assert_eq!(u16::from(BatteryCommand::SetBtp), 6);
    assert_eq!(BatteryCommand::try_from(3), Err(3));
    for c in [
        ThermalCommand::GetTmp,
        ThermalCommand::SetThrs,
        ThermalCommand::GetThrs,
        ThermalCommand::SetScp,
        ThermalCommand::GetVar,
        ThermalCommand::SetVar,
    ] {
        assert_eq!(ThermalCommand::try_from(u16::from(c)), Ok(c));
    }
    assert_eq!(u16::from(ThermalCommand::SetVar), 6);
    assert_eq!(ThermalCommand::try_from(0), Err(0));
    assert_eq!(ThermalCommand::try_from(7), Err(7));
    for c in [
        TimeAlarmCommand::GetCapabilities,
        TimeAlarmCommand::GetRealTime,
        TimeAlarmCommand::GetWakeStatus,
        TimeAlarmCommand::SetTimerValue,
        TimeAlarmCommand::GetTimerValue,
        TimeAlarmCommand::GetExpiredTimerPolicy,
    ] {
        assert_eq!(TimeAlarmCommand::try_from(u16::from(c)), Ok(c));
    }
    assert_eq!(u16::from(TimeAlarmCommand::GetExpiredTimerPolicy), 9);
    assert_eq!(TimeAlarmCommand::try_from(3), Err(3));
    assert_eq!(TimeAlarmCommand::try_from(0xFFFF), Err(0xFFFF));
}

#[test]
fn request_layouts_survive_the_wire() {
    let thrs = SetThresholdRequest { instance_id: 2, timeout: 0xDEAD_BEEF, low: 2900, high: 3300 };
    assert_eq!(thrs.as_bytes().len(), 13);
    assert_eq!(SetThresholdRequest::from_bytes(&thrs.as_bytes()), thrs);

    let scp = SetCoolingPolicyRequest { instance_id: 1, policy_id: 2, acoustic_lim: 3, power_lim: 0xFFFF_FFFF };
    assert_eq!(scp.as_bytes()[9..13], [0xFF; 4]);
    assert_eq!(SetCoolingPolicyRequest::from_bytes(&scp.as_bytes()), scp);

    let mut uuid = [0u8; 16];
    for (i, b) in uuid.iter_mut().enumerate() {
        *b = i as u8;
    }
    let get_var = GetVariableRequest { instance_id: 4, len: 4, uuid };
    let bytes = get_var.as_bytes();
    assert_eq!(bytes.len(), 19);
    assert_eq!(&bytes[..3], &[4, 4, 0]);
    assert_eq!(&bytes[3..], &uuid);
    assert_eq!(GetVariableRequest::from_bytes(&bytes), get_var);

    let set_var = SetVariableRequest { instance_id: 5, len: 0x0102, uuid, value: 3500 };
    let bytes = set_var.as_bytes();
    assert_eq!(bytes.len(), 23);
    assert_eq!(&bytes[1..3], &[0x02, 0x01]);
    assert_eq!(&bytes[19..], &3500u32.to_le_bytes());
    assert_eq!(SetVariableRequest::from_bytes(&bytes), set_var);

    let timer = TimerIdRequest { timer_id: 1 };
    assert_eq!(timer.as_bytes(), vec![1, 0, 0, 0]);
    assert_eq!(TimerIdRequest::from_bytes(&timer.as_bytes()), timer);
    let set_timer = SetTimerValueRequest { timer_id: 1, seconds: 0x0A0B_0C0D };
    assert_eq!(set_timer.as_bytes(), vec![1, 0, 0, 0, 0x0D, 0x0C, 0x0B, 0x0A]);
    assert_eq!(SetTimerValueRequest::from_bytes(&set_timer.as_bytes()), set_timer);
}

#[test]
fn body_helpers_accept_only_their_lengths() {
    let body = [1u8, 2, 3, 4, 5];
    assert_eq!(take_array(&body, 4), Ok((&body[..4], &body[4..])));
    assert_eq!(take_array(&body, 5), Ok((&body[..], &body[5..])));
    assert_eq!(take_array(&body, 6), Err(EcRelayError::BodyTooShort));
    assert_eq!(take_exact_array(&body, 5), Ok(&body[..]));
    assert_eq!(take_exact_array(&body, 6), Err(EcRelayError::BodyTooShort));
    assert_eq!(take_exact_array(&body, 4), Err(EcRelayError::BodyTooLong));
    assert_eq!(parse_empty_response(&[]), Ok(()));
    assert_eq!(parse_empty_response(&[0]), Err(EcRelayError::BodyTooLong));
}

#[test]
fn setter_status_words() {
    assert_eq!(thermal_setter_status(Ok(())), 0);
    assert_eq!(thermal_setter_status(Err(ThermalError::Relay(EcRelayError::Remote(7)))), 7);
    assert_eq!(thermal_setter_status(Err(ThermalError::Relay(EcRelayError::Remote(0xFFFF)))), 0xFFFF);
    assert_eq!(thermal_setter_status(Err(ThermalError::Relay(EcRelayError::BodyTooLong))), u32::MAX);
    assert_eq!(thermal_setter_status(Err(ThermalError::Relay(EcRelayError::UnexpectedResponse))), u32::MAX);
    assert_eq!(thermal_setter_status(Err(ThermalError::UnexpectedResponse)), u32::MAX);
    assert_eq!(time_alarm_setter_status(Ok(())), 0);
    assert_eq!(time_alarm_setter_status(Err(TimeAlarmError::Relay(EcRelayError::Remote(3)))), 3);
    assert_eq!(time_alarm_setter_status(Err(TimeAlarmError::Relay(EcRelayError::TransportReadTimeout))), u32::MAX);
}

#[test]
fn relay_errors_convert_into_service_errors() {
    assert_eq!(BatteryError::from(EcRelayError::BodyTooShort), BatteryError::Relay(EcRelayError::BodyTooShort));
    assert_eq!(ThermalError::from(EcRelayError::Remote(2)), ThermalError::Relay(EcRelayError::Remote(2)));
    assert_eq!(
        TimeAlarmError::from(EcRelayError::TransportReadTimeout),
        TimeAlarmError::Relay(EcRelayError::TransportReadTimeout)
    );
}

#[test]
fn payload_builders_write_little_endian_words() {
    assert_eq!(scalar_payload(0x0102_0304), vec![4, 3, 2, 1]);
    assert_eq!(threshold_payload(1, 2, 0x0300_0000), vec![1, 0, 0, 0, 2, 0, 0, 0, 0, 0, 0, 3]);
    let p = payload(9, &[1, 2, 3]);
    assert_eq!(parse_ffa_request(&p, 3), Some(&[1u8, 2, 3][..]));
    assert_eq!(parse_ffa_request(&p, 111).map(|b| b.len()), Some(111));
    assert_eq!(parse_ffa_request(&p, 112), None);
}

#[test]
fn battery_round_trip_failures_become_ffa_errors() {
    let svc = Battery::new();
    let get_bst = payload(2, &[0]);
    assert_eq!(
        svc.ffa_response(&get_bst, Ok(vec![0; 15])),
        Err(FfaError::Other("Battery: GetBst round-trip failed (transport or wire decode)"))
    );
    let get_bix = payload(1, &[0]);
    assert_eq!(
        svc.ffa_response(&get_bix, Ok(vec![0; 101])),
        Err(FfaError::Other("Battery: GetBix round-trip failed (transport or wire decode)"))
    );
    let set_btp = payload(6, &[0]);
    assert_eq!(
        svc.ffa_response(&set_btp, Err(EcRelayError::Remote(1))),
        Err(FfaError::Other("Battery: SetBtp round-trip failed (transport or wire decode)"))
    );
    assert_eq!(
        svc.ffa_response(&payload(0, &[]), Ok(vec![])),
        Err(FfaError::Other("Unknown Battery Command"))
    );
}

#[test]
fn get_bst_ignores_bytes_past_the_four_dwords() {
    let svc = Battery::new();
    let mut body: Vec<u8> = (1..=16).collect();
    body.extend_from_slice(&[0xEE; 4]);
    let bst = svc.get_bst(Ok(body)).expect("16 leading bytes decode");
    assert_eq!(bst.battery_state, 0x0403_0201);
    assert_eq!(bst.battery_present_voltage, 0x100F_0E0D);
    assert_eq!(svc.get_bst(Ok(vec![0; 15])), Err(BatteryError::Relay(EcRelayError::BodyTooShort)));
    assert_eq!(svc.get_bix(Ok(vec![0; 99])), Err(BatteryError::Relay(EcRelayError::BodyTooShort)));
    assert_eq!(svc.set_btp(Ok(vec![1])), Err(BatteryError::Relay(EcRelayError::BodyTooLong)));
}

#[test]
fn immediate_answers_do_not_depend_on_a_reply() {
    let svc = Thermal::new();
    let mut args = [0u8; 23];
    args[1..3].copy_from_slice(&2u16.to_le_bytes());
    let set_var = payload(6, &args);
    match svc.ffa_request(&set_var) {
        Ok(FfaStep::Respond(p)) => assert_eq!(p, INVALID_PARAMETER_STATUS.to_le_bytes().to_vec()),
        _ => panic!("a non-DWORD SetVar is answered at once"),
    }
    assert_eq!(svc.ffa_response(&set_var, Ok(vec![])), Ok(1u32.to_le_bytes().to_vec()));
    assert_eq!(
        svc.ffa_response(&set_var, Err(EcRelayError::Remote(9))),
        Ok(1u32.to_le_bytes().to_vec())
    );
}

#[test]
fn dword_variables_are_relayed_unchanged() {
    let svc = Thermal::new();
    let mut args = [0u8; 23];
    args[0] = 1;
    args[1..3].copy_from_slice(&4u16.to_le_bytes());
    args[3..19].copy_from_slice(&[0x5A; 16]);
    args[19..23].copy_from_slice(&3500u32.to_le_bytes());
    let set_var = payload(6, &args);
    match svc.ffa_request(&set_var) {
        Ok(FfaStep::Relay(r)) => {
            assert_eq!(r.body, args.to_vec());
            assert_eq!(r.message_id, 6);
        }
        _ => panic!("a DWORD SetVar is relayed"),
    }
    assert_eq!(svc.ffa_response(&set_var, Err(EcRelayError::Remote(2))), Ok(2u32.to_le_bytes().to_vec()));

    let get_var = payload(5, &args[..19]);
    match svc.ffa_request(&get_var) {
        Ok(FfaStep::Relay(r)) => assert_eq!(r.body, args[..19].to_vec()),
        _ => panic!("a DWORD GetVar is relayed"),
    }
    assert_eq!(svc.ffa_response(&get_var, Ok(vec![7, 0, 0, 0])), Ok(vec![7, 0, 0, 0]));
    assert_eq!(svc.ffa_response(&get_var, Ok(vec![7, 0, 0])), Ok(vec![0xFF; 4]));
    assert_eq!(svc.ffa_response(&payload(0x10, &[]), Ok(vec![])), Err(FfaError::Other("Unknown Thermal Command")));
}

#[test]
fn get_real_time_failures_answer_the_zero_timestamp() {
    let svc = TimeAlarm::new();
    let p = payload(2, &[]);
    assert_eq!(svc.ffa_response(&p, Ok(vec![1; 15])), Ok(vec![0; 16]));
    assert_eq!(svc.ffa_response(&p, Err(EcRelayError::TransportReadTimeout)), Ok(vec![0; 16]));
    assert_eq!(svc.ffa_response(&p, Ok(vec![9; 16])), Ok(vec![9; 16]));
    assert_eq!(svc.get_capabilities(Ok(vec![0xF7, 0x01, 0, 0])), Ok(0x1F7));
    assert_eq!(svc.get_wake_status(Err(EcRelayError::Remote(4))), Err(TimeAlarmError::Relay(EcRelayError::Remote(4))));
    assert_eq!(svc.get_expired_timer_policy(Ok(vec![45, 0, 0, 0])), Ok(45));
}

#[test]
fn a_panic_is_reported_once() {
    let (first, flag) = panic_entry(false);
    assert_eq!(first, PanicEntry::Report);
    assert!(flag);
    let (second, flag) = panic_entry(flag);
    assert_eq!(second, PanicEntry::Halt);
    assert!(flag);
    assert_eq!(panic_location(None), ("???", 0, 0));
    assert_eq!(panic_location(Some(("src/main.rs", 12, 5))), ("src/main.rs", 12, 5));
}

#[test]
fn get_bst_reports_a_reply_to_another_request_as_unexpected() {
    let svc = Battery::new();
    assert_eq!(svc.get_bst(Err(EcRelayError::UnexpectedResponse)), Err(BatteryError::UnexpectedResponse));
    assert_eq!(
        svc.ffa_response(&payload(2, &[0]), Err(EcRelayError::UnexpectedResponse)),
        Err(FfaError::Other("Battery: GetBst round-trip failed (transport or wire decode)"))
    );
    assert_eq!(
        svc.get_bst(Err(EcRelayError::TransportReadTimeout)),
        Err(BatteryError::Relay(EcRelayError::TransportReadTimeout))
    );
}
