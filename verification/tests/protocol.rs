use serial_remote::checksum::{checksum, frame_with_checksum, verify_frame};
use serial_remote::command::{encode, is_query, LogicalCommand};
use serial_remote::error::{CommandFailure, InvalidCommand};
use serial_remote::parse::parse_command;
use serial_remote::response::{
    check_control_response, check_response_header, extract_query_payload, is_powered_on,
    resolve_toggle, validate_response_tail,
};

fn simulated_query_response(header: &Vec<u8>, payload: &[u8]) -> Vec<u8> {
    let mut checked: Vec<u8> = header.clone();
    checked.extend_from_slice(payload);
    let c = checksum(&checked);
    let mut data: Vec<u8> = payload.to_vec();
    data.push(c);
    data
}

#[test]
fn checksum_of_empty_is_zero() {
    assert_eq!(checksum(&vec![]), 0);
}

#[test]
fn checksum_is_the_byte_sum() {
    assert_eq!(checksum(&vec![0x8c, 0x00, 0x00, 0x02, 0x01]), 0x8f);
    assert_eq!(checksum(&vec![0x70, 0x00]), 0x70);
}

#[test]
fn checksum_wraps_mod_256() {
    assert_eq!(checksum(&vec![0xff, 0x02]), 0x01);
    assert_eq!(checksum(&vec![0x80, 0x80]), 0x00);
    assert_eq!(checksum(&vec![0xff, 0xff, 0xff]), 0xfd);
}

#[test]
fn checksum_is_deterministic() {
    let frame = vec![0x83, 0x00, 0x00, 0xff, 0xff];
    assert_eq!(checksum(&frame), checksum(&frame));
}

#[test]
fn checksum_is_order_independent() {
    let a = vec![0x12, 0x34, 0x56];
    let b = vec![0x56, 0x34, 0x12];
    assert_eq!(checksum(&a), checksum(&b));
}

#[test]
fn appending_checksum_always_validates() {
    let frames = vec![
        vec![],
        vec![0x00],
        vec![0x8c, 0x00, 0x00, 0x02, 0x01],
        vec![0x83, 0x00, 0x00, 0xff, 0xff],
        vec![0xff, 0xff, 0xff, 0xff],
    ];
    for frame in frames {
        let full = frame_with_checksum(&frame);
        assert_eq!(full.len(), frame.len() + 1);
        assert!(verify_frame(&full));
    }
}

#[test]
fn tampered_frame_fails_validation() {
    let mut full = frame_with_checksum(&vec![0x8c, 0x00, 0x00, 0x02, 0x01]);
    full[3] ^= 0x04;
    assert!(!verify_frame(&full));
}

#[test]
fn empty_frame_fails_validation() {
    assert!(!verify_frame(&vec![]));
}

#[test]
fn encode_power_on() {
    assert_eq!(encode(&LogicalCommand::PowerOn), vec![0x8c, 0x00, 0x00, 0x02, 0x01]);
}

#[test]
fn encode_power_off() {
    assert_eq!(encode(&LogicalCommand::PowerOff), vec![0x8c, 0x00, 0x00, 0x02, 0x00]);
}

#[test]
fn encode_volume_up() {
    assert_eq!(encode(&LogicalCommand::VolumeUp), vec![0x8c, 0x00, 0x05, 0x03, 0x00, 0x00]);
}

#[test]
fn encode_volume_down() {
    assert_eq!(encode(&LogicalCommand::VolumeDown), vec![0x8c, 0x00, 0x05, 0x03, 0x00, 0x01]);
}

#[test]
fn encode_volume_set() {
    assert_eq!(encode(&LogicalCommand::VolumeSet(0)), vec![0x8c, 0x00, 0x05, 0x03, 0x01, 0x00]);
    assert_eq!(encode(&LogicalCommand::VolumeSet(0x2a)), vec![0x8c, 0x00, 0x05, 0x03, 0x01, 0x2a]);
    assert_eq!(encode(&LogicalCommand::VolumeSet(255)), vec![0x8c, 0x00, 0x05, 0x03, 0x01, 0xff]);
}

#[test]
fn encode_mute_toggle() {
    assert_eq!(encode(&LogicalCommand::MuteToggle), vec![0x8c, 0x00, 0x06, 0x02, 0x00]);
}

#[test]
fn encode_query_power() {
    assert_eq!(encode(&LogicalCommand::QueryPower), vec![0x83, 0x00, 0x00, 0xff, 0xff]);
}

#[test]
fn only_query_power_is_a_query() {
    assert!(is_query(&LogicalCommand::QueryPower));
    assert!(!is_query(&LogicalCommand::PowerOn));
    assert!(!is_query(&LogicalCommand::PowerOff));
    assert!(!is_query(&LogicalCommand::PowerToggle));
    assert!(!is_query(&LogicalCommand::VolumeUp));
    assert!(!is_query(&LogicalCommand::VolumeDown));
    assert!(!is_query(&LogicalCommand::VolumeSet(7)));
    assert!(!is_query(&LogicalCommand::MuteToggle));
}

#[test]
fn good_header_passes() {
    assert!(check_response_header(&vec![0x70, 0x00, 0x02]).is_ok());
}

#[test]
fn wrong_first_byte_is_unexpected_header() {
    let r = check_response_header(&vec![0x71, 0x00, 0x02]);
    assert!(matches!(r, Err(CommandFailure::UnexpectedResponseHeader(0x71))));
}

#[test]
fn wrong_answer_byte_is_unexpected_answer() {
    let r = check_response_header(&vec![0x70, 0x05, 0x02]);
    assert!(matches!(r, Err(CommandFailure::UnexpectedResponseAnswer(0x05))));
}

#[test]
fn query_payload_round_trip() {
    let header = vec![0x70, 0x00, 0x02];
    let data = simulated_query_response(&header, &[0x01]);
    let payload = extract_query_payload(&header, &data).unwrap();
    assert_eq!(payload, vec![0x01]);
}

#[test]
fn query_payload_with_one_decodes_powered_on() {
    let header = vec![0x70, 0x00, 0x02];
    let data = simulated_query_response(&header, &[0x01]);
    let payload = extract_query_payload(&header, &data).unwrap();
    assert!(is_powered_on(&payload));
}

#[test]
fn empty_payload_decodes_powered_off() {
    let header = vec![0x70, 0x00, 0x01];
    let data = simulated_query_response(&header, &[]);
    let payload = extract_query_payload(&header, &data).unwrap();
    assert_eq!(payload, Vec::<u8>::new());
    assert!(!is_powered_on(&payload));
}

#[test]
fn zero_payload_decodes_powered_off() {
    let header = vec![0x70, 0x00, 0x02];
    let data = simulated_query_response(&header, &[0x00]);
    let payload = extract_query_payload(&header, &data).unwrap();
    assert!(!is_powered_on(&payload));
}

#[test]
fn tampered_checksum_is_rejected_without_payload() {
    let header = vec![0x70, 0x00, 0x02];
    let mut data = simulated_query_response(&header, &[0x01]);
    let last = data.len() - 1;
    data[last] ^= 0x01;
    let r = extract_query_payload(&header, &data);
    assert!(matches!(r, Err(CommandFailure::InvalidResponseChecksum)));
}

#[test]
fn empty_query_data_is_empty_response() {
    let header = vec![0x70, 0x00, 0x00];
    let r = extract_query_payload(&header, &vec![]);
    assert!(matches!(r, Err(CommandFailure::EmptyResponse)));
}

#[test]
fn control_response_with_correct_checksum_passes() {
    assert!(check_control_response(&vec![0x70, 0x00, 0x70]).is_ok());
}

#[test]
fn control_response_with_tampered_checksum_fails() {
    let r = check_control_response(&vec![0x70, 0x00, 0x71]);
    assert!(matches!(r, Err(CommandFailure::InvalidResponseChecksum)));
}

#[test]
fn validate_tail_shares_one_rule() {
    let prefix = vec![0x70, 0x00];
    let r = validate_response_tail(&prefix, &vec![0x70]);
    assert!(matches!(r, Ok(p) if p.is_empty()));
    let r = validate_response_tail(&prefix, &vec![0x6f]);
    assert!(matches!(r, Err(CommandFailure::InvalidResponseChecksum)));
    let r = validate_response_tail(&prefix, &vec![]);
    assert!(matches!(r, Err(CommandFailure::EmptyResponse)));
}

#[test]
fn toggle_against_powered_on_issues_power_off() {
    let on = is_powered_on(&vec![0x01]);
    assert_eq!(resolve_toggle(on), LogicalCommand::PowerOff);
}

#[test]
fn toggle_against_powered_off_issues_power_on() {
    let off_empty = is_powered_on(&vec![]);
    assert_eq!(resolve_toggle(off_empty), LogicalCommand::PowerOn);
    let off_zero = is_powered_on(&vec![0x00]);
    assert_eq!(resolve_toggle(off_zero), LogicalCommand::PowerOn);
}

#[test]
fn parse_recognized_tokens() {
    assert!(matches!(parse_command("on"), Ok(LogicalCommand::PowerOn)));
    assert!(matches!(parse_command("off"), Ok(LogicalCommand::PowerOff)));
    assert!(matches!(parse_command("power"), Ok(LogicalCommand::PowerToggle)));
    assert!(matches!(parse_command("volume-up"), Ok(LogicalCommand::VolumeUp)));
    assert!(matches!(parse_command("volume-down"), Ok(LogicalCommand::VolumeDown)));
    assert!(matches!(parse_command("mute"), Ok(LogicalCommand::MuteToggle)));
    assert!(matches!(parse_command("status"), Ok(LogicalCommand::QueryPower)));
}

#[test]
fn parse_specific_volume_levels() {
    assert!(matches!(parse_command("volume:0"), Ok(LogicalCommand::VolumeSet(0))));
    assert!(matches!(parse_command("volume:42"), Ok(LogicalCommand::VolumeSet(42))));
    assert!(matches!(parse_command("volume:255"), Ok(LogicalCommand::VolumeSet(255))));
    assert!(matches!(parse_command("volume:042"), Ok(LogicalCommand::VolumeSet(42))));
}

#[test]
fn parse_rejects_bad_volume_levels() {
    let r = parse_command("volume:256");
    assert!(matches!(r, Err(InvalidCommand::InvalidSpecificVolume(s)) if s == "volume:256"));
    let r = parse_command("volume:abc");
    assert!(matches!(r, Err(InvalidCommand::InvalidSpecificVolume(_))));
    let r = parse_command("volume:");
    assert!(matches!(r, Err(InvalidCommand::InvalidSpecificVolume(_))));
    let r = parse_command("volume:12x");
    assert!(matches!(r, Err(InvalidCommand::InvalidSpecificVolume(_))));
    let r = parse_command("volume:-1");
    assert!(matches!(r, Err(InvalidCommand::InvalidSpecificVolume(_))));
}

#[test]
fn parse_rejects_unknown_tokens() {
    let r = parse_command("bogus");
    assert!(matches!(r, Err(InvalidCommand::UnknownCommand(s)) if s == "bogus"));
    let r = parse_command("");
    assert!(matches!(r, Err(InvalidCommand::UnknownCommand(_))));
    let r = parse_command("ON");
    assert!(matches!(r, Err(InvalidCommand::UnknownCommand(_))));
    let r = parse_command("volume");
    assert!(matches!(r, Err(InvalidCommand::UnknownCommand(_))));
}

#[test]
fn full_control_exchange() {
    let frame = encode(&LogicalCommand::PowerOn);
    let full = frame_with_checksum(&frame);
    assert_eq!(full, vec![0x8c, 0x00, 0x00, 0x02, 0x01, 0x8f]);
    let device_header = vec![0x70, 0x00, 0x70];
    assert!(check_response_header(&device_header).is_ok());
    assert!(check_control_response(&device_header).is_ok());
}

#[test]
fn full_query_exchange() {
    let frame = encode(&LogicalCommand::QueryPower);
    let full = frame_with_checksum(&frame);
    assert_eq!(full, vec![0x83, 0x00, 0x00, 0xff, 0xff, 0x81]);
    let header = vec![0x70, 0x00, 0x02];
    assert!(check_response_header(&header).is_ok());
    let data = simulated_query_response(&header, &[0x01]);
    assert_eq!(data, vec![0x01, 0x73]);
    let payload = extract_query_payload(&header, &data).unwrap();
    assert!(is_powered_on(&payload));
    assert_eq!(resolve_toggle(is_powered_on(&payload)), LogicalCommand::PowerOff);
}
