use akriveia::error::MessageError;
use akriveia::manager::{BMResponse, BeaconCommand};
use akriveia::messages::{distance_text, encode_command, parse_message, parse_message_at, request_destination};
use akriveia::network::{IpAddress, Ipv4Network};

const SOURCE: IpAddress = IpAddress::V4(0xc0a8_0105);

fn mac_bytes() -> [u8; 8] {
    [0x01, 0x02, 0x03, 0x04, 0x05, 0x06, 0x07, 0x08]
}

#[test]
fn acknowledgements_are_read() {
    match parse_message_at("[01:02:03:04:05:06:07:08|start_ack]", SOURCE, 7) {
        Ok(BMResponse::Start(ip, mac)) => {
            assert_eq!(ip, SOURCE);
            assert_eq!(mac.as_bytes(), &mac_bytes());
        },
        _ => panic!("expected a start acknowledgement"),
    }
    assert!(matches!(parse_message_at("[01:02:03:04:05:06:07:08|end_ack]", SOURCE, 7), Ok(BMResponse::End(_, _))));
    assert!(matches!(parse_message_at("[01:02:03:04:05:06:07:08|ping_ack]", SOURCE, 7), Ok(BMResponse::Ping(_, _))));
    assert!(matches!(parse_message_at("[01:02:03:04:05:06:07:08|reboot_ack]", SOURCE, 7), Ok(BMResponse::Reboot(_, _))));
}

#[test]
fn text_around_the_brackets_is_ignored() {
    assert!(matches!(
        parse_message_at("noise [01:02:03:04:05:06:07:08|ping_ack] more", SOURCE, 0),
        Ok(BMResponse::Ping(_, _))
    ));
}

#[test]
fn range_report_is_read() {
    match parse_message_at("[01:02:03:04:05:06:07:08|range_ack|12:34|5.25\n]", SOURCE, 99) {
        Ok(BMResponse::TagData(ip, t)) => {
            assert_eq!(ip, SOURCE);
            assert_eq!(t.beacon_mac.as_bytes(), &mac_bytes());
            assert_eq!(t.tag_mac.to_array(), [0x12, 0x34]);
            assert_eq!(t.tag_distance, "5.25");
            assert_eq!(t.timestamp, 99);
        },
        _ => panic!("expected a range report"),
    }
}

#[test]
fn range_report_noise_is_stripped() {
    match parse_message_at("[01:02:03:04:05:06:07:08|range_ack|0x1234|/cm/7.5\n]", SOURCE, 1) {
        Ok(BMResponse::TagData(_, t)) => assert_eq!(t.tag_distance, "7.5"),
        _ => panic!("expected a range report"),
    }
}

#[test]
fn malformed_messages_are_refused() {
    assert_eq!(parse_message_at("no brackets", SOURCE, 0).err(), Some(MessageError::ParseFormat));
    assert_eq!(parse_message_at("[only one field]", SOURCE, 0).err(), Some(MessageError::ParseFormat));
    assert_eq!(parse_message_at("[01:02|ping_ack]", SOURCE, 0).err(), Some(MessageError::ParseMac));
    assert_eq!(
        parse_message_at("[01:02:03:04:05:06:07:08|hello]", SOURCE, 0).err(),
        Some(MessageError::ParseFormat)
    );
    assert_eq!(
        parse_message_at("[01:02:03:04:05:06:07:08|range_ack|zz:34|1\n]", SOURCE, 0).err(),
        Some(MessageError::ParseMac)
    );
    assert_eq!(
        parse_message_at("[01:02:03:04:05:06:07:08|range_ack|12:34|]", SOURCE, 0).err(),
        Some(MessageError::ParseFormat)
    );
    assert_eq!(
        parse_message_at("[01:02:03:04:05:06:07:08|range_ack|zz]", SOURCE, 0).err(),
        Some(MessageError::ParseMac)
    );
}

#[test]
fn parse_message_stamps_range_reports_with_the_time_given() {
    match parse_message("[01:02:03:04:05:06:07:08|range_ack|12:34|3\n]", SOURCE, 1234) {
        Some(Ok(BMResponse::TagData(_, t))) => {
            assert_eq!(t.tag_distance, "3");
            assert_eq!(t.timestamp, 1234);
        },
        _ => panic!("expected a range report"),
    }
    assert!(matches!(parse_message("[01:02:03:04:05:06:07:08|ping_ack]", SOURCE, 1234), Some(Ok(BMResponse::Ping(_, _)))));
}

#[test]
fn parse_message_refuses_an_uncuttable_distance() {
    assert!(parse_message("[01:02:03:04:05:06:07:08|range_ack|12:34|1é]", SOURCE, 1234).is_none());
}

#[test]
fn distance_text_drops_the_last_character() {
    assert_eq!(distance_text("12.5\n"), Ok("12.5".to_string()));
    assert_eq!(distance_text("x"), Ok(String::new()));
    assert_eq!(distance_text(""), Err(MessageError::ParseFormat));
}

#[test]
fn commands_are_written() {
    assert_eq!(encode_command(BeaconCommand::StartEmergency(None)), ("[start]".to_string(), None));
    assert_eq!(encode_command(BeaconCommand::EndEmergency(Some(SOURCE))), ("[end]".to_string(), Some(SOURCE)));
    assert_eq!(encode_command(BeaconCommand::Ping(None)).0, "[ping]");
    assert_eq!(encode_command(BeaconCommand::Reboot(None)).0, "[reboot]");
    assert_eq!(encode_command(BeaconCommand::SetIp(0xc0a8_0001)), ("[setip|192.168.0.1]".to_string(), None));
    assert_eq!(encode_command(BeaconCommand::SetIp(0x0a00_00ff)).0, "[setip|10.0.0.255]");
}

#[test]
fn requests_go_to_the_beacon_or_the_broadcast_address() {
    let net = Ipv4Network::new(0xc0a8_0100, 24).unwrap();
    assert_eq!(request_destination(Some(SOURCE), &net, 4000), (SOURCE, 4000));
    assert_eq!(request_destination(None, &net, 4000), (IpAddress::V4(0xc0a8_01ff), 4000));
    let host = Ipv4Network::new(0x0a00_0001, 32).unwrap();
    assert_eq!(request_destination(None, &host, 9), (IpAddress::V4(0x0a00_0001), 9));
}
