//! Tests for the session side: configuration parsing, the bounded buffer,
//! and the packet builders against the real codec.

use mqtt_tiny::{Connack, Connect, Disconnect, Publish};
use picowatch::buffer::MqttBuffer;
use picowatch::config::{lookup_secs, lookup_text, parse_u64, split_lines, trim, AppConfig};
use picowatch::mqtt::{assemble_topic, disconnect_packet, login_on_bytes, login_packet, login_step, publish_packet, ConnackOutcome, LoginStep};

#[test]
fn config_reads_every_key() {
    let blob = b"WIFI_SSID = home\nWIFI_PASS=secret\nMQTT_ADDR=192.0.2.1:1883\n\
MQTT_USER=reporter\nMQTT_PASS=hunter2\nMQTT_PRFX=garden/moisture\n\
SENSOR_SLEEP_SECS=600\nSENSOR_ALERT_SECS=5\n";
    let config = AppConfig::load(blob);
    assert_eq!(config.WIFI_SSID, b"home".to_vec());
    assert_eq!(config.WIFI_PASS, b"secret".to_vec());
    assert_eq!(config.MQTT_ADDR, b"192.0.2.1:1883".to_vec());
    assert_eq!(config.MQTT_USER, b"reporter".to_vec());
    assert_eq!(config.MQTT_PASS, b"hunter2".to_vec());
    assert_eq!(config.MQTT_PRFX, b"garden/moisture".to_vec());
    assert_eq!(config.SENSOR_SLEEP_SECS, 600);
    assert_eq!(config.SENSOR_ALERT_SECS, 5);
}

#[test]
fn config_missing_keys_fall_back_to_defaults() {
    let config = AppConfig::load(b"");
    assert_eq!(config.WIFI_SSID, b"DEFAULT_WIFI_SSID".to_vec());
    assert_eq!(config.WIFI_PASS, b"DEFAULT_WIFI_PASS".to_vec());
    assert_eq!(config.MQTT_ADDR, b"DEFAULT_MQTT_ADDR".to_vec());
    assert_eq!(config.MQTT_USER, b"".to_vec());
    assert_eq!(config.MQTT_PASS, b"".to_vec());
    assert_eq!(config.MQTT_PRFX, b"".to_vec());
    assert_eq!(config.SENSOR_SLEEP_SECS, 30);
    assert_eq!(config.SENSOR_ALERT_SECS, 30);
}

#[test]
fn config_first_text_match_wins() {
    let blob = b"WIFI_SSID=first\nWIFI_SSID=second\n";
    let config = AppConfig::load(blob);
    assert_eq!(config.WIFI_SSID, b"first".to_vec());
}

#[test]
fn config_unparsable_duration_is_skipped_for_a_later_one() {
    // The raw value is not trimmed before parsing, so a space spoils it and
    // a later line may still provide the duration.
    let blob = b"SENSOR_SLEEP_SECS= 600\nSENSOR_SLEEP_SECS=90\n";
    let config = AppConfig::load(blob);
    assert_eq!(config.SENSOR_SLEEP_SECS, 90);
}

#[test]
fn config_scan_stops_at_first_non_utf8_line() {
    // The text section ends where the blob stops being UTF-8: a key after
    // the garbage line is not read.
    let mut blob = Vec::new();
    blob.extend_from_slice(b"WIFI_PASS=early\n");
    blob.extend_from_slice(&[0xFF, 0xFE, 0x61, b'\n']);
    blob.extend_from_slice(b"WIFI_SSID=late\n");
    let config = AppConfig::load(&blob);
    assert_eq!(config.WIFI_PASS, b"early".to_vec());
    assert_eq!(config.WIFI_SSID, b"DEFAULT_WIFI_SSID".to_vec());
}

#[test]
fn config_lines_without_equals_are_skipped() {
    let blob = b"# comment line\n\nWIFI_SSID=net\njust text\n";
    let config = AppConfig::load(blob);
    assert_eq!(config.WIFI_SSID, b"net".to_vec());
}

#[test]
fn config_value_keeps_later_equals_signs() {
    let out = lookup_text(b"WIFI_PASS=a=b=c\n", b"WIFI_PASS");
    assert_eq!(out, Some(b"a=b=c".to_vec()));
}

#[test]
fn config_keys_are_trimmed_before_matching() {
    let out = lookup_text(b"  WIFI_SSID\t= padded value \n", b"WIFI_SSID");
    assert_eq!(out, Some(b"padded value".to_vec()));
}

#[test]
fn lookup_secs_accepts_plus_and_rejects_junk() {
    assert_eq!(lookup_secs(b"SENSOR_ALERT_SECS=+7\n", b"SENSOR_ALERT_SECS"), Some(7));
    assert_eq!(lookup_secs(b"SENSOR_ALERT_SECS=7s\n", b"SENSOR_ALERT_SECS"), None);
    assert_eq!(lookup_secs(b"SENSOR_ALERT_SECS=\n", b"SENSOR_ALERT_SECS"), None);
}

#[test]
fn parse_u64_handles_bounds() {
    assert_eq!(parse_u64(b"0"), Some(0));
    assert_eq!(parse_u64(b"18446744073709551615"), Some(u64::MAX));
    assert_eq!(parse_u64(b"18446744073709551616"), None);
    assert_eq!(parse_u64(b"+42"), Some(42));
    assert_eq!(parse_u64(b"++1"), None);
    assert_eq!(parse_u64(b""), None);
    assert_eq!(parse_u64(b"+"), None);
    assert_eq!(parse_u64(b"-1"), None);
}

#[test]
fn trim_removes_surrounding_whitespace_only() {
    assert_eq!(trim(b"  a b\t\r\n"), b"a b".to_vec());
    assert_eq!(trim(b""), Vec::<u8>::new());
    assert_eq!(trim(b" \t "), Vec::<u8>::new());
    assert_eq!(trim(b"solid"), b"solid".to_vec());
}

#[test]
fn split_lines_matches_newlines() {
    let lines = split_lines(b"a\nbb\n\nc");
    assert_eq!(lines, vec![b"a".to_vec(), b"bb".to_vec(), b"".to_vec(), b"c".to_vec()]);
    let lines = split_lines(b"");
    assert_eq!(lines, vec![b"".to_vec()]);
    let lines = split_lines(b"x\n");
    assert_eq!(lines, vec![b"x".to_vec(), b"".to_vec()]);
}

#[test]
fn buffer_append_respects_capacity() {
    let mut buffer = MqttBuffer::new();
    assert_eq!(buffer.len(), 0);
    assert!(buffer.append(b"hello "));
    assert!(buffer.append(b"world"));
    assert_eq!(buffer.as_bytes(), b"hello world");
    // An append that does not fit changes nothing.
    let big = [0u8; 1025];
    assert!(!buffer.append(&big));
    assert_eq!(buffer.as_bytes(), b"hello world");
    // Filling it to the brim exactly is fine.
    let rest = [7u8; 1013];
    assert!(buffer.append(&rest));
    assert_eq!(buffer.len(), 1024);
    assert!(!buffer.append(b"x"));
}

#[test]
fn buffer_from_display_renders_values() {
    assert_eq!(MqttBuffer::from_display(42u64).as_bytes(), b"42");
    assert_eq!(MqttBuffer::from_display(-3i32).as_bytes(), b"-3");
    assert_eq!(MqttBuffer::from_display(2.5f64).as_bytes(), b"2.5");
    // An oversized rendering is cut at the capacity instead of growing.
    let long = "y".repeat(3000);
    assert_eq!(MqttBuffer::from_display(long).len(), 1024);
}

#[test]
fn buffer_consume_drops_the_front() {
    let mut buffer = MqttBuffer::from_bytes(b"abcdef");
    buffer.consume(2);
    assert_eq!(buffer.as_bytes(), b"cdef");
    buffer.consume(4);
    assert_eq!(buffer.as_bytes(), b"");
}

#[test]
fn disconnect_packet_is_the_codec_encoding() {
    let expected: Vec<u8> = Disconnect::new().into_iter().collect();
    assert_eq!(disconnect_packet(), expected);
    assert_eq!(disconnect_packet(), vec![0xE0, 0x00]);
}

#[test]
fn login_packet_without_credentials_matches_codec() {
    let ours = login_packet(45, b"garden/moisture", b"", b"").unwrap();
    let expected: Vec<u8> =
        Connect::new(45, true, b"garden/moisture").unwrap().into_iter().collect();
    assert_eq!(ours, expected);
}

#[test]
fn login_packet_with_credentials_matches_codec() {
    let ours = login_packet(45, b"node", b"reporter", b"hunter2").unwrap();
    let expected: Vec<u8> = Connect::new(45, true, b"node")
        .unwrap()
        .with_username_password(b"reporter", b"hunter2")
        .unwrap()
        .into_iter()
        .collect();
    assert_eq!(ours, expected);
    // A password alone still sends credentials.
    let ours = login_packet(45, b"node", b"", b"p").unwrap();
    let expected: Vec<u8> = Connect::new(45, true, b"node")
        .unwrap()
        .with_username_password(b"", b"p")
        .unwrap()
        .into_iter()
        .collect();
    assert_eq!(ours, expected);
}

#[test]
fn publish_packet_matches_codec_and_joins_topic() {
    let ours = publish_packet(b"garden/", b"/moisture", b"42").unwrap();
    let expected: Vec<u8> =
        Publish::new(b"garden/moisture", b"42", false).unwrap().into_iter().collect();
    assert_eq!(ours, expected);
}

#[test]
fn assemble_topic_joins_with_one_separator() {
    assert_eq!(assemble_topic(b"a//", b"//b").unwrap().as_bytes(), b"a/b");
    assert_eq!(assemble_topic(b"", b"temperature").unwrap().as_bytes(), b"/temperature");
    assert_eq!(assemble_topic(b"prefix", b"").unwrap().as_bytes(), b"prefix/");
    // A topic that cannot fit the buffer is refused.
    let long = [b'x'; 2000];
    assert!(assemble_topic(&long, b"t").is_none());
}

#[test]
fn login_accepts_only_return_code_zero() {
    let accepted = login_step(ConnackOutcome::Response { session_present: false, return_code: 0 });
    assert_eq!(accepted, LoginStep::Established { session_present: false });
    let refused = login_step(ConnackOutcome::Response { session_present: false, return_code: 5 });
    assert_eq!(refused, LoginStep::Refused(5));
    assert_eq!(login_step(ConnackOutcome::Truncated), LoginStep::NeedMoreData);
    assert_eq!(login_step(ConnackOutcome::Malformed), LoginStep::MalformedResponse);
}

#[test]
fn login_on_bytes_decodes_a_real_acknowledgement() {
    let connack: Vec<u8> = Connack::new(false, 0).into_iter().collect();
    let mut recv = MqttBuffer::new();
    assert!(recv.append(&connack));
    assert_eq!(login_on_bytes(&mut recv), LoginStep::Established { session_present: false });
    assert_eq!(recv.len(), 0);
}

#[test]
fn login_on_bytes_keeps_trailing_bytes() {
    let mut bytes: Vec<u8> = Connack::new(true, 0).into_iter().collect();
    bytes.extend_from_slice(b"tail");
    let mut recv = MqttBuffer::new();
    assert!(recv.append(&bytes));
    assert_eq!(login_on_bytes(&mut recv), LoginStep::Established { session_present: true });
    assert_eq!(recv.as_bytes(), b"tail");
}

#[test]
fn login_on_bytes_waits_on_a_truncated_acknowledgement() {
    let connack: Vec<u8> = Connack::new(false, 0).into_iter().collect();
    let mut recv = MqttBuffer::new();
    assert!(recv.append(&connack[..2]));
    assert_eq!(login_on_bytes(&mut recv), LoginStep::NeedMoreData);
    // The buffered bytes stay for the retry with more data.
    assert_eq!(recv.as_bytes(), &connack[..2]);
    assert!(recv.append(&connack[2..]));
    assert_eq!(login_on_bytes(&mut recv), LoginStep::Established { session_present: false });
}

#[test]
fn login_on_bytes_refuses_nonzero_return_code() {
    let connack: Vec<u8> = Connack::new(false, 4).into_iter().collect();
    let mut recv = MqttBuffer::new();
    assert!(recv.append(&connack));
    assert_eq!(login_on_bytes(&mut recv), LoginStep::Refused(4));
}

#[test]
fn login_on_bytes_rejects_garbage() {
    let mut recv = MqttBuffer::new();
    // A publish packet where the acknowledgement should be.
    let wrong: Vec<u8> = Publish::new(b"t", b"x", false).unwrap().into_iter().collect();
    assert!(recv.append(&wrong));
    assert_eq!(login_on_bytes(&mut recv), LoginStep::MalformedResponse);
}
