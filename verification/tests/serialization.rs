use hestia_nodes::RawAccessPoint;
use hestia_nodes::ScanError;
use hestia_nodes::TelemetryError;
use hestia_nodes::get_accesspoint_strengths;
use hestia_nodes::sample;
use hestia_nodes::serialize;

fn raw(ssid: &[u8], signal_strength: i8) -> RawAccessPoint {
    RawAccessPoint { ssid: ssid.to_vec(), signal_strength }
}

fn payload_of(raws: Vec<RawAccessPoint>) -> Vec<u8> {
    let snapshot = sample(&Ok(raws)).unwrap();
    serialize(&snapshot).unwrap()
}

#[test]
fn empty_scan_serializes_to_empty_array() {
    assert_eq!(payload_of(vec![]), b"[]".to_vec());
}

#[test]
fn one_record_serializes_to_one_object() {
    let payload = payload_of(vec![raw(b"home", -70)]);
    assert_eq!(payload, br#"[{"ssid":"home","signal_strength":-70}]"#.to_vec());
}

#[test]
fn records_keep_scan_order() {
    let payload = payload_of(vec![raw(b"alpha", -10), raw(b"beta", 0), raw(b"gamma", 42)]);
    let expected = br#"[{"ssid":"alpha","signal_strength":-10},{"ssid":"beta","signal_strength":0},{"ssid":"gamma","signal_strength":42}]"#;
    assert_eq!(payload, expected.to_vec());
}

#[test]
fn signal_strength_covers_the_full_signed_range() {
    let payload = payload_of(vec![raw(b"lo", -128), raw(b"hi", 127)]);
    let expected = br#"[{"ssid":"lo","signal_strength":-128},{"ssid":"hi","signal_strength":127}]"#;
    assert_eq!(payload, expected.to_vec());
}

#[test]
fn ssid_of_31_bytes_is_preserved() {
    let ssid: Vec<u8> = vec![b'a'; 31];
    let snapshot = sample(&Ok(vec![raw(&ssid, 1)])).unwrap();
    assert_eq!(snapshot.records[0].ssid.bytes(), &ssid);
}

#[test]
fn ssid_of_32_bytes_is_preserved() {
    let ssid: Vec<u8> = vec![b'b'; 32];
    let snapshot = sample(&Ok(vec![raw(&ssid, 1)])).unwrap();
    assert_eq!(snapshot.records[0].ssid.bytes(), &ssid);
}

#[test]
fn ssid_of_33_bytes_is_truncated_to_32() {
    let mut ssid: Vec<u8> = vec![b'c'; 32];
    ssid.push(b'd');
    let snapshot = sample(&Ok(vec![raw(&ssid, 1)])).unwrap();
    assert_eq!(snapshot.records[0].ssid.bytes(), &vec![b'c'; 32]);
}

#[test]
fn quote_backslash_and_control_bytes_are_escaped() {
    let payload = payload_of(vec![raw(b"a\"b\\c\x1fd", 5)]);
    let expected = br#"[{"ssid":"a\"b\\c\u001fd","signal_strength":5}]"#;
    assert_eq!(payload, expected.to_vec());
}

#[test]
fn payload_parses_as_json_with_exactly_the_two_keys() {
    let payload = payload_of(vec![raw(b"net-1", -55), raw(b"net-2", 3)]);
    let value: serde_json::Value = serde_json::from_slice(&payload).unwrap();
    let array = value.as_array().unwrap();
    assert_eq!(array.len(), 2);
    let first = array[0].as_object().unwrap();
    assert_eq!(first.len(), 2);
    assert_eq!(first.get("ssid").unwrap().as_str().unwrap(), "net-1");
    assert_eq!(first.get("signal_strength").unwrap().as_i64().unwrap(), -55);
    let second = array[1].as_object().unwrap();
    assert_eq!(second.len(), 2);
    assert_eq!(second.get("ssid").unwrap().as_str().unwrap(), "net-2");
    assert_eq!(second.get("signal_strength").unwrap().as_i64().unwrap(), 3);
}

#[test]
fn get_accesspoint_strengths_yields_the_payload_on_a_good_scan() {
    let scan = Ok(vec![raw(b"cafe", 12)]);
    let payload = get_accesspoint_strengths(&scan).unwrap();
    assert_eq!(payload, br#"[{"ssid":"cafe","signal_strength":12}]"#.to_vec());
}

#[test]
fn get_accesspoint_strengths_hands_back_the_scan_cause() {
    let scan = Err(ScanError { cause: String::from("radio busy") });
    match get_accesspoint_strengths(&scan) {
        Err(TelemetryError::Scan(e)) => assert_eq!(e.cause, "radio busy"),
        _ => panic!("a failed scan must yield the scan's cause"),
    }
}

#[test]
fn sample_hands_back_the_scan_cause() {
    let scan = Err(ScanError { cause: String::from("link down") });
    match sample(&scan) {
        Err(e) => assert_eq!(e.cause, "link down"),
        Ok(_) => panic!("a failed scan must not yield a snapshot"),
    }
}
