use hestia_nodes::MQTTClient;
use hestia_nodes::PublishError;
use hestia_nodes::QoS;
use hestia_nodes::RawAccessPoint;
use hestia_nodes::ScanError;
use hestia_nodes::Topic;
use hestia_nodes::handle_publish_result;
use hestia_nodes::run_cycle;
use hestia_nodes::run_cycles;

fn client() -> MQTTClient {
    MQTTClient::new(
        String::from("broker.example"),
        String::from("user"),
        String::from("pw"),
        String::from("node-42"),
    )
}

#[test]
fn new_keeps_the_configuration_and_fixes_keep_alive() {
    let c = client();
    assert_eq!(c.host, "broker.example");
    assert_eq!(c.username, "user");
    assert_eq!(c.password, "pw");
    assert_eq!(c.client_id, "node-42");
    assert_eq!(c.keep_alive_secs, 5);
}

#[test]
fn enqueue_mqtt_message_builds_the_exact_request() {
    let c = client();
    let request = c.enqueue_mqtt_message(Topic::AccesspointStrengths, b"[]");
    assert_eq!(request.topic, "accesspoint_strengths/node-42");
    assert_eq!(request.qos, QoS::AtMostOnce);
    assert_eq!(request.retain, true);
    assert_eq!(request.payload, b"[]".to_vec());
}

#[test]
fn a_successful_enqueue_logs_nothing() {
    assert!(handle_publish_result("accesspoint_strengths/node-42", Ok(())).is_none());
}

#[test]
fn a_failed_enqueue_logs_once_and_names_the_topic() {
    let result = Err(PublishError { cause: String::from("queue full") });
    let line = handle_publish_result("accesspoint_strengths/node-42", result).unwrap();
    assert!(line.contains("accesspoint_strengths/node-42"));
    assert_eq!(
        line,
        "ERROR: Failed to enqueue mqtt message into topic 'accesspoint_strengths/node-42' \
         with error: queue full"
    );
}

#[test]
fn a_good_scan_cycle_publishes_and_logs_nothing() {
    let c = client();
    let scan = Ok(vec![RawAccessPoint { ssid: b"home".to_vec(), signal_strength: -70 }]);
    let outcome = run_cycle(&c, &scan);
    assert!(outcome.log.is_none());
    let request = outcome.publish.unwrap();
    assert_eq!(request.topic, "accesspoint_strengths/node-42");
    assert_eq!(request.qos, QoS::AtMostOnce);
    assert_eq!(request.retain, true);
    assert_eq!(request.payload, br#"[{"ssid":"home","signal_strength":-70}]"#.to_vec());
}

#[test]
fn a_failed_scan_cycle_skips_the_publish_and_logs_once() {
    let c = client();
    let scan = Err(ScanError { cause: String::from("radio busy") });
    let outcome = run_cycle(&c, &scan);
    assert!(outcome.publish.is_none());
    assert_eq!(
        outcome.log.unwrap(),
        "ERROR: Failed to get accesspoint strengths: radio busy"
    );
}

#[test]
fn always_failing_scans_yield_one_outcome_per_interval_and_no_publish() {
    let c = client();
    let mut scans: Vec<Result<Vec<RawAccessPoint>, ScanError>> = Vec::new();
    for i in 0..5 {
        scans.push(Err(ScanError { cause: format!("attempt {i} failed") }));
    }
    let outcomes = run_cycles(&c, &scans);
    assert_eq!(outcomes.len(), 5);
    assert!(outcomes.iter().all(|o| o.publish.is_none()));
    assert!(outcomes.iter().all(|o| o.log.is_some()));
}

#[test]
fn a_run_publishes_once_per_successful_scan() {
    let c = client();
    let scans: Vec<Result<Vec<RawAccessPoint>, ScanError>> = vec![
        Ok(vec![]),
        Err(ScanError { cause: String::from("link down") }),
        Ok(vec![RawAccessPoint { ssid: b"cafe".to_vec(), signal_strength: 12 }]),
    ];
    let outcomes = run_cycles(&c, &scans);
    assert_eq!(outcomes.len(), 3);
    assert_eq!(outcomes.iter().filter(|o| o.publish.is_some()).count(), 2);
    assert!(outcomes[0].publish.is_some());
    assert!(outcomes[1].publish.is_none());
    assert!(outcomes[2].publish.is_some());
    assert_eq!(outcomes[0].publish.as_ref().unwrap().payload, b"[]".to_vec());
}
