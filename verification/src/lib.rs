//! Telemetry pipeline for a wireless sensor node.
//!
//! The node periodically surveys nearby wireless access points, packages the
//! observed signal strengths into a bounded snapshot, serializes the snapshot
//! as a JSON array, and publishes the payload to a broker under a topic
//! namespace scoped by the device identity. This crate holds the verified
//! core of that pipeline: the sampling step, the serialization contract, the
//! topic-routing policy, and the publish/failure-handling decisions of the
//! main loop. Establishing the wireless link and driving the broker
//! transport are left to the surrounding firmware.

mod errors;
mod json;
mod mainloop;
mod mqtt;
mod telemetry;
mod topic;

pub use errors::PublishError;
pub use errors::ScanError;
pub use errors::SerializationError;
pub use errors::TelemetryError;
pub use json::decimal_digits;
pub use json::decimal_int;
pub use json::escaped_byte;
pub use json::escaped_bytes;
pub use json::hex_digit;
pub use json::items_json;
pub use json::obj_mid;
pub use json::obj_open;
pub use json::record_json;
pub use json::snapshot_json;
pub use mainloop::CYCLE_INTERVAL_SECS;
pub use mainloop::CycleOutcome;
pub use mainloop::cycle_follows_policy;
pub use mainloop::scan_failure_line;
pub use mainloop::lemma_failing_scans_publish_nothing;
pub use mainloop::ok_scan_count;
pub use mainloop::publish_count;
pub use mainloop::run_cycle;
pub use mainloop::run_cycles;
pub use mqtt::KEEP_ALIVE_SECS;
pub use mqtt::MQTTClient;
pub use mqtt::PublishRequest;
pub use mqtt::handle_publish_result;
pub use mqtt::lemma_publish_failure_line_references_topic;
pub use mqtt::publish_failure_line;
pub use mqtt::publish_failure_mid;
pub use mqtt::publish_failure_prefix;
pub use telemetry::AccessPointRecord;
pub use telemetry::ApView;
pub use telemetry::RawAccessPoint;
pub use telemetry::SSID_MAX_BYTES;
pub use telemetry::Snapshot;
pub use telemetry::Ssid;
pub use telemetry::get_accesspoint_strengths;
pub use telemetry::lemma_sampling_keeps_order_count_and_signal;
pub use telemetry::sample;
pub use telemetry::sampled_views;
pub use telemetry::serialize;
pub use telemetry::truncate_ssid;
pub use topic::QoS;
pub use topic::Topic;
pub use topic::resolve;
pub use topic::spec_segment;
pub use topic::spec_topic_string;
