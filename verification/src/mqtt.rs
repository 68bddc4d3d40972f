//! The messaging client's verified decisions.
//!
//! The broker connection itself lives in the unverified firmware shell; it
//! is created once at startup and lives for the process lifetime. What is
//! decided here, and proved, is everything around it: the transport
//! configuration the connection is built with (keep-alive fixed at five
//! seconds), the exact publish request for a topic and payload, and the
//! handling of an enqueue failure — logged with the topic and the cause,
//! and never surfaced to the loop.

use vstd::prelude::*;
use vstd::slice::slice_to_vec;

use crate::errors::PublishError;
use crate::topic::QoS;
use crate::topic::Topic;
use crate::topic::spec_topic_string;

verus! {

/// Keep-alive interval, in seconds, of the broker connection.
pub const KEEP_ALIVE_SECS: u64 = 5;

/// The messaging client's configuration and identity: one broker host, the
/// credentials, the stable client id that scopes every topic, and the fixed
/// keep-alive interval. The firmware shell builds the one live transport
/// from these values at startup and never recreates it inside the loop.
pub struct MQTTClient {
    pub host: String,
    pub username: String,
    pub password: String,
    pub client_id: String,
    pub keep_alive_secs: u64,
}

impl MQTTClient {
    /// Fixes the configuration the broker connection is built with. The
    /// keep-alive interval is always five seconds.
    pub fn new(host: String, username: String, password: String, client_id: String) -> (r:
        MQTTClient)
        ensures
            r.host@ == host@,
            r.username@ == username@,
            r.password@ == password@,
            r.client_id@ == client_id@,
            r.keep_alive_secs == KEEP_ALIVE_SECS,
    {
        MQTTClient { host, username, password, client_id, keep_alive_secs: KEEP_ALIVE_SECS }
    }

    /// Builds the exact wire request for one publish: the topic string
    /// scoped by this client's id, the policy's quality-of-service level
    /// and retain flag, and the payload unchanged. The transport enqueue
    /// itself is the shell's single non-blocking call per cycle.
    pub fn enqueue_mqtt_message(&self, topic: Topic, payload: &[u8]) -> (r: PublishRequest)
        ensures
            r.topic@ == spec_topic_string(topic, self.client_id@),
            r.qos == topic.spec_qos(),
            r.retain == topic.spec_retain(),
            r.payload@ == payload@,
    {
        let topic_string = topic.get_string(self.client_id.as_str());
        let qos = topic.get_qos();
        let retain = topic.get_retain();
        PublishRequest { topic: topic_string, qos, retain, payload: slice_to_vec(payload) }
    }
}

/// One fully resolved publish: the wire topic, the delivery policy and the
/// payload bytes, ready for the transport's enqueue call.
pub struct PublishRequest {
    pub topic: String,
    pub qos: QoS,
    pub retain: bool,
    pub payload: Vec<u8>,
}

/// The text of the log line recording a failed enqueue on `topic` with
/// underlying `cause`, before the topic.
pub open spec fn publish_failure_prefix() -> Seq<char> {
    "ERROR: Failed to enqueue mqtt message into topic '"@
}

/// The text of the same log line between the topic and the cause.
pub open spec fn publish_failure_mid() -> Seq<char> {
    "' with error: "@
}

/// The single log line produced by a failed enqueue: it names the topic and
/// the transport's cause.
pub open spec fn publish_failure_line(topic: Seq<char>, cause: Seq<char>) -> Seq<char> {
    publish_failure_prefix() + topic + publish_failure_mid() + cause
}

/// Absorbs the outcome of one transport enqueue. A success produces
/// nothing; a failure produces exactly one log line, naming the topic and
/// the cause — and nothing propagates to the caller in either case. Losing
/// one cycle's telemetry is acceptable; crashing the node is not.
pub fn handle_publish_result(topic: &str, result: Result<(), PublishError>) -> (r: Option<String>)
    ensures
        result is Ok ==> r is None,
        result is Err ==> r is Some && r->Some_0@ == publish_failure_line(
            topic@,
            result->Err_0.cause@,
        ),
{
    match result {
        Ok(_) => None,
        Err(e) => {
            let mut line = String::from_str("ERROR: Failed to enqueue mqtt message into topic '");
            line.append(topic);
            line.append("' with error: ");
            line.append(e.cause.as_str());
            Some(line)
        },
    }
}

/// Law: the log line of a failed enqueue references the topic — the topic
/// stands in the line verbatim, right after the fixed prefix.
pub proof fn lemma_publish_failure_line_references_topic(topic: Seq<char>, cause: Seq<char>)
    ensures
        publish_failure_line(topic, cause).subrange(
            publish_failure_prefix().len() as int,
            publish_failure_prefix().len() + topic.len() as int,
        ) == topic,
{
    let line = publish_failure_line(topic, cause);
    let p = publish_failure_prefix().len() as int;
    assert forall|k: int| 0 <= k < topic.len() implies line[p + k] == topic[k] by {
        assert((publish_failure_prefix() + topic)[p + k] == topic[k]);
    }
    assert(line.subrange(p, p + topic.len()) =~= topic);
}

} // verus!
