//! Topic-routing policy.
//!
//! A pure mapping from a logical topic variant to the wire topic string, the
//! quality-of-service level and the retain flag. The policy table is fixed
//! and total over the closed variant set: both variants publish at-most-once
//! with retain set, and the wire topic is always `"<segment>/<client_id>"`
//! with exactly one separator.

use vstd::prelude::*;

verus! {

/// Quality-of-service level for a published message. The current policy
/// publishes everything at-most-once: no acknowledgment or retry is tracked.
#[derive(Clone, Copy, Debug, PartialEq, Eq, Structural)]
pub enum QoS {
    AtMostOnce,
}

/// The closed set of logical topics the node publishes on.
#[derive(Clone, Copy, Debug, PartialEq, Eq, Structural)]
pub enum Topic {
    AccesspointStrengths,
    SensorReadings,
}

/// The fixed path segment of a topic variant.
pub open spec fn spec_segment(t: Topic) -> Seq<char> {
    match t {
        Topic::AccesspointStrengths => "accesspoint_strengths"@,
        Topic::SensorReadings => "sensor_readings"@,
    }
}

/// The full wire topic for a variant and a device identity:
/// the segment, one `/` separator, and the client id.
pub open spec fn spec_topic_string(t: Topic, client_id: Seq<char>) -> Seq<char> {
    spec_segment(t) + "/"@ + client_id
}

impl Topic {
    /// The quality-of-service level of this topic under the current policy.
    pub open spec fn spec_qos(self) -> QoS {
        match self {
            Topic::AccesspointStrengths => QoS::AtMostOnce,
            Topic::SensorReadings => QoS::AtMostOnce,
        }
    }

    /// The retain flag of this topic under the current policy.
    pub open spec fn spec_retain(self) -> bool {
        match self {
            Topic::AccesspointStrengths => true,
            Topic::SensorReadings => true,
        }
    }

    /// The wire topic string for this variant, scoped by the client id.
    pub fn get_string(&self, client_id: &str) -> (r: String)
        ensures
            r@ == spec_topic_string(*self, client_id@),
    {
        let mut s = match self {
            Topic::AccesspointStrengths => String::from_str("accesspoint_strengths"),
            Topic::SensorReadings => String::from_str("sensor_readings"),
        };
        s.append("/");
        s.append(client_id);
        s
    }

    /// The quality-of-service level for this topic.
    pub fn get_qos(&self) -> (r: QoS)
        ensures
            r == self.spec_qos(),
            r == QoS::AtMostOnce,
    {
        match self {
            Topic::AccesspointStrengths => QoS::AtMostOnce,
            Topic::SensorReadings => QoS::AtMostOnce,
        }
    }

    /// The retain flag for this topic.
    pub fn get_retain(&self) -> (r: bool)
        ensures
            r == self.spec_retain(),
            r == true,
    {
        match self {
            Topic::AccesspointStrengths => true,
            Topic::SensorReadings => true,
        }
    }
}

/// Resolves a topic variant and a device identity to the full routing triple:
/// the wire topic string, the quality-of-service level and the retain flag.
pub fn resolve(variant: Topic, identity: &str) -> (r: (String, QoS, bool))
    ensures
        r.0@ == spec_topic_string(variant, identity@),
        r.1 == variant.spec_qos(),
        r.2 == variant.spec_retain(),
{
    let topic = variant.get_string(identity);
    let qos = variant.get_qos();
    let retain = variant.get_retain();
    (topic, qos, retain)
}

} // verus!
