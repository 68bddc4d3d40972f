//! The main loop's decisions, one cycle at a time.
//!
//! The loop is interval-driven: exactly one sample attempt per interval,
//! independent of the previous cycle's outcome, with a fixed sleep between
//! cycles. Each cycle samples the link, serializes the snapshot and
//! publishes it on the access-point topic; a failed scan is logged and the
//! cycle is skipped — nothing terminates the loop. The firmware shell
//! performs the scan, the enqueue and the sleep; the decision of what each
//! cycle does with the scan's outcome is made and proved here.

use vstd::prelude::*;

use crate::errors::ScanError;
use crate::errors::TelemetryError;
use crate::json::snapshot_json;
use crate::mqtt::MQTTClient;
use crate::mqtt::PublishRequest;
use crate::telemetry::RawAccessPoint;
use crate::telemetry::get_accesspoint_strengths;
use crate::telemetry::sampled_views;
use crate::topic::QoS;
use crate::topic::Topic;
use crate::topic::spec_topic_string;

verus! {

/// Sleep interval, in seconds, between two cycles.
pub const CYCLE_INTERVAL_SECS: u64 = 5;

/// What one cycle asks the shell to do: at most one publish, at most one
/// log line. A cycle never yields both.
pub struct CycleOutcome {
    pub publish: Option<PublishRequest>,
    pub log: Option<String>,
}

/// The text of the log line recording a failed scan with the link's cause.
pub open spec fn scan_failure_line(cause: Seq<char>) -> Seq<char> {
    "ERROR: Failed to get accesspoint strengths: "@ + cause
}

/// The loop's policy for one cycle, as a relation between the scan's
/// outcome and what the cycle does. A successful scan publishes the
/// snapshot's JSON payload on the access-point topic, at-most-once and
/// retained, and logs nothing; a failed scan publishes nothing and logs
/// exactly one line carrying the cause.
pub open spec fn cycle_follows_policy(
    out: CycleOutcome,
    scan: Result<Vec<RawAccessPoint>, ScanError>,
    client_id: Seq<char>,
) -> bool {
    match scan {
        Ok(raws) => {
            &&& out.log is None
            &&& out.publish is Some
            &&& out.publish->Some_0.topic@ == spec_topic_string(
                Topic::AccesspointStrengths,
                client_id,
            )
            &&& out.publish->Some_0.qos == QoS::AtMostOnce
            &&& out.publish->Some_0.retain == true
            &&& out.publish->Some_0.payload@ == snapshot_json(sampled_views(raws@))
        },
        Err(e) => {
            &&& out.publish is None
            &&& out.log is Some
            &&& out.log->Some_0@ == scan_failure_line(e.cause@)
        },
    }
}

/// Runs the decisions of one cycle on the outcome of this interval's single
/// scan attempt.
pub fn run_cycle(client: &MQTTClient, scan: &Result<Vec<RawAccessPoint>, ScanError>) -> (r:
    CycleOutcome)
    ensures
        cycle_follows_policy(r, *scan, client.client_id@),
{
    match get_accesspoint_strengths(scan) {
        Ok(payload) => {
            let request = client.enqueue_mqtt_message(
                Topic::AccesspointStrengths,
                payload.as_slice(),
            );
            CycleOutcome { publish: Some(request), log: None }
        },
        Err(e) => {
            let mut line = String::from_str("ERROR: Failed to get accesspoint strengths: ");
            match &e {
                TelemetryError::Scan(scan_error) => line.append(scan_error.cause.as_str()),
                TelemetryError::Serialization(ser_error) => line.append(ser_error.cause.as_str()),
            }
            CycleOutcome { publish: None, log: Some(line) }
        },
    }
}

/// How many cycles of a run published.
pub open spec fn publish_count(outs: Seq<CycleOutcome>) -> nat
    decreases outs.len(),
{
    if outs.len() == 0 {
        0
    } else {
        publish_count(outs.drop_last()) + if outs.last().publish is Some {
            1nat
        } else {
            0nat
        }
    }
}

/// How many scans of a run succeeded.
pub open spec fn ok_scan_count(scans: Seq<Result<Vec<RawAccessPoint>, ScanError>>) -> nat
    decreases scans.len(),
{
    if scans.len() == 0 {
        0
    } else {
        ok_scan_count(scans.drop_last()) + if scans.last() is Ok {
            1nat
        } else {
            0nat
        }
    }
}

/// Runs the loop's decisions over a run of consecutive intervals, one scan
/// outcome per interval. Every interval yields exactly one cycle outcome —
/// one sample attempt per interval, no retry and no requeueing — every
/// cycle follows the loop's policy, and the run publishes exactly as many
/// payloads as scans succeeded.
pub fn run_cycles(client: &MQTTClient, scans: &Vec<Result<Vec<RawAccessPoint>, ScanError>>) -> (r:
    Vec<CycleOutcome>)
    ensures
        r@.len() == scans@.len(),
        forall|i: int|
            0 <= i < scans@.len() ==> cycle_follows_policy(
                #[trigger] r@[i],
                scans@[i],
                client.client_id@,
            ),
        publish_count(r@) == ok_scan_count(scans@),
{
    let mut outcomes: Vec<CycleOutcome> = Vec::new();
    let mut i: usize = 0;
    while i < scans.len()
        invariant
            i <= scans.len(),
            outcomes@.len() == i,
            forall|j: int|
                0 <= j < i ==> cycle_follows_policy(
                    #[trigger] outcomes@[j],
                    scans@[j],
                    client.client_id@,
                ),
            publish_count(outcomes@) == ok_scan_count(scans@.take(i as int)),
        decreases scans.len() - i,
    {
        let ghost prev = outcomes@;
        let outcome = run_cycle(client, &scans[i]);
        outcomes.push(outcome);
        i += 1;
        proof {
            assert(outcomes@.drop_last() =~= prev);
            let t = scans@.take(i as int);
            assert(t.drop_last() =~= scans@.take(i - 1));
            assert(t.last() == scans@[i - 1]);
        }
    }
    proof {
        assert(scans@.take(scans@.len() as int) =~= scans@);
    }
    outcomes
}

/// Law: over any run of consecutive intervals in which every scan fails, no
/// scan succeeds, so — by `run_cycles`' contract — the run performs one
/// sample attempt per interval and zero publish attempts, and ends
/// normally.
pub proof fn lemma_failing_scans_publish_nothing(
    scans: Seq<Result<Vec<RawAccessPoint>, ScanError>>,
)
    requires
        forall|i: int| 0 <= i < scans.len() ==> #[trigger] scans[i] is Err,
    ensures
        ok_scan_count(scans) == 0,
    decreases scans.len(),
{
    if scans.len() > 0 {
        let front = scans.drop_last();
        assert(forall|i: int| 0 <= i < front.len() ==> #[trigger] front[i] is Err);
        lemma_failing_scans_publish_nothing(front);
    }
}

} // verus!
