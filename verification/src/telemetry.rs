//! Acquisition of access-point telemetry.
//!
//! A scan of the network link yields raw records, each an SSID and a signal
//! strength in dBm. Sampling maps every raw record into a bounded
//! [`AccessPointRecord`], truncating SSIDs that exceed the 32-byte bound
//! (a fixed, documented policy choice), and keeps the scan's order. The
//! snapshot is then serialized as a JSON array of objects with exactly the
//! two keys `ssid` and `signal_strength`, in snapshot order.

use vstd::prelude::*;

use crate::errors::ScanError;
use crate::errors::SerializationError;
use crate::errors::TelemetryError;
use crate::json::push_record;
use crate::json::snapshot_json;
use crate::json::items_json;

verus! {

/// Upper bound, in bytes, on a stored SSID.
pub const SSID_MAX_BYTES: usize = 32;

/// The mathematical value of one access-point observation: the SSID bytes
/// and the signal strength in dBm.
pub ghost struct ApView {
    pub ssid: Seq<u8>,
    pub signal_strength: int,
}

/// An SSID truncated to the 32-byte bound: kept unmodified when it fits,
/// silently cut at the boundary when it does not.
pub open spec fn truncate_ssid(s: Seq<u8>) -> Seq<u8> {
    if s.len() <= SSID_MAX_BYTES {
        s
    } else {
        s.take(SSID_MAX_BYTES as int)
    }
}

/// One access-point observation exactly as the network link hands it over:
/// the SSID bytes, unbounded, and the signal strength in dBm.
pub struct RawAccessPoint {
    pub ssid: Vec<u8>,
    pub signal_strength: i8,
}

impl View for RawAccessPoint {
    type V = ApView;

    open spec fn view(&self) -> ApView {
        ApView { ssid: self.ssid@, signal_strength: self.signal_strength as int }
    }
}

/// An SSID bounded to at most 32 bytes. Only construction through
/// [`Ssid::from_raw`] is offered, so the bound holds of every value.
pub struct Ssid {
    bytes: Vec<u8>,
}

impl View for Ssid {
    type V = Seq<u8>;

    closed spec fn view(&self) -> Seq<u8> {
        self.bytes@
    }
}

impl Ssid {
    /// The stored SSID never exceeds the 32-byte bound.
    pub open spec fn wf(&self) -> bool {
        self@.len() <= SSID_MAX_BYTES
    }

    /// Builds a bounded SSID from raw bytes, truncating at the 32-byte
    /// boundary: input of at most 32 bytes is preserved unmodified, longer
    /// input keeps exactly its first 32 bytes.
    pub fn from_raw(raw: &Vec<u8>) -> (r: Ssid)
        ensures
            r@ == truncate_ssid(raw@),
            r.wf(),
    {
        let mut bytes: Vec<u8> = Vec::new();
        let mut i: usize = 0;
        while i < raw.len() && i < SSID_MAX_BYTES
            invariant
                i <= raw.len(),
                i <= SSID_MAX_BYTES,
                bytes@ == raw@.take(i as int),
            decreases raw.len() - i,
        {
            bytes.push(raw[i]);
            i += 1;
            assert(bytes@ =~= raw@.take(i as int));
        }
        proof {
            if raw@.len() <= SSID_MAX_BYTES {
                assert(bytes@ =~= raw@);
            }
        }
        Ssid { bytes }
    }

    /// The stored bytes.
    pub fn bytes(&self) -> (r: &Vec<u8>)
        ensures
            r@ == self@,
    {
        &self.bytes
    }
}

/// One observed access point: a bounded SSID and the signal strength in
/// dBm. Immutable once produced; one instance per access point per scan.
pub struct AccessPointRecord {
    pub ssid: Ssid,
    pub signal_strength: i8,
}

impl View for AccessPointRecord {
    type V = ApView;

    open spec fn view(&self) -> ApView {
        ApView { ssid: self.ssid@, signal_strength: self.signal_strength as int }
    }
}

impl AccessPointRecord {
    /// The SSID bound holds.
    pub open spec fn wf(&self) -> bool {
        self.ssid.wf()
    }

    /// Maps one raw scan record into a bounded record: the SSID is truncated
    /// at the 32-byte boundary, the signal strength is preserved exactly.
    pub fn from_raw(raw: &RawAccessPoint) -> (r: AccessPointRecord)
        ensures
            r@.ssid == truncate_ssid(raw@.ssid),
            r@.signal_strength == raw@.signal_strength,
            r.wf(),
    {
        AccessPointRecord {
            ssid: Ssid::from_raw(&raw.ssid),
            signal_strength: raw.signal_strength,
        }
    }
}

/// An ordered sequence of access-point records, in the order the scan
/// returned them; no sorting is imposed.
pub struct Snapshot {
    pub records: Vec<AccessPointRecord>,
}

impl View for Snapshot {
    type V = Seq<ApView>;

    open spec fn view(&self) -> Seq<ApView> {
        self.records@.map_values(|r: AccessPointRecord| r@)
    }
}

impl Snapshot {
    /// Every record respects the SSID bound.
    pub open spec fn wf(&self) -> bool {
        forall|i: int| 0 <= i < self.records@.len() ==> (#[trigger] self.records@[i]).wf()
    }
}

/// What sampling makes of a scan's raw records: the same records in the same
/// order, each SSID truncated at the 32-byte boundary, each signal strength
/// preserved exactly.
pub open spec fn sampled_views(raws: Seq<RawAccessPoint>) -> Seq<ApView> {
    raws.map_values(
        |r: RawAccessPoint| ApView {
            ssid: truncate_ssid(r.ssid@),
            signal_strength: r.signal_strength as int,
        },
    )
}

/// Law: sampling keeps the scan's count and order — one record per raw
/// record, in the same position — and preserves every signal strength
/// exactly, with no clamping or rounding; only the SSID is touched, and
/// only by truncation at the 32-byte boundary.
pub proof fn lemma_sampling_keeps_order_count_and_signal(raws: Seq<RawAccessPoint>)
    ensures
        sampled_views(raws).len() == raws.len(),
        forall|i: int|
            0 <= i < raws.len() ==> (#[trigger] sampled_views(raws)[i]).ssid == truncate_ssid(
                raws[i].ssid@,
            ) && sampled_views(raws)[i].signal_strength == raws[i].signal_strength as int,
{
}

/// Maps the outcome of one scan into a snapshot.
///
/// On a successful scan every raw record becomes one bounded record, in scan
/// order; on a failed scan the scan's cause is handed back unchanged. The
/// scan itself is the caller's single read-only call per cycle; no retry
/// happens here.
pub fn sample(scan: &Result<Vec<RawAccessPoint>, ScanError>) -> (r: Result<Snapshot, ScanError>)
    ensures
        scan is Ok <==> r is Ok,
        scan is Ok ==> r->Ok_0@ == sampled_views(scan->Ok_0@) && r->Ok_0.wf(),
        scan is Err ==> r->Err_0.cause@ == scan->Err_0.cause@,
{
    match scan {
        Ok(raws) => {
            let mut records: Vec<AccessPointRecord> = Vec::new();
            let mut i: usize = 0;
            while i < raws.len()
                invariant
                    i <= raws.len(),
                    records@.len() == i,
                    forall|j: int|
                        0 <= j < i ==> (#[trigger] records@[j])@.ssid == truncate_ssid(
                            raws@[j].ssid@,
                        ) && records@[j]@.signal_strength == raws@[j].signal_strength as int,
                    forall|j: int| 0 <= j < records@.len() ==> (#[trigger] records@[j]).wf(),
                decreases raws.len() - i,
            {
                records.push(AccessPointRecord::from_raw(&raws[i]));
                i += 1;
            }
            proof {
                let mapped = records@.map_values(|r: AccessPointRecord| r@);
                let target = sampled_views(raws@);
                assert forall|j: int| 0 <= j < mapped.len() implies mapped[j] == target[j] by {
                    assert(mapped[j] == records@[j]@);
                    assert(target[j] == ApView {
                        ssid: truncate_ssid(raws@[j].ssid@),
                        signal_strength: raws@[j].signal_strength as int,
                    });
                }
                assert(mapped =~= target);
            }
            Ok(Snapshot { records })
        },
        Err(e) => Err(ScanError { cause: e.cause.clone() }),
    }
}

/// Serializes a snapshot as the UTF-8 JSON array described by
/// [`snapshot_json`]: one object per record, with exactly the keys `ssid`
/// and `signal_strength`, in snapshot order.
///
/// Succeeds on every input; the error variant exists only because a cycle
/// that could not encode would be skipped rather than crash the node.
pub fn serialize(snapshot: &Snapshot) -> (r: Result<Vec<u8>, SerializationError>)
    ensures
        r is Ok,
        r->Ok_0@ == snapshot_json(snapshot@),
{
    let mut out: Vec<u8> = Vec::new();
    out.push(91);  // [
    let n = snapshot.records.len();
    let mut i: usize = 0;
    while i < n
        invariant
            i <= n,
            n == snapshot.records@.len(),
            snapshot@.len() == n,
            out@ == seq![91u8] + items_json(snapshot@, i as int),
            forall|j: int|
                0 <= j < snapshot.records@.len() ==> snapshot@[j] == (
                #[trigger] snapshot.records@[j])@,
        decreases n - i,
    {
        if i > 0 {
            out.push(44);  // ,
        }
        push_record(&mut out, &snapshot.records[i]);
        i += 1;
    }
    out.push(93);  // ]
    proof {
        assert(out@ =~= snapshot_json(snapshot@));
    }
    Ok(out)
}

/// Runs the acquisition step of one cycle: samples the scan outcome and
/// serializes the snapshot, yielding the exact JSON payload for the scan's
/// records. A failed scan yields the scan's cause; the encoding step itself
/// never fails.
pub fn get_accesspoint_strengths(scan: &Result<Vec<RawAccessPoint>, ScanError>) -> (r: Result<
    Vec<u8>,
    TelemetryError,
>)
    ensures
        scan is Ok <==> r is Ok,
        scan is Ok ==> r->Ok_0@ == snapshot_json(sampled_views(scan->Ok_0@)),
        scan is Err ==> r->Err_0 is Scan && r->Err_0->Scan_0.cause@ == scan->Err_0.cause@,
{
    let snapshot = match sample(scan) {
        Ok(s) => s,
        Err(e) => {
            return Err(TelemetryError::Scan(e));
        },
    };
    match serialize(&snapshot) {
        Ok(payload) => Ok(payload),
        Err(e) => Err(TelemetryError::Serialization(e)),
    }
}

} // verus!
