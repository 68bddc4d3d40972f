//! Error taxonomy of the telemetry pipeline.
//!
//! Every failure is recovered locally: a failed scan or a failed encoding
//! skips the cycle, and a failed publish enqueue is logged and swallowed.
//! None of these terminates the loop.

use vstd::prelude::*;

verus! {

/// The network link could not complete a scan. Carries the underlying cause
/// as reported by the link.
#[derive(Debug)]
pub struct ScanError {
    pub cause: String,
}

/// A snapshot could not be encoded. Unreachable for well-formed snapshots:
/// the serializer's contract promises success on every input. The variant is
/// kept so a cycle that did fail to encode would be skipped, not fatal.
#[derive(Debug)]
pub struct SerializationError {
    pub cause: String,
}

/// The transport could not enqueue a payload (disconnected, queue full,
/// authorization rejected). Carries the underlying cause as reported by the
/// transport. Recovered inside the publish path: logged, never propagated.
#[derive(Debug)]
pub struct PublishError {
    pub cause: String,
}

/// A cycle-level failure of the acquisition step: either the scan itself
/// failed or the snapshot could not be encoded.
#[derive(Debug)]
pub enum TelemetryError {
    Scan(ScanError),
    Serialization(SerializationError),
}

} // verus!
