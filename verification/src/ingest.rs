//! Ingest-loop bookkeeping: what to do with one received datagram and
//! which metric deltas it contributes. The socket receive, the external
//! decode call and the queue send stay outside the library; the library
//! fixes the policy: empty datagrams are ignored, decoded datagrams are
//! enqueued and counted, undecodable datagrams are counted as parse errors
//! and discarded — never retried, never fatal.

use vstd::prelude::*;

use crate::wire::read32;

verus! {

/// What happened to one received datagram before the queue.
#[derive(Clone, Copy, Debug, PartialEq, Eq, Structural)]
pub enum IngestEvent {
    /// A zero-length datagram arrived.
    Empty,
    /// The decoder produced a datagram with this many samples.
    Decoded { n_samples: u64 },
    /// The decoder rejected the payload.
    DecodeFailed,
}

/// What the ingest loop does next with the datagram.
#[derive(Clone, Copy, Debug, PartialEq, Eq, Structural)]
pub enum IngestAction {
    /// Ignore the datagram and keep receiving.
    Ignore,
    /// Hand the decoded datagram to the bounded queue (blocking when the
    /// queue is full — backpressure, not an error).
    Enqueue,
    /// Drop the datagram after logging; keep receiving.
    Discard,
}

/// Metric deltas of one ingest step: decoded datagrams, datagrams that
/// failed to parse, and total samples seen.
#[derive(Clone, Copy, Debug, PartialEq, Eq, Structural)]
pub struct IngestCounts {
    pub datagrams_success: u64,
    pub datagrams_parse_error: u64,
    pub samples: u64,
}

/// The ingest loop's decision for one received datagram: the next action
/// and the metric deltas. Empty datagrams count nothing; a decoded
/// datagram counts one success and its samples and is enqueued; a decode
/// failure counts one parse error and is discarded.
pub fn ingest_step(event: &IngestEvent) -> (r: (IngestAction, IngestCounts))
    ensures
        *event is Empty ==> r == (
            IngestAction::Ignore,
            IngestCounts { datagrams_success: 0, datagrams_parse_error: 0, samples: 0 },
        ),
        *event matches IngestEvent::Decoded { n_samples } ==> r == (
            IngestAction::Enqueue,
            IngestCounts { datagrams_success: 1, datagrams_parse_error: 0, samples: n_samples },
        ),
        *event is DecodeFailed ==> r == (
            IngestAction::Discard,
            IngestCounts { datagrams_success: 0, datagrams_parse_error: 1, samples: 0 },
        ),
{
    match event {
        IngestEvent::Empty => (
            IngestAction::Ignore,
            IngestCounts { datagrams_success: 0, datagrams_parse_error: 0, samples: 0 },
        ),
        IngestEvent::Decoded { n_samples } => (
            IngestAction::Enqueue,
            IngestCounts { datagrams_success: 1, datagrams_parse_error: 0, samples: *n_samples },
        ),
        IngestEvent::DecodeFailed => (
            IngestAction::Discard,
            IngestCounts { datagrams_success: 0, datagrams_parse_error: 1, samples: 0 },
        ),
    }
}

/// The version field a failed payload claims, for diagnostics: the
/// big-endian u32 in its first four bytes, when it has four.
pub fn version_hint(payload: &[u8]) -> (r: Option<u32>)
    ensures
        r is Some <==> payload@.len() >= 4,
        r is Some ==> r->0 == read32(payload@, 0),
{
    if payload.len() >= 4 {
        Some(
            (payload[0] as u32) * 0x1000000 + (payload[1] as u32) * 0x10000 + (payload[2] as u32)
                * 0x100 + (payload[3] as u32),
        )
    } else {
        None
    }
}

} // verus!
