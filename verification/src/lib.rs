//! Verified core of an sFlow v5 telemetry collector.
//!
//! The library holds the pure data path of the collector: the record codec
//! that turns decoded sFlow samples into fixed-width wire records, the
//! batching engine that accumulates records under size and time bounds, the
//! ingest-loop bookkeeping, and the broker authentication selection. I/O and
//! runtime plumbing live outside the library.

mod addr;
mod auth;
mod batch;
mod codec;
mod header;
mod ingest;
mod model;
mod wire;

pub use addr::{mapped_to_ipv4, serialize_address, Address};
pub use auth::{select_auth, AuthError, KafkaAuth, SaslAuth};
pub use batch::{
    handle_entry, publish_outcome, recv_timeout, remaining_wait, BatchConfig, BatchState,
    PublishCounts,
};
pub use codec::{serialize_sflow_record, SampleCounts, RECORD_WIRE_BYTES};
pub use header::parse_raw_packet_header;
pub use ingest::{ingest_step, version_hint, IngestAction, IngestCounts, IngestEvent};
pub use model::{
    FlowKey, FlowRecord, FlowSample, FlowSampleExpanded, SFlowDatagram, SampleData, SampledHeader,
    SampledIpv4, SampledIpv6,
};
