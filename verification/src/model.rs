//! The decoded-datagram data model the codec works on: datagram metadata,
//! the closed set of sample variants, and the closed set of flow-record
//! variants. Values of these types are built from the external decoder's
//! output before they reach the library; the library itself holds only
//! plain values.

use vstd::prelude::*;

use crate::addr::Address;

verus! {

/// Raw captured packet header bytes of a sampled-header flow record.
#[derive(Clone, Debug, PartialEq, Eq)]
pub struct SampledHeader {
    pub header: Vec<u8>,
}

/// A directly sampled IPv4 packet: the 5-tuple and friends as the agent
/// reported them.
#[derive(Clone, Copy, Debug, PartialEq, Eq)]
pub struct SampledIpv4 {
    pub length: u32,
    pub protocol: u32,
    pub src_ip: [u8; 4],
    pub dst_ip: [u8; 4],
    pub src_port: u32,
    pub dst_port: u32,
    pub tcp_flags: u32,
    pub tos: u32,
}

/// A directly sampled IPv6 packet.
#[derive(Clone, Copy, Debug, PartialEq, Eq)]
pub struct SampledIpv6 {
    pub length: u32,
    pub protocol: u32,
    pub src_ip: [u8; 16],
    pub dst_ip: [u8; 16],
    pub src_port: u32,
    pub dst_port: u32,
    pub tcp_flags: u32,
    pub priority: u32,
}

/// One flow record within a flow sample. Only the first three variants can
/// yield an output record; `Extended` stands for every metadata-only record
/// kind (extended switch/router/gateway data and the like), which the codec
/// skips.
#[derive(Clone, Debug, PartialEq, Eq)]
pub enum FlowRecord {
    SampledHeader(SampledHeader),
    SampledIpv4(SampledIpv4),
    SampledIpv6(SampledIpv6),
    Extended,
}

/// A compact flow sample. `source_id` and the interfaces carry the raw
/// 32-bit words of the compact encoding.
#[derive(Clone, Debug, PartialEq, Eq)]
pub struct FlowSample {
    pub sequence_number: u32,
    pub source_id: u32,
    pub sampling_rate: u32,
    pub sample_pool: u32,
    pub drops: u32,
    pub input: u32,
    pub output: u32,
    pub flow_records: Vec<FlowRecord>,
}

/// An expanded flow sample: source id and interfaces already split into
/// type/format and value words.
#[derive(Clone, Debug, PartialEq, Eq)]
pub struct FlowSampleExpanded {
    pub sequence_number: u32,
    pub source_id_type: u32,
    pub source_id_index: u32,
    pub sampling_rate: u32,
    pub sample_pool: u32,
    pub drops: u32,
    pub input_format: u32,
    pub input_value: u32,
    pub output_format: u32,
    pub output_value: u32,
    pub flow_records: Vec<FlowRecord>,
}

/// The closed set of sample variants of a datagram. Counter, discarded and
/// unknown samples are counted but never yield output records, so their
/// contents are not modeled.
#[derive(Clone, Debug, PartialEq, Eq)]
pub enum SampleData {
    FlowSample(FlowSample),
    FlowSampleExpanded(FlowSampleExpanded),
    CountersSample,
    CountersSampleExpanded,
    DiscardedPacket,
    Unknown,
}

/// A decoded sFlow datagram: agent metadata plus its samples, in arrival
/// order.
#[derive(Clone, Debug, PartialEq, Eq)]
pub struct SFlowDatagram {
    pub agent_address: Address,
    pub sub_agent_id: u32,
    pub sequence_number: u32,
    pub uptime: u32,
    pub samples: Vec<SampleData>,
}

/// The flow tuple derived from one eligible flow record, addresses already
/// in 16-byte IPv6 form.
#[derive(Clone, Copy, Debug, PartialEq, Eq)]
pub struct FlowKey {
    pub length: u32,
    pub protocol: u32,
    pub src_ip: [u8; 16],
    pub dst_ip: [u8; 16],
    pub src_port: u32,
    pub dst_port: u32,
    pub tcp_flags: u32,
    pub tos: u32,
}

/// The mathematical value of a `FlowKey`: the same fields with the
/// addresses as byte sequences.
pub ghost struct FlowKeyModel {
    pub length: u32,
    pub protocol: u32,
    pub src_ip: Seq<u8>,
    pub dst_ip: Seq<u8>,
    pub src_port: u32,
    pub dst_port: u32,
    pub tcp_flags: u32,
    pub tos: u32,
}

impl View for FlowKey {
    type V = FlowKeyModel;

    open spec fn view(&self) -> FlowKeyModel {
        FlowKeyModel {
            length: self.length,
            protocol: self.protocol,
            src_ip: self.src_ip@,
            dst_ip: self.dst_ip@,
            src_port: self.src_port,
            dst_port: self.dst_port,
            tcp_flags: self.tcp_flags,
            tos: self.tos,
        }
    }
}

/// A well-formed flow key holds two 16-byte addresses.
pub open spec fn flow_key_wf(k: FlowKeyModel) -> bool {
    k.src_ip.len() == 16 && k.dst_ip.len() == 16
}

/// Datagram-level metadata carried unchanged into every output record of
/// one datagram: receive time, agent address and UDP source port, and the
/// datagram header fields.
pub ghost struct DatagramMeta {
    pub time_received_ns: u64,
    pub agent_addr: Seq<u8>,
    pub agent_port: u16,
    pub agent_sub_id: u32,
    pub datagram_sequence_number: u32,
    pub uptime: u32,
}

/// The unified sample tuple shared by compact and expanded flow samples:
/// already-resolved 32-bit values plus the sample's flow records.
pub ghost struct FlowSampleMeta {
    pub sample_sequence_number: u32,
    pub source_id: u32,
    pub sampling_rate: u32,
    pub sample_pool: u32,
    pub drops: u32,
    pub input_interface: u32,
    pub output_interface: u32,
    pub flow_records: Seq<FlowRecord>,
}

/// The unified tuple of a sample, where the sample is a flow sample: the
/// compact form contributes its raw source-id and interface words, the
/// expanded form its value words.
pub open spec fn flow_sample_meta(s: SampleData) -> Option<FlowSampleMeta> {
    match s {
        SampleData::FlowSample(f) => Some(
            FlowSampleMeta {
                sample_sequence_number: f.sequence_number,
                source_id: f.source_id,
                sampling_rate: f.sampling_rate,
                sample_pool: f.sample_pool,
                drops: f.drops,
                input_interface: f.input,
                output_interface: f.output,
                flow_records: f.flow_records@,
            },
        ),
        SampleData::FlowSampleExpanded(f) => Some(
            FlowSampleMeta {
                sample_sequence_number: f.sequence_number,
                source_id: f.source_id_index,
                sampling_rate: f.sampling_rate,
                sample_pool: f.sample_pool,
                drops: f.drops,
                input_interface: f.input_value,
                output_interface: f.output_value,
                flow_records: f.flow_records@,
            },
        ),
        _ => None,
    }
}

} // verus!
