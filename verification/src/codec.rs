//! The record codec: a pure function turning one decoded datagram into the
//! ordered sequence of serialized normalized flow records, plus the
//! per-variant sample counts that back the "samples received" metrics.
//!
//! Exactly one output record is produced per eligible flow record, in
//! sample order then flow-record order; counter, discarded and unknown
//! samples are counted and yield nothing. A failure to derive a flow tuple
//! is always "skip this record", never an error.

use vstd::prelude::*;

use crate::addr::{address_bytes, serialize_address};
use crate::header::{parse_header, parse_raw_packet_header};
use crate::model::{
    flow_key_wf, flow_sample_meta, DatagramMeta, FlowKey, FlowKeyModel, FlowRecord, FlowSampleMeta,
    SFlowDatagram, SampleData,
};
use crate::wire::{be16, be32, be64, views_of};

verus! {

broadcast use crate::wire::lemma_be16_len, crate::wire::lemma_be32_len, crate::wire::lemma_be64_len;

/// Byte length of one serialized normalized flow record. Every record is
/// this long, so records are self-describing within a concatenated buffer.
pub const RECORD_WIRE_BYTES: usize = 122;

/// All fields of one normalized flow record, as mathematical values.
pub ghost struct RecordModel {
    pub time_received_ns: u64,
    pub agent_addr: Seq<u8>,
    pub agent_port: u16,
    pub agent_sub_id: u32,
    pub datagram_sequence_number: u32,
    pub uptime: u32,
    pub sample_sequence_number: u32,
    pub source_id: u32,
    pub sampling_rate: u32,
    pub sample_pool: u32,
    pub drops: u32,
    pub input_interface: u32,
    pub output_interface: u32,
    pub key: FlowKeyModel,
}

/// The serialized bytes of one normalized flow record: every field
/// big-endian and fixed-width, in schema order.
pub open spec fn record_bytes(r: RecordModel) -> Seq<u8> {
    be64(r.time_received_ns) + r.agent_addr + be16(r.agent_port) + be32(r.agent_sub_id) + be32(
        r.datagram_sequence_number,
    ) + be32(r.uptime) + be32(r.sample_sequence_number) + be32(r.source_id) + be32(
        r.sampling_rate,
    ) + be32(r.sample_pool) + be32(r.drops) + be32(r.input_interface) + be32(
        r.output_interface,
    ) + be32(r.key.length) + be32(r.key.protocol) + r.key.src_ip + r.key.dst_ip + be32(
        r.key.src_port,
    ) + be32(r.key.dst_port) + be32(r.key.tcp_flags) + be32(r.key.tos)
}

/// The record model combining datagram metadata, the unified sample tuple
/// and one derived flow tuple.
pub open spec fn record_model(d: DatagramMeta, m: FlowSampleMeta, k: FlowKeyModel) -> RecordModel {
    RecordModel {
        time_received_ns: d.time_received_ns,
        agent_addr: d.agent_addr,
        agent_port: d.agent_port,
        agent_sub_id: d.agent_sub_id,
        datagram_sequence_number: d.datagram_sequence_number,
        uptime: d.uptime,
        sample_sequence_number: m.sample_sequence_number,
        source_id: m.source_id,
        sampling_rate: m.sampling_rate,
        sample_pool: m.sample_pool,
        drops: m.drops,
        input_interface: m.input_interface,
        output_interface: m.output_interface,
        key: k,
    }
}

/// The datagram metadata carried into every record of one datagram.
pub open spec fn datagram_meta(d: SFlowDatagram, time_received_ns: u64, agent_port: u16)
    -> DatagramMeta {
    DatagramMeta {
        time_received_ns: time_received_ns,
        agent_addr: address_bytes(d.agent_address),
        agent_port: agent_port,
        agent_sub_id: d.sub_agent_id,
        datagram_sequence_number: d.sequence_number,
        uptime: d.uptime,
    }
}

/// The flow tuple of one flow record, if one can be derived: direct IP
/// samples read their fields (IPv4 addresses mapped), sampled headers are
/// parsed, metadata-only records yield nothing.
pub open spec fn flow_key_of(fr: FlowRecord) -> Option<FlowKeyModel> {
    match fr {
        FlowRecord::SampledHeader(sh) => parse_header(sh.header@),
        FlowRecord::SampledIpv4(s) => Some(
            FlowKeyModel {
                length: s.length,
                protocol: s.protocol,
                src_ip: crate::addr::mapped_v6_bytes(
                    s.src_ip[0],
                    s.src_ip[1],
                    s.src_ip[2],
                    s.src_ip[3],
                ),
                dst_ip: crate::addr::mapped_v6_bytes(
                    s.dst_ip[0],
                    s.dst_ip[1],
                    s.dst_ip[2],
                    s.dst_ip[3],
                ),
                src_port: s.src_port,
                dst_port: s.dst_port,
                tcp_flags: s.tcp_flags,
                tos: s.tos,
            },
        ),
        FlowRecord::SampledIpv6(s) => Some(
            FlowKeyModel {
                length: s.length,
                protocol: s.protocol,
                src_ip: s.src_ip@,
                dst_ip: s.dst_ip@,
                src_port: s.src_port,
                dst_port: s.dst_port,
                tcp_flags: s.tcp_flags,
                tos: s.priority,
            },
        ),
        FlowRecord::Extended => None,
    }
}

/// `flow_key_of` as a function value, for `filter_map`.
pub open spec fn flow_key_fn() -> spec_fn(FlowRecord) -> Option<FlowKeyModel> {
    |fr: FlowRecord| flow_key_of(fr)
}

/// The ordered flow tuples of the eligible records among `frs`.
pub open spec fn eligible_keys(frs: Seq<FlowRecord>) -> Seq<FlowKeyModel> {
    frs.filter_map(flow_key_fn())
}

/// The record serializer for fixed datagram and sample metadata, as a
/// function value.
pub open spec fn record_fn(d: DatagramMeta, m: FlowSampleMeta) -> spec_fn(FlowKeyModel) -> Seq<
    u8,
> {
    |k: FlowKeyModel| record_bytes(record_model(d, m, k))
}

/// The serialized output records of one flow sample: one per eligible flow
/// record, in source order.
pub open spec fn keys_outputs(d: DatagramMeta, m: FlowSampleMeta) -> Seq<Seq<u8>> {
    eligible_keys(m.flow_records).map_values(record_fn(d, m))
}

/// The serialized output records of one sample: flow samples yield one
/// record per eligible flow record, every other variant yields nothing.
pub open spec fn sample_outputs(d: DatagramMeta, s: SampleData) -> Seq<Seq<u8>> {
    match flow_sample_meta(s) {
        Some(m) => keys_outputs(d, m),
        None => Seq::empty(),
    }
}

/// `sample_outputs` for fixed datagram metadata, as a function value.
pub open spec fn sample_outputs_fn(d: DatagramMeta) -> spec_fn(SampleData) -> Seq<Seq<u8>> {
    |s: SampleData| sample_outputs(d, s)
}

/// The serialized output records of a whole datagram, in sample order then
/// flow-record order.
pub open spec fn datagram_outputs(d: DatagramMeta, samples: Seq<SampleData>) -> Seq<Seq<u8>> {
    samples.flat_map(sample_outputs_fn(d))
}

/// Number of samples among `s` satisfying `p`.
pub open spec fn count_matching(s: Seq<SampleData>, p: spec_fn(SampleData) -> bool) -> nat
    decreases s.len(),
{
    if s.len() == 0 {
        0
    } else {
        count_matching(s.drop_last(), p) + (if p(s.last()) {
            1nat
        } else {
            0nat
        })
    }
}

pub proof fn lemma_count_matching_take_step(s: Seq<SampleData>, p: spec_fn(SampleData) -> bool, i: int)
    requires
        0 <= i < s.len(),
    ensures
        count_matching(s.take(i + 1), p) == count_matching(s.take(i), p) + (if p(s[i]) {
            1nat
        } else {
            0nat
        }),
        count_matching(s.take(i), p) <= i,
    decreases i,
{
    assert(s.take(i + 1).drop_last() =~= s.take(i));
    assert(s.take(i + 1).last() == s[i]);
    if i > 0 {
        lemma_count_matching_take_step(s, p, i - 1);
        assert(s.take(i).take(i - 1 + 1) =~= s.take(i));
    }
}

/// A sample is a flow sample (compact or expanded).
pub open spec fn is_flow_sample(s: SampleData) -> bool {
    flow_sample_meta(s) is Some
}

/// A sample is a counters sample (compact or expanded).
pub open spec fn is_counter_sample(s: SampleData) -> bool {
    s is CountersSample || s is CountersSampleExpanded
}

pub open spec fn is_discarded_sample(s: SampleData) -> bool {
    s is DiscardedPacket
}

pub open spec fn is_unknown_sample(s: SampleData) -> bool {
    s is Unknown
}

pub open spec fn flow_pred() -> spec_fn(SampleData) -> bool {
    |s: SampleData| is_flow_sample(s)
}

pub open spec fn counter_pred() -> spec_fn(SampleData) -> bool {
    |s: SampleData| is_counter_sample(s)
}

pub open spec fn discarded_pred() -> spec_fn(SampleData) -> bool {
    |s: SampleData| is_discarded_sample(s)
}

pub open spec fn unknown_pred() -> spec_fn(SampleData) -> bool {
    |s: SampleData| is_unknown_sample(s)
}

/// How many samples of each variant one codec pass saw: the deltas for the
/// "samples received" metrics, accumulated outside the library.
#[derive(Clone, Copy, Debug, PartialEq, Eq, Structural)]
pub struct SampleCounts {
    pub flow: u64,
    pub counter: u64,
    pub discarded: u64,
    pub unknown: u64,
}

/// Serialize one normalized flow record.
#[verifier::rlimit(50)]
fn encode_record(
    datagram: &SFlowDatagram,
    time_received_ns: u64,
    agent_port: u16,
    sample_seq: u32,
    source_id: u32,
    sampling_rate: u32,
    sample_pool: u32,
    drops: u32,
    input_if: u32,
    output_if: u32,
    key: &FlowKey,
) -> (r: Vec<u8>)
    requires
        flow_key_wf(key@),
    ensures
        r@ == record_bytes(
            (RecordModel {
                time_received_ns: time_received_ns,
                agent_addr: address_bytes(datagram.agent_address),
                agent_port: agent_port,
                agent_sub_id: datagram.sub_agent_id,
                datagram_sequence_number: datagram.sequence_number,
                uptime: datagram.uptime,
                sample_sequence_number: sample_seq,
                source_id: source_id,
                sampling_rate: sampling_rate,
                sample_pool: sample_pool,
                drops: drops,
                input_interface: input_if,
                output_interface: output_if,
                key: key@,
            }),
        ),
        r@.len() == RECORD_WIRE_BYTES,
{
    let mut r: Vec<u8> = Vec::new();
    crate::wire::push_be64(&mut r, time_received_ns);
    let agent_addr = serialize_address(&datagram.agent_address);
    crate::wire::append_bytes(&mut r, agent_addr.as_slice());
    crate::wire::push_be16(&mut r, agent_port);
    crate::wire::push_be32(&mut r, datagram.sub_agent_id);
    crate::wire::push_be32(&mut r, datagram.sequence_number);
    crate::wire::push_be32(&mut r, datagram.uptime);
    crate::wire::push_be32(&mut r, sample_seq);
    crate::wire::push_be32(&mut r, source_id);
    crate::wire::push_be32(&mut r, sampling_rate);
    crate::wire::push_be32(&mut r, sample_pool);
    crate::wire::push_be32(&mut r, drops);
    crate::wire::push_be32(&mut r, input_if);
    crate::wire::push_be32(&mut r, output_if);
    crate::wire::push_be32(&mut r, key.length);
    crate::wire::push_be32(&mut r, key.protocol);
    crate::wire::append_bytes(&mut r, &key.src_ip);
    crate::wire::append_bytes(&mut r, &key.dst_ip);
    crate::wire::push_be32(&mut r, key.src_port);
    crate::wire::push_be32(&mut r, key.dst_port);
    crate::wire::push_be32(&mut r, key.tcp_flags);
    crate::wire::push_be32(&mut r, key.tos);
    r
}

/// Derive the flow tuple of one flow record, exactly as `flow_key_of`
/// describes.
fn derive_flow_key(fr: &FlowRecord) -> (r: Option<FlowKey>)
    ensures
        r is Some <==> flow_key_of(*fr) is Some,
        r is Some ==> r->0@ == flow_key_of(*fr)->0,
        r is Some ==> flow_key_wf(r->0@),
{
    match fr {
        FlowRecord::SampledHeader(sh) => parse_raw_packet_header(sh.header.as_slice()),
        FlowRecord::SampledIpv4(s) => {
            let src_ip: [u8; 16] = [
                0u8, 0u8, 0u8, 0u8, 0u8, 0u8, 0u8, 0u8, 0u8, 0u8, 0xFFu8, 0xFFu8, s.src_ip[0],
                s.src_ip[1], s.src_ip[2], s.src_ip[3],
            ];
            let dst_ip: [u8; 16] = [
                0u8, 0u8, 0u8, 0u8, 0u8, 0u8, 0u8, 0u8, 0u8, 0u8, 0xFFu8, 0xFFu8, s.dst_ip[0],
                s.dst_ip[1], s.dst_ip[2], s.dst_ip[3],
            ];
            let key = FlowKey {
                length: s.length,
                protocol: s.protocol,
                src_ip,
                dst_ip,
                src_port: s.src_port,
                dst_port: s.dst_port,
                tcp_flags: s.tcp_flags,
                tos: s.tos,
            };
            assert(key.src_ip@ =~= crate::addr::mapped_v6_bytes(
                s.src_ip[0],
                s.src_ip[1],
                s.src_ip[2],
                s.src_ip[3],
            ));
            assert(key.dst_ip@ =~= crate::addr::mapped_v6_bytes(
                s.dst_ip[0],
                s.dst_ip[1],
                s.dst_ip[2],
                s.dst_ip[3],
            ));
            Some(key)
        }
        FlowRecord::SampledIpv6(s) => Some(
            FlowKey {
                length: s.length,
                protocol: s.protocol,
                src_ip: s.src_ip,
                dst_ip: s.dst_ip,
                src_port: s.src_port,
                dst_port: s.dst_port,
                tcp_flags: s.tcp_flags,
                tos: s.priority,
            },
        ),
        FlowRecord::Extended => None,
    }
}

/// Run the codec over the flow records of one flow sample, appending one
/// serialized record per eligible flow record, in source order.
fn process_flow_sample(
    messages: &mut Vec<Vec<u8>>,
    datagram: &SFlowDatagram,
    time_received_ns: u64,
    agent_port: u16,
    sample_seq: u32,
    source_id: u32,
    sampling_rate: u32,
    sample_pool: u32,
    drops: u32,
    input_if: u32,
    output_if: u32,
    flow_records: &Vec<FlowRecord>,
)
    ensures
        views_of(final(messages)@) == views_of(old(messages)@) + keys_outputs(
            datagram_meta(*datagram, time_received_ns, agent_port),
            (FlowSampleMeta {
                sample_sequence_number: sample_seq,
                source_id: source_id,
                sampling_rate: sampling_rate,
                sample_pool: sample_pool,
                drops: drops,
                input_interface: input_if,
                output_interface: output_if,
                flow_records: flow_records@,
            }),
        ),
        forall|i: int|
            old(messages)@.len() <= i < final(messages)@.len() ==> (#[trigger] final(messages)@[i])@.len() == RECORD_WIRE_BYTES,
{
    let ghost d = datagram_meta(*datagram, time_received_ns, agent_port);
    let ghost m = FlowSampleMeta {
        sample_sequence_number: sample_seq,
        source_id: source_id,
        sampling_rate: sampling_rate,
        sample_pool: sample_pool,
        drops: drops,
        input_interface: input_if,
        output_interface: output_if,
        flow_records: flow_records@,
    };
    let n = flow_records.len();
    let mut i: usize = 0;
    while i < n
        invariant
            i <= n,
            n == flow_records@.len(),
            d == datagram_meta(*datagram, time_received_ns, agent_port),
            m == (FlowSampleMeta {
                sample_sequence_number: sample_seq,
                source_id: source_id,
                sampling_rate: sampling_rate,
                sample_pool: sample_pool,
                drops: drops,
                input_interface: input_if,
                output_interface: output_if,
                flow_records: flow_records@,
            }),
            views_of(messages@) == views_of(old(messages)@) + eligible_keys(
                flow_records@.take(i as int),
            ).map_values(record_fn(d, m)),
            forall|j: int|
                old(messages)@.len() <= j < messages@.len() ==> (#[trigger] messages@[j])@.len()
                    == RECORD_WIRE_BYTES,
        decreases n - i,
    {
        let fr = &flow_records[i];
        let key_opt = derive_flow_key(fr);
        proof {
            flow_records@.lemma_filter_map_take_succ(flow_key_fn(), i as int);
        }
        match key_opt {
            Some(key) => {
                let msg = encode_record(
                    datagram,
                    time_received_ns,
                    agent_port,
                    sample_seq,
                    source_id,
                    sampling_rate,
                    sample_pool,
                    drops,
                    input_if,
                    output_if,
                    &key,
                );
                proof {
                    assert(msg@ == record_bytes(record_model(d, m, key@)));
                }
                let ghost pre = messages@;
                messages.push(msg);
                proof {
                    let ks = eligible_keys(flow_records@.take(i as int));
                    let ks1 = eligible_keys(flow_records@.take(i + 1));
                    assert(ks1 =~= ks + seq![key@]);
                    assert(ks1.map_values(record_fn(d, m)) =~= ks.map_values(record_fn(d, m))
                        + seq![record_bytes(record_model(d, m, key@))]);
                    assert(views_of(messages@) =~= views_of(pre) + seq![msg@]);
                    assert(record_fn(d, m)(key@) == record_bytes(record_model(d, m, key@)));
                    assert(views_of(messages@) =~= views_of(old(messages)@) + ks1.map_values(
                        record_fn(d, m),
                    ));
                }
            }
            None => {
                proof {
                    assert(eligible_keys(flow_records@.take(i + 1)) =~= eligible_keys(
                        flow_records@.take(i as int),
                    ));
                }
            }
        }
        i = i + 1;
    }
    proof {
        assert(flow_records@.take(n as int) =~= flow_records@);
    }
}

/// Turn one decoded datagram into its serialized normalized flow records,
/// in sample order then flow-record order, together with the per-variant
/// sample counts. Exactly one record per eligible flow record; counter,
/// discarded and unknown samples yield no record but are counted.
#[verifier::rlimit(50)]
pub fn serialize_sflow_record(datagram: &SFlowDatagram, time_received_ns: u64, agent_port: u16)
    -> (r: (Vec<Vec<u8>>, SampleCounts))
    ensures
        views_of(r.0@) == datagram_outputs(
            datagram_meta(*datagram, time_received_ns, agent_port),
            datagram.samples@,
        ),
        r.1.flow == count_matching(datagram.samples@, flow_pred()),
        r.1.counter == count_matching(datagram.samples@, counter_pred()),
        r.1.discarded == count_matching(datagram.samples@, discarded_pred()),
        r.1.unknown == count_matching(datagram.samples@, unknown_pred()),
        forall|i: int|
            0 <= i < r.0@.len() ==> (#[trigger] r.0@[i])@.len() == RECORD_WIRE_BYTES,
{
    let ghost d = datagram_meta(*datagram, time_received_ns, agent_port);
    let mut messages: Vec<Vec<u8>> = Vec::new();
    let mut counts = SampleCounts { flow: 0, counter: 0, discarded: 0, unknown: 0 };
    let n = datagram.samples.len();
    let mut i: usize = 0;
    while i < n
        invariant
            i <= n,
            n == datagram.samples@.len(),
            views_of(messages@) == datagram.samples@.take(i as int).flat_map(sample_outputs_fn(d)),
            d == datagram_meta(*datagram, time_received_ns, agent_port),
            counts.flow == count_matching(datagram.samples@.take(i as int), flow_pred()),
            counts.counter == count_matching(datagram.samples@.take(i as int), counter_pred()),
            counts.discarded == count_matching(datagram.samples@.take(i as int), discarded_pred()),
            counts.unknown == count_matching(datagram.samples@.take(i as int), unknown_pred()),
            counts.flow <= i && counts.counter <= i && counts.discarded <= i && counts.unknown
                <= i,
            forall|j: int|
                0 <= j < messages@.len() ==> (#[trigger] messages@[j])@.len() == RECORD_WIRE_BYTES,
        decreases n - i,
    {
        let ghost samples = datagram.samples@;
        let ghost prev = messages@;
        proof {
            samples.lemma_flat_map_take_append(sample_outputs_fn(d), i as int);
            lemma_count_matching_take_step(samples, flow_pred(), i as int);
            lemma_count_matching_take_step(samples, counter_pred(), i as int);
            lemma_count_matching_take_step(samples, discarded_pred(), i as int);
            lemma_count_matching_take_step(samples, unknown_pred(), i as int);
        }
        let sample = &datagram.samples[i];
        match sample {
            SampleData::FlowSample(f) => {
                process_flow_sample(
                    &mut messages,
                    datagram,
                    time_received_ns,
                    agent_port,
                    f.sequence_number,
                    f.source_id,
                    f.sampling_rate,
                    f.sample_pool,
                    f.drops,
                    f.input,
                    f.output,
                    &f.flow_records,
                );
                counts.flow = counts.flow + 1;
            }
            SampleData::FlowSampleExpanded(f) => {
                process_flow_sample(
                    &mut messages,
                    datagram,
                    time_received_ns,
                    agent_port,
                    f.sequence_number,
                    f.source_id_index,
                    f.sampling_rate,
                    f.sample_pool,
                    f.drops,
                    f.input_value,
                    f.output_value,
                    &f.flow_records,
                );
                counts.flow = counts.flow + 1;
            }
            SampleData::CountersSample => {
                counts.counter = counts.counter + 1;
            }
            SampleData::CountersSampleExpanded => {
                counts.counter = counts.counter + 1;
            }
            SampleData::DiscardedPacket => {
                counts.discarded = counts.discarded + 1;
            }
            SampleData::Unknown => {
                counts.unknown = counts.unknown + 1;
            }
        }
        proof {
            assert(views_of(messages@) =~= samples.take(i + 1).flat_map(sample_outputs_fn(d)));
            assert forall|j: int| 0 <= j < messages@.len() implies (#[trigger] messages@[j])@.len()
                == RECORD_WIRE_BYTES by {
                if j < prev.len() {
                    assert(views_of(messages@)[j] == messages@[j]@);
                    assert(views_of(prev)[j] == prev[j]@);
                }
            }
        }
        i = i + 1;
    }
    proof {
        assert(datagram.samples@.take(n as int) =~= datagram.samples@);
    }
    (messages, counts)
}

/// One output record per eligible flow record, in source order: for any
/// flow sample, the outputs are exactly the serializations of the eligible
/// flow tuples, index for index.
pub proof fn lemma_one_output_per_eligible_record(d: DatagramMeta, s: SampleData)
    requires
        flow_sample_meta(s) is Some,
    ensures
        sample_outputs(d, s).len() == eligible_keys(flow_sample_meta(s)->0.flow_records).len(),
        forall|i: int|
            0 <= i < sample_outputs(d, s).len() ==> #[trigger] sample_outputs(d, s)[i]
                == record_bytes(
                record_model(
                    d,
                    flow_sample_meta(s)->0,
                    eligible_keys(flow_sample_meta(s)->0.flow_records)[i],
                ),
            ),
{
}

/// Counter, discarded and unknown samples yield no output record.
pub proof fn lemma_non_flow_sample_yields_nothing(d: DatagramMeta, s: SampleData)
    requires
        flow_sample_meta(s) is None,
    ensures
        sample_outputs(d, s) == Seq::<Seq<u8>>::empty(),
{
}

/// Records are independently decodable from a concatenated payload: since
/// every record is exactly `RECORD_WIRE_BYTES` long, the payload's length
/// is a multiple of it and the i-th record is the i-th fixed-width slice.
pub proof fn lemma_records_splittable(recs: Seq<Seq<u8>>)
    requires
        forall|i: int| 0 <= i < recs.len() ==> (#[trigger] recs[i]).len() == RECORD_WIRE_BYTES,
    ensures
        crate::wire::concat_bytes(recs).len() == RECORD_WIRE_BYTES * recs.len(),
        forall|i: int|
            0 <= i < recs.len() ==> #[trigger] recs[i] == crate::wire::concat_bytes(recs).subrange(
                RECORD_WIRE_BYTES * i,
                RECORD_WIRE_BYTES * (i + 1),
            ),
    decreases recs.len(),
{
    if recs.len() > 0 {
        let rest = recs.drop_last();
        lemma_records_splittable(rest);
        let c0 = crate::wire::concat_bytes(rest);
        let c = crate::wire::concat_bytes(recs);
        assert(c == c0 + recs.last());
        assert forall|i: int| 0 <= i < recs.len() implies #[trigger] recs[i] == c.subrange(
            RECORD_WIRE_BYTES * i,
            RECORD_WIRE_BYTES * (i + 1),
        ) by {
            if i < recs.len() - 1 {
                assert(recs[i] == rest[i]);
                assert(rest[i] == c0.subrange(RECORD_WIRE_BYTES * i, RECORD_WIRE_BYTES * (i + 1)));
                assert(c.subrange(RECORD_WIRE_BYTES * i, RECORD_WIRE_BYTES * (i + 1)) =~= c0.subrange(
                    RECORD_WIRE_BYTES * i,
                    RECORD_WIRE_BYTES * (i + 1),
                ));
            } else {
                assert(c.subrange(RECORD_WIRE_BYTES * i, RECORD_WIRE_BYTES * (i + 1)) =~= recs.last());
            }
        }
    }
}

} // verus!
