//! Tests of the record codec: address normalization, raw header parsing,
//! per-sample output counts, ordering, and the exact record layout.

use pesto::{
    mapped_to_ipv4, parse_raw_packet_header, serialize_address, serialize_sflow_record, Address,
    FlowRecord, FlowSample, SFlowDatagram, SampleData, SampledHeader, SampledIpv4, SampledIpv6,
    RECORD_WIRE_BYTES,
};

fn datagram_with_samples(samples: Vec<SampleData>) -> SFlowDatagram {
    SFlowDatagram {
        agent_address: Address::IPv4([10, 0, 0, 1]),
        sub_agent_id: 1,
        sequence_number: 2,
        uptime: 3,
        samples,
    }
}

fn sampled_ipv4(src: [u8; 4], dst: [u8; 4]) -> FlowRecord {
    FlowRecord::SampledIpv4(SampledIpv4 {
        length: 100,
        protocol: 17,
        src_ip: src,
        dst_ip: dst,
        src_port: 1234,
        dst_port: 80,
        tcp_flags: 0,
        tos: 4,
    })
}

#[test]
fn serialize_address_ipv4_is_mapped() {
    let b = serialize_address(&Address::IPv4([192, 0, 2, 1]));
    assert_eq!(b.len(), 16);
    assert_eq!(&b[..10], &[0u8; 10]);
    assert_eq!(b[10], 0xFF);
    assert_eq!(b[11], 0xFF);
    assert_eq!(&b[12..], &[192, 0, 2, 1]);
}

#[test]
fn serialize_address_ipv6_is_identity() {
    let octets: [u8; 16] = [1, 2, 3, 4, 5, 6, 7, 8, 9, 10, 11, 12, 13, 14, 15, 16];
    let b = serialize_address(&Address::IPv6(octets));
    assert_eq!(b, octets.to_vec());
}

#[test]
fn serialize_address_unknown_is_zero() {
    let b = serialize_address(&Address::Unknown);
    assert_eq!(b, vec![0u8; 16]);
}

#[test]
fn ipv4_mapped_round_trip() {
    let b = serialize_address(&Address::IPv4([203, 0, 113, 7]));
    let back = mapped_to_ipv4(&b).expect("mapped form must round-trip");
    assert_eq!(back, [203, 0, 113, 7]);
}

#[test]
fn plain_ipv6_is_not_mapped() {
    let octets: [u8; 16] = [0x20, 1, 0xd, 0xb8, 0, 0, 0, 0, 0, 0, 0, 0, 0, 0, 0, 1];
    let b = serialize_address(&Address::IPv6(octets));
    assert!(mapped_to_ipv4(&b).is_none());
}

fn ipv4_tcp_frame() -> Vec<u8> {
    let mut h = Vec::new();
    // Ethernet: destination MAC, source MAC, EtherType IPv4.
    h.extend_from_slice(&[0xAA, 0xBB, 0xCC, 0xDD, 0xEE, 0xFF]);
    h.extend_from_slice(&[0x11, 0x22, 0x33, 0x44, 0x55, 0x66]);
    h.extend_from_slice(&[0x08, 0x00]);
    // IPv4: version/IHL, ToS, total length 84, id, flags/frag, TTL,
    // protocol TCP, checksum, source, destination.
    h.extend_from_slice(&[0x45, 0x10, 0x00, 0x54]);
    h.extend_from_slice(&[0x00, 0x00, 0x40, 0x00]);
    h.extend_from_slice(&[0x40, 0x06, 0x00, 0x00]);
    h.extend_from_slice(&[1, 2, 3, 4]);
    h.extend_from_slice(&[5, 6, 7, 8]);
    // TCP: ports 80 -> 443, sequence, acknowledgment, offset, flags 0x12.
    h.extend_from_slice(&[0x00, 0x50, 0x01, 0xBB]);
    h.extend_from_slice(&[0, 0, 0, 1]);
    h.extend_from_slice(&[0, 0, 0, 2]);
    h.extend_from_slice(&[0x50, 0x12]);
    h
}

#[test]
fn parse_header_ipv4_tcp() {
    let h = ipv4_tcp_frame();
    let key = parse_raw_packet_header(&h).expect("well-formed frame must parse");
    assert_eq!(key.length, 84);
    assert_eq!(key.protocol, 6);
    assert_eq!(key.src_port, 80);
    assert_eq!(key.dst_port, 443);
    assert_eq!(key.tcp_flags, 0x12);
    assert_eq!(key.tos, 0x10);
    assert_eq!(&key.src_ip[..12], &[0, 0, 0, 0, 0, 0, 0, 0, 0, 0, 0xFF, 0xFF]);
    assert_eq!(&key.src_ip[12..], &[1, 2, 3, 4]);
    assert_eq!(&key.dst_ip[12..], &[5, 6, 7, 8]);
}

#[test]
fn parse_header_ipv6_udp() {
    let mut h = Vec::new();
    h.extend_from_slice(&[0; 12]);
    h.extend_from_slice(&[0x86, 0xDD]);
    // IPv6: version/traffic-class/flow-label, payload length 40, next
    // header UDP, hop limit.
    h.extend_from_slice(&[0x61, 0x25, 0x00, 0x00]);
    h.extend_from_slice(&[0x00, 0x28, 17, 64]);
    let src: [u8; 16] = [1; 16];
    let dst: [u8; 16] = [2; 16];
    h.extend_from_slice(&src);
    h.extend_from_slice(&dst);
    // UDP: ports 5000 -> 6000, length, checksum.
    h.extend_from_slice(&[0x13, 0x88, 0x17, 0x70]);
    h.extend_from_slice(&[0x00, 0x08, 0x00, 0x00]);
    let key = parse_raw_packet_header(&h).expect("well-formed frame must parse");
    assert_eq!(key.length, 80);
    assert_eq!(key.protocol, 17);
    assert_eq!(key.src_port, 5000);
    assert_eq!(key.dst_port, 6000);
    assert_eq!(key.tcp_flags, 0);
    assert_eq!(key.tos, 0x12);
    assert_eq!(key.src_ip, src);
    assert_eq!(key.dst_ip, dst);
}

#[test]
fn parse_header_rejects_short_and_unknown() {
    // Shorter than an Ethernet header.
    assert!(parse_raw_packet_header(&[0u8; 10]).is_none());
    // IPv4 EtherType but truncated before the IP header ends.
    let mut h = vec![0u8; 12];
    h.extend_from_slice(&[0x08, 0x00]);
    h.extend_from_slice(&[0x45, 0, 0, 20]);
    assert!(parse_raw_packet_header(&h).is_none());
    // Claimed IHL larger than the bytes present.
    let mut full = ipv4_tcp_frame();
    full[14] = 0x4F; // IHL 15 words = 60 bytes, frame too short
    assert!(parse_raw_packet_header(&full).is_none());
    // IHL below the IPv4 minimum.
    let mut small = ipv4_tcp_frame();
    small[14] = 0x41; // IHL 1 word = 4 bytes < 20
    assert!(parse_raw_packet_header(&small).is_none());
    // Unrecognized EtherType.
    let mut arp = ipv4_tcp_frame();
    arp[12] = 0x08;
    arp[13] = 0x06;
    assert!(parse_raw_packet_header(&arp).is_none());
}

#[test]
fn short_sampled_header_is_skipped() {
    let d = datagram_with_samples(vec![SampleData::FlowSample(FlowSample {
        sequence_number: 9,
        source_id: 5,
        sampling_rate: 1000,
        sample_pool: 5000,
        drops: 1,
        input: 10,
        output: 20,
        flow_records: vec![FlowRecord::SampledHeader(SampledHeader {
            header: vec![1, 2, 3, 4, 5, 6, 7, 8, 9, 10],
        })],
    })]);
    let (msgs, counts) = serialize_sflow_record(&d, 42, 6343);
    assert_eq!(msgs.len(), 0);
    assert_eq!(counts.flow, 1);
}

#[test]
fn one_record_per_eligible_flow_record_in_order() {
    let ipv6_rec = FlowRecord::SampledIpv6(SampledIpv6 {
        length: 200,
        protocol: 6,
        src_ip: [9; 16],
        dst_ip: [8; 16],
        src_port: 443,
        dst_port: 55555,
        tcp_flags: 0x10,
        priority: 7,
    });
    let d = datagram_with_samples(vec![SampleData::FlowSample(FlowSample {
        sequence_number: 9,
        source_id: 5,
        sampling_rate: 1000,
        sample_pool: 5000,
        drops: 1,
        input: 10,
        output: 20,
        flow_records: vec![
            sampled_ipv4([192, 168, 0, 1], [192, 168, 0, 2]),
            FlowRecord::Extended,
            ipv6_rec,
        ],
    })]);
    let (msgs, counts) = serialize_sflow_record(&d, 42, 6343);
    assert_eq!(msgs.len(), 2);
    assert_eq!(counts.flow, 1);
    for m in &msgs {
        assert_eq!(m.len(), RECORD_WIRE_BYTES);
    }
    // Source order: the IPv4 record's tuple first, the IPv6 one second.
    // src_ip sits at bytes 74..90 of the record.
    assert_eq!(&msgs[0][74..86], &[0, 0, 0, 0, 0, 0, 0, 0, 0, 0, 0xFF, 0xFF]);
    assert_eq!(&msgs[0][86..90], &[192, 168, 0, 1]);
    assert_eq!(&msgs[1][74..90], &[9u8; 16][..]);
}

#[test]
fn expanded_flow_sample_uses_value_words() {
    let d = datagram_with_samples(vec![SampleData::FlowSampleExpanded(
        pesto::FlowSampleExpanded {
            sequence_number: 9,
            source_id_type: 0,
            source_id_index: 77,
            sampling_rate: 1000,
            sample_pool: 5000,
            drops: 1,
            input_format: 0,
            input_value: 33,
            output_format: 0,
            output_value: 44,
            flow_records: vec![sampled_ipv4([1, 1, 1, 1], [2, 2, 2, 2])],
        },
    )]);
    let (msgs, counts) = serialize_sflow_record(&d, 42, 6343);
    assert_eq!(counts.flow, 1);
    assert_eq!(msgs.len(), 1);
    // source_id sits at bytes 42..46, input at 58..62, output at 62..66.
    assert_eq!(&msgs[0][42..46], &[0, 0, 0, 77]);
    assert_eq!(&msgs[0][58..62], &[0, 0, 0, 33]);
    assert_eq!(&msgs[0][62..66], &[0, 0, 0, 44]);
}

#[test]
fn counter_discarded_unknown_counted_but_silent() {
    let d = datagram_with_samples(vec![
        SampleData::CountersSample,
        SampleData::CountersSampleExpanded,
        SampleData::DiscardedPacket,
        SampleData::Unknown,
    ]);
    let (msgs, counts) = serialize_sflow_record(&d, 42, 6343);
    assert_eq!(msgs.len(), 0);
    assert_eq!(counts.flow, 0);
    assert_eq!(counts.counter, 2);
    assert_eq!(counts.discarded, 1);
    assert_eq!(counts.unknown, 1);
}

#[test]
fn record_layout_exact_bytes() {
    let d = datagram_with_samples(vec![SampleData::FlowSample(FlowSample {
        sequence_number: 9,
        source_id: 0x01000005,
        sampling_rate: 1000,
        sample_pool: 5000,
        drops: 1,
        input: 10,
        output: 20,
        flow_records: vec![sampled_ipv4([192, 168, 0, 1], [192, 168, 0, 2])],
    })]);
    let (msgs, _) = serialize_sflow_record(&d, 0x0102030405060708, 6343);
    assert_eq!(msgs.len(), 1);
    let mut expected: Vec<u8> = Vec::new();
    expected.extend_from_slice(&[0x01, 0x02, 0x03, 0x04, 0x05, 0x06, 0x07, 0x08]);
    expected.extend_from_slice(&[0, 0, 0, 0, 0, 0, 0, 0, 0, 0, 0xFF, 0xFF, 10, 0, 0, 1]);
    expected.extend_from_slice(&[0x18, 0xC7]);
    expected.extend_from_slice(&[0, 0, 0, 1]);
    expected.extend_from_slice(&[0, 0, 0, 2]);
    expected.extend_from_slice(&[0, 0, 0, 3]);
    expected.extend_from_slice(&[0, 0, 0, 9]);
    expected.extend_from_slice(&[0x01, 0x00, 0x00, 0x05]);
    expected.extend_from_slice(&[0x00, 0x00, 0x03, 0xE8]);
    expected.extend_from_slice(&[0x00, 0x00, 0x13, 0x88]);
    expected.extend_from_slice(&[0, 0, 0, 1]);
    expected.extend_from_slice(&[0, 0, 0, 10]);
    expected.extend_from_slice(&[0, 0, 0, 20]);
    expected.extend_from_slice(&[0, 0, 0, 100]);
    expected.extend_from_slice(&[0, 0, 0, 17]);
    expected.extend_from_slice(&[0, 0, 0, 0, 0, 0, 0, 0, 0, 0, 0xFF, 0xFF, 192, 168, 0, 1]);
    expected.extend_from_slice(&[0, 0, 0, 0, 0, 0, 0, 0, 0, 0, 0xFF, 0xFF, 192, 168, 0, 2]);
    expected.extend_from_slice(&[0x00, 0x00, 0x04, 0xD2]);
    expected.extend_from_slice(&[0, 0, 0, 80]);
    expected.extend_from_slice(&[0, 0, 0, 0]);
    expected.extend_from_slice(&[0, 0, 0, 4]);
    assert_eq!(expected.len(), RECORD_WIRE_BYTES);
    assert_eq!(msgs[0], expected);
}
