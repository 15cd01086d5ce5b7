//! Parsing of raw captured packet headers (Ethernet + IPv4/IPv6 + optional
//! TCP/UDP transport) into a flow tuple. Malformed or truncated headers and
//! unrecognized EtherTypes yield no tuple; the record is then skipped by the
//! codec, never an error.

use vstd::prelude::*;

use crate::addr::mapped_v6_bytes;
use crate::model::{flow_key_wf, FlowKey, FlowKeyModel};
use crate::wire::read16;

verus! {

/// Source port, destination port and TCP flags read from the transport
/// header at `off`: ports only for TCP (6) or UDP (17) when the bytes are
/// there, flags only for TCP, zeros otherwise.
pub open spec fn transport_ports(h: Seq<u8>, off: int, protocol: u32) -> (u32, u32, u32) {
    if (protocol == 6 || protocol == 17) && h.len() >= off + 4 {
        (
            read16(h, off),
            read16(h, off + 2),
            if protocol == 6 && h.len() >= off + 14 {
                h[off + 13] as u32
            } else {
                0u32
            },
        )
    } else {
        (0u32, 0u32, 0u32)
    }
}

/// The flow tuple of a captured frame whose EtherType is IPv4, when the
/// bytes reach through the claimed IP header length. Addresses come out
/// IPv4-mapped; `length` is the IP total length; `tos` is the ToS byte.
pub open spec fn parse_ipv4_header(h: Seq<u8>) -> Option<FlowKeyModel> {
    if h.len() < 34 {
        None
    } else {
        let ihl = (h[14] as int % 16) * 4;
        if ihl < 20 || h.len() < 14 + ihl {
            None
        } else {
            let protocol = h[23] as u32;
            let ports = transport_ports(h, 14 + ihl, protocol);
            Some(
                FlowKeyModel {
                    length: read16(h, 16),
                    protocol: protocol,
                    src_ip: mapped_v6_bytes(h[26], h[27], h[28], h[29]),
                    dst_ip: mapped_v6_bytes(h[30], h[31], h[32], h[33]),
                    src_port: ports.0,
                    dst_port: ports.1,
                    tcp_flags: ports.2,
                    tos: h[15] as u32,
                },
            )
        }
    }
}

/// The flow tuple of a captured frame whose EtherType is IPv6, when the
/// bytes reach through the fixed 40-byte IPv6 header. `length` is the
/// payload length plus the 40 header bytes; `tos` is the traffic class.
pub open spec fn parse_ipv6_header(h: Seq<u8>) -> Option<FlowKeyModel> {
    if h.len() < 54 {
        None
    } else {
        let next_header = h[20] as u32;
        let ports = transport_ports(h, 54, next_header);
        Some(
            FlowKeyModel {
                length: ((40 + read16(h, 18) as int) as u32),
                protocol: next_header,
                src_ip: h.subrange(22, 38),
                dst_ip: h.subrange(38, 54),
                src_port: ports.0,
                dst_port: ports.1,
                tcp_flags: ports.2,
                tos: (((h[14] as int % 16) * 16 + (h[15] as int) / 16) as u32),
            },
        )
    }
}

/// The flow tuple derivable from raw captured frame bytes: Ethernet header,
/// then the IP header selected by the EtherType. `None` when the frame is
/// too short for its claimed layout or the EtherType is unrecognized.
pub open spec fn parse_header(h: Seq<u8>) -> Option<FlowKeyModel> {
    if h.len() < 14 {
        None
    } else {
        let ether_type = read16(h, 12);
        if ether_type == 0x0800 {
            parse_ipv4_header(h)
        } else if ether_type == 0x86DD {
            parse_ipv6_header(h)
        } else {
            None
        }
    }
}

/// Ports and flags of the transport header at `off`, per `transport_ports`.
fn read_transport(header: &[u8], off: usize, protocol: u32) -> (r: (u32, u32, u32))
    requires
        off <= 100,
    ensures
        r == transport_ports(header@, off as int, protocol),
{
    if (protocol == 6 || protocol == 17) && header.len() >= off + 4 {
        let sp: u32 = (header[off] as u32) * 0x100 + (header[off + 1] as u32);
        let dp: u32 = (header[off + 2] as u32) * 0x100 + (header[off + 3] as u32);
        let fl: u32 = if protocol == 6 && header.len() >= off + 14 {
            header[off + 13] as u32
        } else {
            0
        };
        (sp, dp, fl)
    } else {
        (0, 0, 0)
    }
}

/// Parse raw captured frame bytes into a flow tuple, exactly as
/// `parse_header` describes; `None` means the record yields no output.
pub fn parse_raw_packet_header(header: &[u8]) -> (r: Option<FlowKey>)
    ensures
        r is Some <==> parse_header(header@) is Some,
        r is Some ==> r->0@ == parse_header(header@)->0,
        r is Some ==> flow_key_wf(r->0@),
{
    let n = header.len();
    if n < 14 {
        return None;
    }
    let ether_type: u32 = (header[12] as u32) * 0x100 + (header[13] as u32);
    if ether_type == 0x0800 {
        if n < 34 {
            return None;
        }
        let ihl: usize = (header[14] % 16) as usize * 4;
        if ihl < 20 || n < 14 + ihl {
            return None;
        }
        let protocol: u32 = header[23] as u32;
        let length: u32 = (header[16] as u32) * 0x100 + (header[17] as u32);
        let src_ip: [u8; 16] = [
            0u8, 0u8, 0u8, 0u8, 0u8, 0u8, 0u8, 0u8, 0u8, 0u8, 0xFFu8, 0xFFu8, header[26],
            header[27], header[28], header[29],
        ];
        let dst_ip: [u8; 16] = [
            0u8, 0u8, 0u8, 0u8, 0u8, 0u8, 0u8, 0u8, 0u8, 0u8, 0xFFu8, 0xFFu8, header[30],
            header[31], header[32], header[33],
        ];
        let (src_port, dst_port, tcp_flags) = read_transport(header, 14 + ihl, protocol);
        let key = FlowKey {
            length,
            protocol,
            src_ip,
            dst_ip,
            src_port,
            dst_port,
            tcp_flags,
            tos: header[15] as u32,
        };
        assert(key.src_ip@ =~= mapped_v6_bytes(header@[26], header@[27], header@[28], header@[29]));
        assert(key.dst_ip@ =~= mapped_v6_bytes(header@[30], header@[31], header@[32], header@[33]));
        Some(key)
    } else if ether_type == 0x86DD {
        if n < 54 {
            return None;
        }
        let next_header: u32 = header[20] as u32;
        let payload_length: u32 = (header[18] as u32) * 0x100 + (header[19] as u32);
        let traffic_class: u32 = ((header[14] % 16) as u32) * 16 + (header[15] / 16) as u32;
        let src_ip: [u8; 16] = [
            header[22], header[23], header[24], header[25], header[26], header[27], header[28],
            header[29], header[30], header[31], header[32], header[33], header[34], header[35],
            header[36], header[37],
        ];
        let dst_ip: [u8; 16] = [
            header[38], header[39], header[40], header[41], header[42], header[43], header[44],
            header[45], header[46], header[47], header[48], header[49], header[50], header[51],
            header[52], header[53],
        ];
        let (src_port, dst_port, tcp_flags) = read_transport(header, 54, next_header);
        let key = FlowKey {
            length: 40 + payload_length,
            protocol: next_header,
            src_ip,
            dst_ip,
            src_port,
            dst_port,
            tcp_flags,
            tos: traffic_class,
        };
        assert(key.src_ip@ =~= header@.subrange(22, 38));
        assert(key.dst_ip@ =~= header@.subrange(38, 54));
        Some(key)
    } else {
        None
    }
}

/// A header shorter than the minimum its claimed EtherType and IP header
/// length require yields no tuple, as does an unrecognized EtherType: the
/// record is skipped, never an error.
pub proof fn lemma_short_header_yields_none(h: Seq<u8>)
    ensures
        h.len() < 14 ==> parse_header(h) is None,
        h.len() >= 14 && read16(h, 12) != 0x0800 && read16(h, 12) != 0x86DD ==> parse_header(h)
            is None,
        h.len() >= 14 && read16(h, 12) == 0x0800 && h.len() < 34 ==> parse_header(h) is None,
        h.len() >= 34 && read16(h, 12) == 0x0800 && (h[14] as int % 16) * 4 < 20 ==> parse_header(
            h,
        ) is None,
        h.len() >= 34 && read16(h, 12) == 0x0800 && h.len() < 14 + (h[14] as int % 16) * 4
            ==> parse_header(h) is None,
        h.len() >= 14 && read16(h, 12) == 0x86DD && h.len() < 54 ==> parse_header(h) is None,
{
}

} // verus!
