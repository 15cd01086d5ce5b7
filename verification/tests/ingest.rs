//! Tests of the ingest-loop policy: empty datagrams, decode failures and
//! successes, the diagnostic version hint, and recovery after a malformed
//! payload, with the real external decoder standing in for decode.

use pesto::{ingest_step, version_hint, IngestAction, IngestEvent};
use sflow_parser::parse_datagram;

#[test]
fn empty_datagram_is_ignored() {
    let (action, counts) = ingest_step(&IngestEvent::Empty);
    assert_eq!(action, IngestAction::Ignore);
    assert_eq!(counts.datagrams_success, 0);
    assert_eq!(counts.datagrams_parse_error, 0);
    assert_eq!(counts.samples, 0);
}

#[test]
fn decoded_datagram_is_enqueued_and_counted() {
    let (action, counts) = ingest_step(&IngestEvent::Decoded { n_samples: 3 });
    assert_eq!(action, IngestAction::Enqueue);
    assert_eq!(counts.datagrams_success, 1);
    assert_eq!(counts.datagrams_parse_error, 0);
    assert_eq!(counts.samples, 3);
}

#[test]
fn decode_failure_is_discarded_and_counted() {
    let (action, counts) = ingest_step(&IngestEvent::DecodeFailed);
    assert_eq!(action, IngestAction::Discard);
    assert_eq!(counts.datagrams_parse_error, 1);
    assert_eq!(counts.datagrams_success, 0);
}

/// A minimal valid sFlow v5 datagram: version 5, IPv4 agent address,
/// sub-agent id, sequence number, uptime, zero samples.
fn valid_datagram_bytes() -> Vec<u8> {
    let mut b = Vec::new();
    b.extend_from_slice(&5u32.to_be_bytes());
    b.extend_from_slice(&1u32.to_be_bytes());
    b.extend_from_slice(&[10, 0, 0, 1]);
    b.extend_from_slice(&7u32.to_be_bytes());
    b.extend_from_slice(&42u32.to_be_bytes());
    b.extend_from_slice(&1000u32.to_be_bytes());
    b.extend_from_slice(&0u32.to_be_bytes());
    b
}

#[test]
fn malformed_payload_counts_parse_error_and_pipeline_recovers() {
    // Ten arbitrary bytes: the decoder must fail, the ingest policy counts
    // one parse error and discards.
    let junk: [u8; 10] = [0x13, 0x99, 0x42, 0x07, 0xAC, 0x01, 0xFE, 0x55, 0x21, 0x6D];
    assert!(parse_datagram(&junk).is_err());
    let (action, counts) = ingest_step(&IngestEvent::DecodeFailed);
    assert_eq!(action, IngestAction::Discard);
    assert_eq!(counts.datagrams_parse_error, 1);
    // A subsequent valid datagram still decodes and is enqueued.
    let good = valid_datagram_bytes();
    let decoded = parse_datagram(&good).expect("valid datagram must decode");
    let (action2, counts2) = ingest_step(&IngestEvent::Decoded {
        n_samples: decoded.samples.len() as u64,
    });
    assert_eq!(action2, IngestAction::Enqueue);
    assert_eq!(counts2.datagrams_success, 1);
    assert_eq!(counts2.datagrams_parse_error, 0);
}

#[test]
fn version_hint_reads_first_word() {
    assert_eq!(version_hint(&[0, 0, 0, 5, 9, 9]), Some(5));
    assert_eq!(version_hint(&[0x12, 0x34, 0x56, 0x78]), Some(0x12345678));
    assert_eq!(version_hint(&[1, 2, 3]), None);
    assert_eq!(version_hint(&[]), None);
}
