//! The batching engine's state: a byte buffer of serialized records
//! accumulated under a size bound, the count of records placed in the
//! current window, and the pending-overflow records deferred to the next
//! window.
//!
//! Size policy: a record is appended only while the buffer stays within
//! `message_max_bytes`; the first record of a datagram that does not fit is
//! deferred together with every remaining record of the same datagram.
//! Deferred records are appended unconditionally at the start of the next
//! window, so a single record larger than the bound is flushed alone in the
//! next window (a one-time size violation) rather than deferred forever.

use vstd::prelude::*;

use crate::codec::{
    count_matching, counter_pred, datagram_meta, datagram_outputs, discarded_pred, flow_pred,
    serialize_sflow_record, unknown_pred, SampleCounts,
};
use crate::model::SFlowDatagram;
use crate::wire::{append_bytes, concat_bytes, lemma_concat_bytes_take_step, views_of};

verus! {

/// Batching configuration: the flush size bound, the two timing bounds
/// (milliseconds), and whether publishing is disabled.
#[derive(Clone, Copy, Debug)]
pub struct BatchConfig {
    pub message_max_bytes: usize,
    pub batch_wait_time: u64,
    pub batch_wait_interval: u64,
    pub disable: bool,
}

/// Fill a buffer from an ordered sequence of records under a size bound:
/// records are appended in order while they fit; the first record that
/// would push the buffer past `max` stops the fill, and it is returned
/// together with every record after it.
pub open spec fn fill(buf: Seq<u8>, recs: Seq<Seq<u8>>, max: int) -> (Seq<u8>, Seq<Seq<u8>>)
    decreases recs.len(),
{
    if recs.len() == 0 {
        (buf, recs)
    } else if buf.len() + recs.first().len() > max {
        (buf, recs)
    } else {
        fill(buf + recs.first(), recs.drop_first(), max)
    }
}

/// Filling never grows the buffer past the bound: the filled buffer is
/// within `max` unless the starting buffer already exceeded it, in which
/// case it is not grown at all.
pub proof fn lemma_fill_len_bound(buf: Seq<u8>, recs: Seq<Seq<u8>>, max: int)
    ensures
        fill(buf, recs, max).0.len() <= (if buf.len() > max {
            buf.len() as int
        } else {
            max
        }),
    decreases recs.len(),
{
    if recs.len() > 0 && buf.len() + recs.first().len() <= max {
        lemma_fill_len_bound(buf + recs.first(), recs.drop_first(), max);
    }
}

/// A whole window's buffer: starting from `buf`, absorb the record lists
/// of consecutive datagrams, each under the size bound as `fill` does.
pub open spec fn window_fill(buf: Seq<u8>, batches: Seq<Seq<Seq<u8>>>, max: int) -> Seq<u8>
    decreases batches.len(),
{
    if batches.len() == 0 {
        buf
    } else {
        window_fill(fill(buf, batches.first(), max).0, batches.drop_first(), max)
    }
}

/// Batch size law: however many datagrams a window absorbs, the flushed
/// buffer stays within the size bound — except that a window starting
/// from carried-over records already past the bound (a single record
/// larger than the bound alone) flushes that carry unchanged, never
/// grown.
pub proof fn lemma_window_flush_bound(buf: Seq<u8>, batches: Seq<Seq<Seq<u8>>>, max: int)
    ensures
        window_fill(buf, batches, max).len() <= (if buf.len() > max {
            buf.len() as int
        } else {
            max
        }),
    decreases batches.len(),
{
    if batches.len() > 0 {
        lemma_fill_len_bound(buf, batches.first(), max);
        lemma_window_flush_bound(fill(buf, batches.first(), max).0, batches.drop_first(), max);
    }
}

/// What a fill does, split out: some prefix of the records is appended to
/// the buffer in order, and the whole remaining suffix — not just the
/// record that overflowed — is handed back.
pub proof fn lemma_fill_appends_prefix_defers_suffix(buf: Seq<u8>, recs: Seq<Seq<u8>>, max: int)
    ensures
        exists|p: int|
            0 <= p <= recs.len() && fill(buf, recs, max).1 == recs.skip(p) && fill(
                buf,
                recs,
                max,
            ).0 == buf + concat_bytes(recs.take(p)),
    decreases recs.len(),
{
    if recs.len() == 0 {
        assert(recs.skip(0) == recs);
        assert(concat_bytes(recs.take(0)) =~= Seq::<u8>::empty());
        assert(buf + concat_bytes(recs.take(0)) =~= buf);
        assert(0 <= 0 <= recs.len() && fill(buf, recs, max).1 == recs.skip(0) && fill(
            buf,
            recs,
            max,
        ).0 == buf + concat_bytes(recs.take(0)));
    } else if buf.len() + recs.first().len() > max {
        assert(recs.skip(0) == recs);
        assert(concat_bytes(recs.take(0)) =~= Seq::<u8>::empty());
        assert(buf + concat_bytes(recs.take(0)) =~= buf);
        assert(0 <= 0 <= recs.len() && fill(buf, recs, max).1 == recs.skip(0) && fill(
            buf,
            recs,
            max,
        ).0 == buf + concat_bytes(recs.take(0)));
    } else {
        lemma_fill_appends_prefix_defers_suffix(buf + recs.first(), recs.drop_first(), max);
        let q = choose|q: int|
            0 <= q <= recs.drop_first().len() && fill(
                buf + recs.first(),
                recs.drop_first(),
                max,
            ).1 == recs.drop_first().skip(q) && fill(buf + recs.first(), recs.drop_first(), max).0
                == (buf + recs.first()) + concat_bytes(recs.drop_first().take(q));
        let p = q + 1;
        assert(recs.drop_first().skip(q) =~= recs.skip(p));
        lemma_concat_bytes_take_step(recs, 0);
        assert(recs.take(1).drop_last() =~= Seq::<Seq<u8>>::empty());
        assert(concat_bytes(recs.take(1)) =~= recs[0]);
        assert(recs.drop_first().take(q) =~= recs.skip(1).take(q));
        assert(recs.skip(1).take(q) =~= recs.take(p).skip(1));
        lemma_concat_skip_one(recs.take(p));
        assert((buf + recs.first()) + concat_bytes(recs.drop_first().take(q)) =~= buf
            + concat_bytes(recs.take(p)));
        assert(0 <= p <= recs.len() && fill(buf, recs, max).1 == recs.skip(p) && fill(
            buf,
            recs,
            max,
        ).0 == buf + concat_bytes(recs.take(p)));
    }
}

/// Concatenating a non-empty sequence of records equals the first record
/// followed by the concatenation of the rest.
pub proof fn lemma_concat_skip_one(recs: Seq<Seq<u8>>)
    requires
        recs.len() > 0,
    ensures
        concat_bytes(recs) == recs.first() + concat_bytes(recs.skip(1)),
    decreases recs.len(),
{
    if recs.len() == 1 {
        assert(recs.drop_last() =~= Seq::<Seq<u8>>::empty());
        assert(recs.skip(1) =~= Seq::<Seq<u8>>::empty());
        assert(concat_bytes(recs) =~= recs.first() + concat_bytes(recs.skip(1)));
    } else {
        lemma_concat_skip_one(recs.drop_last());
        assert(recs.drop_last().first() == recs.first());
        assert(recs.drop_last().skip(1) =~= recs.skip(1).drop_last());
        assert(concat_bytes(recs) == concat_bytes(recs.drop_last()) + recs.last());
        assert(concat_bytes(recs.skip(1)) == concat_bytes(recs.skip(1).drop_last()) + recs.skip(
            1,
        ).last());
        assert(recs.skip(1).last() == recs.last());
        assert(concat_bytes(recs) =~= recs.first() + concat_bytes(recs.skip(1)));
    }
}

/// The batching engine's per-window state.
pub struct BatchState {
    buffer: Vec<u8>,
    n_records: usize,
    pending: Vec<Vec<u8>>,
}

impl BatchState {
    /// The serialized bytes accumulated in the current window.
    pub closed spec fn buffer_view(&self) -> Seq<u8> {
        self.buffer@
    }

    /// How many records the current window's buffer holds.
    pub closed spec fn records_in_window(&self) -> nat {
        self.n_records as nat
    }

    /// The records deferred to the next window, in order.
    pub closed spec fn pending_view(&self) -> Seq<Seq<u8>> {
        views_of(self.pending@)
    }

    /// Well-formedness: the record count never exceeds the buffer's byte
    /// length (each placed record holds at least one byte), and deferred
    /// records are never empty.
    pub closed spec fn wf(&self) -> bool {
        &&& self.n_records <= self.buffer@.len()
        &&& forall|j: int| 0 <= j < self.pending@.len() ==> (#[trigger] self.pending@[j])@.len() > 0
    }

    /// A fresh engine state: empty buffer, no records, nothing deferred.
    pub fn new() -> (s: BatchState)
        ensures
            s.wf(),
            s.buffer_view() == Seq::<u8>::empty(),
            s.records_in_window() == 0,
            s.pending_view() == Seq::<Seq<u8>>::empty(),
    {
        let s = BatchState { buffer: Vec::new(), n_records: 0, pending: Vec::new() };
        proof {
            assert(views_of(s.pending@) =~= Seq::<Seq<u8>>::empty());
        }
        s
    }

    /// Number of bytes in the current buffer.
    pub fn buffer_len(&self) -> (n: usize)
        ensures
            n == self.buffer_view().len(),
    {
        self.buffer.len()
    }

    /// Number of records deferred to the next window.
    pub fn pending_len(&self) -> (n: usize)
        ensures
            n == self.pending_view().len(),
    {
        self.pending.len()
    }

    /// Start a new window: reset the buffer and record count, then append
    /// every deferred record unconditionally, leaving nothing deferred.
    /// A deferred record larger than the size bound therefore enters this
    /// window's buffer and is flushed with it — it is never deferred twice.
    pub fn begin_window(&mut self)
        requires
            old(self).wf(),
        ensures
            final(self).wf(),
            final(self).buffer_view() == concat_bytes(old(self).pending_view()),
            final(self).records_in_window() == old(self).pending_view().len(),
            final(self).pending_view() == Seq::<Seq<u8>>::empty(),
    {
        self.buffer = Vec::new();
        self.n_records = 0;
        let np = self.pending.len();
        let mut i: usize = 0;
        while i < np
            invariant
                i <= np,
                np == self.pending@.len(),
                self.pending@ == old(self).pending@,
                self.buffer@ == concat_bytes(views_of(self.pending@).take(i as int)),
                self.n_records == i,
                old(self).wf(),
                self.n_records <= self.buffer@.len(),
            decreases np - i,
        {
            proof {
                lemma_concat_bytes_take_step(views_of(self.pending@), i as int);
                assert(views_of(self.pending@)[i as int] == (self.pending@[i as int])@);
            }
            append_bytes(&mut self.buffer, self.pending[i].as_slice());
            self.n_records = self.n_records + 1;
            i = i + 1;
        }
        proof {
            assert(views_of(self.pending@).take(np as int) =~= views_of(self.pending@));
        }
        self.pending.clear();
        proof {
            assert(views_of(self.pending@) =~= Seq::<Seq<u8>>::empty());
        }
    }

    /// Append a datagram's records in order while they fit within
    /// `message_max_bytes`; defer the first record that does not fit and
    /// every record after it to the next window, exactly as `fill`
    /// describes. A buffer already within the bound stays within it.
    pub fn add_records(&mut self, mut records: Vec<Vec<u8>>, message_max_bytes: usize)
        requires
            old(self).wf(),
            forall|j: int|
                0 <= j < records@.len() ==> (#[trigger] records@[j])@.len() > 0,
        ensures
            final(self).wf(),
            final(self).buffer_view() == fill(
                old(self).buffer_view(),
                views_of(records@),
                message_max_bytes as int,
            ).0,
            final(self).pending_view() == old(self).pending_view() + fill(
                old(self).buffer_view(),
                views_of(records@),
                message_max_bytes as int,
            ).1,
            final(self).records_in_window() == old(self).records_in_window() + records@.len()
                - fill(old(self).buffer_view(), views_of(records@), message_max_bytes as int).1.len(),
            old(self).buffer_view().len() <= message_max_bytes ==> final(self).buffer_view().len() <= message_max_bytes,
    {
        proof {
            lemma_fill_len_bound(
                old(self).buffer_view(),
                views_of(records@),
                message_max_bytes as int,
            );
        }
        let ghost rvs = views_of(records@);
        proof {
            assert(rvs.skip(0) =~= rvs);
        }
        let n = records.len();
        let mut i: usize = 0;
        let mut overflowed = false;
        while i < n && !overflowed
            invariant
                i <= n,
                n == records@.len(),
                rvs == views_of(records@),
                forall|j: int|
                    0 <= j < records@.len() ==> (#[trigger] records@[j])@.len() > 0,
                self.pending@ == old(self).pending@,
                old(self).wf(),
                self.n_records <= self.buffer@.len(),
                self.n_records == old(self).n_records + i,
                fill(old(self).buffer@, rvs, message_max_bytes as int) == fill(
                    self.buffer@,
                    rvs.skip(i as int),
                    message_max_bytes as int,
                ),
                overflowed ==> i < n && self.buffer@.len() + rvs[i as int].len()
                    > message_max_bytes,
            decreases n - i, (if overflowed { 0int } else { 1int }),
        {
            let rec_len = records[i].len();
            let buf_len = self.buffer.len();
            let over = if message_max_bytes < rec_len {
                true
            } else {
                buf_len > message_max_bytes - rec_len
            };
            proof {
                assert(rvs.skip(i as int).first() == rvs[i as int]);
                assert(rvs.skip(i as int).drop_first() =~= rvs.skip(i + 1));
            }
            if over {
                overflowed = true;
            } else {
                append_bytes(&mut self.buffer, records[i].as_slice());
                self.n_records = self.n_records + 1;
                i = i + 1;
            }
        }
        proof {
            if !overflowed {
                assert(rvs.skip(n as int) =~= Seq::<Seq<u8>>::empty());
            }
        }
        if i < n {
            let mut rest = records.split_off(i);
            proof {
                assert(rvs.skip(i as int) =~= views_of(rest@));
            }
            self.pending.append(&mut rest);
            proof {
                assert(views_of(self.pending@) =~= old(self).pending_view() + fill(
                    old(self).buffer_view(),
                    rvs,
                    message_max_bytes as int,
                ).1);
            }
        } else {
            proof {
                assert(views_of(self.pending@) =~= old(self).pending_view() + fill(
                    old(self).buffer_view(),
                    rvs,
                    message_max_bytes as int,
                ).1);
            }
        }
    }

    /// End the window: an empty buffer means the window is abandoned with
    /// no publish (`None`); otherwise the whole buffer and its record
    /// count are handed out for one publish call, and the buffer resets.
    /// Deferred records are untouched either way.
    pub fn take_payload(&mut self) -> (r: Option<(Vec<u8>, usize)>)
        requires
            old(self).wf(),
        ensures
            final(self).wf(),
            final(self).pending_view() == old(self).pending_view(),
            r is None <==> old(self).buffer_view().len() == 0,
            r is None ==> *final(self) == *old(self),
            r matches Some(p) ==> p.0@ == old(self).buffer_view() && p.1 == old(self).records_in_window() && final(self).buffer_view() == Seq::<u8>::empty() && final(self).records_in_window() == 0,
    {
        if self.buffer.len() == 0 {
            return None;
        }
        let mut payload: Vec<u8> = Vec::new();
        core::mem::swap(&mut payload, &mut self.buffer);
        let n = self.n_records;
        self.n_records = 0;
        Some((payload, n))
    }
}

/// Run the codec over one queue entry and append its records to the
/// window, unless publishing is disabled: a disabled engine drains the
/// entry without touching the window or counting anything.
pub fn handle_entry(
    state: &mut BatchState,
    config: &BatchConfig,
    datagram: &SFlowDatagram,
    time_received_ns: u64,
    agent_port: u16,
) -> (counts: SampleCounts)
    requires
        old(state).wf(),
    ensures
        final(state).wf(),
        config.disable ==> *final(state) == *old(state) && counts == (SampleCounts {
            flow: 0,
            counter: 0,
            discarded: 0,
            unknown: 0,
        }),
        !config.disable ==> {
            let recs = datagram_outputs(
                datagram_meta(*datagram, time_received_ns, agent_port),
                datagram.samples@,
            );
            let filled = fill(
                old(state).buffer_view(),
                recs,
                config.message_max_bytes as int,
            );
            &&& final(state).buffer_view() == filled.0
            &&& final(state).pending_view() == old(state).pending_view() + filled.1
            &&& final(state).records_in_window() == old(state).records_in_window() + recs.len()
                - filled.1.len()
            &&& counts.flow == count_matching(datagram.samples@, flow_pred())
            &&& counts.counter == count_matching(datagram.samples@, counter_pred())
            &&& counts.discarded == count_matching(datagram.samples@, discarded_pred())
            &&& counts.unknown == count_matching(datagram.samples@, unknown_pred())
        },
{
    if config.disable {
        return SampleCounts { flow: 0, counter: 0, discarded: 0, unknown: 0 };
    }
    let (records, counts) = serialize_sflow_record(datagram, time_received_ns, agent_port);
    proof {
        assert(forall|j: int|
            0 <= j < records@.len() ==> (#[trigger] records@[j])@.len() > 0);
    }
    state.add_records(records, config.message_max_bytes);
    counts
}

/// Milliseconds left in the window: the wait bound less the elapsed time,
/// never below zero.
pub fn remaining_wait(batch_wait_time: u64, elapsed_ms: u64) -> (r: u64)
    ensures
        r == if elapsed_ms < batch_wait_time {
            (batch_wait_time - elapsed_ms) as u64
        } else {
            0u64
        },
{
    if elapsed_ms < batch_wait_time {
        batch_wait_time - elapsed_ms
    } else {
        0
    }
}

/// The timeout for one queue receive: the remaining window time, capped by
/// the polling interval.
pub fn recv_timeout(remaining: u64, batch_wait_interval: u64) -> (r: u64)
    ensures
        r == if remaining < batch_wait_interval {
            remaining
        } else {
            batch_wait_interval
        },
{
    if remaining < batch_wait_interval {
        remaining
    } else {
        batch_wait_interval
    }
}

/// Metric deltas of one publish outcome: one message success or failure,
/// and the window's records counted only on success. A failed publish
/// drops the batch: no retry, no re-queue.
#[derive(Clone, Copy, Debug, PartialEq, Eq, Structural)]
pub struct PublishCounts {
    pub success: u64,
    pub failure: u64,
    pub records: u64,
}

/// The failure-accounting policy of one publish call.
pub fn publish_outcome(ok: bool, n_records: usize) -> (c: PublishCounts)
    ensures
        ok ==> c == (PublishCounts { success: 1, failure: 0, records: n_records as u64 }),
        !ok ==> c == (PublishCounts { success: 0, failure: 1, records: 0 }),
{
    if ok {
        PublishCounts { success: 1, failure: 0, records: n_records as u64 }
    } else {
        PublishCounts { success: 0, failure: 1, records: 0 }
    }
}

} // verus!
