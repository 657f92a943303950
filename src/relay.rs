use vstd::prelude::*;

use crate::session::{
    fanout_effect, saturated, statistics_added, status_updated, Delivery, StreamContext, StreamState,
};

verus! {

/// Stream key used while keys are not yet parsed from the connect command.
pub const DEFAULT_STREAM_KEY: &'static str = "test-stream-key";

/// Connection label of sessions created by the ingest listener.
pub const INGEST_CONNECTION_ID: &'static str = "rtmp-connection";

/// A progress observation is due after every this many packets.
pub const PROGRESS_INTERVAL: u64 = 100;

/// What one read from the publishing client gave.
#[derive(Debug, Clone)]
pub enum ReadOutcome {
    /// This many bytes arrived; zero means the peer closed the connection.
    Data(usize),
    /// The read failed with this message.
    Failed(String),
}

/// What the connection task must do next.
#[derive(Debug, Clone, Copy, PartialEq, Eq, Structural)]
pub enum RelayAction {
    /// Offer the `len` bytes just read to every destination; report progress
    /// when `report_progress` is set.
    Forward { len: usize, report_progress: bool },
    /// Stop reading and tear the session down.
    Teardown,
}

/// The decisions of one connection's read-and-forward loop.
pub struct RelaySession {
    context: StreamContext,
    packet_count: u64,
    total_bytes: u64,
    reading: bool,
    torn_down: bool,
}

impl RelaySession {
    pub closed spec fn spec_context(&self) -> StreamContext {
        self.context
    }

    pub closed spec fn spec_packet_count(&self) -> u64 {
        self.packet_count
    }

    pub closed spec fn spec_total_bytes(&self) -> u64 {
        self.total_bytes
    }

    /// Whether the loop still reads.
    pub closed spec fn spec_reading(&self) -> bool {
        self.reading
    }

    /// Whether teardown has been claimed.
    pub closed spec fn spec_torn_down(&self) -> bool {
        self.torn_down
    }

    /// The session after one read outcome, as `on_read` leaves it.
    pub closed spec fn after_read(self, outcome: ReadOutcome) -> RelaySession {
        if !self.reading {
            self
        } else {
            match outcome {
                ReadOutcome::Data(n) => if n > 0 {
                    RelaySession {
                        context: statistics_added(self.context, n as u64, 1),
                        packet_count: saturated(self.packet_count as int, 1),
                        total_bytes: saturated(self.total_bytes as int, n as int),
                        reading: true,
                        torn_down: self.torn_down,
                    }
                } else {
                    RelaySession {
                        context: status_updated(self.context, StreamState::Ended, None),
                        reading: false,
                        ..self
                    }
                },
                ReadOutcome::Failed(msg) => RelaySession {
                    context: status_updated(self.context, StreamState::Error, Some(msg)),
                    reading: false,
                    ..self
                },
            }
        }
    }

    /// The session after a sequence of read outcomes, in order.
    pub open spec fn after_reads(self, outcomes: Seq<ReadOutcome>) -> RelaySession
        decreases outcomes.len(),
    {
        if outcomes.len() == 0 {
            self
        } else {
            self.after_reads(outcomes.drop_last()).after_read(outcomes.last())
        }
    }

    /// Starts relaying for an authorized session: the session becomes `Active`
    /// (unless it already ended) and the loop starts reading.
    pub fn start(context: StreamContext) -> (r: RelaySession)
        ensures
            !context.status.state.spec_is_terminal() ==> r.spec_context().status.state
                == StreamState::Active,
            context.status.state.spec_is_terminal() ==> r.spec_context().status
                == context.status,
            r.spec_context().statistics == context.statistics,
            r.spec_context().destinations == context.destinations,
            r.spec_context().stream_key == context.stream_key,
            r.spec_packet_count() == 0,
            r.spec_total_bytes() == 0,
            r.spec_reading(),
            !r.spec_torn_down(),
    {
        let mut context = context;
        context.update_status(StreamState::Active, None);
        RelaySession { context, packet_count: 0, total_bytes: 0, reading: true, torn_down: false }
    }

    /// The session as it stands.
    pub fn context(&self) -> (r: &StreamContext)
        ensures
            *r == self.spec_context(),
    {
        &self.context
    }

    /// Packets read so far.
    pub fn packet_count(&self) -> (r: u64)
        ensures
            r == self.spec_packet_count(),
    {
        self.packet_count
    }

    /// Bytes read so far.
    pub fn total_bytes(&self) -> (r: u64)
        ensures
            r == self.spec_total_bytes(),
    {
        self.total_bytes
    }

    /// Takes in the outcome of one read. Data is counted and must be forwarded;
    /// end of stream ends the session; a failed read puts it in `Error`. Both
    /// end the reading, and once reading has ended every outcome asks for
    /// teardown and changes nothing.
    pub fn on_read(&mut self, outcome: ReadOutcome) -> (r: RelayAction)
        ensures
            *final(self) == old(self).after_read(outcome),
            !old(self).spec_reading() ==> r == RelayAction::Teardown && *final(self) == *old(self),
            old(self).spec_reading() ==> match outcome {
                ReadOutcome::Data(n) => if n > 0 {
                    &&& r == (RelayAction::Forward {
                        len: n,
                        report_progress: final(self).spec_packet_count() % PROGRESS_INTERVAL == 0,
                    })
                    &&& final(self).spec_reading()
                    &&& final(self).spec_packet_count() == saturated(
                        old(self).spec_packet_count() as int,
                        1,
                    )
                    &&& final(self).spec_total_bytes() == saturated(
                        old(self).spec_total_bytes() as int,
                        n as int,
                    )
                    &&& final(self).spec_context().statistics.total_packets_received == saturated(
                        old(self).spec_context().statistics.total_packets_received as int,
                        1,
                    )
                    &&& final(self).spec_context().statistics.total_bytes_received == saturated(
                        old(self).spec_context().statistics.total_bytes_received as int,
                        n as int,
                    )
                    &&& final(self).spec_context().status == old(self).spec_context().status
                } else {
                    &&& r == RelayAction::Teardown
                    &&& !final(self).spec_reading()
                    &&& final(self).spec_packet_count() == old(self).spec_packet_count()
                    &&& final(self).spec_context().statistics == old(self).spec_context().statistics
                    &&& !old(self).spec_context().status.state.spec_is_terminal()
                        ==> final(self).spec_context().status.state == StreamState::Ended
                },
                ReadOutcome::Failed(msg) => {
                    &&& r == RelayAction::Teardown
                    &&& !final(self).spec_reading()
                    &&& final(self).spec_packet_count() == old(self).spec_packet_count()
                    &&& final(self).spec_context().statistics == old(self).spec_context().statistics
                    &&& !old(self).spec_context().status.state.spec_is_terminal() ==> (final(self).spec_context().status.state == StreamState::Error && final(self).spec_context().status.error_message == Some(msg))
                },
            },
            final(self).spec_torn_down() == old(self).spec_torn_down(),
            final(self).spec_context().destinations == old(self).spec_context().destinations,
            final(self).spec_context().stream_key == old(self).spec_context().stream_key,
    {
        if !self.reading {
            return RelayAction::Teardown;
        }
        match outcome {
            ReadOutcome::Data(n) => {
                if n > 0 {
                    self.packet_count = self.packet_count.saturating_add(1);
                    self.total_bytes = self.total_bytes.saturating_add(n as u64);
                    self.context.update_statistics(n as u64, 1);
                    RelayAction::Forward {
                        len: n,
                        report_progress: self.packet_count % PROGRESS_INTERVAL == 0,
                    }
                } else {
                    self.reading = false;
                    self.context.update_status(StreamState::Ended, None);
                    RelayAction::Teardown
                }
            },
            ReadOutcome::Failed(msg) => {
                self.reading = false;
                self.context.update_status(StreamState::Error, Some(msg));
                RelayAction::Teardown
            },
        }
    }

    /// Records what became of the last buffer at each destination, in the
    /// order of the session's destinations.
    pub fn record_deliveries(&mut self, len: usize, outcomes: &Vec<Delivery>, now: i64)
        requires
            outcomes@.len() == old(self).spec_context().destinations@.len(),
        ensures
            final(self).spec_context().destinations@ == fanout_effect(
                old(self).spec_context().destinations@,
                len as u64,
                outcomes@,
                now,
            ),
            final(self).spec_context().status == old(self).spec_context().status,
            final(self).spec_context().statistics.total_packets_received == old(self).spec_context().statistics.total_packets_received,
            final(self).spec_packet_count() == old(self).spec_packet_count(),
            final(self).spec_total_bytes() == old(self).spec_total_bytes(),
            final(self).spec_reading() == old(self).spec_reading(),
            final(self).spec_torn_down() == old(self).spec_torn_down(),
    {
        self.context.record_fanout(len as u64, outcomes, now);
    }

    /// Claims the teardown of this session. Only the first call returns
    /// `true`: the caller that gets it reports the end of the stream and
    /// removes the session from the registry, so both happen exactly once.
    pub fn finish(&mut self) -> (r: bool)
        ensures
            r == !old(self).spec_torn_down(),
            final(self).spec_torn_down(),
            !final(self).spec_reading(),
            final(self).spec_packet_count() == old(self).spec_packet_count(),
            final(self).spec_context() == old(self).spec_context(),
    {
        let first = !self.torn_down;
        self.torn_down = true;
        self.reading = false;
        first
    }
}

/// The outcomes of `sizes.len()` reads that brought `sizes[i]` bytes each.
pub open spec fn data_reads(sizes: Seq<usize>) -> Seq<ReadOutcome> {
    sizes.map_values(|n: usize| ReadOutcome::Data(n))
}

/// The bytes of a sequence of reads, added in order; the sum saturates at the
/// largest `u64` as the counters do.
pub open spec fn byte_total(sizes: Seq<usize>) -> u64
    decreases sizes.len(),
{
    if sizes.len() == 0 {
        0
    } else {
        saturated(byte_total(sizes.drop_last()) as int, sizes.last() as int)
    }
}

/// A stream that sends M non-empty buffers and then closes cleanly: the
/// session counts exactly M packets received and the sum of their sizes in
/// bytes, both in the relay and in the session statistics, reading goes on until the close and stops there, and
/// a session that was `Active` ends in `Ended`. Teardown is then claimed once
/// (see `finish`).
pub proof fn lemma_counts_every_buffer(s: RelaySession, sizes: Seq<usize>)
    requires
        s.spec_reading(),
        s.spec_packet_count() == 0,
        s.spec_context().statistics.total_packets_received == 0,
        s.spec_total_bytes() == 0,
        s.spec_context().statistics.total_bytes_received == 0,
        s.spec_context().status.state == StreamState::Active,
        sizes.len() <= u64::MAX,
        forall|i: int| 0 <= i < sizes.len() ==> sizes[i] > 0,
    ensures
        s.after_reads(data_reads(sizes)).spec_reading(),
        s.after_reads(data_reads(sizes)).spec_packet_count() == sizes.len(),
        s.after_reads(data_reads(sizes)).spec_context().statistics.total_packets_received
            == sizes.len(),
        s.after_reads(data_reads(sizes).push(ReadOutcome::Data(0))).spec_packet_count()
            == sizes.len(),
        s.after_reads(
            data_reads(sizes).push(ReadOutcome::Data(0)),
        ).spec_context().statistics.total_packets_received == sizes.len(),
        s.after_reads(data_reads(sizes)).spec_total_bytes() == byte_total(sizes),
        s.after_reads(data_reads(sizes)).spec_context().statistics.total_bytes_received
            == byte_total(sizes),
        s.after_reads(data_reads(sizes).push(ReadOutcome::Data(0))).spec_total_bytes()
            == byte_total(sizes),
        s.after_reads(
            data_reads(sizes).push(ReadOutcome::Data(0)),
        ).spec_context().statistics.total_bytes_received == byte_total(sizes),
        !s.after_reads(data_reads(sizes).push(ReadOutcome::Data(0))).spec_reading(),
        s.after_reads(data_reads(sizes).push(ReadOutcome::Data(0))).spec_context().status.state
            == StreamState::Ended,
    decreases sizes.len(),
{
    let all = data_reads(sizes).push(ReadOutcome::Data(0));
    assert(all.drop_last() =~= data_reads(sizes));
    if sizes.len() > 0 {
        let prefix = sizes.drop_last();
        assert(data_reads(sizes).drop_last() =~= data_reads(prefix));
        lemma_counts_every_buffer(s, prefix);
        assert(data_reads(prefix).push(ReadOutcome::Data(0)).drop_last() =~= data_reads(prefix));
        assert(sizes[sizes.len() - 1] > 0);
    }
}

} // verus!
