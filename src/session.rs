use vstd::prelude::*;

verus! {

/// Lifecycle of one publish. `Ended` and `Error` are terminal.
#[derive(Debug, Clone, Copy, PartialEq, Eq, Structural)]
pub enum StreamState {
    Connecting,
    Active,
    Error,
    Ended,
}

impl StreamState {
    pub open spec fn spec_is_terminal(self) -> bool {
        self == StreamState::Ended || self == StreamState::Error
    }

    /// Whether no further transition leaves this state.
    pub fn is_terminal(&self) -> (r: bool)
        ensures
            r == self.spec_is_terminal(),
    {
        match self {
            StreamState::Ended | StreamState::Error => true,
            _ => false,
        }
    }
}

/// Lifecycle state of a session; instants are milliseconds since the Unix epoch.
#[derive(Debug, Clone)]
pub struct StreamStatus {
    pub state: StreamState,
    pub started_at: i64,
    pub last_packet_at: Option<i64>,
    pub error_message: Option<String>,
}

/// Delivery state of one destination, written only by that destination's connector.
#[derive(Debug, Clone)]
pub struct DestinationStatus {
    pub connected: bool,
    pub bytes_sent: u64,
    pub packets_sent: u64,
    pub last_packet_at: Option<i64>,
    pub error_count: u32,
    pub error_message: Option<String>,
}

/// One forwarding target, as the control plane describes it.
#[derive(Debug, Clone)]
pub struct Destination {
    pub id: String,
    pub platform: String,
    pub rtmp_url: String,
    pub stream_key: String,
    pub status: DestinationStatus,
}

/// Counters of one session; none of them ever decreases.
#[derive(Debug, Clone, Copy, PartialEq, Eq, Structural)]
pub struct StreamStatistics {
    pub total_bytes_received: u64,
    pub total_packets_received: u64,
    pub total_bytes_sent: u64,
    pub total_packets_sent: u64,
    pub active_destinations: u32,
    pub average_bitrate: u64,
    pub peak_bitrate: u64,
}

/// What became of one buffer offered to one destination.
#[derive(Debug, Clone)]
pub enum Delivery {
    Sent,
    Failed(String),
}

/// One live publish.
#[derive(Debug, Clone)]
pub struct StreamContext {
    pub id: String,
    pub stream_key: String,
    pub connection_id: String,
    pub status: StreamStatus,
    pub destinations: Vec<Destination>,
    pub statistics: StreamStatistics,
    pub created_at: i64,
}

/// A copy of a session's fields taken at one moment.
#[derive(Debug, Clone)]
pub struct StreamInfo {
    pub stream_key: String,
    pub connection_id: String,
    pub status: StreamStatus,
    pub destinations: Vec<Destination>,
    pub statistics: StreamStatistics,
    pub created_at: i64,
}

pub open spec fn zero_statistics() -> StreamStatistics {
    StreamStatistics {
        total_bytes_received: 0,
        total_packets_received: 0,
        total_bytes_sent: 0,
        total_packets_sent: 0,
        active_destinations: 0,
        average_bitrate: 0,
        peak_bitrate: 0,
    }
}

/// The status of a destination whose connector has not connected yet.
pub open spec fn fresh_destination_status() -> DestinationStatus {
    DestinationStatus {
        connected: false,
        bytes_sent: 0,
        packets_sent: 0,
        last_packet_at: None,
        error_count: 0,
        error_message: None,
    }
}

/// `c` after a request to move it to `state` with `error_message`: a session
/// in a terminal state stays as it is.
pub open spec fn status_updated(c: StreamContext, state: StreamState, error_message: Option<String>) -> StreamContext {
    if c.status.state.spec_is_terminal() {
        c
    } else {
        StreamContext {
            id: c.id,
            stream_key: c.stream_key,
            connection_id: c.connection_id,
            status: StreamStatus {
                state,
                started_at: c.status.started_at,
                last_packet_at: c.status.last_packet_at,
                error_message,
            },
            destinations: c.destinations,
            statistics: c.statistics,
            created_at: c.created_at,
        }
    }
}

/// `c` after one read of `bytes` bytes in `packets` packets was counted.
pub open spec fn statistics_added(c: StreamContext, bytes: u64, packets: u64) -> StreamContext {
    StreamContext {
        id: c.id,
        stream_key: c.stream_key,
        connection_id: c.connection_id,
        status: c.status,
        destinations: c.destinations,
        statistics: StreamStatistics {
            total_bytes_received: saturated(c.statistics.total_bytes_received as int, bytes as int),
            total_packets_received: saturated(
                c.statistics.total_packets_received as int,
                packets as int,
            ),
            total_bytes_sent: c.statistics.total_bytes_sent,
            total_packets_sent: c.statistics.total_packets_sent,
            active_destinations: c.statistics.active_destinations,
            average_bitrate: c.statistics.average_bitrate,
            peak_bitrate: c.statistics.peak_bitrate,
        },
        created_at: c.created_at,
    }
}

/// `info` copies every field of `c`.
pub open spec fn is_snapshot_of(info: StreamInfo, c: StreamContext) -> bool {
    &&& info.stream_key == c.stream_key
    &&& info.connection_id == c.connection_id
    &&& info.statistics == c.statistics
    &&& info.created_at == c.created_at
    &&& info.status.state == c.status.state
    &&& info.status.started_at == c.status.started_at
    &&& info.status.last_packet_at == c.status.last_packet_at
    &&& info.status.error_message == c.status.error_message
    &&& info.destinations@ == c.destinations@
}

/// `a` and `b` hold the same session: equal fields, and the same
/// destinations in the same order.
pub open spec fn same_session(a: StreamContext, b: StreamContext) -> bool {
    &&& a.id == b.id
    &&& a.stream_key == b.stream_key
    &&& a.connection_id == b.connection_id
    &&& a.status == b.status
    &&& a.destinations@ == b.destinations@
    &&& a.statistics == b.statistics
    &&& a.created_at == b.created_at
}

/// `d` with its delivery state reset.
pub open spec fn reset_destination(d: Destination) -> Destination {
    Destination {
        id: d.id,
        platform: d.platform,
        rtmp_url: d.rtmp_url,
        stream_key: d.stream_key,
        status: fresh_destination_status(),
    }
}

/// How one destination's status changes when a buffer of `len` bytes was
/// offered to it at instant `now`.
pub open spec fn delivery_effect(s: DestinationStatus, len: u64, d: Delivery, now: i64) -> DestinationStatus {
    match d {
        Delivery::Sent => DestinationStatus {
            connected: true,
            bytes_sent: s.bytes_sent.saturating_add(len),
            packets_sent: s.packets_sent.saturating_add(1),
            last_packet_at: Some(now),
            error_count: s.error_count,
            error_message: None,
        },
        Delivery::Failed(msg) => DestinationStatus {
            connected: false,
            bytes_sent: s.bytes_sent,
            packets_sent: s.packets_sent,
            last_packet_at: s.last_packet_at,
            error_count: s.error_count.saturating_add(1),
            error_message: Some(msg),
        },
    }
}

/// `d` after one buffer was offered to it.
pub open spec fn destination_after(d: Destination, len: u64, o: Delivery, now: i64) -> Destination {
    Destination {
        id: d.id,
        platform: d.platform,
        rtmp_url: d.rtmp_url,
        stream_key: d.stream_key,
        status: delivery_effect(d.status, len, o, now),
    }
}

/// Every destination after one buffer was offered to all of them; destination
/// `k` sees outcome `outcomes[k]` and nothing else.
pub open spec fn fanout_effect(
    dests: Seq<Destination>,
    len: u64,
    outcomes: Seq<Delivery>,
    now: i64,
) -> Seq<Destination> {
    Seq::new(dests.len(), |k: int| destination_after(dests[k], len, outcomes[k], now))
}

/// Number of deliveries that succeeded.
pub open spec fn sent_count(outcomes: Seq<Delivery>) -> nat
    decreases outcomes.len(),
{
    if outcomes.len() == 0 {
        0
    } else {
        sent_count(outcomes.drop_last()) + if outcomes.last() is Sent {
            1nat
        } else {
            0nat
        }
    }
}

/// `a + b`, or the largest `u64` where the sum would not fit.
pub open spec fn saturated(a: int, b: int) -> u64 {
    if a + b > u64::MAX {
        u64::MAX
    } else {
        (a + b) as u64
    }
}

/// A buffer of `len` bytes offered to all destinations through a sequence of
/// rounds: each round is the outcomes of one buffer, in the order ingest
/// produced the buffers.
pub open spec fn rounds_effect(
    dests: Seq<Destination>,
    rounds: Seq<(u64, Seq<Delivery>, i64)>,
) -> Seq<Destination>
    decreases rounds.len(),
{
    if rounds.len() == 0 {
        dests
    } else {
        let prev = rounds_effect(dests, rounds.drop_last());
        let r = rounds.last();
        fanout_effect(prev, r.0, r.1, r.2)
    }
}

/// The outcomes that destination `k` saw, round by round.
pub open spec fn column(rounds: Seq<(u64, Seq<Delivery>, i64)>, k: int) -> Seq<(u64, Delivery, i64)> {
    Seq::new(rounds.len(), |j: int| (rounds[j].0, rounds[j].1[k], rounds[j].2))
}

/// Every round names one outcome per destination.
pub open spec fn rounds_fit(rounds: Seq<(u64, Seq<Delivery>, i64)>, n: nat) -> bool {
    forall|j: int| 0 <= j < rounds.len() ==> #[trigger] rounds[j].1.len() == n
}

/// A fresh destination status: not connected, nothing sent, no error.
pub fn new_destination_status() -> (r: DestinationStatus)
    ensures
        r == fresh_destination_status(),
{
    DestinationStatus {
        connected: false,
        bytes_sent: 0,
        packets_sent: 0,
        last_packet_at: None,
        error_count: 0,
        error_message: None,
    }
}

/// A copy of `d` whose status is `status`.
fn with_status(d: &Destination, status: DestinationStatus) -> (r: Destination)
    ensures
        r == (Destination {
            id: d.id,
            platform: d.platform,
            rtmp_url: d.rtmp_url,
            stream_key: d.stream_key,
            status,
        }),
{
    Destination {
        id: d.id.clone(),
        platform: d.platform.clone(),
        rtmp_url: d.rtmp_url.clone(),
        stream_key: d.stream_key.clone(),
        status,
    }
}

impl DestinationStatus {
    /// The status after a buffer of `len` bytes was offered at instant `now`.
    pub fn after_delivery(&self, len: u64, outcome: &Delivery, now: i64) -> (r: DestinationStatus)
        ensures
            r == delivery_effect(*self, len, *outcome, now),
    {
        match outcome {
            Delivery::Sent => DestinationStatus {
                connected: true,
                bytes_sent: self.bytes_sent.saturating_add(len),
                packets_sent: self.packets_sent.saturating_add(1),
                last_packet_at: Some(now),
                error_count: self.error_count,
                error_message: None,
            },
            Delivery::Failed(msg) => DestinationStatus {
                connected: false,
                bytes_sent: self.bytes_sent,
                packets_sent: self.packets_sent,
                last_packet_at: self.last_packet_at,
                error_count: self.error_count.saturating_add(1),
                error_message: Some(msg.clone()),
            },
        }
    }
}

impl StreamContext {
    /// A new session in state `Connecting`, created at `now`, with zero
    /// statistics and every destination's status reset.
    pub fn new(
        id: String,
        stream_key: String,
        connection_id: String,
        destinations: Vec<Destination>,
        now: i64,
    ) -> (r: StreamContext)
        ensures
            r.id == id,
            r.stream_key == stream_key,
            r.connection_id == connection_id,
            r.status == (StreamStatus {
                state: StreamState::Connecting,
                started_at: now,
                last_packet_at: None,
                error_message: None,
            }),
            r.destinations@ == destinations@.map_values(|d: Destination| reset_destination(d)),
            r.statistics == zero_statistics(),
            r.created_at == now,
    {
        let mut dests: Vec<Destination> = Vec::new();
        let mut i: usize = 0;
        while i < destinations.len()
            invariant
                0 <= i <= destinations@.len(),
                dests@ == destinations@.subrange(0, i as int).map_values(
                    |d: Destination| reset_destination(d),
                ),
            decreases destinations@.len() - i,
        {
            let d = with_status(&destinations[i], new_destination_status());
            dests.push(d);
            i = i + 1;
            assert(dests@ =~= destinations@.subrange(0, i as int).map_values(
                |d: Destination| reset_destination(d),
            ));
        }
        assert(destinations@.subrange(0, destinations@.len() as int) =~= destinations@);
        StreamContext {
            id,
            stream_key,
            connection_id,
            status: StreamStatus {
                state: StreamState::Connecting,
                started_at: now,
                last_packet_at: None,
                error_message: None,
            },
            destinations: dests,
            statistics: StreamStatistics {
                total_bytes_received: 0,
                total_packets_received: 0,
                total_bytes_sent: 0,
                total_packets_sent: 0,
                active_destinations: 0,
                average_bitrate: 0,
                peak_bitrate: 0,
            },
            created_at: now,
        }
    }

    /// Moves the session to `state` with `error_message`, unless it already
    /// sits in a terminal state, which it never leaves. Returns whether the
    /// status changed.
    pub fn update_status(&mut self, state: StreamState, error_message: Option<String>) -> (r: bool)
        ensures
            *final(self) == status_updated(*old(self), state, error_message),
            r == !old(self).status.state.spec_is_terminal(),
            r ==> final(self).status.state == state && final(self).status.error_message
                == error_message,
            !r ==> final(self).status == old(self).status,
            final(self).status.started_at == old(self).status.started_at,
            final(self).status.last_packet_at == old(self).status.last_packet_at,
            final(self).id == old(self).id,
            final(self).stream_key == old(self).stream_key,
            final(self).connection_id == old(self).connection_id,
            final(self).destinations == old(self).destinations,
            final(self).statistics == old(self).statistics,
            final(self).created_at == old(self).created_at,
    {
        if self.status.state.is_terminal() {
            false
        } else {
            self.status.state = state;
            self.status.error_message = error_message;
            true
        }
    }

    /// Adds what one read brought in to the ingest counters, which saturate
    /// rather than wrap.
    pub fn update_statistics(&mut self, bytes_received: u64, packets_received: u64)
        ensures
            *final(self) == statistics_added(*old(self), bytes_received, packets_received),
            final(self).statistics.total_bytes_received == saturated(
                old(self).statistics.total_bytes_received as int,
                bytes_received as int,
            ),
            final(self).statistics.total_packets_received == saturated(
                old(self).statistics.total_packets_received as int,
                packets_received as int,
            ),
            final(self).statistics.total_bytes_sent == old(self).statistics.total_bytes_sent,
            final(self).statistics.total_packets_sent == old(self).statistics.total_packets_sent,
            final(self).statistics.active_destinations == old(
                self,
            ).statistics.active_destinations,
            final(self).statistics.average_bitrate == old(self).statistics.average_bitrate,
            final(self).statistics.peak_bitrate == old(self).statistics.peak_bitrate,
            final(self).status == old(self).status,
            final(self).destinations == old(self).destinations,
            final(self).id == old(self).id,
            final(self).stream_key == old(self).stream_key,
            final(self).connection_id == old(self).connection_id,
            final(self).created_at == old(self).created_at,
    {
        self.statistics.total_bytes_received = self.statistics.total_bytes_received.saturating_add(
            bytes_received,
        );
        self.statistics.total_packets_received =
            self.statistics.total_packets_received.saturating_add(packets_received);
    }

    /// The session's counters.
    pub fn get_stats(&self) -> (r: StreamStatistics)
        ensures
            r == self.statistics,
    {
        self.statistics
    }

    /// Records that a buffer of `len` bytes was offered to every destination at
    /// instant `now`, destination `k` with outcome `outcomes[k]`. Each
    /// destination's status changes by its own outcome alone; the aggregate
    /// counters grow by what was sent, and the active count becomes the number
    /// of destinations that took the buffer.
    pub fn record_fanout(&mut self, len: u64, outcomes: &Vec<Delivery>, now: i64)
        requires
            outcomes@.len() == old(self).destinations@.len(),
        ensures
            final(self).destinations@ == fanout_effect(
                old(self).destinations@,
                len,
                outcomes@,
                now,
            ),
            final(self).statistics.total_packets_sent == saturated(
                old(self).statistics.total_packets_sent as int,
                sent_count(outcomes@) as int,
            ),
            final(self).statistics.total_bytes_sent == saturated(
                old(self).statistics.total_bytes_sent as int,
                len * sent_count(outcomes@),
            ),
            final(self).statistics.active_destinations as int == if sent_count(outcomes@)
                > u32::MAX {
                u32::MAX as int
            } else {
                sent_count(outcomes@) as int
            },
            final(self).statistics.total_bytes_received == old(
                self,
            ).statistics.total_bytes_received,
            final(self).statistics.total_packets_received == old(
                self,
            ).statistics.total_packets_received,
            final(self).statistics.average_bitrate == old(self).statistics.average_bitrate,
            final(self).statistics.peak_bitrate == old(self).statistics.peak_bitrate,
            final(self).status == old(self).status,
            final(self).id == old(self).id,
            final(self).stream_key == old(self).stream_key,
            final(self).connection_id == old(self).connection_id,
            final(self).created_at == old(self).created_at,
    {
        let mut dests: Vec<Destination> = Vec::new();
        let mut sent: usize = 0;
        let mut i: usize = 0;
        while i < self.destinations.len()
            invariant
                0 <= i <= self.destinations@.len(),
                outcomes@.len() == self.destinations@.len(),
                sent <= i,
                sent == sent_count(outcomes@.subrange(0, i as int)),
                dests@ == fanout_effect(
                    self.destinations@.subrange(0, i as int),
                    len,
                    outcomes@.subrange(0, i as int),
                    now,
                ),
            decreases self.destinations@.len() - i,
        {
            let d = &self.destinations[i];
            let status = d.status.after_delivery(len, &outcomes[i], now);
            dests.push(with_status(d, status));
            match &outcomes[i] {
                Delivery::Sent => {
                    sent = sent + 1;
                },
                Delivery::Failed(_) => {},
            }
            i = i + 1;
            assert(outcomes@.subrange(0, i as int).drop_last() =~= outcomes@.subrange(
                0,
                i - 1,
            ));
            assert(dests@ =~= fanout_effect(
                self.destinations@.subrange(0, i as int),
                len,
                outcomes@.subrange(0, i as int),
                now,
            ));
        }
        assert(outcomes@.subrange(0, i as int) =~= outcomes@);
        assert(self.destinations@.subrange(0, i as int) =~= self.destinations@);
        let bytes: u64 = match len.checked_mul(sent as u64) {
            Some(b) => self.statistics.total_bytes_sent.saturating_add(b),
            None => {
                assert(len * sent > u64::MAX);
                assert(self.statistics.total_bytes_sent + len * sent > u64::MAX)
                    by (nonlinear_arith)
                    requires
                        len * sent > u64::MAX,
                        self.statistics.total_bytes_sent >= 0,
                ;
                u64::MAX
            },
        };
        self.statistics.total_bytes_sent = bytes;
        self.statistics.total_packets_sent = self.statistics.total_packets_sent.saturating_add(
            sent as u64,
        );
        self.statistics.active_destinations = if sent > u32::MAX as usize {
            u32::MAX
        } else {
            sent as u32
        };
        self.destinations = dests;
    }

    /// A copy of every field of the session, taken at one moment.
    pub fn snapshot(&self) -> (r: StreamInfo)
        ensures
            is_snapshot_of(r, *self),
    {
        StreamInfo {
            stream_key: self.stream_key.clone(),
            connection_id: self.connection_id.clone(),
            status: StreamStatus {
                state: self.status.state,
                started_at: self.status.started_at,
                last_packet_at: self.status.last_packet_at,
                error_message: clone_message(&self.status.error_message),
            },
            destinations: clone_destinations(&self.destinations),
            statistics: self.statistics,
            created_at: self.created_at,
        }
    }

    /// A copy of the session.
    pub fn duplicate(&self) -> (r: StreamContext)
        ensures
            same_session(r, *self),
    {
        StreamContext {
            id: self.id.clone(),
            stream_key: self.stream_key.clone(),
            connection_id: self.connection_id.clone(),
            status: StreamStatus {
                state: self.status.state,
                started_at: self.status.started_at,
                last_packet_at: self.status.last_packet_at,
                error_message: clone_message(&self.status.error_message),
            },
            destinations: clone_destinations(&self.destinations),
            statistics: self.statistics,
            created_at: self.created_at,
        }
    }
}

/// A copy of a list of destinations.
fn clone_destinations(v: &Vec<Destination>) -> (r: Vec<Destination>)
    ensures
        r@ == v@,
{
    let mut dests: Vec<Destination> = Vec::new();
    let mut i: usize = 0;
    while i < v.len()
        invariant
            0 <= i <= v@.len(),
            dests@ == v@.subrange(0, i as int),
        decreases v@.len() - i,
    {
        let d = &v[i];
        let status = DestinationStatus {
            connected: d.status.connected,
            bytes_sent: d.status.bytes_sent,
            packets_sent: d.status.packets_sent,
            last_packet_at: d.status.last_packet_at,
            error_count: d.status.error_count,
            error_message: clone_message(&d.status.error_message),
        };
        dests.push(with_status(d, status));
        i = i + 1;
        assert(dests@ =~= v@.subrange(0, i as int));
    }
    assert(v@.subrange(0, i as int) =~= v@);
    dests
}

/// A copy of an optional message.
fn clone_message(m: &Option<String>) -> (r: Option<String>)
    ensures
        r == *m,
{
    match m {
        Some(s) => Some(s.clone()),
        None => None,
    }
}

/// Fan-out isolation over a whole stream: after any number of buffers, what one
/// destination records depends only on its own starting record and on its own
/// outcomes, in the order the buffers came; failures of any other destination,
/// on any buffer, leave it untouched.
pub proof fn lemma_fanout_isolation(
    a: Seq<Destination>,
    b: Seq<Destination>,
    ra: Seq<(u64, Seq<Delivery>, i64)>,
    rb: Seq<(u64, Seq<Delivery>, i64)>,
    k: int,
)
    requires
        0 <= k < a.len(),
        0 <= k < b.len(),
        rounds_fit(ra, a.len()),
        rounds_fit(rb, b.len()),
        a[k] == b[k],
        column(ra, k) == column(rb, k),
    ensures
        rounds_effect(a, ra).len() == a.len(),
        rounds_effect(b, rb).len() == b.len(),
        rounds_effect(a, ra)[k] == rounds_effect(b, rb)[k],
    decreases ra.len(),
{
    assert(ra.len() == column(ra, k).len());
    if ra.len() > 0 {
        let ca = column(ra.drop_last(), k);
        let cb = column(rb.drop_last(), k);
        assert(ca =~= column(ra, k).drop_last());
        assert(cb =~= column(rb, k).drop_last());
        assert(rounds_fit(ra.drop_last(), a.len()));
        assert(rounds_fit(rb.drop_last(), b.len()));
        lemma_fanout_isolation(a, b, ra.drop_last(), rb.drop_last(), k);
        assert(column(ra, k)[ra.len() - 1] == column(rb, k)[rb.len() - 1]);
        assert(ra[ra.len() - 1].1.len() == a.len());
    }
}

} // verus!
