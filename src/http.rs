use vstd::prelude::*;

use crate::session::Destination;
use crate::state::AppState;

verus! {

/// Answer of the health endpoint.
#[derive(Debug)]
pub struct HealthResponse {
    pub status: String,
    pub version: String,
    pub uptime_seconds: u64,
    pub active_streams: usize,
}

/// Answer of the statistics endpoint.
#[derive(Debug)]
pub struct StatsResponse {
    pub active_streams: Vec<String>,
    pub total_streams: usize,
    pub memory_pool_stats: MemoryPoolStats,
}

/// Sizes of the buffer pool.
#[derive(Debug, Clone, Copy, PartialEq, Eq, Structural)]
pub struct MemoryPoolStats {
    pub total_buffers: usize,
    pub available_buffers: usize,
    pub buffer_size: usize,
}

/// Body of a stream authorization or stream end request.
#[derive(Debug)]
pub struct StreamAuthRequest {
    pub name: String,
}

/// Answer to an accepted stream authorization.
#[derive(Debug)]
pub struct StreamAuthResponse {
    pub code: i32,
    pub data: AuthData,
}

/// Whether the accepted stream is forwarded.
#[derive(Debug, Clone, Copy, PartialEq, Eq, Structural)]
pub struct AuthData {
    pub forward: bool,
}

/// Body of a stream end request.
#[derive(Debug)]
pub struct StreamEndRequest {
    pub name: String,
}

/// The destination list of one stream.
#[derive(Debug)]
pub struct ForwardingResponse {
    pub destinations: Vec<Destination>,
}

pub const HEALTH_OK: &'static str = "ok";

impl HealthResponse {
    /// A healthy answer that reports the number of live sessions.
    pub fn from_state(state: &AppState, version: String) -> (r: HealthResponse)
        ensures
            r.status@ == HEALTH_OK@,
            r.version == version,
            r.uptime_seconds == 0,
            r.active_streams == state.sessions().len(),
    {
        HealthResponse {
            status: HEALTH_OK.to_owned(),
            version,
            uptime_seconds: 0,
            active_streams: state.active_stream_count(),
        }
    }
}

impl StatsResponse {
    /// The live stream keys, their number, and the pool's configured sizes.
    /// `available_buffers` is the number the pool was filled with: the queue
    /// is shared and its current length is only a passing observation.
    pub fn from_state(state: &AppState) -> (r: StatsResponse)
        ensures
            r.active_streams@.map_values(|s: String| s@).to_set() == state.live_keys(),
            r.active_streams@.map_values(|s: String| s@).no_duplicates(),
            r.total_streams == r.active_streams@.len(),
            r.memory_pool_stats == (MemoryPoolStats {
                total_buffers: state.spec_pool().spec_initial_buffers(),
                available_buffers: state.spec_pool().spec_initial_buffers(),
                buffer_size: state.spec_pool().spec_buffer_size(),
            }),
    {
        let active_streams = state.get_all_streams();
        let total_streams = active_streams.len();
        let pool = state.memory_pool();
        StatsResponse {
            active_streams,
            total_streams,
            memory_pool_stats: MemoryPoolStats {
                total_buffers: pool.initial_buffers(),
                available_buffers: pool.initial_buffers(),
                buffer_size: pool.buffer_size(),
            },
        }
    }
}

impl StreamAuthResponse {
    /// The answer to an accepted stream: code zero, forwarding on.
    pub fn accepted() -> (r: StreamAuthResponse)
        ensures
            r.code == 0,
            r.data.forward,
    {
        StreamAuthResponse { code: 0, data: AuthData { forward: true } }
    }
}

impl ForwardingResponse {
    /// The destinations of the session live under `stream_key`, or none when
    /// no session is live under it.
    pub fn for_stream(state: &AppState, stream_key: &str) -> (r: ForwardingResponse)
        ensures
            !state.sessions().contains_key(stream_key@) ==> r.destinations@.len() == 0,
            state.sessions().contains_key(stream_key@) ==> r.destinations@ == state.sessions()[stream_key@].destinations@,
    {
        match state.get_stream_info(stream_key) {
            Some(info) => ForwardingResponse { destinations: info.destinations },
            None => ForwardingResponse { destinations: Vec::new() },
        }
    }
}

} // verus!
