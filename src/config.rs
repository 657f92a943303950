use vstd::prelude::*;

verus! {

/// Settings of the whole server, grouped by component.
#[derive(Debug, Clone)]
pub struct AppConfig {
    pub control_plane: ControlPlaneConfig,
    pub rtmp: RtmpConfig,
    pub http: HttpConfig,
    pub streaming: StreamingConfig,
    pub logging: LoggingConfig,
}

/// Where the control plane lives and how patiently it is called.
#[derive(Debug, Clone)]
pub struct ControlPlaneConfig {
    pub url: String,
    pub timeout_seconds: u64,
    pub retry_attempts: u32,
}

/// Settings of the ingest listener.
#[derive(Debug, Clone)]
pub struct RtmpConfig {
    pub port: u16,
    pub chunk_size: usize,
    pub gop_cache: bool,
    pub ping_interval_seconds: u64,
    pub ping_timeout_seconds: u64,
}

/// Settings of the administrative HTTP listener.
#[derive(Debug, Clone)]
pub struct HttpConfig {
    pub port: u16,
    pub allow_origin: String,
}

/// Limits and sizes of the relay's data path.
#[derive(Debug, Clone)]
pub struct StreamingConfig {
    pub max_destinations_per_stream: usize,
    pub memory_pool_size_mb: usize,
    pub buffer_size_kb: usize,
    pub connection_timeout_seconds: u64,
    pub stats_update_interval_seconds: u64,
}

/// Log level and output format.
#[derive(Debug, Clone)]
pub struct LoggingConfig {
    pub level: String,
    pub format: String,
}

pub const DEFAULT_CONTROL_PLANE_URL: &'static str = "https://api.neustream.app";

pub const DEFAULT_RTMP_PORT: u16 = 1935;

pub const DEFAULT_HTTP_PORT: u16 = 8000;

impl AppConfig {
    /// Size in bytes of one pooled buffer, or `None` where it does not fit in `usize`.
    pub fn buffer_size_bytes(&self) -> (r: Option<usize>)
        ensures
            match r {
                Some(n) => n == self.streaming.buffer_size_kb * 1024,
                None => self.streaming.buffer_size_kb * 1024 > usize::MAX,
            },
    {
        self.streaming.buffer_size_kb.checked_mul(1024)
    }

    /// Total size in bytes of the buffer pool, or `None` where it does not fit in `usize`.
    pub fn pool_size_bytes(&self) -> (r: Option<usize>)
        ensures
            match r {
                Some(n) => n == self.streaming.memory_pool_size_mb * 1024 * 1024,
                None => self.streaming.memory_pool_size_mb * 1024 * 1024 > usize::MAX,
            },
    {
        match self.streaming.memory_pool_size_mb.checked_mul(1024) {
            Some(kb) => kb.checked_mul(1024),
            None => {
                assert(self.streaming.memory_pool_size_mb * 1024 * 1024 > usize::MAX)
                    by (nonlinear_arith)
                    requires
                        self.streaming.memory_pool_size_mb * 1024 > usize::MAX,
                ;
                None
            },
        }
    }
}

impl Default for AppConfig {
    fn default() -> (r: Self)
        ensures
            r.control_plane.url@ == DEFAULT_CONTROL_PLANE_URL@,
            r.control_plane.timeout_seconds == 10,
            r.control_plane.retry_attempts == 3,
            r.rtmp.port == DEFAULT_RTMP_PORT,
            r.rtmp.chunk_size == 60000,
            r.rtmp.gop_cache,
            r.rtmp.ping_interval_seconds == 30,
            r.rtmp.ping_timeout_seconds == 60,
            r.http.port == DEFAULT_HTTP_PORT,
            r.http.allow_origin@ == "*"@,
            r.streaming.max_destinations_per_stream == 10,
            r.streaming.memory_pool_size_mb == 64,
            r.streaming.buffer_size_kb == 64,
            r.streaming.connection_timeout_seconds == 30,
            r.streaming.stats_update_interval_seconds == 5,
            r.logging.level@ == "info"@,
            r.logging.format@ == "json"@,
    {
        AppConfig {
            control_plane: ControlPlaneConfig {
                url: DEFAULT_CONTROL_PLANE_URL.to_owned(),
                timeout_seconds: 10,
                retry_attempts: 3,
            },
            rtmp: RtmpConfig {
                port: DEFAULT_RTMP_PORT,
                chunk_size: 60000,
                gop_cache: true,
                ping_interval_seconds: 30,
                ping_timeout_seconds: 60,
            },
            http: HttpConfig { port: DEFAULT_HTTP_PORT, allow_origin: "*".to_owned() },
            streaming: StreamingConfig {
                max_destinations_per_stream: 10,
                memory_pool_size_mb: 64,
                buffer_size_kb: 64,
                connection_timeout_seconds: 30,
                stats_update_interval_seconds: 5,
            },
            logging: LoggingConfig { level: "info".to_owned(), format: "json".to_owned() },
        }
    }
}

} // verus!
