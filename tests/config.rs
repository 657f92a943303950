use rust_media_server::config::AppConfig;
use rust_media_server::state::{AppState, ConfigError};

#[test]
fn test_default_config() {
    let config = AppConfig::default();
    assert_eq!(config.rtmp.port, 1935);
    assert_eq!(config.http.port, 8000);
    assert_eq!(config.streaming.max_destinations_per_stream, 10);
}

#[test]
fn test_stream_context_creation() {
    let _config = AppConfig::default();
}

#[test]
fn default_config_strings_and_sizes() {
    let config = AppConfig::default();
    assert_eq!(config.control_plane.url, "https://api.neustream.app");
    assert_eq!(config.control_plane.timeout_seconds, 10);
    assert_eq!(config.control_plane.retry_attempts, 3);
    assert_eq!(config.logging.level, "info");
    assert_eq!(config.logging.format, "json");
    assert_eq!(config.buffer_size_bytes(), Some(64 * 1024));
    assert_eq!(config.pool_size_bytes(), Some(64 * 1024 * 1024));
}

#[test]
fn config_sizes_overflow() {
    let mut config = AppConfig::default();
    config.streaming.memory_pool_size_mb = usize::MAX / 1024;
    assert_eq!(config.pool_size_bytes(), None);
    config.streaming.buffer_size_kb = usize::MAX;
    assert_eq!(config.buffer_size_bytes(), None);
}

#[test]
fn state_from_default_config() {
    let state = AppState::new(AppConfig::default()).ok().unwrap();
    assert_eq!(state.active_stream_count(), 0);
    assert_eq!(state.memory_pool().buffer_size(), 64 * 1024);
    assert_eq!(state.memory_pool().initial_buffers(), 1024);
    assert_eq!(state.config().rtmp.port, 1935);
}

#[test]
fn state_rejects_zero_buffer_size() {
    let mut config = AppConfig::default();
    config.streaming.buffer_size_kb = 0;
    assert_eq!(AppState::new(config).err(), Some(ConfigError::ZeroBufferSize));
}

#[test]
fn state_rejects_oversized_pool() {
    let mut config = AppConfig::default();
    config.streaming.memory_pool_size_mb = usize::MAX;
    assert_eq!(AppState::new(config).err(), Some(ConfigError::SizeOverflow));
}
