use vstd::prelude::*;

use dashmap::DashMap;
use std::sync::Arc;

use crate::auth::{authorization_outcome, spec_authorization_outcome, AuthError};
use crate::clock::now_millis;
use crate::config::AppConfig;
use crate::pool::MemoryPool;
use crate::session::{
    is_snapshot_of, reset_destination, same_session, status_updated, zero_statistics, Destination, StreamContext, StreamInfo, StreamState,
};

verus! {

#[verifier::external_type_specification]
#[verifier::external_body]
#[verifier::reject_recursive_types(K)]
#[verifier::reject_recursive_types(V)]
#[verifier::reject_recursive_types(S)]
pub struct ExDashMap<K, V, S>(DashMap<K, V, S>);

/// The sessions that a registry map holds, by stream key.
pub uninterp spec fn registry_sessions(m: DashMap<String, StreamContext>) -> Map<Seq<char>, StreamContext>;

/// Relies on DashMap::new: an empty map.
#[verifier::external_body]
fn registry_new() -> (r: DashMap<String, StreamContext>)
    ensures
        registry_sessions(r).dom() == Set::<Seq<char>>::empty(),
{
    DashMap::new()
}

/// Relies on DashMap::insert: afterwards `value` is stored under the key,
/// replacing any old value, and every other entry is unchanged. Taking the map
/// by `&mut` rules out concurrent writers.
#[verifier::external_body]
fn registry_insert(m: &mut DashMap<String, StreamContext>, key: String, value: StreamContext)
    ensures
        registry_sessions(*final(m)) == registry_sessions(*old(m)).insert(key@, value),
{
    m.insert(key, value);
}

/// Relies on DashMap::remove: afterwards the key is absent and every other
/// entry is unchanged; reports whether the key was there.
#[verifier::external_body]
fn registry_remove(m: &mut DashMap<String, StreamContext>, key: &str) -> (r: bool)
    ensures
        r == registry_sessions(*old(m)).contains_key(key@),
        registry_sessions(*final(m)) == registry_sessions(*old(m)).remove(key@),
{
    m.remove(key).is_some()
}

/// Relies on DashMap::get and the derived `Clone` of `StreamContext`: a copy
/// of the session stored under `key`, if any, with the same fields and the
/// same destinations.
#[verifier::external_body]
fn registry_get(m: &DashMap<String, StreamContext>, key: &str) -> (r: Option<StreamContext>)
    ensures
        r is Some <==> registry_sessions(*m).contains_key(key@),
        r matches Some(c) ==> same_session(c, registry_sessions(*m)[key@]),
{
    m.get(key).map(|entry| entry.value().clone())
}

/// Relies on DashMap::contains_key.
#[verifier::external_body]
fn registry_contains(m: &DashMap<String, StreamContext>, key: &str) -> (r: bool)
    ensures
        r == registry_sessions(*m).contains_key(key@),
{
    m.contains_key(key)
}

/// Relies on DashMap::len: the number of entries, one per key.
#[verifier::external_body]
fn registry_len(m: &DashMap<String, StreamContext>) -> (r: usize)
    ensures
        r == registry_sessions(*m).len(),
{
    m.len()
}

/// Relies on DashMap::iter: every key once, in no particular order.
#[verifier::external_body]
fn registry_key_list(m: &DashMap<String, StreamContext>) -> (r: Vec<String>)
    ensures
        r@.map_values(|s: String| s@).no_duplicates(),
        r@.map_values(|s: String| s@).to_set() == registry_sessions(*m).dom(),
{
    m.iter().map(|entry| entry.key().clone()).collect()
}

/// Relies on uuid::Uuid::new_v4 and its hyphenated text form: a random
/// identifier of 36 characters.
#[verifier::external_body]
fn new_session_id() -> (r: String)
    ensures
        r@.len() == 36,
{
    uuid::Uuid::new_v4().to_string()
}

/// Why the shared state could not be built from a configuration.
#[derive(Debug, Clone, Copy, PartialEq, Eq, Structural)]
pub enum ConfigError {
    /// The configured buffer size is zero.
    ZeroBufferSize,
    /// A configured size in bytes does not fit in `usize`.
    SizeOverflow,
}

/// State shared by every connection: the configuration, the registry of live
/// sessions keyed by stream key, and the buffer pool.
pub struct AppState {
    config: AppConfig,
    active_streams: DashMap<String, StreamContext>,
    memory_pool: Arc<MemoryPool>,
}

impl AppState {
    /// The stream keys of the live sessions.
    pub closed spec fn live_keys(&self) -> Set<Seq<char>> {
        registry_sessions(self.active_streams).dom()
    }

    /// The live sessions, by stream key.
    pub closed spec fn sessions(&self) -> Map<Seq<char>, StreamContext> {
        registry_sessions(self.active_streams)
    }

    pub closed spec fn spec_config(&self) -> AppConfig {
        self.config
    }

    pub closed spec fn spec_pool(&self) -> MemoryPool {
        *self.memory_pool
    }

    /// The configuration the state was built from.
    pub fn config(&self) -> (r: &AppConfig)
        ensures
            *r == self.spec_config(),
    {
        &self.config
    }

    /// The shared buffer pool.
    pub fn memory_pool(&self) -> (r: &Arc<MemoryPool>)
        ensures
            **r == self.spec_pool(),
    {
        &self.memory_pool
    }

    /// Shared state with an empty registry and a pool sized from `config`.
    pub fn new(config: AppConfig) -> (r: Result<AppState, ConfigError>)
        ensures
            config.streaming.buffer_size_kb == 0 ==> r == Err::<AppState, ConfigError>(
                ConfigError::ZeroBufferSize,
            ),
            config.streaming.buffer_size_kb != 0 && (config.streaming.buffer_size_kb * 1024
                > usize::MAX || config.streaming.memory_pool_size_mb * 1024 * 1024 > usize::MAX)
                ==> r == Err::<AppState, ConfigError>(ConfigError::SizeOverflow),
            r is Ok <==> (config.streaming.buffer_size_kb != 0 && config.streaming.buffer_size_kb
                * 1024 <= usize::MAX && config.streaming.memory_pool_size_mb * 1024 * 1024
                <= usize::MAX),
            r matches Ok(s) ==> s.spec_pool().spec_filled().len() == (
            config.streaming.memory_pool_size_mb * 1024 * 1024) / (config.streaming.buffer_size_kb
                * 1024),
            r matches Ok(s) ==> s.spec_config() == config && s.sessions().dom() == Set::<Seq<char>>::empty() && s.spec_pool().spec_buffer_size()
                == config.streaming.buffer_size_kb * 1024 && s.spec_pool().spec_initial_buffers()
                == (config.streaming.memory_pool_size_mb * 1024 * 1024) / (
            config.streaming.buffer_size_kb * 1024),
    {
        if config.streaming.buffer_size_kb == 0 {
            return Err(ConfigError::ZeroBufferSize);
        }
        let buffer_size = match config.buffer_size_bytes() {
            Some(n) => n,
            None => return Err(ConfigError::SizeOverflow),
        };
        let total_size = match config.pool_size_bytes() {
            Some(n) => n,
            None => return Err(ConfigError::SizeOverflow),
        };
        let memory_pool = Arc::new(MemoryPool::new(total_size, buffer_size));
        Ok(AppState { config, active_streams: registry_new(), memory_pool })
    }

    /// Creates a session for `stream_key` in state `Connecting`, stamped with a
    /// fresh identifier and the current time, and registers it under its key
    /// (replacing a session registered under the same key).
    pub fn create_stream_context(
        &mut self,
        stream_key: String,
        connection_id: String,
        destinations: Vec<Destination>,
    ) -> (r: StreamContext)
        ensures
            final(self).sessions().contains_key(stream_key@),
            same_session(final(self).sessions()[stream_key@], r),
            final(self).sessions().remove(stream_key@) == old(self).sessions().remove(stream_key@),
            final(self).spec_config() == old(self).spec_config(),
            final(self).spec_pool() == old(self).spec_pool(),
            r.id@.len() == 36,
            r.stream_key == stream_key,
            r.connection_id == connection_id,
            r.status.state == StreamState::Connecting,
            r.status.started_at == r.created_at,
            r.status.last_packet_at is None,
            r.status.error_message is None,
            r.destinations@ == destinations@.map_values(|d: Destination| reset_destination(d)),
            r.statistics == zero_statistics(),
    {
        let id = new_session_id();
        let now = now_millis();
        let context = StreamContext::new(id, stream_key, connection_id, destinations, now);
        let key = context.stream_key.clone();
        let stored = context.duplicate();
        registry_insert(&mut self.active_streams, key, stored);
        assert(self.sessions().remove(context.stream_key@) =~= old(self).sessions().remove(
            context.stream_key@,
        ));
        context
    }

    /// Completes the authorization of `stream_key` from the control plane's
    /// answers: on success the session is created and registered; on failure
    /// nothing is registered and the error says which answer failed.
    pub fn register_authorized(
        &mut self,
        stream_key: String,
        connection_id: String,
        auth_status: u16,
        forwarding_status: u16,
        destinations: Vec<Destination>,
    ) -> (r: Result<StreamContext, AuthError>)
        ensures
            spec_authorization_outcome(auth_status, Some(forwarding_status)) == Some(
                Err::<(), AuthError>(AuthError::Rejected),
            ) ==> r == Err::<StreamContext, AuthError>(AuthError::Rejected),
            spec_authorization_outcome(auth_status, Some(forwarding_status)) == Some(
                Err::<(), AuthError>(AuthError::ForwardingUnavailable),
            ) ==> r == Err::<StreamContext, AuthError>(AuthError::ForwardingUnavailable),
            r is Ok <==> spec_authorization_outcome(auth_status, Some(forwarding_status)) == Some(
                Ok::<(), AuthError>(()),
            ),
            r is Err ==> final(self).sessions() == old(self).sessions(),
            r matches Ok(c) ==> final(self).sessions().contains_key(stream_key@) && same_session(
                final(self).sessions()[stream_key@],
                c,
            ) && final(self).sessions().remove(stream_key@) == old(self).sessions().remove(
                stream_key@,
            ),
            final(self).spec_config() == old(self).spec_config(),
            final(self).spec_pool() == old(self).spec_pool(),
            r matches Ok(c) ==> c.stream_key == stream_key && c.status.state
                == StreamState::Connecting && c.destinations@ == destinations@.map_values(
                |d: Destination| reset_destination(d),
            ) && c.statistics == zero_statistics(),
    {
        match authorization_outcome(auth_status, Some(forwarding_status)) {
            Some(Ok(())) => Ok(self.create_stream_context(stream_key, connection_id, destinations)),
            Some(Err(e)) => Err(e),
            None => Err(AuthError::Rejected),
        }
    }

    /// Sets the state of the session registered under `stream_key`, unless it
    /// is terminal. Returns whether a session is registered under that key.
    pub fn update_stream_status(
        &mut self,
        stream_key: &str,
        state: StreamState,
        error_message: Option<String>,
    ) -> (r: bool)
        ensures
            r == old(self).sessions().contains_key(stream_key@),
            r ==> final(self).sessions().contains_key(stream_key@) && same_session(
                final(self).sessions()[stream_key@],
                status_updated(old(self).sessions()[stream_key@], state, error_message),
            ) && final(self).sessions().remove(stream_key@) == old(self).sessions().remove(
                stream_key@,
            ),
            !r ==> final(self).sessions() == old(self).sessions(),
            final(self).spec_config() == old(self).spec_config(),
            final(self).spec_pool() == old(self).spec_pool(),
    {
        match registry_get(&self.active_streams, stream_key) {
            Some(context) => {
                let mut context = context;
                context.update_status(state, error_message);
                registry_insert(&mut self.active_streams, stream_key.to_owned(), context);
                assert(self.sessions().remove(stream_key@) =~= old(self).sessions().remove(
                    stream_key@,
                ));
                true
            },
            None => false,
        }
    }

    /// Tears down the registration of `stream_key`: afterwards no session is
    /// registered under it. Removing a key that is absent changes nothing.
    /// Returns whether a session was registered.
    pub fn notify_stream_end(&mut self, stream_key: &str) -> (r: bool)
        ensures
            r == old(self).sessions().contains_key(stream_key@),
            final(self).sessions() == old(self).sessions().remove(stream_key@),
            !final(self).sessions().contains_key(stream_key@),
            final(self).spec_config() == old(self).spec_config(),
            final(self).spec_pool() == old(self).spec_pool(),
    {
        registry_remove(&mut self.active_streams, stream_key)
    }

    /// Whether a session is registered under `stream_key`.
    pub fn is_live(&self, stream_key: &str) -> (r: bool)
        ensures
            r == self.live_keys().contains(stream_key@),
    {
        registry_contains(&self.active_streams, stream_key)
    }

    /// How many sessions are registered.
    pub fn active_stream_count(&self) -> (r: usize)
        ensures
            r == self.sessions().len(),
    {
        registry_len(&self.active_streams)
    }

    /// A snapshot of the session registered under `stream_key`, if any.
    pub fn get_stream_info(&self, stream_key: &str) -> (r: Option<StreamInfo>)
        ensures
            r is Some <==> self.sessions().contains_key(stream_key@),
            r matches Some(info) ==> is_snapshot_of(info, self.sessions()[stream_key@]),
    {
        match registry_get(&self.active_streams, stream_key) {
            Some(context) => Some(context.snapshot()),
            None => None,
        }
    }

    /// Stores `context` back under its stream key, so that the registry sees
    /// the relay's latest state and counters. A session whose key is no
    /// longer live (it was torn down) is not brought back. Returns whether it
    /// was stored.
    pub fn store_session(&mut self, context: StreamContext) -> (r: bool)
        ensures
            r == old(self).sessions().contains_key(context.stream_key@),
            r ==> final(self).sessions() == old(self).sessions().insert(
                context.stream_key@,
                context,
            ),
            !r ==> final(self).sessions() == old(self).sessions(),
            final(self).spec_config() == old(self).spec_config(),
            final(self).spec_pool() == old(self).spec_pool(),
    {
        if registry_contains(&self.active_streams, context.stream_key.as_str()) {
            let key = context.stream_key.clone();
            registry_insert(&mut self.active_streams, key, context);
            true
        } else {
            false
        }
    }

    /// The stream keys of all live sessions, each once, in no particular order.
    pub fn get_all_streams(&self) -> (r: Vec<String>)
        ensures
            r@.map_values(|s: String| s@).no_duplicates(),
            r@.map_values(|s: String| s@).to_set() == self.live_keys(),
    {
        registry_key_list(&self.active_streams)
    }
}

/// Ending a stream twice is the same as ending it once: the second removal
/// finds nothing and leaves the registry as the first one left it.
pub proof fn lemma_stream_end_idempotent(sessions: Map<Seq<char>, StreamContext>, key: Seq<char>)
    ensures
        !sessions.remove(key).contains_key(key),
        sessions.remove(key).remove(key) == sessions.remove(key),
{
    assert(sessions.remove(key).remove(key) =~= sessions.remove(key));
}

/// A rejected authorization decides the verdict alone:
/// whatever the forwarding answer, the verdict is `Rejected`.
pub proof fn lemma_rejection_ignores_forwarding(auth_status: u16, forwarding_status: Option<u16>)
    requires
        !crate::auth::is_success(auth_status),
    ensures
        spec_authorization_outcome(auth_status, forwarding_status) == Some(
            Err::<(), AuthError>(AuthError::Rejected),
        ),
{
}

} // verus!
