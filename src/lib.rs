use vstd::prelude::*;

pub mod auth;
pub mod clock;
pub mod config;
pub mod connector;
pub mod handshake;
pub mod http;
pub mod pool;
pub mod protocol;
pub mod relay;
pub mod session;
pub mod state;

verus! {

} // verus!
