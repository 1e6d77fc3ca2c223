//! A staking metrics exporter's verified core: the SS58 address codec, the
//! label-keyed gauge sink, the connection manager that keeps one healthy
//! chain-client handle published across a primary and a backup endpoint, and
//! the per-cycle logic of the chain-level and validator-level pollers. The
//! network I/O, the config loading and the HTTP endpoint live in the
//! unverified shell around this library; every decision those loops carry
//! out is taken and proved here.

pub mod chain;
pub mod chain_worker;
pub mod codec;
pub mod config;
pub mod manager;
pub mod sink;
pub mod validator_worker;

pub use chain::tokens_to_i64;
