//! Startup configuration: command-line arguments, the set of supported
//! networks, the two RPC endpoints and the list of watched validators. All of
//! it is loaded once before any worker starts and never mutated.

use vstd::prelude::*;

use crate::codec::Network;

verus! {

/// Command-line arguments: a config file path and the listen address.
#[derive(Clone, Debug)]
pub struct Args {
    pub config: String,
    pub host: String,
    pub port: u32,
}

/// One watched validator: a display name and its textual SS58 address.
#[derive(Clone, Debug)]
pub struct Validator {
    pub name: String,
    pub address: String,
}

/// The full configuration: network, chain display name, a primary and a
/// backup RPC endpoint, and the watched validators.
#[derive(Clone, Debug)]
pub struct Config {
    pub network: Network,
    pub chain: String,
    pub rpc_url: String,
    pub backup_rpc_url: String,
    pub validators: Vec<Validator>,
}

} // verus!
