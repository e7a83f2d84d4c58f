//! Node configuration: what the configuration file's general table
//! holds.
use vstd::prelude::*;

verus! {

/// The general table: the target seconds per block, and where the node's
/// keys live.
#[derive(Debug)]
pub struct General {
    pub block_time_secs: u64,
    pub keys_path: String,
}

/// The whole configuration.
#[derive(Debug)]
pub struct Config {
    pub general: General,
}

impl Config {
    /// A configuration from its parts.
    pub fn new(block_time_secs: u64, keys_path: String) -> (r: Config)
        ensures
            r.general.block_time_secs == block_time_secs,
            r.general.keys_path@ == keys_path@,
    {
        Config { general: General { block_time_secs, keys_path } }
    }
}

} // verus!
