//! Settings that a write-path orchestrator reads to size its buffers and
//! choose whether to stage writes; this library does not interpret them.

use vstd::prelude::*;

verus! {

/// Declarative tuning of caching and write staging.
#[derive(Debug, Clone, Copy, PartialEq, Eq, Structural)]
pub struct Config {
    /// Cache size in megabytes.
    pub cache_size_mb: usize,
    /// Write-back buffer size in megabytes.
    pub write_buffer_size_mb: usize,
    /// Whether read-ahead is enabled.
    pub enable_read_ahead: bool,
    /// Whether writes are coalesced before they reach the device.
    pub enable_write_coalescing: bool,
}

impl Default for Config {
    fn default() -> (r: Self)
        ensures
            r.cache_size_mb == 64,
            r.write_buffer_size_mb == 32,
            r.enable_read_ahead,
            r.enable_write_coalescing,
    {
        Config {
            cache_size_mb: 64,
            write_buffer_size_mb: 32,
            enable_read_ahead: true,
            enable_write_coalescing: true,
        }
    }
}

/// The filesystem front end, holding the settings it was built with.
pub struct SMNtfsFilesystem {
    config: Config,
}

impl SMNtfsFilesystem {
    /// The settings.
    pub closed spec fn spec_config(&self) -> Config {
        self.config
    }

    /// A front end with the given settings.
    pub fn new(config: Config) -> (r: Self)
        ensures
            r.spec_config() == config,
    {
        SMNtfsFilesystem { config }
    }

    /// The settings.
    pub fn config(&self) -> (r: &Config)
        ensures
            *r == self.spec_config(),
    {
        &self.config
    }
}

} // verus!
