//! Client configuration: an optional timeout bound for the connect, write
//! and read phases, and a cap on the receive buffer.

use vstd::prelude::*;

verus! {

/// Configuration for one round trip. `timeout` is a bound in seconds that
/// the caller applies uniformly to the connect, write and read phases;
/// `None` means no bound.
#[derive(Clone, Debug)]
pub struct ClientConfig {
    pub timeout: Option<u64>,
    pub max_buffer_size: usize,
}

impl Default for ClientConfig {
    /// Thirty seconds and a four-megabyte buffer.
    fn default() -> (r: ClientConfig)
        ensures
            r.timeout == Some(30u64),
            r.max_buffer_size == 4194304,
    {
        ClientConfig { timeout: Some(30), max_buffer_size: 4 * 1024 * 1024 }
    }
}

} // verus!
