//! Settings of the synchronisation.

use vstd::prelude::*;

use crate::duration::Duration;

verus! {

/// How the client keeps in step with the server.
#[derive(Clone, Copy, Debug)]
pub struct SyncConfig {
    /// How many times the jitter is added as margin to the time that a packet takes to the server.
    /// About 65% of packets arrive within one jitter, 95% within two and 99.7% within three.
    pub jitter_multiple_margin: u8,
    /// How many ticks are added as margin to the time that a packet takes to the server.
    pub tick_margin: u8,
    /// How often the client sends a ping.
    pub sync_ping_interval: Duration,
    /// How many pongs the client measures before the handshake is over.
    pub handshake_pings: u8,
    /// For how long a measurement counts.
    pub stats_buffer_duration: Duration,
}

impl Default for SyncConfig {
    fn default() -> (r: SyncConfig)
        ensures
            r.jitter_multiple_margin == 3,
            r.tick_margin == 1,
            r.sync_ping_interval@ == 100_000_000,
            r.handshake_pings == 10,
            r.stats_buffer_duration@ == 2_000_000_000,
    {
        SyncConfig {
            jitter_multiple_margin: 3,
            tick_margin: 1,
            sync_ping_interval: Duration::from_millis(100),
            handshake_pings: 10,
            stats_buffer_duration: Duration::from_secs(2),
        }
    }
}

} // verus!
