//! Keeps a client's clock and tick counter in step with its server.
//!
//! A client sends pings at a regular interval, turns each pong into a sample of clock offset and
//! round-trip delay, and after enough of them moves its tick ahead of the server's by as much as
//! the network demands. From then on it tells whether the simulation should run slower or faster.

pub mod config;
pub mod delta;
pub mod duration;
pub mod laws;
pub mod laws_calls;
pub mod laws_clock;
pub mod laws_events;
pub mod laws_parts;
pub mod laws_place;
pub mod ping;
pub mod ready_buffer;
pub mod state;
pub mod stats;
pub mod sync;
pub mod tick;
pub mod time;
pub mod timer;
pub mod wrapped;
