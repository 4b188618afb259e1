# lightyear_sync

Keeps a game client's clock and tick in step with its server, verified with Verus.

- `src/` is the verified library. `sync.rs` holds the manager; `state.rs` says what it knows and
  what each event makes of that; `laws.rs` proves what holds of the whole. The other modules are
  its parts: spans and differences of time, wrapping counters, the ping timer, the ping store, the
  buffer of measurements, the client's clock and tick.
- `app/` is ordinary Rust around it: the statistics over the measurements and the speed factors,
  which are floating-point numbers.
- `tests/` runs the library.

`chrono` computes signed differences of time and `bevy` runs the ping timer. The functions that
call them are marked `#[verifier::external_body]`, and say what is believed of each call.
