use lightyear_sync::config::SyncConfig;
use lightyear_sync::duration::Duration;
use lightyear_sync::ping::{TimeSyncPingMessage, TimeSyncPongMessage};
use lightyear_sync::stats::{FinalStats, SyncStats};
use lightyear_sync::sync::{SentPacketStore, SyncManager};
use lightyear_sync::tick::{TickConfig, TickManager};
use lightyear_sync::time::{RelativeSpeed, TimeManager};
use lightyear_sync::wrapped::{PingId, Tick, WrappedTime};

fn ticks_of(millis: u64) -> TickManager {
    TickManager::from_config(TickConfig {
        tick_duration: Duration::from_millis(millis),
    })
}

fn pong(id: u16, received: u32, sent: u32) -> TimeSyncPongMessage {
    TimeSyncPongMessage {
        ping_id: PingId(id),
        ping_received_time: WrappedTime::new(received),
        pong_sent_time: WrappedTime::new(sent),
    }
}

/// A clock that shows `millis` after one frame.
fn clock_at(millis: u64) -> TimeManager {
    let mut time_manager = TimeManager::new();
    time_manager.update(Duration::from_millis(millis), Duration::default());
    time_manager
}

/// A manager that asks for `handshake_pings` pongs and has sent `n` pings, 100 ms apart.
fn manager_with_pings(handshake_pings: u8, n: u16) -> (SyncManager, TimeManager) {
    let config = SyncConfig {
        handshake_pings,
        ..SyncConfig::default()
    };
    let mut sync_manager = SyncManager::new(config);
    let mut time_manager = TimeManager::new();
    let tick_manager = ticks_of(50);
    for id in 0..n {
        time_manager.update(Duration::from_millis(100), Duration::default());
        sync_manager.update(&time_manager);
        let ping = sync_manager.maybe_prepare_ping(&time_manager, &tick_manager);
        assert_eq!(ping.unwrap().id, PingId(id));
    }
    (sync_manager, time_manager)
}

#[test]
fn test_send_pings() {
    let config = SyncConfig::default();
    let mut sync_manager = SyncManager::new(config);
    let mut time_manager = TimeManager::new();
    let mut tick_manager = TickManager::from_config(TickConfig {
        tick_duration: Duration::from_millis(50),
    });

    assert!(!sync_manager.is_synced());
    assert_eq!(
        sync_manager.maybe_prepare_ping(&time_manager, &tick_manager),
        None
    );

    let delta = Duration::from_millis(100);
    time_manager.update(delta, Duration::default());
    sync_manager.update(&time_manager);

    // send pings
    assert_eq!(
        sync_manager.maybe_prepare_ping(&time_manager, &tick_manager),
        Some(TimeSyncPingMessage {
            id: PingId(0),
            tick: Tick(0),
            ping_received_time: None,
        })
    );
    let delta = Duration::from_millis(60);
    time_manager.update(delta, Duration::default());
    sync_manager.update(&time_manager);

    // ping timer hasn't gone off yet, send nothing
    assert_eq!(
        sync_manager.maybe_prepare_ping(&time_manager, &tick_manager),
        None
    );
    time_manager.update(delta, Duration::default());
    sync_manager.update(&time_manager);
    tick_manager.set_tick_to(Tick(2));
    assert_eq!(
        sync_manager.maybe_prepare_ping(&time_manager, &tick_manager),
        Some(TimeSyncPingMessage {
            id: PingId(1),
            tick: Tick(2),
            ping_received_time: None,
        })
    );

    let delta = Duration::from_millis(100);
    time_manager.update(delta, Duration::default());
    sync_manager.update(&time_manager);
    assert_eq!(
        sync_manager.maybe_prepare_ping(&time_manager, &tick_manager),
        Some(TimeSyncPingMessage {
            id: PingId(2),
            tick: Tick(2),
            ping_received_time: None,
        })
    );

    // we sent all the pings we need
    assert_eq!(
        sync_manager.maybe_prepare_ping(&time_manager, &tick_manager),
        None
    );

    // check ping store
    assert_eq!(
        sync_manager.ping_store.remove(PingId(0)),
        Some(WrappedTime::new(100000))
    );
    assert_eq!(
        sync_manager.ping_store.remove(PingId(1)),
        Some(WrappedTime::new(220000))
    );
    assert_eq!(
        sync_manager.ping_store.remove(PingId(2)),
        Some(WrappedTime::new(320000))
    );
}

#[test]
fn default_config() {
    let config = SyncConfig::default();
    assert_eq!(config.jitter_multiple_margin, 3);
    assert_eq!(config.tick_margin, 1);
    assert_eq!(config.sync_ping_interval, Duration::from_millis(100));
    assert_eq!(config.handshake_pings, 10);
    assert_eq!(config.stats_buffer_duration, Duration::from_secs(2));
}

#[test]
fn new_manager_knows_nothing() {
    let sync_manager = SyncManager::new(SyncConfig::default());
    assert_eq!(sync_manager.rtt(), Duration::default());
    assert_eq!(sync_manager.jitter(), Duration::default());
    assert_eq!(sync_manager.latest_received_server_tick, Tick(0));
    assert_eq!(sync_manager.most_recent_received_ping, PingId(65534));
    assert_eq!(sync_manager.sync_stats.buffer.len(), 0);
    let _ = SentPacketStore::new();
    let _ = SentPacketStore::default();
}

#[test]
fn measurement_on_equal_ways() {
    // client clock 1000 us; server 500 us ahead; 200 us there, 50 us busy, 200 us back
    let stats = SyncStats::measure(
        WrappedTime::new(1000),
        &pong(0, 1700, 1750),
        WrappedTime::new(1450),
    );
    assert_eq!(stats.offset_us, 500);
    assert_eq!(stats.round_trip_delay_us, 400);
}

#[test]
fn measurement_rounds_offset_towards_zero() {
    // server 3 us behind, 1 us there, none back: -5 / 2
    let stats = SyncStats::measure(
        WrappedTime::new(1000),
        &pong(0, 998, 998),
        WrappedTime::new(1001),
    );
    assert_eq!(stats.offset_us, -2);
    assert_eq!(stats.round_trip_delay_us, 1);
}

#[test]
fn measurement_across_the_end_of_the_clock() {
    let stats = SyncStats::measure(
        WrappedTime::new(u32::MAX - 99),
        &pong(0, 100, 150),
        WrappedTime::new(250),
    );
    // 200 there, 50 busy, 100 back
    assert_eq!(stats.round_trip_delay_us, 300);
    assert_eq!(stats.offset_us, 50);
}

#[test]
fn pong_is_measured_once() {
    let (mut sync_manager, mut time_manager) = manager_with_pings(10, 1);
    time_manager.update(Duration::from_millis(30), Duration::default());
    assert!(!sync_manager.process_pong(&pong(0, 112_000, 113_000), &time_manager));
    let items = sync_manager.sync_stats.buffer.items();
    assert_eq!(items.len(), 1);
    assert_eq!(items[0].key, WrappedTime::new(130_000));
    assert_eq!(
        items[0].item,
        SyncStats {
            offset_us: -2_500,
            round_trip_delay_us: 29_000
        }
    );
    assert_eq!(sync_manager.most_recent_received_ping, PingId(0));
    assert_eq!(sync_manager.ping_store.remove(PingId(0)), None);

    assert!(!sync_manager.process_pong(&pong(0, 112_000, 113_000), &time_manager));
    assert_eq!(sync_manager.sync_stats.buffer.len(), 1);
}

#[test]
fn unasked_pong_is_ignored() {
    let (mut sync_manager, time_manager) = manager_with_pings(1, 1);
    assert!(!sync_manager.process_pong(&pong(7, 1, 2), &time_manager));
    assert_eq!(sync_manager.sync_stats.buffer.len(), 0);
    assert_eq!(sync_manager.most_recent_received_ping, PingId(65534));
    assert!(!sync_manager.is_synced());
}

#[test]
fn overtaken_pong_is_not_measured() {
    let (mut sync_manager, time_manager) = manager_with_pings(10, 2);
    sync_manager.process_pong(&pong(1, 1, 2), &time_manager);
    sync_manager.process_pong(&pong(0, 1, 2), &time_manager);
    assert_eq!(sync_manager.sync_stats.buffer.len(), 1);
    assert_eq!(sync_manager.most_recent_received_ping, PingId(1));
    // it is taken out of the store all the same
    assert_eq!(sync_manager.ping_store.remove(PingId(0)), None);
}

#[test]
fn handshake_ends_with_the_last_pong_it_asks_for() {
    let (mut sync_manager, time_manager) = manager_with_pings(10, 11);
    for id in 0..9 {
        assert!(!sync_manager.process_pong(&pong(id, 1, 2), &time_manager));
        assert!(!sync_manager.is_synced());
    }
    assert!(sync_manager.process_pong(&pong(9, 1, 2), &time_manager));
    assert!(sync_manager.is_synced());
    assert!(!sync_manager.process_pong(&pong(10, 1, 2), &time_manager));
    assert!(sync_manager.is_synced());
    assert_eq!(sync_manager.sync_stats.buffer.len(), 11);
}

#[test]
fn handshake_without_pongs_ends_with_the_first() {
    let (mut sync_manager, time_manager) = manager_with_pings(0, 1);
    assert!(sync_manager.process_pong(&pong(0, 1, 2), &time_manager));
}

#[test]
fn old_measurements_are_dropped_after_the_handshake() {
    let (mut sync_manager, mut time_manager) = manager_with_pings(2, 3);
    // at 300 ms
    assert!(!sync_manager.process_pong(&pong(0, 1, 2), &time_manager));
    time_manager.update(Duration::from_millis(3000), Duration::default());
    // before the handshake nothing is too old
    assert!(!sync_manager.update(&time_manager));
    assert_eq!(sync_manager.sync_stats.buffer.len(), 1);
    // at 3300 ms
    assert!(sync_manager.process_pong(&pong(1, 1, 2), &time_manager));
    time_manager.update(Duration::from_millis(100), Duration::default());
    assert!(sync_manager.update(&time_manager));
    assert_eq!(sync_manager.sync_stats.buffer.len(), 1);
    assert_eq!(
        sync_manager.sync_stats.buffer.items()[0].key,
        WrappedTime::new(3_300_000)
    );
    // one that is two seconds old to the microsecond does not count any more
    time_manager.update(Duration::from_millis(1899), Duration::default());
    assert!(!sync_manager.update(&time_manager));
    time_manager.update(Duration::from_millis(1), Duration::default());
    assert!(sync_manager.update(&time_manager));
    assert_eq!(sync_manager.sync_stats.buffer.len(), 0);
    assert!(!sync_manager.update(&time_manager));
}

#[test]
fn server_tick_ages_with_each_frame() {
    let mut sync_manager = SyncManager::new(SyncConfig::default());
    sync_manager.update(&clock_at(30));
    sync_manager.update(&clock_at(12));
    assert_eq!(
        sync_manager.duration_since_latest_received_server_tick,
        Duration::from_millis(42)
    );
}

/// A manager whose server was at tick 20 for 30 ms, with a round trip of 100 ms and a jitter of
/// 10 ms.
fn estimated_manager() -> (SyncManager, FinalStats) {
    let mut sync_manager = SyncManager::new(SyncConfig::default());
    sync_manager.latest_received_server_tick = Tick(20);
    sync_manager.duration_since_latest_received_server_tick = Duration::from_millis(30);
    let stats = FinalStats {
        rtt: Duration::from_millis(100),
        jitter: Duration::from_millis(10),
    };
    (sync_manager, stats)
}

#[test]
fn times_of_the_server() {
    let (mut sync_manager, stats) = estimated_manager();
    sync_manager.apply_stats(stats);
    assert_eq!(sync_manager.rtt(), Duration::from_millis(100));
    assert_eq!(sync_manager.jitter(), Duration::from_millis(10));
    let tick_manager = ticks_of(50);
    assert_eq!(
        sync_manager.current_server_time(&tick_manager),
        WrappedTime::new(1_080_000)
    );
    assert_eq!(
        sync_manager.predicted_server_receive_time(&tick_manager),
        WrappedTime::new(1_130_000)
    );
    assert_eq!(
        sync_manager.client_ahead_minimum(&tick_manager),
        Duration::from_millis(80)
    );
}

#[test]
fn finalize_sets_the_ideal_tick() {
    let (mut sync_manager, stats) = estimated_manager();
    let mut time_manager = TimeManager::new();
    let mut tick_manager = ticks_of(50);
    assert!(sync_manager.can_finalize(&stats, &tick_manager));
    sync_manager.finalize(stats, &mut time_manager, &mut tick_manager);
    // 1130 ms + 80 ms, in ticks of 50 ms
    assert_eq!(tick_manager.current_tick(), Tick(24));
    assert_eq!(sync_manager.rtt(), Duration::from_millis(100));
    assert_eq!(time_manager.current_time(), WrappedTime::new(0));

    // the client is then less than a tick off
    let margin = Duration::from_millis(50);
    assert!(sync_manager.can_update_client_time(&time_manager, &tick_manager, margin));
    sync_manager.update_client_time(&mut time_manager, &tick_manager, margin);
    assert_eq!(time_manager.sync_relative_speed, RelativeSpeed::Normal);
}

#[test]
fn client_is_in_step_with_a_long_lead() {
    // ticks of 1000 s, and a lead of 1500 s
    let config = SyncConfig {
        jitter_multiple_margin: 1,
        ..SyncConfig::default()
    };
    let mut sync_manager = SyncManager::new(config);
    let stats = FinalStats {
        rtt: Duration::default(),
        jitter: Duration::from_secs(500),
    };
    let tick = Duration::from_secs(1000);
    let mut tick_manager = ticks_of(1_000_000);
    let mut time_manager = TimeManager::new();
    sync_manager.finalize(stats, &mut time_manager, &mut tick_manager);
    assert_eq!(tick_manager.current_tick(), Tick(1));
    time_manager.update(Duration::default(), tick);
    sync_manager.update_client_time(&mut time_manager, &tick_manager, tick);
    assert_eq!(time_manager.sync_relative_speed, RelativeSpeed::Normal);
}

#[test]
fn rests_of_ticks_add_up() {
    // a tick of 1999 ns counts as one of 1 us where the tick is set
    let (mut sync_manager, _) = estimated_manager();
    sync_manager.latest_received_server_tick = Tick(0);
    sync_manager.duration_since_latest_received_server_tick = Duration::from_nanos(22_001);
    let mut tick_manager = TickManager::from_config(TickConfig {
        tick_duration: Duration::from_nanos(1_999),
    });
    let mut time_manager = TimeManager::new();
    sync_manager.finalize(FinalStats::default(), &mut time_manager, &mut tick_manager);
    // 22 us and a lead of 1 us, in ticks of 1 us
    assert_eq!(tick_manager.current_tick(), Tick(23));
    // at 45977 ns the client is 23 us ahead, 21001 ns more than its lead
    let margin = Duration::from_nanos(21_001);
    sync_manager.update_client_time(&mut time_manager, &tick_manager, margin);
    assert_eq!(time_manager.sync_relative_speed, RelativeSpeed::Normal);
    let margin = Duration::from_nanos(21_000);
    sync_manager.update_client_time(&mut time_manager, &tick_manager, margin);
    assert_eq!(time_manager.sync_relative_speed, RelativeSpeed::SlowDown);
}

#[test]
fn finalize_needs_ticks_of_a_microsecond() {
    let (sync_manager, stats) = estimated_manager();
    assert!(!sync_manager.can_finalize(&stats, &ticks_of(0)));
    let tick_manager = TickManager::from_config(TickConfig {
        tick_duration: Duration::new(0, 999),
    });
    assert!(!sync_manager.can_finalize(&stats, &tick_manager));
    let tick_manager = TickManager::from_config(TickConfig {
        tick_duration: Duration::from_secs(u64::MAX),
    });
    assert!(!sync_manager.can_finalize(&stats, &tick_manager));
}

/// The speed of a client at `tick`, where the ideal time lies 10 ms past the start of tick 24.
fn speed_at(tick: u16, overstep: u64, margin: Duration) -> RelativeSpeed {
    let (mut sync_manager, stats) = estimated_manager();
    sync_manager.apply_stats(stats);
    let mut time_manager = TimeManager::new();
    time_manager.update(Duration::default(), Duration::from_millis(overstep));
    let mut tick_manager = ticks_of(50);
    tick_manager.set_tick_to(Tick(tick));
    assert!(sync_manager.can_update_client_time(&time_manager, &tick_manager, margin));
    sync_manager.update_client_time(&mut time_manager, &tick_manager, margin);
    time_manager.sync_relative_speed
}

#[test]
fn speed_follows_the_error() {
    let tick = Duration::from_millis(50);
    assert_eq!(speed_at(24, 0, tick), RelativeSpeed::Normal);
    assert_eq!(speed_at(23, 10, tick), RelativeSpeed::Normal);
    assert_eq!(speed_at(23, 9, tick), RelativeSpeed::SpeedUp);
    assert_eq!(speed_at(20, 0, tick), RelativeSpeed::SpeedUp);
    assert_eq!(speed_at(25, 10, tick), RelativeSpeed::Normal);
    assert_eq!(speed_at(25, 11, tick), RelativeSpeed::SlowDown);
    assert_eq!(speed_at(30, 0, tick), RelativeSpeed::SlowDown);
    // without a margin every error counts
    assert_eq!(speed_at(24, 10, Duration::default()), RelativeSpeed::Normal);
    assert_eq!(speed_at(24, 9, Duration::default()), RelativeSpeed::SpeedUp);
    assert_eq!(speed_at(24, 11, Duration::default()), RelativeSpeed::SlowDown);
}

#[test]
fn client_tick_that_has_started_over() {
    let mut sync_manager = SyncManager::new(SyncConfig::default());
    sync_manager.latest_received_server_tick = Tick(65_500);
    let mut time_manager = TimeManager::new();
    let mut tick_manager = ticks_of(10);
    let margin = Duration::from_millis(10);
    // counts as tick 65536, 36 ticks ahead
    tick_manager.set_tick_to(Tick(1));
    sync_manager.update_client_time(&mut time_manager, &tick_manager, margin);
    assert_eq!(time_manager.sync_relative_speed, RelativeSpeed::SlowDown);
    // tick 0 counts as 65535, 35 ticks ahead; with 8 ms past its start and one tick of lead that
    // is 348 ms too far
    let mut near = TimeManager::new();
    near.update(Duration::default(), Duration::from_millis(8));
    tick_manager.set_tick_to(Tick(0));
    sync_manager.update_client_time(&mut near, &tick_manager, Duration::from_millis(348));
    assert_eq!(near.sync_relative_speed, RelativeSpeed::Normal);
    sync_manager.update_client_time(&mut near, &tick_manager, Duration::from_millis(347));
    assert_eq!(near.sync_relative_speed, RelativeSpeed::SlowDown);
    // just near enough to the server to be behind
    tick_manager.set_tick_to(Tick(65_500 - 31_767));
    sync_manager.update_client_time(&mut time_manager, &tick_manager, margin);
    assert_eq!(time_manager.sync_relative_speed, RelativeSpeed::SpeedUp);
    // one tick less, and it has started over
    tick_manager.set_tick_to(Tick(65_500 - 31_768));
    sync_manager.update_client_time(&mut time_manager, &tick_manager, margin);
    assert_eq!(time_manager.sync_relative_speed, RelativeSpeed::SlowDown);
}

#[test]
fn spans_out_of_range_are_told() {
    let (mut sync_manager, stats) = estimated_manager();
    sync_manager.apply_stats(stats);
    let time_manager = TimeManager::new();
    let tick_manager = ticks_of(50);
    let longest = Duration::new(9_223_372_036_854_775, 807_000_000);
    assert!(sync_manager.can_update_client_time(&time_manager, &tick_manager, longest));
    let longer = Duration::new(9_223_372_036_854_775, 807_000_001);
    assert!(!sync_manager.can_update_client_time(&time_manager, &tick_manager, longer));

    let mut late = TimeManager::new();
    late.update(Duration::new(u64::MAX, 999_999_999), Duration::default());
    assert!(!sync_manager.can_update(&late));
    assert!(sync_manager.can_update(&clock_at(1000)));
}
