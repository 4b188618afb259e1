use lightyear_sync::duration::Duration;
use lightyear_sync::ping::PingStore;
use lightyear_sync::ready_buffer::ReadyBuffer;
use lightyear_sync::timer::PingTimer;
use lightyear_sync::wrapped::{PingId, WrappedTime};

#[test]
fn duration_parts() {
    let span = Duration::new(3, 250_001_999);
    assert_eq!(span.as_secs(), 3);
    assert_eq!(span.subsec_nanos(), 250_001_999);
    assert_eq!(span.as_nanos(), 3_250_001_999);
    assert_eq!(span.as_micros(), 3_250_001);
    assert_eq!(Duration::from_millis(3250), Duration::new(3, 250_000_000));
    assert_eq!(Duration::from_secs(2), Duration::new(2, 0));
    assert_eq!(Duration::from_nanos(1_000_000_001), Duration::new(1, 1));
    assert_eq!(Duration::default(), Duration::new(0, 0));
}

#[test]
fn duration_arithmetic() {
    let span = Duration::new(1, 600_000_000);
    assert_eq!(span.plus(span), Duration::new(3, 200_000_000));
    assert_eq!(span.times(5), Duration::from_secs(8));
    assert_eq!(Duration::new(1, 1).half(), Duration::from_millis(500));
    let longest = Duration::new(u64::MAX, 999_999_999);
    assert_eq!(longest.as_nanos(), lightyear_sync::duration::MAX_NANOS);
}

#[test]
fn timer_keeps_what_is_left_over() {
    let mut timer = PingTimer::new(Duration::from_millis(100));
    assert!(!timer.finished());
    timer.tick(Duration::from_millis(99));
    assert!(!timer.finished());
    assert_eq!(timer.elapsed(), Duration::from_millis(99));
    timer.tick(Duration::from_millis(1));
    assert!(timer.finished());
    assert_eq!(timer.elapsed(), Duration::default());
    timer.tick(Duration::from_millis(250));
    assert!(timer.finished());
    assert_eq!(timer.elapsed(), Duration::from_millis(50));
    timer.tick(Duration::from_millis(10));
    assert!(!timer.finished());
    assert_eq!(timer.elapsed(), Duration::from_millis(60));
}

#[test]
fn timer_starts_over() {
    let mut timer = PingTimer::new(Duration::from_millis(100));
    timer.tick(Duration::from_millis(130));
    assert!(timer.finished());
    timer.reset();
    assert!(!timer.finished());
    assert_eq!(timer.elapsed(), Duration::default());
    timer.tick(Duration::from_millis(70));
    assert!(!timer.finished());
    timer.tick(Duration::from_millis(30));
    assert!(timer.finished());
}

#[test]
fn timer_without_interval_always_rings() {
    let mut timer = PingTimer::new(Duration::default());
    timer.tick(Duration::from_millis(5));
    assert!(timer.finished());
    assert_eq!(timer.elapsed(), Duration::default());
    timer.tick(Duration::default());
    assert!(timer.finished());
}

#[test]
fn timer_keeps_low_bits_of_a_long_rest() {
    // an interval and a rest beyond 64 bits of nanoseconds
    let mut timer = PingTimer::new(Duration::from_secs(40_000_000_000));
    timer.tick(Duration::from_secs(70_000_000_000));
    assert!(timer.finished());
    let rest: u128 = 30_000_000_000 * 1_000_000_000;
    assert_eq!(timer.elapsed().as_nanos(), rest % (1 << 64));
}

#[test]
fn later_pings() {
    assert!(PingId(1).is_later_than(PingId(0)));
    assert!(!PingId(0).is_later_than(PingId(1)));
    assert!(!PingId(5).is_later_than(PingId(5)));
    assert!(PingId(0).is_later_than(PingId(65_534)));
    assert!(PingId(32_765).is_later_than(PingId(65_534)));
    assert!(!PingId(32_766).is_later_than(PingId(65_534)));
    assert!(PingId(65_535).is_later_than(PingId(65_534)));
    assert_eq!(PingId(65_535).next(), PingId(0));
    assert_eq!(PingId(7).next(), PingId(8));
}

#[test]
fn clock_starts_over() {
    let time = WrappedTime::new(u32::MAX);
    assert_eq!(time.plus(Duration::new(0, 1_999)), WrappedTime::new(0));
    assert_eq!(
        WrappedTime::new(0).minus(Duration::new(0, 1_000)),
        WrappedTime::new(u32::MAX)
    );
    assert_eq!(
        WrappedTime::from_duration(Duration::from_secs(4_295)),
        WrappedTime::new(32_704)
    );
    let there = WrappedTime::new(17).plus(Duration::from_secs(9_999_999));
    assert_eq!(there.minus(Duration::from_secs(9_999_999)), WrappedTime::new(17));
}

#[test]
fn later_times() {
    assert!(WrappedTime::new(5).is_later_than(WrappedTime::new(u32::MAX)));
    assert!(!WrappedTime::new(u32::MAX).is_later_than(WrappedTime::new(5)));
    assert!(!WrappedTime::new(5).is_later_than(WrappedTime::new(5)));
    assert!(WrappedTime::new(0x7fff_ffff).is_later_than(WrappedTime::new(0)));
    assert!(!WrappedTime::new(0x8000_0000).is_later_than(WrappedTime::new(0)));
}

#[test]
fn ping_store_gives_back_what_it_took() {
    let mut store = PingStore::new();
    assert_eq!(store.push_new(WrappedTime::new(10)), PingId(0));
    assert_eq!(store.push_new(WrappedTime::new(20)), PingId(1));
    assert_eq!(store.remove(PingId(2)), None);
    assert_eq!(store.remove(PingId(0)), Some(WrappedTime::new(10)));
    assert_eq!(store.remove(PingId(0)), None);
    assert_eq!(store.remove(PingId(1)), Some(WrappedTime::new(20)));
}

#[test]
fn ping_numbers_start_over() {
    let mut store = PingStore::new();
    for i in 0..65_536u32 {
        store.push_new(WrappedTime::new(i));
    }
    assert_eq!(store.push_new(WrappedTime::new(70_000)), PingId(0));
    assert_eq!(store.remove(PingId(0)), Some(WrappedTime::new(70_000)));
    assert_eq!(store.remove(PingId(65_535)), Some(WrappedTime::new(65_535)));
}

#[test]
fn ready_buffer_keeps_later_items() {
    let mut buffer: ReadyBuffer<u8> = ReadyBuffer::new();
    assert_eq!(buffer.len(), 0);
    buffer.add_item(WrappedTime::new(30), 3);
    buffer.add_item(WrappedTime::new(10), 1);
    buffer.add_item(WrappedTime::new(20), 2);
    buffer.add_item(WrappedTime::new(40), 4);
    buffer.pop_until(&WrappedTime::new(20));
    let items: Vec<u8> = buffer.items().iter().map(|entry| entry.item).collect();
    assert_eq!(items, vec![3, 4]);
    buffer.pop_until(&WrappedTime::new(20));
    assert_eq!(buffer.len(), 2);
}
