use core::sync::atomic::Ordering;

use global_counter::order::load_ordering_of;
use global_counter::order::rmw_ordering_of;
use global_counter::order::store_ordering_of;
use global_counter::order::OrderMode;
use global_counter::primitive::CounterU32;

#[test]
fn load_orderings_downgrade() {
    assert_eq!(load_ordering_of(OrderMode::Relaxed), Ordering::Relaxed);
    assert_eq!(load_ordering_of(OrderMode::AcqRel), Ordering::Acquire);
    assert_eq!(load_ordering_of(OrderMode::SeqCst), Ordering::SeqCst);
}

#[test]
fn store_orderings_downgrade() {
    assert_eq!(store_ordering_of(OrderMode::Relaxed), Ordering::Relaxed);
    assert_eq!(store_ordering_of(OrderMode::AcqRel), Ordering::Release);
    assert_eq!(store_ordering_of(OrderMode::SeqCst), Ordering::SeqCst);
}

#[test]
fn rmw_orderings_keep_the_mode() {
    assert_eq!(rmw_ordering_of(OrderMode::Relaxed), Ordering::Relaxed);
    assert_eq!(rmw_ordering_of(OrderMode::AcqRel), Ordering::AcqRel);
    assert_eq!(rmw_ordering_of(OrderMode::SeqCst), Ordering::SeqCst);
}

#[test]
fn with_ordering_counts_in_every_mode() {
    for mode in [OrderMode::Relaxed, OrderMode::AcqRel, OrderMode::SeqCst] {
        let counter = CounterU32::with_ordering(5, mode);
        assert_eq!(counter.get(), 5);
        assert_eq!(counter.inc(), 5);
        assert_eq!(counter.get(), 6);
        counter.set(100);
        assert_eq!(counter.get(), 100);
        counter.reset();
        assert_eq!(counter.get(), 0);
    }
}
