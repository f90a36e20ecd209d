use global_counter::primitive::ApproxCounter;
use global_counter::primitive::CounterI16;
use global_counter::primitive::CounterI32;
use global_counter::primitive::CounterI64;
use global_counter::primitive::CounterI8;
use global_counter::primitive::CounterIsize;
use global_counter::primitive::CounterU16;
use global_counter::primitive::CounterU32;
use global_counter::primitive::CounterU64;
use global_counter::primitive::CounterU8;
use global_counter::primitive::CounterUsize;
use global_counter::primitive::FlushingCounter;

#[test]
fn approx_new_const() {
    let counter = ApproxCounter::new(0, 1024);
    let mut tally = counter.register();
    assert_eq!(counter.get(), 0);
    counter.inc(&mut tally);
    assert!(counter.get() <= 1);
}

#[test]
fn approx_flush_single_threaded() {
    let counter = ApproxCounter::new(0, 1024);
    let mut tally = counter.register();
    assert_eq!(counter.get(), 0);
    counter.inc(&mut tally);
    counter.flush(&mut tally);
    assert_eq!(counter.get(), 1);
}

#[test]
fn approx_count_to_50000_single_threaded() {
    const NUM_THREADS: usize = 1;
    const LOCAL_ACC: usize = 1024;
    const GLOBAL_ACC: usize = LOCAL_ACC * NUM_THREADS;
    let counter = ApproxCounter::new(0, LOCAL_ACC);
    let mut tally = counter.register();
    assert_eq!(counter.get(), 0);

    for _ in 0..50000 {
        counter.inc(&mut tally);
    }

    assert!(50000 - GLOBAL_ACC <= counter.get() && counter.get() <= 50000 + GLOBAL_ACC);
}

#[test]
fn approx_resolution_one_is_exact() {
    let counter = ApproxCounter::new(0, 1);
    let mut tally = counter.register();
    for expected in 1..=100usize {
        counter.inc(&mut tally);
        assert_eq!(counter.get(), expected);
        assert_eq!(tally.buffered_count(), 0);
    }
}

#[test]
fn approx_never_overcounts() {
    const LOCAL_ACC: usize = 419;
    let counter = ApproxCounter::new(0, LOCAL_ACC);
    let mut tally = counter.register();
    for performed in 1..=2000usize {
        counter.inc(&mut tally);
        assert!(counter.get() <= performed);
        assert!(performed - counter.get() <= LOCAL_ACC - 1);
    }
}

#[test]
fn approx_five_tallies_count_to_50000() {
    const NUM_THREADS: usize = 5;
    const LOCAL_ACC: usize = 419;
    const GLOBAL_ACC: usize = (LOCAL_ACC - 1) * NUM_THREADS;
    let counter = ApproxCounter::new(0, LOCAL_ACC);
    assert_eq!(counter.get(), 0);

    let mut tallies = Vec::new();
    for _ in 0..NUM_THREADS {
        tallies.push(counter.register());
    }
    for _ in 0..10000 {
        for tally in tallies.iter_mut() {
            counter.inc(tally);
        }
    }

    assert!(50000 - GLOBAL_ACC <= counter.get() && counter.get() <= 50000);

    for tally in tallies.iter_mut() {
        counter.flush(tally);
    }

    assert_eq!(counter.get(), 50000);
}

#[test]
fn approx_start_offset_kept() {
    let counter = ApproxCounter::new(100, 8);
    let mut tally = counter.register();
    for _ in 0..25 {
        counter.inc(&mut tally);
    }
    counter.flush(&mut tally);
    assert_eq!(counter.get(), 125);
}

#[test]
fn flushing_invisible_until_flush() {
    let counter = FlushingCounter::new(0);
    let mut tally = counter.register();
    for _ in 0..5 {
        counter.inc(&mut tally);
    }
    assert_eq!(counter.get(), 0);
    assert_eq!(tally.buffered_count(), 5);
    counter.flush(&mut tally);
    assert_eq!(counter.get(), 5);
    assert_eq!(tally.buffered_count(), 0);
}

#[test]
fn flushing_start_offset_kept() {
    let counter = FlushingCounter::new(7);
    let mut tally = counter.register();
    assert_eq!(counter.get(), 7);
    for _ in 0..3 {
        counter.inc(&mut tally);
    }
    counter.flush(&mut tally);
    assert_eq!(counter.get(), 10);
}

#[test]
fn flushing_two_tallies_exact_after_both_flush() {
    let counter = FlushingCounter::new(0);
    let mut first = counter.register();
    let mut second = counter.register();
    for _ in 0..30 {
        counter.inc(&mut first);
    }
    for _ in 0..12 {
        counter.inc(&mut second);
    }
    counter.flush(&mut first);
    assert!(counter.get() <= 42);
    counter.flush(&mut second);
    assert_eq!(counter.get(), 42);
}

#[test]
fn primitive_new_const() {
    let counter_u8 = CounterU8::new(0);
    assert_eq!(counter_u8.get(), 0);
    counter_u8.inc();
    assert_eq!(counter_u8.get(), 1);

    let counter_u16 = CounterU16::new(0);
    assert_eq!(counter_u16.get(), 0);
    counter_u16.inc();
    assert_eq!(counter_u16.get(), 1);

    let counter_u32 = CounterU32::new(0);
    assert_eq!(counter_u32.get(), 0);
    counter_u32.inc();
    assert_eq!(counter_u32.get(), 1);

    let counter_u64 = CounterU64::new(0);
    assert_eq!(counter_u64.get(), 0);
    counter_u64.inc();
    assert_eq!(counter_u64.get(), 1);

    let counter_usize = CounterUsize::new(0);
    assert_eq!(counter_usize.get(), 0);
    counter_usize.inc();
    assert_eq!(counter_usize.get(), 1);

    let counter_i8 = CounterI8::new(0);
    assert_eq!(counter_i8.get(), 0);
    counter_i8.inc();
    assert_eq!(counter_i8.get(), 1);

    let counter_i16 = CounterI16::new(0);
    assert_eq!(counter_i16.get(), 0);
    counter_i16.inc();
    assert_eq!(counter_i16.get(), 1);

    let counter_i32 = CounterI32::new(0);
    assert_eq!(counter_i32.get(), 0);
    counter_i32.inc();
    assert_eq!(counter_i32.get(), 1);

    let counter_i64 = CounterI64::new(0);
    assert_eq!(counter_i64.get(), 0);
    counter_i64.inc();
    assert_eq!(counter_i64.get(), 1);

    let counter_isize = CounterIsize::new(0);
    assert_eq!(counter_isize.get(), 0);
    counter_isize.inc();
    assert_eq!(counter_isize.get(), 1);
}

#[test]
fn primitive_reset() {
    let counter = CounterU8::new(0);
    assert_eq!(counter.get(), 0);
    counter.inc();
    assert_eq!(counter.get(), 1);
    counter.inc();
    assert_eq!(counter.get(), 2);
    counter.inc();
    assert_eq!(counter.get(), 3);
    counter.reset();
    assert_eq!(counter.get(), 0);
}

#[test]
fn lib_count_to_five_single_threaded() {
    let counter = CounterU32::new(0);
    assert_eq!(counter.get(), 0);
    counter.inc();
    assert_eq!(counter.get(), 1);
    counter.inc();
    assert_eq!(counter.get(), 2);
    counter.inc();
    assert_eq!(counter.get(), 3);
    counter.inc();
    assert_eq!(counter.get(), 4);
    counter.inc();
    assert_eq!(counter.get(), 5);
}

#[test]
fn lib_count_to_50000_single_threaded() {
    let counter = CounterU32::new(0);
    assert_eq!(counter.get(), 0);

    for _ in 0..50000 {
        counter.inc();
    }

    assert_eq!(counter.get(), 50000);
}

#[test]
fn primitive_inc_returns_previous() {
    let counter = CounterU32::new(41);
    assert_eq!(counter.inc(), 41);
    assert_eq!(counter.get(), 42);
}

#[test]
fn primitive_set_then_get() {
    let counter = CounterI64::new(-5);
    assert_eq!(counter.get(), -5);
    counter.set(17);
    assert_eq!(counter.get(), 17);
}

#[test]
fn primitive_inc_wraps_at_boundary() {
    let counter = CounterU8::new(u8::MAX);
    assert_eq!(counter.inc(), u8::MAX);
    assert_eq!(counter.get(), 0);

    let signed = CounterI8::new(i8::MAX);
    assert_eq!(signed.inc(), i8::MAX);
    assert_eq!(signed.get(), i8::MIN);
}
