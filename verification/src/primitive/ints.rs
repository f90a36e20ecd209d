//! Atomic counters, one per primitive integer width and signedness.
//!
//! Each counter wraps one atomic machine word together with an
//! [`OrderMode`] fixed at construction. Every operation translates that mode
//! per operation, as [`crate::order`] specifies: loads downgrade
//! acquire-release to acquire, stores downgrade it to release, and the
//! fetch-and-add of `inc` keeps the full mode. Incrementing wraps around at
//! the type's boundary, as the underlying atomic's fetch-and-add does.
//!
//! The wrapped atomics are lock-free, but on targets whose code generation
//! falls back from atomic instructions they need not be wait-free.

use core::sync::atomic::AtomicI16;
use core::sync::atomic::AtomicI32;
use core::sync::atomic::AtomicI64;
use core::sync::atomic::AtomicI8;
use core::sync::atomic::AtomicIsize;
use core::sync::atomic::AtomicU16;
use core::sync::atomic::AtomicU32;
use core::sync::atomic::AtomicU64;
use core::sync::atomic::AtomicU8;
use core::sync::atomic::AtomicUsize;
use vstd::prelude::*;

use crate::order::load_ordering_of;
use crate::order::rmw_ordering_of;
use crate::order::store_ordering_of;
use crate::order::OrderMode;

verus! {

/// An atomic counter over `u8`.
pub struct CounterU8 {
    cell: AtomicU8,
    order: OrderMode,
}

impl CounterU8 {
    /// The ordering mode every operation of this counter translates from.
    pub closed spec fn order(self) -> OrderMode {
        self.order
    }

    /// Creates a counter with the strongest mode, sequentially consistent.
    pub fn new(val: u8) -> (c: CounterU8)
        ensures
            c.order() == OrderMode::SeqCst,
    {
        CounterU8 { cell: AtomicU8::new(val), order: OrderMode::SeqCst }
    }

    /// Creates a counter with the given ordering mode.
    pub fn with_ordering(val: u8, ordering: OrderMode) -> (c: CounterU8)
        ensures
            c.order() == ordering,
    {
        CounterU8 { cell: AtomicU8::new(val), order: ordering }
    }

    /// Loads the current value, with the mode's load ordering.
    pub fn get(&self) -> u8 {
        self.cell.load(load_ordering_of(self.order))
    }

    /// Stores a new value, with the mode's store ordering.
    pub fn set(&self, val: u8) {
        self.cell.store(val, store_ordering_of(self.order))
    }

    /// Atomically adds one and returns the previous value, with the full
    /// ordering mode.
    pub fn inc(&self) -> u8 {
        self.cell.fetch_add(1, rmw_ordering_of(self.order))
    }

    /// Stores zero, with the mode's store ordering.
    pub fn reset(&self) {
        self.cell.store(0, store_ordering_of(self.order))
    }
}

/// An atomic counter over `u16`.
pub struct CounterU16 {
    cell: AtomicU16,
    order: OrderMode,
}

impl CounterU16 {
    /// The ordering mode every operation of this counter translates from.
    pub closed spec fn order(self) -> OrderMode {
        self.order
    }

    /// Creates a counter with the strongest mode, sequentially consistent.
    pub fn new(val: u16) -> (c: CounterU16)
        ensures
            c.order() == OrderMode::SeqCst,
    {
        CounterU16 { cell: AtomicU16::new(val), order: OrderMode::SeqCst }
    }

    /// Creates a counter with the given ordering mode.
    pub fn with_ordering(val: u16, ordering: OrderMode) -> (c: CounterU16)
        ensures
            c.order() == ordering,
    {
        CounterU16 { cell: AtomicU16::new(val), order: ordering }
    }

    /// Loads the current value, with the mode's load ordering.
    pub fn get(&self) -> u16 {
        self.cell.load(load_ordering_of(self.order))
    }

    /// Stores a new value, with the mode's store ordering.
    pub fn set(&self, val: u16) {
        self.cell.store(val, store_ordering_of(self.order))
    }

    /// Atomically adds one and returns the previous value, with the full
    /// ordering mode.
    pub fn inc(&self) -> u16 {
        self.cell.fetch_add(1, rmw_ordering_of(self.order))
    }

    /// Stores zero, with the mode's store ordering.
    pub fn reset(&self) {
        self.cell.store(0, store_ordering_of(self.order))
    }
}

/// An atomic counter over `u32`.
pub struct CounterU32 {
    cell: AtomicU32,
    order: OrderMode,
}

impl CounterU32 {
    /// The ordering mode every operation of this counter translates from.
    pub closed spec fn order(self) -> OrderMode {
        self.order
    }

    /// Creates a counter with the strongest mode, sequentially consistent.
    pub fn new(val: u32) -> (c: CounterU32)
        ensures
            c.order() == OrderMode::SeqCst,
    {
        CounterU32 { cell: AtomicU32::new(val), order: OrderMode::SeqCst }
    }

    /// Creates a counter with the given ordering mode.
    pub fn with_ordering(val: u32, ordering: OrderMode) -> (c: CounterU32)
        ensures
            c.order() == ordering,
    {
        CounterU32 { cell: AtomicU32::new(val), order: ordering }
    }

    /// Loads the current value, with the mode's load ordering.
    pub fn get(&self) -> u32 {
        self.cell.load(load_ordering_of(self.order))
    }

    /// Stores a new value, with the mode's store ordering.
    pub fn set(&self, val: u32) {
        self.cell.store(val, store_ordering_of(self.order))
    }

    /// Atomically adds one and returns the previous value, with the full
    /// ordering mode.
    pub fn inc(&self) -> u32 {
        self.cell.fetch_add(1, rmw_ordering_of(self.order))
    }

    /// Stores zero, with the mode's store ordering.
    pub fn reset(&self) {
        self.cell.store(0, store_ordering_of(self.order))
    }
}

/// An atomic counter over `u64`.
pub struct CounterU64 {
    cell: AtomicU64,
    order: OrderMode,
}

impl CounterU64 {
    /// The ordering mode every operation of this counter translates from.
    pub closed spec fn order(self) -> OrderMode {
        self.order
    }

    /// Creates a counter with the strongest mode, sequentially consistent.
    pub fn new(val: u64) -> (c: CounterU64)
        ensures
            c.order() == OrderMode::SeqCst,
    {
        CounterU64 { cell: AtomicU64::new(val), order: OrderMode::SeqCst }
    }

    /// Creates a counter with the given ordering mode.
    pub fn with_ordering(val: u64, ordering: OrderMode) -> (c: CounterU64)
        ensures
            c.order() == ordering,
    {
        CounterU64 { cell: AtomicU64::new(val), order: ordering }
    }

    /// Loads the current value, with the mode's load ordering.
    pub fn get(&self) -> u64 {
        self.cell.load(load_ordering_of(self.order))
    }

    /// Stores a new value, with the mode's store ordering.
    pub fn set(&self, val: u64) {
        self.cell.store(val, store_ordering_of(self.order))
    }

    /// Atomically adds one and returns the previous value, with the full
    /// ordering mode.
    pub fn inc(&self) -> u64 {
        self.cell.fetch_add(1, rmw_ordering_of(self.order))
    }

    /// Stores zero, with the mode's store ordering.
    pub fn reset(&self) {
        self.cell.store(0, store_ordering_of(self.order))
    }
}

/// An atomic counter over `usize`.
pub struct CounterUsize {
    cell: AtomicUsize,
    order: OrderMode,
}

impl CounterUsize {
    /// The ordering mode every operation of this counter translates from.
    pub closed spec fn order(self) -> OrderMode {
        self.order
    }

    /// Creates a counter with the strongest mode, sequentially consistent.
    pub fn new(val: usize) -> (c: CounterUsize)
        ensures
            c.order() == OrderMode::SeqCst,
    {
        CounterUsize { cell: AtomicUsize::new(val), order: OrderMode::SeqCst }
    }

    /// Creates a counter with the given ordering mode.
    pub fn with_ordering(val: usize, ordering: OrderMode) -> (c: CounterUsize)
        ensures
            c.order() == ordering,
    {
        CounterUsize { cell: AtomicUsize::new(val), order: ordering }
    }

    /// Loads the current value, with the mode's load ordering.
    pub fn get(&self) -> usize {
        self.cell.load(load_ordering_of(self.order))
    }

    /// Stores a new value, with the mode's store ordering.
    pub fn set(&self, val: usize) {
        self.cell.store(val, store_ordering_of(self.order))
    }

    /// Atomically adds one and returns the previous value, with the full
    /// ordering mode.
    pub fn inc(&self) -> usize {
        self.cell.fetch_add(1, rmw_ordering_of(self.order))
    }

    /// Stores zero, with the mode's store ordering.
    pub fn reset(&self) {
        self.cell.store(0, store_ordering_of(self.order))
    }
}

/// An atomic counter over `i8`.
pub struct CounterI8 {
    cell: AtomicI8,
    order: OrderMode,
}

impl CounterI8 {
    /// The ordering mode every operation of this counter translates from.
    pub closed spec fn order(self) -> OrderMode {
        self.order
    }

    /// Creates a counter with the strongest mode, sequentially consistent.
    pub fn new(val: i8) -> (c: CounterI8)
        ensures
            c.order() == OrderMode::SeqCst,
    {
        CounterI8 { cell: AtomicI8::new(val), order: OrderMode::SeqCst }
    }

    /// Creates a counter with the given ordering mode.
    pub fn with_ordering(val: i8, ordering: OrderMode) -> (c: CounterI8)
        ensures
            c.order() == ordering,
    {
        CounterI8 { cell: AtomicI8::new(val), order: ordering }
    }

    /// Loads the current value, with the mode's load ordering.
    pub fn get(&self) -> i8 {
        self.cell.load(load_ordering_of(self.order))
    }

    /// Stores a new value, with the mode's store ordering.
    pub fn set(&self, val: i8) {
        self.cell.store(val, store_ordering_of(self.order))
    }

    /// Atomically adds one and returns the previous value, with the full
    /// ordering mode.
    pub fn inc(&self) -> i8 {
        self.cell.fetch_add(1, rmw_ordering_of(self.order))
    }

    /// Stores zero, with the mode's store ordering.
    pub fn reset(&self) {
        self.cell.store(0, store_ordering_of(self.order))
    }
}

/// An atomic counter over `i16`.
pub struct CounterI16 {
    cell: AtomicI16,
    order: OrderMode,
}

impl CounterI16 {
    /// The ordering mode every operation of this counter translates from.
    pub closed spec fn order(self) -> OrderMode {
        self.order
    }

    /// Creates a counter with the strongest mode, sequentially consistent.
    pub fn new(val: i16) -> (c: CounterI16)
        ensures
            c.order() == OrderMode::SeqCst,
    {
        CounterI16 { cell: AtomicI16::new(val), order: OrderMode::SeqCst }
    }

    /// Creates a counter with the given ordering mode.
    pub fn with_ordering(val: i16, ordering: OrderMode) -> (c: CounterI16)
        ensures
            c.order() == ordering,
    {
        CounterI16 { cell: AtomicI16::new(val), order: ordering }
    }

    /// Loads the current value, with the mode's load ordering.
    pub fn get(&self) -> i16 {
        self.cell.load(load_ordering_of(self.order))
    }

    /// Stores a new value, with the mode's store ordering.
    pub fn set(&self, val: i16) {
        self.cell.store(val, store_ordering_of(self.order))
    }

    /// Atomically adds one and returns the previous value, with the full
    /// ordering mode.
    pub fn inc(&self) -> i16 {
        self.cell.fetch_add(1, rmw_ordering_of(self.order))
    }

    /// Stores zero, with the mode's store ordering.
    pub fn reset(&self) {
        self.cell.store(0, store_ordering_of(self.order))
    }
}

/// An atomic counter over `i32`.
pub struct CounterI32 {
    cell: AtomicI32,
    order: OrderMode,
}

impl CounterI32 {
    /// The ordering mode every operation of this counter translates from.
    pub closed spec fn order(self) -> OrderMode {
        self.order
    }

    /// Creates a counter with the strongest mode, sequentially consistent.
    pub fn new(val: i32) -> (c: CounterI32)
        ensures
            c.order() == OrderMode::SeqCst,
    {
        CounterI32 { cell: AtomicI32::new(val), order: OrderMode::SeqCst }
    }

    /// Creates a counter with the given ordering mode.
    pub fn with_ordering(val: i32, ordering: OrderMode) -> (c: CounterI32)
        ensures
            c.order() == ordering,
    {
        CounterI32 { cell: AtomicI32::new(val), order: ordering }
    }

    /// Loads the current value, with the mode's load ordering.
    pub fn get(&self) -> i32 {
        self.cell.load(load_ordering_of(self.order))
    }

    /// Stores a new value, with the mode's store ordering.
    pub fn set(&self, val: i32) {
        self.cell.store(val, store_ordering_of(self.order))
    }

    /// Atomically adds one and returns the previous value, with the full
    /// ordering mode.
    pub fn inc(&self) -> i32 {
        self.cell.fetch_add(1, rmw_ordering_of(self.order))
    }

    /// Stores zero, with the mode's store ordering.
    pub fn reset(&self) {
        self.cell.store(0, store_ordering_of(self.order))
    }
}

/// An atomic counter over `i64`.
pub struct CounterI64 {
    cell: AtomicI64,
    order: OrderMode,
}

impl CounterI64 {
    /// The ordering mode every operation of this counter translates from.
    pub closed spec fn order(self) -> OrderMode {
        self.order
    }

    /// Creates a counter with the strongest mode, sequentially consistent.
    pub fn new(val: i64) -> (c: CounterI64)
        ensures
            c.order() == OrderMode::SeqCst,
    {
        CounterI64 { cell: AtomicI64::new(val), order: OrderMode::SeqCst }
    }

    /// Creates a counter with the given ordering mode.
    pub fn with_ordering(val: i64, ordering: OrderMode) -> (c: CounterI64)
        ensures
            c.order() == ordering,
    {
        CounterI64 { cell: AtomicI64::new(val), order: ordering }
    }

    /// Loads the current value, with the mode's load ordering.
    pub fn get(&self) -> i64 {
        self.cell.load(load_ordering_of(self.order))
    }

    /// Stores a new value, with the mode's store ordering.
    pub fn set(&self, val: i64) {
        self.cell.store(val, store_ordering_of(self.order))
    }

    /// Atomically adds one and returns the previous value, with the full
    /// ordering mode.
    pub fn inc(&self) -> i64 {
        self.cell.fetch_add(1, rmw_ordering_of(self.order))
    }

    /// Stores zero, with the mode's store ordering.
    pub fn reset(&self) {
        self.cell.store(0, store_ordering_of(self.order))
    }
}

/// An atomic counter over `isize`.
pub struct CounterIsize {
    cell: AtomicIsize,
    order: OrderMode,
}

impl CounterIsize {
    /// The ordering mode every operation of this counter translates from.
    pub closed spec fn order(self) -> OrderMode {
        self.order
    }

    /// Creates a counter with the strongest mode, sequentially consistent.
    pub fn new(val: isize) -> (c: CounterIsize)
        ensures
            c.order() == OrderMode::SeqCst,
    {
        CounterIsize { cell: AtomicIsize::new(val), order: OrderMode::SeqCst }
    }

    /// Creates a counter with the given ordering mode.
    pub fn with_ordering(val: isize, ordering: OrderMode) -> (c: CounterIsize)
        ensures
            c.order() == ordering,
    {
        CounterIsize { cell: AtomicIsize::new(val), order: ordering }
    }

    /// Loads the current value, with the mode's load ordering.
    pub fn get(&self) -> isize {
        self.cell.load(load_ordering_of(self.order))
    }

    /// Stores a new value, with the mode's store ordering.
    pub fn set(&self, val: isize) {
        self.cell.store(val, store_ordering_of(self.order))
    }

    /// Atomically adds one and returns the previous value, with the full
    /// ordering mode.
    pub fn inc(&self) -> isize {
        self.cell.fetch_add(1, rmw_ordering_of(self.order))
    }

    /// Stores zero, with the mode's store ordering.
    pub fn reset(&self) {
        self.cell.store(0, store_ordering_of(self.order))
    }
}

} // verus!
