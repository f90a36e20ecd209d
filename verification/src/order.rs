//! Memory-ordering modes for the primitive counters.
//!
//! A counter fixes one mode at construction; every operation then translates
//! that mode to the `core::sync::atomic::Ordering` it actually uses: loads
//! downgrade acquire-release to acquire, stores downgrade it to release, and
//! read-modify-write operations keep the full mode.

use core::sync::atomic::Ordering;
use vstd::prelude::*;

verus! {

/// The orderings a counter may be constructed with.
#[derive(Clone, Copy, Debug, PartialEq, Eq, Structural)]
pub enum OrderMode {
    /// No ordering constraints beyond atomicity.
    Relaxed,
    /// Acquire on loads, release on stores, both on read-modify-write.
    AcqRel,
    /// Sequentially consistent.
    SeqCst,
}

/// The ordering a load performs under the given mode.
pub open spec fn load_downgrade(m: OrderMode) -> Ordering {
    match m {
        OrderMode::Relaxed => Ordering::Relaxed,
        OrderMode::AcqRel => Ordering::Acquire,
        OrderMode::SeqCst => Ordering::SeqCst,
    }
}

/// The ordering a store performs under the given mode.
pub open spec fn store_downgrade(m: OrderMode) -> Ordering {
    match m {
        OrderMode::Relaxed => Ordering::Relaxed,
        OrderMode::AcqRel => Ordering::Release,
        OrderMode::SeqCst => Ordering::SeqCst,
    }
}

/// The ordering a read-modify-write performs: the full mode, undowngraded.
pub open spec fn rmw_ordering(m: OrderMode) -> Ordering {
    match m {
        OrderMode::Relaxed => Ordering::Relaxed,
        OrderMode::AcqRel => Ordering::AcqRel,
        OrderMode::SeqCst => Ordering::SeqCst,
    }
}

/// Translates a mode to the ordering its loads use.
pub fn load_ordering_of(m: OrderMode) -> (o: Ordering)
    ensures
        o == load_downgrade(m),
{
    match m {
        OrderMode::Relaxed => Ordering::Relaxed,
        OrderMode::AcqRel => Ordering::Acquire,
        OrderMode::SeqCst => Ordering::SeqCst,
    }
}

/// Translates a mode to the ordering its stores use.
pub fn store_ordering_of(m: OrderMode) -> (o: Ordering)
    ensures
        o == store_downgrade(m),
{
    match m {
        OrderMode::Relaxed => Ordering::Relaxed,
        OrderMode::AcqRel => Ordering::Release,
        OrderMode::SeqCst => Ordering::SeqCst,
    }
}

/// Translates a mode to the ordering its read-modify-writes use.
pub fn rmw_ordering_of(m: OrderMode) -> (o: Ordering)
    ensures
        o == rmw_ordering(m),
{
    match m {
        OrderMode::Relaxed => Ordering::Relaxed,
        OrderMode::AcqRel => Ordering::AcqRel,
        OrderMode::SeqCst => Ordering::SeqCst,
    }
}

} // verus!
