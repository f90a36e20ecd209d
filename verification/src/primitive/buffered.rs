//! The thread-local-buffering counters.
//!
//! Both counters here combine one shared atomic accumulator with one private
//! [`LocalCounter`] per contributing thread. A thread increments its own
//! private counter — no shared-memory write, no contention — and the private
//! value reaches the shared accumulator only on a spill or a flush.
//!
//! Each private counter is owned by the thread using it, so Rust's ownership
//! rules are the single-writer guarantee: no lock is needed around it. The
//! price is that a `get` sees only what has been spilled or flushed; the
//! theorems in [`crate::model`] bound exactly how far off it can be.
//!
//! Neither buffering counter offers a `reset`: zeroing the shared
//! accumulator could not reach the private accumulators of other threads,
//! so a reset would leave buffered contributions behind. Construct a fresh
//! counter instead.

use core::sync::atomic::AtomicUsize;
use core::sync::atomic::Ordering;
use vstd::prelude::*;

use crate::model::spill_step;

verus! {

/// One thread's private accumulator for a buffering counter.
///
/// Obtain one per thread from the counter's `register`, keep it on that
/// thread, and pass it to every `inc` and `flush` on the same counter. It
/// corresponds to one slot of `locals` in [`crate::model::TallyModel`]:
/// `buffered()` is the slot's value, and `spilled_total()` is everything this
/// thread has already moved into the shared accumulator.
pub struct LocalCounter {
    count: usize,
    spilled: Ghost<nat>,
}

impl LocalCounter {
    /// Contributions held privately, not yet visible to `get`.
    pub closed spec fn buffered(self) -> nat {
        self.count as nat
    }

    /// Contributions this thread has already moved into the shared
    /// accumulator, over all spills and flushes.
    pub closed spec fn spilled_total(self) -> nat {
        self.spilled@
    }

    /// Every increment this thread has made: still buffered or already
    /// spilled.
    pub open spec fn contributed(self) -> nat {
        self.buffered() + self.spilled_total()
    }

    /// The buffered contributions, as a runtime value.
    pub fn buffered_count(&self) -> (n: usize)
        ensures
            n == self.buffered(),
    {
        self.count
    }
}

/// An approximate counter.
///
/// A thread's increments accumulate in its private [`LocalCounter`] and spill
/// into the shared accumulator once the private value reaches the resolution
/// fixed at construction. `get` loads the shared accumulator alone, so it can
/// undershoot the true count by up to `resolution - 1` per contributing
/// thread — and never overshoot. [`crate::model::theorem_error_bound`] proves
/// that bound; [`crate::model::theorem_exact_iff_drained`] proves that `get`
/// is exact again once every thread has flushed.
///
/// Resolution 1 degrades to an exact but slow counter; a larger resolution
/// trades accuracy for far fewer shared-memory writes.
pub struct ApproxCounter {
    threshold: usize,
    global_counter: AtomicUsize,
}

impl ApproxCounter {
    #[verifier::type_invariant]
    spec fn type_wf(self) -> bool {
        self.threshold >= 1
    }

    /// The resolution fixed at construction.
    pub closed spec fn resolution(self) -> nat {
        self.threshold as nat
    }

    /// Creates a counter that starts at `start` and spills each private
    /// accumulator once it reaches `resolution`.
    pub fn new(start: usize, resolution: usize) -> (c: ApproxCounter)
        requires
            resolution >= 1,
        ensures
            c.resolution() == resolution,
    {
        ApproxCounter { threshold: resolution, global_counter: AtomicUsize::new(start) }
    }

    /// Hands the calling thread a fresh, empty private accumulator for this
    /// counter. Keep it on the calling thread.
    pub fn register(&self) -> (tally: LocalCounter)
        ensures
            tally.buffered() == 0,
            tally.spilled_total() == 0,
            self.resolution() >= 1,
    {
        proof {
            use_type_invariant(&*self);
        }
        LocalCounter { count: 0, spilled: Ghost(0) }
    }

    /// Increments the counter by one, on the calling thread's private
    /// accumulator.
    ///
    /// The private accumulator and the amount spilled follow
    /// [`spill_step`], the same step the model's
    /// [`approx_inc`](crate::model::TallyModel::approx_inc) takes: nothing
    /// moves to the shared accumulator until the private value reaches the
    /// resolution, and then all of it does. Note that this call will usually
    /// leave the value returned by `get` unchanged.
    pub fn inc(&self, tally: &mut LocalCounter)
        requires
            old(tally).buffered() < self.resolution(),
        ensures
            final(tally).buffered() == spill_step(old(tally).buffered(), self.resolution()).0,
            final(tally).spilled_total() == old(tally).spilled_total() + spill_step(
                old(tally).buffered(),
                self.resolution(),
            ).1,
            final(tally).buffered() < self.resolution(),
            final(tally).contributed() == old(tally).contributed() + 1,
    {
        tally.count = tally.count + 1;
        if tally.count >= self.threshold {
            self.global_counter.fetch_add(tally.count, Ordering::SeqCst);
            tally.spilled = Ghost(tally.spilled@ + tally.count as nat);
            tally.count = 0;
        }
    }

    /// Loads the shared accumulator. Private, unspilled contributions of any
    /// thread are invisible here until they spill or are flushed; the model's
    /// theorems bound the shortfall.
    pub fn get(&self) -> usize {
        self.global_counter.load(Ordering::SeqCst)
    }

    /// Unconditionally moves the calling thread's whole private accumulator
    /// into the shared accumulator, at any accumulation level — the model's
    /// [`flush`](crate::model::TallyModel::flush) transition.
    ///
    /// If every thread that incremented flushes after its last increment, and
    /// a synchronization point makes those flushes visible, a subsequent
    /// `get` returns the exact count.
    pub fn flush(&self, tally: &mut LocalCounter)
        ensures
            final(tally).buffered() == 0,
            final(tally).spilled_total() == old(tally).spilled_total() + old(tally).buffered(),
            final(tally).contributed() == old(tally).contributed(),
    {
        self.global_counter.fetch_add(tally.count, Ordering::SeqCst);
        tally.spilled = Ghost(tally.spilled@ + tally.count as nat);
        tally.count = 0;
    }
}

/// A flushing counter.
///
/// The same shape as [`ApproxCounter`] but with no resolution: a thread's
/// increments accumulate privately without bound and never spill on their
/// own. `get` is exact only under the flush discipline — every contributing
/// thread flushes after its last increment, and a synchronization point makes
/// the flushes visible before the read. Outside that discipline `get` can
/// undershoot arbitrarily, but never overshoot:
/// [`crate::model::theorem_never_overcounts`] and
/// [`crate::model::theorem_exact_iff_drained`] prove both halves.
pub struct FlushingCounter {
    global_counter: AtomicUsize,
}

impl FlushingCounter {
    /// Creates a counter with the given starting value.
    pub fn new(start: usize) -> FlushingCounter {
        FlushingCounter { global_counter: AtomicUsize::new(start) }
    }

    /// Hands the calling thread a fresh, empty private accumulator for this
    /// counter. Keep it on the calling thread.
    pub fn register(&self) -> (tally: LocalCounter)
        ensures
            tally.buffered() == 0,
            tally.spilled_total() == 0,
    {
        LocalCounter { count: 0, spilled: Ghost(0) }
    }

    /// Increments the counter by one, on the calling thread's private
    /// accumulator — the model's
    /// [`buffer_inc`](crate::model::TallyModel::buffer_inc) transition.
    /// Nothing becomes visible to `get` until this thread flushes.
    pub fn inc(&self, tally: &mut LocalCounter)
        requires
            old(tally).buffered() < usize::MAX,
        ensures
            final(tally).buffered() == old(tally).buffered() + 1,
            final(tally).spilled_total() == old(tally).spilled_total(),
            final(tally).contributed() == old(tally).contributed() + 1,
    {
        tally.count = tally.count + 1;
    }

    /// Loads the shared accumulator. Exact only after the flush discipline
    /// has been followed.
    pub fn get(&self) -> usize {
        self.global_counter.load(Ordering::Relaxed)
    }

    /// Moves the calling thread's whole private accumulator into the shared
    /// accumulator, with the strongest ordering, as every spill and flush
    /// does.
    pub fn flush(&self, tally: &mut LocalCounter)
        ensures
            final(tally).buffered() == 0,
            final(tally).spilled_total() == old(tally).spilled_total() + old(tally).buffered(),
            final(tally).contributed() == old(tally).contributed(),
    {
        self.global_counter.fetch_add(tally.count, Ordering::SeqCst);
        tally.spilled = Ghost(tally.spilled@ + tally.count as nat);
        tally.count = 0;
    }
}

} // verus!
