//! A generic, thread-safe counter over any type with an increment capability.
//!
//! [`Counter`] keeps its value under a `parking_lot` mutex, so it is usable
//! from any number of threads at once; exactly one accessor holds the value
//! at a time. The interior value lives behind the mutex and is shared by
//! every thread holding a reference to the counter, so no contract here can
//! pin it down; what is verified is the increment behaviour of the value
//! types themselves, through [`Inc`]'s contract.

use vstd::prelude::*;

verus! {

/// The increment capability: mutates a value to its successor.
///
/// Implemented for the standard integer types, where incrementing wraps
/// around at the type's boundary. An implementation does not need to be
/// thread-safe: [`Counter`] serializes every access.
pub trait Inc: Sized {
    /// The successor that [`Inc::inc`] produces.
    spec fn inc_spec(self) -> Self;

    /// Mutates the value to its successor.
    fn inc(&mut self)
        ensures
            *final(self) == old(self).inc_spec(),
    ;
}

impl Inc for u8 {
    open spec fn inc_spec(self) -> u8 {
        self.wrapping_add(1)
    }

    fn inc(&mut self) {
        *self = self.wrapping_add(1);
    }
}

impl Inc for u16 {
    open spec fn inc_spec(self) -> u16 {
        self.wrapping_add(1)
    }

    fn inc(&mut self) {
        *self = self.wrapping_add(1);
    }
}

impl Inc for u32 {
    open spec fn inc_spec(self) -> u32 {
        self.wrapping_add(1)
    }

    fn inc(&mut self) {
        *self = self.wrapping_add(1);
    }
}

impl Inc for u64 {
    open spec fn inc_spec(self) -> u64 {
        self.wrapping_add(1)
    }

    fn inc(&mut self) {
        *self = self.wrapping_add(1);
    }
}

impl Inc for u128 {
    open spec fn inc_spec(self) -> u128 {
        self.wrapping_add(1)
    }

    fn inc(&mut self) {
        *self = self.wrapping_add(1);
    }
}

impl Inc for usize {
    open spec fn inc_spec(self) -> usize {
        self.wrapping_add(1)
    }

    fn inc(&mut self) {
        *self = self.wrapping_add(1);
    }
}

impl Inc for i8 {
    open spec fn inc_spec(self) -> i8 {
        self.wrapping_add(1)
    }

    fn inc(&mut self) {
        *self = self.wrapping_add(1);
    }
}

impl Inc for i16 {
    open spec fn inc_spec(self) -> i16 {
        self.wrapping_add(1)
    }

    fn inc(&mut self) {
        *self = self.wrapping_add(1);
    }
}

impl Inc for i32 {
    open spec fn inc_spec(self) -> i32 {
        self.wrapping_add(1)
    }

    fn inc(&mut self) {
        *self = self.wrapping_add(1);
    }
}

impl Inc for i64 {
    open spec fn inc_spec(self) -> i64 {
        self.wrapping_add(1)
    }

    fn inc(&mut self) {
        *self = self.wrapping_add(1);
    }
}

impl Inc for i128 {
    open spec fn inc_spec(self) -> i128 {
        self.wrapping_add(1)
    }

    fn inc(&mut self) {
        *self = self.wrapping_add(1);
    }
}

impl Inc for isize {
    open spec fn inc_spec(self) -> isize {
        self.wrapping_add(1)
    }

    fn inc(&mut self) {
        *self = self.wrapping_add(1);
    }
}

#[verifier::external_type_specification]
#[verifier::external_body]
#[verifier::reject_recursive_types(R)]
#[verifier::reject_recursive_types(T)]
pub struct ExMutex<R, T: ?Sized>(lock_api::Mutex<R, T>);

#[verifier::external_type_specification]
#[verifier::external_body]
pub struct ExRawMutex(parking_lot::RawMutex);

/// A scoped read handle on a [`Counter`]'s interior value.
///
/// The handle keeps the counter's mutex held until it is dropped; it wraps
/// the mutex guard, whose generic signature Verus cannot take directly.
#[verifier::external_body]
#[verifier::reject_recursive_types(T)]
pub struct ScopedRef<'a, T: Inc> {
    guard: parking_lot::MutexGuard<'a, T>,
}

impl<'a, T: Inc> ScopedRef<'a, T> {
    /// Relies on `lock_api::MutexGuard`'s `Deref`: a view of the interior
    /// value, readable for as long as the handle lives.
    #[verifier::external_body]
    pub fn value(&self) -> &T {
        &*self.guard
    }
}

/// A scoped write handle on a [`Counter`]'s interior value.
///
/// Like [`ScopedRef`], but the interior value can also be mutated through
/// it. The handle keeps the counter's mutex held until it is dropped.
#[verifier::external_body]
#[verifier::reject_recursive_types(T)]
pub struct ScopedMutRef<'a, T: Inc> {
    guard: parking_lot::MutexGuard<'a, T>,
}

impl<'a, T: Inc> ScopedMutRef<'a, T> {
    /// Relies on `lock_api::MutexGuard`'s `Deref`: a view of the interior
    /// value.
    #[verifier::external_body]
    pub fn value(&self) -> &T {
        &*self.guard
    }

    /// Relies on `lock_api::MutexGuard`'s `DerefMut`: the interior value,
    /// mutable for as long as the handle lives.
    #[verifier::external_body]
    pub fn value_mut(&mut self) -> &mut T {
        &mut *self.guard
    }
}

/// Relies on `lock_api::Mutex::new`: wraps the value in a fresh, unlocked
/// mutex.
#[verifier::external_body]
fn mutex_new<T>(val: T) -> parking_lot::Mutex<T> {
    parking_lot::Mutex::new(val)
}

/// Relies on `lock_api::Mutex::lock`: blocks until the calling thread holds
/// the mutex, then returns a read handle that releases it on drop. Locking
/// again from the thread already holding it deadlocks.
#[verifier::external_body]
fn mutex_lock_read<'a, T: Inc>(m: &'a parking_lot::Mutex<T>) -> ScopedRef<'a, T> {
    ScopedRef { guard: m.lock() }
}

/// Relies on `lock_api::Mutex::lock`: blocks until the calling thread holds
/// the mutex, then returns a write handle that releases it on drop. Locking
/// again from the thread already holding it deadlocks.
#[verifier::external_body]
fn mutex_lock_write<'a, T: Inc>(m: &'a parking_lot::Mutex<T>) -> ScopedMutRef<'a, T> {
    ScopedMutRef { guard: m.lock() }
}

/// Relies on `lock_api::Mutex::lock` and the guard's `DerefMut`: replaces the
/// value under the mutex.
#[verifier::external_body]
fn mutex_replace<T>(m: &parking_lot::Mutex<T>, val: T) {
    *m.lock() = val;
}

/// Relies on `lock_api::Mutex::lock` and `Clone::clone`: clones the value
/// under the mutex and hands the clone out.
#[verifier::external_body]
fn mutex_clone<T: Clone>(m: &parking_lot::Mutex<T>) -> T {
    m.lock().clone()
}

/// A generic counter.
///
/// The counter is `Send + Sync` whenever its contents are `Send`, so it can
/// be shared across threads; every operation takes the mutex, so at most one
/// thread observes or mutates the interior value at a time.
///
/// Counting never exceeds the value type's range: the integer
/// implementations of [`Inc`] wrap around at the boundary.
#[verifier::reject_recursive_types(T)]
pub struct Counter<T: Inc> {
    cell: parking_lot::Mutex<T>,
}

impl<T: Inc> Counter<T> {
    /// Creates a generic counter holding `val`.
    pub fn new(val: T) -> Counter<T> {
        Counter { cell: mutex_new(val) }
    }

    /// Returns a read handle on the interior value, without cloning it; the
    /// mutex is held until the handle is dropped.
    ///
    /// If `T` is not `Clone`, this is the only way to observe the current
    /// value.
    ///
    /// **Warning**: while the handle is alive, any further operation on this
    /// counter from the thread holding it deadlocks — release the handle
    /// first, or use [`Counter::get_cloned`]. Other threads merely block
    /// until the handle is released.
    pub fn get_borrowed<'a>(&'a self) -> ScopedRef<'a, T> {
        mutex_lock_read(&self.cell)
    }

    /// Returns a write handle on the interior value: like
    /// [`Counter::get_borrowed`], with the same deadlock hazard, but the
    /// value can be mutated through it.
    pub fn get_mut_borrowed<'a>(&'a self) -> ScopedMutRef<'a, T> {
        mutex_lock_write(&self.cell)
    }

    /// Replaces the interior value.
    pub fn set(&self, val: T) {
        mutex_replace(&self.cell, val)
    }

    /// Increments the interior value, delegating to [`Inc`]: takes the
    /// mutex, calls [`Inc::inc`] through the write handle, releases.
    pub fn inc(&self) {
        let mut handle = mutex_lock_write(&self.cell);
        handle.value_mut().inc();
    }
}

impl<T: Inc + Clone> Counter<T> {
    /// Clones the interior value and returns the clone: no handle stays
    /// alive, so the deadlock hazard of [`Counter::get_borrowed`] does not
    /// arise, at the price of the copy.
    pub fn get_cloned(&self) -> T {
        mutex_clone(&self.cell)
    }

    /// Increments the interior value and returns the previous value, cloned.
    pub fn inc_cloning(&self) -> T {
        let prev = self.get_cloned();
        self.inc();
        prev
    }
}

impl<T: Inc + Default> Counter<T> {
    /// Resets the interior value to the type's default.
    pub fn reset(&self) {
        self.set(T::default());
    }
}

} // verus!
