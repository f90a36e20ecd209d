//! Thread-safe counters for increment-heavy workloads.
//!
//! Three families, trading exactness for throughput differently:
//! [`generic::Counter`] guards any [`generic::Inc`] value with a mutex; the
//! atomic counters of [`primitive`] forward to one atomic machine word with
//! a memory-ordering mode fixed at construction, translated per operation as
//! [`order`] specifies; and the buffering counters
//! [`primitive::ApproxCounter`] and [`primitive::FlushingCounter`] give each
//! contributing thread a private accumulator and touch shared memory only
//! when it spills or flushes. [`model`] proves the accounting behind the
//! buffering counters: they never overcount, an approximate counter's
//! undercount is bounded by `threads * (resolution - 1)`, and a counter
//! whose threads have all flushed reads exactly.

pub mod generic;
pub mod model;
pub mod order;
pub mod primitive;
