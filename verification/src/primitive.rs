//! Counters for primitive integer types, and the thread-local-buffering
//! counters built on top of one shared atomic accumulator.

mod buffered;
mod ints;

pub use buffered::ApproxCounter;
pub use buffered::FlushingCounter;
pub use buffered::LocalCounter;
pub use ints::CounterI16;
pub use ints::CounterI32;
pub use ints::CounterI64;
pub use ints::CounterI8;
pub use ints::CounterIsize;
pub use ints::CounterU16;
pub use ints::CounterU32;
pub use ints::CounterU64;
pub use ints::CounterU8;
pub use ints::CounterUsize;
