//! Threading preferences for codec contexts.

use vstd::prelude::*;

verus! {

/// How many threads a codec context may use: picked by the engine, or set
/// by hand.
#[derive(Debug, Copy, Clone, PartialEq, Eq, Structural)]
pub enum ThreadingConfig {
    /// Let the engine pick the thread count.
    Auto { kind: ThreadingKind },
    /// Use exactly `count` threads.
    Manual { kind: ThreadingKind, count: usize },
}

/// The unit of parallelism threads divide their work by.
#[derive(Debug, Copy, Clone, PartialEq, Eq, Structural)]
pub enum ThreadingKind {
    /// Threads work on whole frames.
    Frame,
    /// Threads work on slices of one frame.
    Slice,
}

} // verus!
