//! One-time initialization: a run-once primitive with interchangeable
//! waiting strategies, and the cells built on top of it.
//!
//! Every type here is a value that its owner drives through `&mut self`, so
//! each contract says exactly what a call returns and what it leaves behind.
//! What happens when many callers race is stated separately, in `protocol`,
//! as laws over every interleaving of their atomic steps.
//!
//! - `state`, `tagged`: the four-state lifecycle, and its packing with an
//!   address into one word.
//! - `episode`: what a caller does with an observed state, and the
//!   commit-or-rollback guard of an episode.
//! - `once`: the contract of a backend (`RawOnce`) and the run-once callback.
//! - `raw_spin`, `raw_park`, `raw_queue`: the three backends.
//! - `once_lock`, `once_cell`, `lazy`: the cells.
//! - `protocol`: the racing callers.
//!
//! The decisions of the backends are functions over plain values, so that a
//! thread-safe shell can load a word, ask what to do, and apply the answer
//! with one atomic operation.

pub mod episode;
pub mod lazy;
pub mod once;
pub mod once_cell;
pub mod once_lock;
pub mod protocol;
pub mod raw_park;
pub mod raw_queue;
pub mod raw_spin;
pub mod state;
pub mod tagged;

pub use lazy::LazyLock;
pub use once::{Once, OnceState, RawOnce};
pub use once_cell::OnceCell;
pub use once_lock::OnceLock;
pub use raw_park::RawParkOnce;
pub use raw_queue::RawQueueOnce;
pub use raw_spin::{AtomicState, RawSpinOnce};
pub use state::State;
