//! Deferred execution guards: run a caller-supplied action exactly once when a
//! guard is destroyed, triggered early, or — unless canceled — when it falls
//! out of scope. `DeferGuard` is the single-owner form; `ArcDeferGuard` is the
//! reference-counted form that several threads may hold at once, running the
//! action when the last reference goes away unless some holder canceled it.

mod guard;
pub mod protocol;
mod shared;

pub use guard::DeferGuard;
pub use shared::ArcDeferGuard;
