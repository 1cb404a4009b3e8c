//! Dekker's two-participant mutual-exclusion protocol.
//!
//! Exactly two participants take turns entering a critical section guarded by
//! nothing more than ordinary reads and writes of three shared fields: one
//! intent flag per participant and a shared turn indicator.
//!
//! The crate has two layers.
//!
//! * [`model`] states the protocol as a small-step transition system in which
//!   every step is a single access to one of the shared fields, and proves its
//!   central properties over every interleaving of the two participants'
//!   steps: mutual exclusion, absence of mutual blocking, and the hand-off of
//!   the turn on release.
//! * [`lock`] is the executable embodiment for a single thread of control:
//!   [`Dekker`] holds the protected value and the coordination fields,
//!   [`Process`] is one of the two capability tokens, and [`Guard`] witnesses
//!   held access. Its contracts pin down every field of the state across
//!   acquire, access, release and teardown.

pub mod lock;
pub mod model;
pub mod participant;

pub use lock::CloseOutcome;
pub use lock::Dekker;
pub use lock::Guard;
pub use lock::Process;
pub use participant::ProcessId;
