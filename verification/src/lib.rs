//! Agora: a task marketplace engine with milestone-based escrow custody.
//!
//! Clients post tasks with milestone budgets, freelancers bid, an accepted
//! bid funds an escrow, and milestone completion gates partial payment
//! release. Every operation is a single atomic transition: it validates the
//! record snapshot it was given and either applies all of its mutations or
//! returns an error having changed nothing.
//!
//! The host ledger (authenticated callers, record storage at derived
//! addresses, the clock) stays outside this crate: operations receive the
//! caller's identity, record addresses and the current time as plain values
//! and work on plain record snapshots.

pub mod state;
pub mod errors;
pub mod token;
pub mod task_ops;
pub mod bid_ops;
pub mod escrow_ops;
pub mod reputation;
pub mod laws;

pub use errors::AgoraError;
pub use errors::ErrorClass;
pub use state::AgentProfile;
pub use state::Bid;
pub use state::BidStatus;
pub use state::Escrow;
pub use state::Milestone;
pub use state::Review;
pub use state::Task;
pub use state::TaskStatus;
pub use token::TokenAccount;
