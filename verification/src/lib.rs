//! Escrow and engagement tracking for paid coaching sessions.
//!
//! A client pays for a session up front, the payment is held in custody, the
//! coach later attests attendance, and only then is the payment released to
//! the coach. Attendance history feeds a per-client churn-risk flag.
//!
//! [`CoachingContract`] is the escrow with its operations. [`model`] holds its
//! state as a mathematical value and says what each operation makes of it;
//! [`history`] and [`laws`] say what holds over sequences of operations.
//! [`stats`] holds the risk rule, [`custody`] the one call that leaves the
//! library: the transfer on the token ledger.

pub mod identity;
pub mod error;
pub mod stats;
pub mod session;
pub mod roster;
pub mod custody;
pub mod model;
pub mod contract;
pub mod history;
pub mod laws;

pub use identity::AuthContext;
pub use identity::Identity;
pub use identity::IdentityKind;
pub use error::Error;
pub use stats::ClientStats;
pub use session::CoachingSession;
pub use contract::CoachingContract;
