//! Record model and state transitions of a small content-sharing ledger:
//! platform state, users, videos and comments, each created once at a
//! deterministically derived address, with the rules that guard every change.

pub mod identity;
pub mod text;
pub mod address;
pub mod records;
pub mod error;
pub mod events;
pub mod rules;
pub mod ledger;
pub mod laws;
