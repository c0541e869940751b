//! Payment requests between a payer and a business, settled with a fee split.
//!
//! Any one of a request's authorized addresses may settle it, exactly once.
//! The host around the library proves each caller's consent, reads balances
//! and moves the funds that a settlement names.
pub mod contract;
pub mod direct;
pub mod fee;
pub mod keyed;
pub mod laws;
pub mod types;

pub use contract::{HistoryEntry, PaymentContract};
pub use fee::{split_amount, MAX_FEE_BPS};
pub use types::{
    Address, BusinessConfig, Error, PaymentHistory, PaymentRequest, PaymentStatus, Settlement,
};
