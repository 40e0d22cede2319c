//! Revenue-distribution ledger for one autonomous economic actor governed by a
//! single creator account.
pub mod account;
pub mod laws;
pub mod ledger;

pub use account::Account;
pub use ledger::{
    GorkConstitution, GorkStatus, LedgerError, PayoutRequest, BPS_DENOMINATOR,
    DEFAULT_AUTONOMOUS_LIMIT, DEFAULT_ROYALTY_BPS,
};
