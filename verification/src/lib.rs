//! The rules of a milestone-based grants contract, verified: lockups of
//! milestone payouts, DAO governance, grant timers, gas-less relaying,
//! payment splits, release conditions, licenses, the audit log and
//! pagination. Each operation takes the records that the ledger holds as
//! plain values and returns the records to store.

pub mod audit;
pub mod conditional_release;
pub mod constants;
pub mod dao;
pub mod grant_timer;
pub mod license;
pub mod lockup;
pub mod pagination;
pub mod relay;
pub mod split_payment;
pub mod types;
