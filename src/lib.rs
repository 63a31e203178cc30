//! Transactional reconciliation core of a small ledger backend: natural-key
//! normalisation and deduplication, insert-if-absent reconciliation of
//! reference tables, transaction-scope state, error classification and the
//! per-entity creation plans for sellers, bills and transactions.

pub mod b64;
pub mod base;
pub mod bill;
pub mod config;
pub mod dbx;
pub mod decimal;
pub mod envs;
pub mod ids;
pub mod query;
pub mod reconcile;
pub mod seller;
pub mod text;
pub mod time;
pub mod transaction;
pub mod user;
pub mod web_error;
