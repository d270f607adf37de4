//! A vehicle-provenance and insurance ledger.
//!
//! The ledger keeps one record per vehicle, keyed by VIN, with an append-only
//! log of diagnostic readings, and an index from each owner to the VINs they
//! registered. Registering a vehicle or appending to its log is open only to
//! accounts that bought insurance through the same ledger. A coarse health
//! rating and a market-value estimate are derived from the log.
//!
//! Every operation takes the calling account as an argument and works on a
//! state held in memory; what the host has to announce or to pay is returned
//! to it as a value. Nothing here reads the environment or touches storage.
//!
//! - [`account`], [`account_map`]: account identifiers and a map keyed by them.
//! - [`record`]: vehicle records and log entries, with their views.
//! - [`decimal`]: reading a number from the text of a log entry.
//! - [`health`]: the rating and the market value of a log.
//! - [`insurance`]: the insurance registry, its model and what holds of it.
//! - [`ledger_model`]: the ledger as a mathematical state, and what holds of it.
//! - [`ledger`]: the ledger itself.

pub mod account;
pub mod account_map;
pub mod decimal;
pub mod health;
pub mod insurance;
pub mod ledger;
pub mod ledger_model;
pub mod record;
