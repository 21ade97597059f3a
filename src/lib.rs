//! Vehicle location reports kept in a `locs` table, one record per plate.
//!
//! `record` holds the record, `storage` the statements run against the table
//! and a model of what each does to it, `reply` what each request answers
//! given what the storage returned, `cors` the cross-origin policy, and `laws`
//! what holds across requests.

pub mod cors;
pub mod laws;
pub mod record;
pub mod reply;
pub mod storage;
