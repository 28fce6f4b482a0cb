//! A time-locked custodial vault: deposits are held for a fixed lock
//! duration, and a withdrawal releases them in full once the lock has
//! expired, or less a fixed penalty routed to a treasury before that.

pub mod accounts;
pub mod config;
pub mod controller;
pub mod error;
pub mod key;
pub mod ledger;
pub mod records;
pub mod theorems;
pub mod vault;
