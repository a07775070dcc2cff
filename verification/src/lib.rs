//! The decisions and records behind a Cashu mint's HTTP routes, with the
//! bitcredit extensions: which keyset answers a request, how quotes are made
//! and updated, how the mint describes itself, and how the fee token for a
//! bitcredit mint is addressed.

pub mod error;
pub mod keysets;
pub mod quote_id;
pub mod expiry;
pub mod quotes;
pub mod info;
pub mod fee;
pub mod flow;
