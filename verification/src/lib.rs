//! Escrow-style list/buy marketplace flow for a rule-protected unique token.
//!
//! Every transfer of the asset must be authorized by an external
//! rule-evaluation service; the library derives every auxiliary account
//! address involved, builds the authorization payload that proves a transfer
//! is permitted, and drives the listing lifecycle (escrow on `list`, release
//! to the buyer on `buy`, the latter self-authorized through the listing's
//! derived signing credential).

pub mod codec;
pub mod derive;
pub mod errors;
pub mod keys;
pub mod payload;
pub mod state;
pub mod transfer;
