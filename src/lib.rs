//! A fund-forwarding contract: any caller may attach funds, which are relayed in
//! full to one configured receiver; the owner recorded at instantiation alone may
//! change that receiver.
//!
//! The host environment persists the single state record and converts addresses
//! between their human-readable and canonical forms. The handlers here take the
//! stored record and the converter's answers as plain values, decide, and hand
//! back the new record with the response.
pub mod contract;
pub mod error;
pub mod lemmas;
pub mod msg;
pub mod state;
pub mod types;
