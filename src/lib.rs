//! The DID-exchange handshake: two parties swap freshly made DID documents
//! over typed state machines whose every transition checks that a message
//! belongs to the exchange (its thread id) and to the invitation that
//! opened it (its parent thread id).
//!
//! Wallet, resolver, ledger and transport stay with the caller: the
//! transitions take the keys, resolved documents and ledger entries they
//! need as values, and hand back the message to send.

pub mod attachment;
pub mod did;
pub mod document;
pub mod document_json;
pub mod error;
pub mod exchange;
pub mod exchange_store;
pub mod generic;
pub mod json;
pub mod key;
pub mod laws;
pub mod legacy;
pub mod messages;
pub mod out_of_band;
pub mod peer_did;
pub mod protocol;
pub mod schema;
pub mod service;
