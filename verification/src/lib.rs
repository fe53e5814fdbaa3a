//! Verified core of a small facade over a remote ledger node: address
//! decoding, transfer construction and signing preparation, balance
//! interpretation, connection management, finalization tracking, and the
//! mapping of internal failures onto a closed, foreign-safe error vocabulary.

pub mod balance;
pub mod codec;
pub mod connection;
pub mod errors;
pub mod facade;
pub mod signer;
pub mod transfer;
pub mod watcher;
