//! A Git "smart HTTP" bridge whose ref and object storage is an append-mostly
//! ledger plus a content-addressable blob store. This crate holds the verified
//! core: the data model and its invariants, protocol framing and parsing,
//! retry and verification policies, and the per-request decision machines that
//! an unverified shell drives against the network, the filesystem and the Git
//! executable.

pub mod accounts;
pub mod blob;
mod errors;
pub mod ipfs;
pub mod ledger;
pub mod objects;
pub mod pktline;
pub mod registry;
pub mod retry;
pub mod roles;
pub mod session;
pub mod text;
pub mod wants;

pub use errors::{Error, ErrorV};
