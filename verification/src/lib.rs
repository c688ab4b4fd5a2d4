//! A client layer for a remote stateful program: it assembles and checks
//! multi-instruction transactions, decodes typed account state, manages
//! event subscriptions with deterministic teardown, and reasons about
//! batches of independent workloads run sequentially or concurrently.
//! Transport, signing and process work stay outside; every rule here is
//! stated as a contract and proved.

use vstd::prelude::*;

pub mod accounts;
pub mod client;
pub mod codec;
pub mod events;
pub mod harness;
pub mod keys;
pub mod launcher;
pub mod request;
pub mod scenarios;
pub mod sdk;

verus! {

/// Errors surfaced by the client layer.
#[derive(Clone, Copy, PartialEq, Eq, Structural, Debug)]
pub enum ClientError {
    /// A required setting is absent.
    Configuration,
    /// A resolved resource does not exist where expected.
    NotInstalled,
    /// The transport rejected or never confirmed a transaction.
    Submission,
    /// A required signer was not supplied.
    Signing,
    /// An account read targeted an address with no stored data.
    NotFound,
    /// Stored bytes do not match the expected typed schema.
    Decode,
}

} // verus!
