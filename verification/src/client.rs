use vstd::prelude::*;

use crate::accounts::DISC_LEN;
use crate::events::Subscription;
use crate::keys::Pubkey;
use crate::request::RequestBuilder;

verus! {

/// The durability threshold the transport must observe before a submission
/// counts as confirmed.
#[derive(Clone, Copy, PartialEq, Eq, Structural, Debug)]
pub enum CommitmentLevel {
    Processed,
    Confirmed,
    Finalized,
}

/// One connection: the endpoint, the commitment level, and the held
/// signer's public identifier. All three are fixed at construction and
/// immutable thereafter.
pub struct Connection {
    endpoint: Vec<u8>,
    commitment: CommitmentLevel,
    payer: Pubkey,
}

impl Connection {
    pub closed spec fn spec_endpoint(&self) -> Seq<u8> {
        self.endpoint@
    }

    pub closed spec fn spec_commitment(&self) -> CommitmentLevel {
        self.commitment
    }

    pub closed spec fn spec_payer(&self) -> Seq<u8> {
        self.payer@
    }

    pub open spec fn wf(&self) -> bool {
        self.spec_payer().len() == crate::keys::KEY_LEN
    }

    pub fn new(endpoint: Vec<u8>, commitment: CommitmentLevel, payer: Pubkey) -> (c: Connection)
        requires
            payer.wf(),
        ensures
            c.spec_endpoint() == endpoint@,
            c.spec_commitment() == commitment,
            c.spec_payer() == payer@,
            c.wf(),
    {
        Connection { endpoint, commitment, payer }
    }

    pub fn endpoint(&self) -> (r: &Vec<u8>)
        ensures
            r@ == self.spec_endpoint(),
    {
        &self.endpoint
    }

    pub fn commitment(&self) -> (r: CommitmentLevel)
        ensures
            r == self.spec_commitment(),
    {
        self.commitment
    }

    pub fn payer(&self) -> (r: &Pubkey)
        ensures
            r@ == self.spec_payer(),
    {
        &self.payer
    }

    /// A handle bound to one program on this connection. The handle
    /// borrows the connection and never outlives it; construction has no
    /// side effect.
    pub fn program<'a>(&'a self, program_id: Pubkey) -> (p: Program<'a>)
        requires
            program_id.wf(),
        ensures
            p.spec_id() == program_id@,
            p.spec_payer() == self.spec_payer(),
            p.wf(),
    {
        Program { connection: self, program_id }
    }
}

/// A handle on one remote program: its identifier and the borrowed
/// connection. Stateless beyond the identifier; a factory for requests and
/// subscriptions.
pub struct Program<'a> {
    connection: &'a Connection,
    program_id: Pubkey,
}

impl<'a> Program<'a> {
    pub closed spec fn spec_id(&self) -> Seq<u8> {
        self.program_id@
    }

    pub closed spec fn spec_payer(&self) -> Seq<u8> {
        self.connection.spec_payer()
    }

    pub open spec fn wf(&self) -> bool {
        self.spec_id().len() == crate::keys::KEY_LEN
    }

    pub fn id(&self) -> (r: &Pubkey)
        ensures
            r@ == self.spec_id(),
    {
        &self.program_id
    }

    pub fn payer(&self) -> (r: &Pubkey)
        ensures
            r@ == self.spec_payer(),
    {
        &self.connection.payer
    }

    /// A fresh, empty request builder against this program, paid for by
    /// the connection's signer.
    pub fn request(&self) -> (b: RequestBuilder)
        ensures
            b.program_id@ == self.spec_id(),
            b.payer@ == self.spec_payer(),
            b.instructions@.len() == 0,
            b.extra_signers@.len() == 0,
            b.accounts@.len() == 0,
            b.args is None,
    {
        RequestBuilder::new(self.program_id.dup(), self.connection.payer.dup())
    }

    /// A live subscription to this program's events under the given
    /// schema tag.
    pub fn on(&self, disc: Vec<u8>) -> (s: Subscription)
        requires
            disc@.len() == DISC_LEN,
        ensures
            s.spec_live(),
            s.spec_program() == self.spec_id(),
            s.spec_disc() == disc@,
            s.wf(),
    {
        Subscription::subscribe(self.program_id.dup(), disc)
    }
}

} // verus!
