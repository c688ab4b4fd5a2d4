use vstd::prelude::*;

use crate::ClientError;
use crate::keys::{AccountMeta, Pubkey, bytes_eq};

verus! {

/// One atomic operation unit included in a transaction: the program it
/// targets, the accounts it touches, and its opaque argument bytes.
pub struct Instruction {
    pub program_id: Pubkey,
    pub accounts: Vec<AccountMeta>,
    pub data: Vec<u8>,
}

/// A fully assembled transaction: every accumulated instruction in insertion
/// order, and every key that must sign it, payer first.
pub struct Transaction {
    pub instructions: Vec<Instruction>,
    pub signers: Vec<Pubkey>,
}

/// Is `key` among the signer list?
pub open spec fn spec_signs(signers: Seq<Pubkey>, key: Seq<u8>) -> bool {
    exists|i: int| #![trigger signers[i]] 0 <= i < signers.len() && signers[i]@ == key
}

/// Is the account reference `b` of instruction `a` covered: either it does
/// not have to sign, or its key is among the transaction's signers?
pub open spec fn spec_meta_signed(t: Transaction, a: int, b: int) -> bool {
    t.instructions@[a].accounts@[b].is_signer ==> spec_signs(
        t.signers@,
        t.instructions@[a].accounts@[b].pubkey@,
    )
}

/// Is every account reference that must sign covered by the transaction's
/// signer list?
pub open spec fn spec_required_signers_supplied(t: Transaction) -> bool {
    forall|a: int, b: int|
        #![trigger spec_meta_signed(t, a, b)]
        0 <= a < t.instructions@.len() && 0 <= b < t.instructions@[a].accounts@.len()
            ==> spec_meta_signed(t, a, b)
}

/// Is `key` among the signer list?
pub fn key_in_signers(signers: &Vec<Pubkey>, key: &Pubkey) -> (r: bool)
    ensures
        r == spec_signs(signers@, key@),
{
    let mut i: usize = 0;
    while i < signers.len()
        invariant
            i <= signers@.len(),
            forall|j: int| #![trigger signers@[j]] 0 <= j < i ==> signers@[j]@ != key@,
        decreases signers@.len() - i,
    {
        if bytes_eq(signers[i].as_bytes(), key.as_bytes()) {
            proof {
                assert(signers@[i as int]@ == key@);
            }
            return true;
        }
        i = i + 1;
    }
    false
}

impl Transaction {
    /// Checks the transaction's required signature set: `Ok` exactly when
    /// every account reference that must sign has its key among the
    /// signers, and the signing error otherwise.
    pub fn check_signers(&self) -> (r: Result<(), ClientError>)
        ensures
            r is Ok <==> spec_required_signers_supplied(*self),
            r is Err ==> (match r {
                Result::Err(e) => e is Signing,
                Result::Ok(_) => false,
            }),
    {
        let mut i: usize = 0;
        while i < self.instructions.len()
            invariant
                i <= self.instructions@.len(),
                forall|a: int, b: int|
                    #![trigger spec_meta_signed(*self, a, b)]
                    0 <= a < i && 0 <= b < self.instructions@[a].accounts@.len()
                        ==> spec_meta_signed(*self, a, b),
            decreases self.instructions@.len() - i,
        {
            let accounts_len = self.instructions[i].accounts.len();
            let mut j: usize = 0;
            while j < accounts_len
                invariant
                    i < self.instructions@.len(),
                    accounts_len == self.instructions@[i as int].accounts@.len(),
                    j <= accounts_len,
                    forall|b: int|
                        #![trigger spec_meta_signed(*self, i as int, b)]
                        0 <= b < j ==> spec_meta_signed(*self, i as int, b),
                decreases accounts_len - j,
            {
                let meta = &self.instructions[i].accounts[j];
                if meta.is_signer && !key_in_signers(&self.signers, &meta.pubkey) {
                    proof {
                        assert(!spec_meta_signed(*self, i as int, j as int));
                    }
                    return Err(ClientError::Signing);
                }
                j = j + 1;
            }
            i = i + 1;
        }
        Ok(())
    }
}

/// Accumulates instructions, extra signers, an account-reference set and an
/// argument payload, then finalizes them into one transaction.
///
/// The attached account set and argument payload, when present, become one
/// final instruction against the builder's own program, appended after every
/// explicitly added instruction.
pub struct RequestBuilder {
    pub program_id: Pubkey,
    pub payer: Pubkey,
    pub instructions: Vec<Instruction>,
    pub extra_signers: Vec<Pubkey>,
    pub accounts: Vec<AccountMeta>,
    pub args: Option<Vec<u8>>,
}

impl RequestBuilder {
    /// The instruction built from the attached account set and argument
    /// payload, or nothing when no payload was attached.
    pub open spec fn spec_program_instructions(&self) -> Seq<Instruction> {
        match self.args {
            Option::Some(data) => seq![
                (Instruction {
                    program_id: self.program_id,
                    accounts: self.accounts,
                    data,
                }),
            ],
            Option::None => Seq::empty(),
        }
    }

    /// The instruction list of the transaction this builder finalizes into.
    pub open spec fn spec_final_instructions(&self) -> Seq<Instruction> {
        self.instructions@ + self.spec_program_instructions()
    }

    /// The signer list of the transaction this builder finalizes into:
    /// the payer first, then every added signer in insertion order.
    pub open spec fn spec_final_signers(&self) -> Seq<Pubkey> {
        seq![self.payer] + self.extra_signers@
    }

    /// A fresh builder: no instructions, no extra signers, no account set,
    /// no argument payload.
    pub fn new(program_id: Pubkey, payer: Pubkey) -> (r: RequestBuilder)
        ensures
            r.program_id == program_id,
            r.payer == payer,
            r.instructions@ == Seq::<Instruction>::empty(),
            r.extra_signers@ == Seq::<Pubkey>::empty(),
            r.accounts@ == Seq::<AccountMeta>::empty(),
            r.args is None,
    {
        RequestBuilder {
            program_id,
            payer,
            instructions: Vec::new(),
            extra_signers: Vec::new(),
            accounts: Vec::new(),
            args: Option::None,
        }
    }

    /// Appends one instruction; everything else is unchanged.
    pub fn instruction(self, ix: Instruction) -> (r: RequestBuilder)
        ensures
            r.instructions@ == self.instructions@.push(ix),
            r.program_id == self.program_id,
            r.payer == self.payer,
            r.extra_signers@ == self.extra_signers@,
            r.accounts@ == self.accounts@,
            r.args == self.args,
    {
        let mut instructions = self.instructions;
        instructions.push(ix);
        RequestBuilder { instructions, ..self }
    }

    /// Appends one additional required signer; everything else is unchanged.
    pub fn signer(self, key: Pubkey) -> (r: RequestBuilder)
        ensures
            r.extra_signers@ == self.extra_signers@.push(key),
            r.program_id == self.program_id,
            r.payer == self.payer,
            r.instructions@ == self.instructions@,
            r.accounts@ == self.accounts@,
            r.args == self.args,
    {
        let mut extra_signers = self.extra_signers;
        extra_signers.push(key);
        RequestBuilder { extra_signers, ..self }
    }

    /// Attaches the account-reference set consumed by the final program
    /// instruction, replacing any set attached before.
    pub fn accounts(self, accounts: Vec<AccountMeta>) -> (r: RequestBuilder)
        ensures
            r.accounts@ == accounts@,
            r.program_id == self.program_id,
            r.payer == self.payer,
            r.instructions@ == self.instructions@,
            r.extra_signers@ == self.extra_signers@,
            r.args == self.args,
    {
        RequestBuilder { accounts, ..self }
    }

    /// Attaches the argument payload of the final program instruction,
    /// replacing any payload attached before.
    pub fn args(self, data: Vec<u8>) -> (r: RequestBuilder)
        ensures
            r.args == Option::Some(data),
            r.program_id == self.program_id,
            r.payer == self.payer,
            r.instructions@ == self.instructions@,
            r.extra_signers@ == self.extra_signers@,
            r.accounts@ == self.accounts@,
    {
        RequestBuilder { args: Option::Some(data), ..self }
    }

    /// Finalizes the accumulated request into one transaction.
    ///
    /// The transaction holds every accumulated instruction in insertion
    /// order, followed by the one instruction built from the attached
    /// account set and argument payload when a payload was attached; it is
    /// signed by the payer plus every added signer, in insertion order.
    pub fn build(self) -> (t: Transaction)
        ensures
            t.instructions@ == self.spec_final_instructions(),
            t.signers@ == self.spec_final_signers(),
    {
        let ghost g = self;
        let RequestBuilder { program_id, payer, mut instructions, extra_signers, accounts, args } =
            self;
        match args {
            Option::Some(data) => {
                instructions.push(Instruction { program_id, accounts, data });
            },
            Option::None => {},
        }
        let mut signers = extra_signers;
        signers.insert(0, payer);
        proof {
            assert(instructions@ =~= g.spec_final_instructions());
            assert(signers@ =~= g.spec_final_signers());
        }
        Transaction { instructions, signers }
    }
}

} // verus!
