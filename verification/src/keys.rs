use vstd::prelude::*;

verus! {

/// Number of bytes in an address.
pub const KEY_LEN: usize = 32;

/// Address of an account or of a remote program.
///
/// Held as its raw bytes; every well-formed key has exactly `KEY_LEN` of them.
pub struct Pubkey {
    bytes: Vec<u8>,
}

impl View for Pubkey {
    type V = Seq<u8>;

    closed spec fn view(&self) -> Seq<u8> {
        self.bytes@
    }
}

impl Pubkey {
    /// A key is well formed when it holds exactly `KEY_LEN` bytes.
    pub open spec fn wf(&self) -> bool {
        self@.len() == KEY_LEN
    }

    pub fn new(bytes: Vec<u8>) -> (r: Pubkey)
        requires
            bytes@.len() == KEY_LEN,
        ensures
            r@ == bytes@,
            r.wf(),
    {
        Pubkey { bytes }
    }

    pub fn as_bytes(&self) -> (r: &Vec<u8>)
        ensures
            r@ == self@,
    {
        &self.bytes
    }

    /// An independent copy of the key.
    pub fn dup(&self) -> (r: Pubkey)
        ensures
            r@ == self@,
            self.wf() ==> r.wf(),
    {
        let mut out: Vec<u8> = Vec::new();
        let mut i: usize = 0;
        while i < self.bytes.len()
            invariant
                i <= self.bytes@.len(),
                out@ == self.bytes@.subrange(0, i as int),
            decreases self.bytes@.len() - i,
        {
            out.push(self.bytes[i]);
            i = i + 1;
        }
        proof {
            assert(out@ =~= self.bytes@);
        }
        Pubkey { bytes: out }
    }
}

impl PartialEq for Pubkey {
    fn eq(&self, other: &Pubkey) -> (r: bool) {
        bytes_eq(&self.bytes, &other.bytes)
    }
}

impl Eq for Pubkey {
}

impl vstd::std_specs::cmp::PartialEqSpecImpl for Pubkey {
    open spec fn obeys_eq_spec() -> bool {
        true
    }

    open spec fn eq_spec(&self, other: &Pubkey) -> bool {
        self@ == other@
    }
}

/// Byte-for-byte comparison of two byte vectors.
pub fn bytes_eq(a: &Vec<u8>, b: &Vec<u8>) -> (r: bool)
    ensures
        r == (a@ == b@),
{
    if a.len() != b.len() {
        return false;
    }
    let mut i: usize = 0;
    while i < a.len()
        invariant
            a@.len() == b@.len(),
            i <= a@.len(),
            forall|j: int| 0 <= j < i ==> a@[j] == b@[j],
        decreases a@.len() - i,
    {
        if a[i] != b[i] {
            return false;
        }
        i = i + 1;
    }
    proof {
        assert(a@ =~= b@);
    }
    true
}

/// One account reference carried by an instruction: the address, whether the
/// account must sign, and whether it may be written.
pub struct AccountMeta {
    pub pubkey: Pubkey,
    pub is_signer: bool,
    pub is_writable: bool,
}

impl AccountMeta {
    pub fn new(pubkey: Pubkey, is_signer: bool, is_writable: bool) -> (r: AccountMeta)
        ensures
            r.pubkey@ == pubkey@,
            r.is_signer == is_signer,
            r.is_writable == is_writable,
    {
        AccountMeta { pubkey, is_signer, is_writable }
    }
}

/// The system program's address: all `KEY_LEN` bytes are zero.
pub open spec fn spec_system_id() -> Seq<u8> {
    Seq::<u8>::new(KEY_LEN as nat, |i: int| 0u8)
}

/// Address of the system program: all `KEY_LEN` bytes are zero.
pub fn system_program_id() -> (r: Pubkey)
    ensures
        r.wf(),
        r@ == spec_system_id(),
{
    let mut bytes: Vec<u8> = Vec::new();
    let mut i: usize = 0;
    while i < KEY_LEN
        invariant
            i <= KEY_LEN,
            bytes@ == Seq::<u8>::new(i as nat, |j: int| 0u8),
        decreases KEY_LEN - i,
    {
        bytes.push(0u8);
        proof {
            assert(bytes@ =~= Seq::<u8>::new((i + 1) as nat, |j: int| 0u8));
        }
        i = i + 1;
    }
    Pubkey::new(bytes)
}

} // verus!
