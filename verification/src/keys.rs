use vstd::prelude::*;

verus! {

/// A 32-byte on-ledger account identity. All derived addresses are keyed
/// by values of this type; it is the library's plain model of the host
/// ledger's public-key type.
#[derive(Clone, Debug)]
pub struct AccountKey {
    pub bytes: Vec<u8>,
}

impl View for AccountKey {
    type V = Seq<u8>;

    open spec fn view(&self) -> Seq<u8> {
        self.bytes@
    }
}

impl DeepView for AccountKey {
    type V = Seq<u8>;

    open spec fn deep_view(&self) -> Seq<u8> {
        self.bytes@
    }
}

impl AccountKey {
    /// A well-formed identity holds exactly 32 bytes.
    pub open spec fn wf(&self) -> bool {
        self@.len() == 32
    }

    /// Builds an identity from raw bytes; rejects any length other than 32.
    pub fn new(bytes: Vec<u8>) -> (r: Option<AccountKey>)
        ensures
            match r {
                Some(k) => k.wf() && k@ == bytes@,
                None => bytes@.len() != 32,
            },
    {
        if bytes.len() == 32 {
            Some(AccountKey { bytes })
        } else {
            None
        }
    }

    /// A verified copy of the identity.
    pub fn dup(&self) -> (r: AccountKey)
        ensures
            r@ == self@,
    {
        AccountKey { bytes: dup_bytes(&self.bytes) }
    }
}

/// A verified byte-for-byte copy of a byte vector.
pub fn dup_bytes(v: &Vec<u8>) -> (r: Vec<u8>)
    ensures
        r@ == v@,
{
    let mut r: Vec<u8> = Vec::new();
    let mut i: usize = 0;
    while i < v.len()
        invariant
            0 <= i <= v@.len(),
            r@ == v@.subrange(0, i as int),
        decreases v@.len() - i,
    {
        r.push(v[i]);
        i += 1;
    }
    proof {
        assert(v@.subrange(0, v@.len() as int) =~= v@);
    }
    r
}

/// Byte-for-byte equality of two identities.
pub fn key_eq(a: &AccountKey, b: &AccountKey) -> (r: bool)
    ensures
        r == (a@ == b@),
{
    if a.bytes.len() != b.bytes.len() {
        return false;
    }
    let mut i: usize = 0;
    while i < a.bytes.len()
        invariant
            0 <= i <= a.bytes@.len(),
            a.bytes@.len() == b.bytes@.len(),
            forall|j: int| 0 <= j < i ==> a.bytes@[j] == b.bytes@[j],
        decreases a.bytes@.len() - i,
    {
        if a.bytes[i] != b.bytes[i] {
            return false;
        }
        i += 1;
    }
    proof {
        assert(a@ =~= b@);
    }
    true
}

/// The fields of an on-ledger token account that the listing and transfer
/// logic reads: its own address, the asset it holds, its owning party and
/// the number of units held.
#[derive(Clone, Debug)]
pub struct TokenAccountState {
    /// Address of the token account itself.
    pub key: AccountKey,
    /// Asset identity of the units this account holds.
    pub mint: AccountKey,
    /// The party that owns this token account.
    pub owner: AccountKey,
    /// Units of the asset currently held.
    pub amount: u64,
}

impl TokenAccountState {
    pub open spec fn wf(&self) -> bool {
        self.key.wf() && self.mint.wf() && self.owner.wf()
    }
}

} // verus!
