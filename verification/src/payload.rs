//! Authorization Payload Builder: the wire-serializable authorization
//! structure a caller supplies, its well-formedness rules, and the
//! synthesized proof-of-ownership entry used when the listing escrow itself
//! authorizes a sale.

use vstd::prelude::*;
use vstd::utf8::encode_utf8;
use vstd::utf8::is_ascii_chars;
use vstd::utf8::is_ascii_chars_encode_utf8;

use crate::derive::listings_seed;
use crate::derive::listings_seed_bytes;
use crate::errors::ErrorCode;
use crate::keys::dup_bytes;
use crate::keys::AccountKey;

verus! {

/// Most seeds the host ledger's address derivation accepts in one list.
pub const MAX_SEEDS: usize = 16;

/// Longest single seed the host ledger's address derivation accepts.
pub const MAX_SEED_LEN: usize = 32;

/// Length of one hash in a Merkle proof.
pub const PROOF_HASH_LEN: usize = 32;

/// Largest count or byte length the wire format's 32-bit length fields
/// carry; anything beyond it cannot be serialized and is rejected as
/// malformed instead of aborting the call.
pub const MAX_WIRE_LEN: usize = 0xffffffff;

/// An ordered list of byte-seed vectors proving a derived signing authority.
#[derive(Clone, Debug)]
pub struct SeedsVecLocal {
    /// The vector of derivation seeds.
    pub seeds: Vec<Vec<u8>>,
}

impl SeedsVecLocal {
    /// The shape the host's address derivation accepts: at most
    /// `MAX_SEEDS` seeds of at most `MAX_SEED_LEN` bytes each.
    pub open spec fn wf(&self) -> bool {
        self.seeds@.len() <= MAX_SEEDS && forall|i: int|
            0 <= i < self.seeds@.len() ==> (#[trigger] self.seeds@[i])@.len() <= MAX_SEED_LEN
    }

    /// Decides well-formedness.
    pub fn check(&self) -> (r: bool)
        ensures
            r == self.wf(),
    {
        if self.seeds.len() > MAX_SEEDS {
            return false;
        }
        let mut i: usize = 0;
        while i < self.seeds.len()
            invariant
                0 <= i <= self.seeds@.len(),
                self.seeds@.len() <= MAX_SEEDS,
                forall|j: int|
                    0 <= j < i ==> (#[trigger] self.seeds@[j])@.len() <= MAX_SEED_LEN,
            decreases self.seeds@.len() - i,
        {
            if self.seeds[i].len() > MAX_SEED_LEN {
                return false;
            }
            i += 1;
        }
        true
    }
}

/// A Merkle proof: an ordered list of 32-byte hashes.
#[derive(Clone, Debug)]
pub struct ProofInfoLocal {
    /// The merkle proof.
    pub proof: Vec<Vec<u8>>,
}

impl ProofInfoLocal {
    /// Every hash in the proof holds exactly `PROOF_HASH_LEN` bytes, and
    /// the hash count fits the wire format's 32-bit count field.
    pub open spec fn wf(&self) -> bool {
        self.proof@.len() <= MAX_WIRE_LEN && forall|i: int|
            0 <= i < self.proof@.len() ==> (#[trigger] self.proof@[i])@.len() == PROOF_HASH_LEN
    }

    /// Decides well-formedness.
    pub fn check(&self) -> (r: bool)
        ensures
            r == self.wf(),
    {
        if self.proof.len() > MAX_WIRE_LEN {
            return false;
        }
        let mut i: usize = 0;
        while i < self.proof.len()
            invariant
                0 <= i <= self.proof@.len(),
                forall|j: int|
                    0 <= j < i ==> (#[trigger] self.proof@[j])@.len() == PROOF_HASH_LEN,
            decreases self.proof@.len() - i,
        {
            if self.proof[i].len() != PROOF_HASH_LEN {
                return false;
            }
            i += 1;
        }
        true
    }
}

/// One tagged payload value: a plain identity, derivation seeds, a Merkle
/// proof, or an unsigned 64-bit number.
#[derive(Clone, Debug)]
pub enum PayloadTypeLocal {
    /// A plain account identity.
    Pubkey(AccountKey),
    /// Derived-address seeds.
    Seeds(SeedsVecLocal),
    /// A Merkle proof.
    MerkleProof(ProofInfoLocal),
    /// A plain number.
    Number(u64),
}

impl PayloadTypeLocal {
    pub open spec fn wf(&self) -> bool {
        match self {
            PayloadTypeLocal::Pubkey(k) => k.wf(),
            PayloadTypeLocal::Seeds(s) => s.wf(),
            PayloadTypeLocal::MerkleProof(p) => p.wf(),
            PayloadTypeLocal::Number(_) => true,
        }
    }

    /// Decides well-formedness.
    pub fn check(&self) -> (r: bool)
        ensures
            r == self.wf(),
    {
        match self {
            PayloadTypeLocal::Pubkey(k) => k.bytes.len() == 32,
            PayloadTypeLocal::Seeds(s) => s.check(),
            PayloadTypeLocal::MerkleProof(p) => p.check(),
            PayloadTypeLocal::Number(_) => true,
        }
    }
}

/// One named entry of the authorization structure.
#[derive(Clone, Debug)]
pub struct TaggedPayload {
    pub name: String,
    pub payload: PayloadTypeLocal,
}

impl TaggedPayload {
    /// The value is well-formed and the name's UTF-8 byte length fits the
    /// wire format's 32-bit length field.
    pub open spec fn wf(&self) -> bool {
        self.payload.wf() && encode_utf8(self.name@).len() <= MAX_WIRE_LEN
    }

    /// Decides well-formedness.
    pub fn check(&self) -> (r: bool)
        ensures
            r == self.wf(),
    {
        self.payload.check() && self.name.as_str().as_bytes().len() <= MAX_WIRE_LEN
    }
}

/// The caller-supplied authorization structure: an ordered list of named,
/// tagged payload entries.
#[derive(Clone, Debug)]
pub struct AuthorizationDataLocal {
    pub payload: Vec<TaggedPayload>,
}

impl AuthorizationDataLocal {
    /// Every entry is well-formed and the entry count fits the wire
    /// format's 32-bit count field.
    pub open spec fn wf(&self) -> bool {
        self.payload@.len() <= MAX_WIRE_LEN && forall|i: int|
            0 <= i < self.payload@.len() ==> (#[trigger] self.payload@[i]).wf()
    }
}

/// Checks every entry of a caller-supplied authorization structure;
/// a malformed seed list or proof is reported as an error, never left to
/// abort the call.
pub fn validate_authorization(d: &AuthorizationDataLocal) -> (r: Result<(), ErrorCode>)
    ensures
        r is Ok <==> d.wf(),
        r is Err ==> r == Err::<(), ErrorCode>(ErrorCode::PayloadConversionFailed),
{
    if d.payload.len() > MAX_WIRE_LEN {
        return Err(ErrorCode::PayloadConversionFailed);
    }
    let mut i: usize = 0;
    while i < d.payload.len()
        invariant
            0 <= i <= d.payload@.len(),
            d.payload@.len() <= MAX_WIRE_LEN,
            forall|j: int| 0 <= j < i ==> (#[trigger] d.payload@[j]).wf(),
        decreases d.payload@.len() - i,
    {
        if !d.payload[i].check() {
            return Err(ErrorCode::PayloadConversionFailed);
        }
        i += 1;
    }
    Ok(())
}

/// Character content of the reserved key naming the source account's
/// derivation seeds.
pub open spec fn source_seeds_key() -> Seq<char> {
    "SourceSeeds"@
}

/// Synthesizes the payload entry that proves the transfer's source token
/// account is the program-escrowed listing account: under the reserved
/// source-seeds key, the ordered seed list [asset identity, "listings"].
pub fn source_seeds_entry(item: &AccountKey) -> (r: TaggedPayload)
    ensures
        r.name@ == source_seeds_key(),
        match r.payload {
            PayloadTypeLocal::Seeds(s) => s.seeds@.len() == 2 && s.seeds@[0]@ == item@
                && s.seeds@[1]@ == listings_seed_bytes(),
            _ => false,
        },
        item.wf() ==> r.wf(),
{
    let mut seeds: Vec<Vec<u8>> = Vec::new();
    seeds.push(dup_bytes(&item.bytes));
    seeds.push(listings_seed());
    let name: String = "SourceSeeds".to_string();
    proof {
        reveal_strlit("SourceSeeds");
        assert(is_ascii_chars(name@));
        is_ascii_chars_encode_utf8(name@);
    }
    TaggedPayload { name, payload: PayloadTypeLocal::Seeds(SeedsVecLocal { seeds }) }
}

/// The whole authorization structure synthesized for a purchase: exactly
/// the one source-seeds entry.
pub fn buy_authorization(item: &AccountKey) -> (r: AuthorizationDataLocal)
    requires
        item.wf(),
    ensures
        r.wf(),
        r.payload@.len() == 1,
        r.payload@[0].name@ == source_seeds_key(),
        match r.payload@[0].payload {
            PayloadTypeLocal::Seeds(s) => s.seeds@.len() == 2 && s.seeds@[0]@ == item@
                && s.seeds@[1]@ == listings_seed_bytes(),
            _ => false,
        },
{
    let entry = source_seeds_entry(item);
    let mut payload: Vec<TaggedPayload> = Vec::new();
    payload.push(entry);
    AuthorizationDataLocal { payload }
}

} // verus!
