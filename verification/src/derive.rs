//! Address Deriver: deterministic derivation of every auxiliary account
//! address involved in a transfer (listing record, metadata record, edition
//! record, per-owner token record) from the asset's identity.

use vstd::prelude::*;

use crate::keys::{dup_bytes, AccountKey};

verus! {

// ---------------------------------------------------------------- seed bytes

/// Bytes of the literal `"listings"`: the seed that, together with the
/// asset identity, derives a listing record's own address.
pub open spec fn listings_seed_bytes() -> Seq<u8> {
    seq![0x6cu8, 0x69u8, 0x73u8, 0x74u8, 0x69u8, 0x6eu8, 0x67u8, 0x73u8]
}

/// Bytes of the literal `"metadata"`: the fixed prefix of every address the
/// metadata service derives.
pub open spec fn metadata_prefix_bytes() -> Seq<u8> {
    seq![0x6du8, 0x65u8, 0x74u8, 0x61u8, 0x64u8, 0x61u8, 0x74u8, 0x61u8]
}

/// Bytes of the literal `"edition"`: the suffix of an edition record address.
pub open spec fn edition_seed_bytes() -> Seq<u8> {
    seq![0x65u8, 0x64u8, 0x69u8, 0x74u8, 0x69u8, 0x6fu8, 0x6eu8]
}

/// Bytes of the literal `"token_record"`: the record-kind suffix of a
/// per-owner token record address.
pub open spec fn token_record_seed_bytes() -> Seq<u8> {
    seq![
        0x74u8,
        0x6fu8,
        0x6bu8,
        0x65u8,
        0x6eu8,
        0x5fu8,
        0x72u8,
        0x65u8,
        0x63u8,
        0x6fu8,
        0x72u8,
        0x64u8,
    ]
}

/// The `"listings"` seed as a byte vector.
pub fn listings_seed() -> (r: Vec<u8>)
    ensures
        r@ == listings_seed_bytes(),
{
    let mut v: Vec<u8> = Vec::new();
    v.push(0x6c);
    v.push(0x69);
    v.push(0x73);
    v.push(0x74);
    v.push(0x69);
    v.push(0x6e);
    v.push(0x67);
    v.push(0x73);
    proof {
        assert(v@ =~= listings_seed_bytes());
    }
    v
}

/// The `"metadata"` prefix as a byte vector.
pub fn metadata_prefix() -> (r: Vec<u8>)
    ensures
        r@ == metadata_prefix_bytes(),
{
    let mut v: Vec<u8> = Vec::new();
    v.push(0x6d);
    v.push(0x65);
    v.push(0x74);
    v.push(0x61);
    v.push(0x64);
    v.push(0x61);
    v.push(0x74);
    v.push(0x61);
    proof {
        assert(v@ =~= metadata_prefix_bytes());
    }
    v
}

/// The `"edition"` suffix as a byte vector.
pub fn edition_seed() -> (r: Vec<u8>)
    ensures
        r@ == edition_seed_bytes(),
{
    let mut v: Vec<u8> = Vec::new();
    v.push(0x65);
    v.push(0x64);
    v.push(0x69);
    v.push(0x74);
    v.push(0x69);
    v.push(0x6f);
    v.push(0x6e);
    proof {
        assert(v@ =~= edition_seed_bytes());
    }
    v
}

/// The `"token_record"` suffix as a byte vector.
pub fn token_record_seed() -> (r: Vec<u8>)
    ensures
        r@ == token_record_seed_bytes(),
{
    let mut v: Vec<u8> = Vec::new();
    v.push(0x74);
    v.push(0x6f);
    v.push(0x6b);
    v.push(0x65);
    v.push(0x6e);
    v.push(0x5f);
    v.push(0x72);
    v.push(0x65);
    v.push(0x63);
    v.push(0x6f);
    v.push(0x72);
    v.push(0x64);
    proof {
        assert(v@ =~= token_record_seed_bytes());
    }
    v
}

// ------------------------------------------------------------ derivation

/// The address and derivation counter that the host ledger computes for a
/// seed list under an owning program; a function of its arguments alone, so
/// independent invocations on the same inputs always agree.
pub uninterp spec fn pda_of(seeds: Seq<Seq<u8>>, program: Seq<u8>) -> Option<(Seq<u8>, u8)>;

/// The address the host ledger computes when a concrete derivation counter
/// already stands at the end of the seed list; a function of its arguments
/// alone.
pub uninterp spec fn pda_with_bump_of(seeds: Seq<Seq<u8>>, program: Seq<u8>) -> Option<Seq<u8>>;

/// Relies on solana_program's `Pubkey::try_find_program_address`: it searches
/// the bounded counter space for the given seed list and program identity,
/// and its source shows that a returned `(address, bump)` pair satisfies
/// `create_program_address(seeds + [bump]) == address`.
#[verifier::external_body]
fn find_program_address(seeds: &Vec<Vec<u8>>, program: &AccountKey) -> (r: Option<
    (AccountKey, u8),
>)
    requires
        program.wf(),
    ensures
        match r {
            Some(pair) => pair.0.wf() && pda_of(seeds.deep_view(), program@) == Some(
                (pair.0@, pair.1),
            ) && pda_with_bump_of(seeds.deep_view().push(seq![pair.1]), program@) == Some(pair.0@),
            None => pda_of(seeds.deep_view(), program@) is None,
        },
{
    let refs: Vec<&[u8]> = seeds.iter().map(|s| s.as_slice()).collect();
    let pk = solana_program::pubkey::Pubkey::new_from_array(
        program.bytes.as_slice().try_into().unwrap(),
    );
    solana_program::pubkey::Pubkey::try_find_program_address(&refs, &pk)
        .map(|(a, b)| (AccountKey { bytes: a.to_bytes().to_vec() }, b))
}

/// Relies on solana_program's `Pubkey::create_program_address`: the address
/// computed from a seed list whose last element is the derivation counter;
/// a function of its arguments alone.
#[verifier::external_body]
pub(crate) fn create_program_address(seeds: &Vec<Vec<u8>>, program: &AccountKey) -> (r: Option<
    AccountKey,
>)
    requires
        program.wf(),
    ensures
        match r {
            Some(k) => k.wf() && pda_with_bump_of(seeds.deep_view(), program@) == Some(k@),
            None => pda_with_bump_of(seeds.deep_view(), program@) is None,
        },
{
    let refs: Vec<&[u8]> = seeds.iter().map(|s| s.as_slice()).collect();
    let pk = solana_program::pubkey::Pubkey::new_from_array(
        program.bytes.as_slice().try_into().unwrap(),
    );
    solana_program::pubkey::Pubkey::create_program_address(&refs, &pk)
        .ok()
        .map(|a| AccountKey { bytes: a.to_bytes().to_vec() })
}

// ------------------------------------------------- category seed lists

/// Seed list of a listing record: the asset identity, then `"listings"`.
pub open spec fn listing_seeds_spec(item: Seq<u8>) -> Seq<Seq<u8>> {
    seq![item, listings_seed_bytes()]
}

/// Seed list of a metadata record: prefix, metadata-service identity, asset.
pub open spec fn metadata_seeds_spec(metadata_program: Seq<u8>, item: Seq<u8>) -> Seq<Seq<u8>> {
    seq![metadata_prefix_bytes(), metadata_program, item]
}

/// Seed list of an edition record: the metadata seeds with the edition suffix.
pub open spec fn edition_seeds_spec(metadata_program: Seq<u8>, item: Seq<u8>) -> Seq<Seq<u8>> {
    seq![metadata_prefix_bytes(), metadata_program, item, edition_seed_bytes()]
}

/// Seed list of a token record: the metadata seeds, the record-kind suffix,
/// and the owning token account's identity.
pub open spec fn token_record_seeds_spec(
    metadata_program: Seq<u8>,
    item: Seq<u8>,
    token_account: Seq<u8>,
) -> Seq<Seq<u8>> {
    seq![
        metadata_prefix_bytes(),
        metadata_program,
        item,
        token_record_seed_bytes(),
        token_account,
    ]
}

// --------------------------------------------------- exported derivations

/// Derives the address and counter of the listing record for `item` under
/// this program's identity.
pub fn derive_listing_address(item: &AccountKey, program: &AccountKey) -> (r: Option<
    (AccountKey, u8),
>)
    requires
        program.wf(),
    ensures
        match r {
            Some(pair) => pair.0.wf() && pda_of(listing_seeds_spec(item@), program@) == Some(
                (pair.0@, pair.1),
            ) && pda_with_bump_of(listing_seeds_spec(item@).push(seq![pair.1]), program@) == Some(
                pair.0@,
            ),
            None => pda_of(listing_seeds_spec(item@), program@) is None,
        },
{
    let mut seeds: Vec<Vec<u8>> = Vec::new();
    seeds.push(dup_bytes(&item.bytes));
    seeds.push(listings_seed());
    proof {
        assert(seeds.deep_view() =~~= listing_seeds_spec(item@));
    }
    find_program_address(&seeds, program)
}

/// Derives the metadata record address for `item` under the metadata service.
pub fn derive_metadata_address(metadata_program: &AccountKey, item: &AccountKey) -> (r: Option<
    (AccountKey, u8),
>)
    requires
        metadata_program.wf(),
    ensures
        match r {
            Some(pair) => pair.0.wf() && pda_of(
                metadata_seeds_spec(metadata_program@, item@),
                metadata_program@,
            ) == Some((pair.0@, pair.1)),
            None => pda_of(metadata_seeds_spec(metadata_program@, item@), metadata_program@)
                is None,
        },
{
    let mut seeds: Vec<Vec<u8>> = Vec::new();
    seeds.push(metadata_prefix());
    seeds.push(dup_bytes(&metadata_program.bytes));
    seeds.push(dup_bytes(&item.bytes));
    proof {
        assert(seeds.deep_view() =~~= metadata_seeds_spec(metadata_program@, item@));
    }
    find_program_address(&seeds, metadata_program)
}

/// Derives the edition record address for `item` under the metadata service.
pub fn derive_edition_address(metadata_program: &AccountKey, item: &AccountKey) -> (r: Option<
    (AccountKey, u8),
>)
    requires
        metadata_program.wf(),
    ensures
        match r {
            Some(pair) => pair.0.wf() && pda_of(
                edition_seeds_spec(metadata_program@, item@),
                metadata_program@,
            ) == Some((pair.0@, pair.1)),
            None => pda_of(edition_seeds_spec(metadata_program@, item@), metadata_program@)
                is None,
        },
{
    let mut seeds: Vec<Vec<u8>> = Vec::new();
    seeds.push(metadata_prefix());
    seeds.push(dup_bytes(&metadata_program.bytes));
    seeds.push(dup_bytes(&item.bytes));
    seeds.push(edition_seed());
    proof {
        assert(seeds.deep_view() =~~= edition_seeds_spec(metadata_program@, item@));
    }
    find_program_address(&seeds, metadata_program)
}

/// Derives the token record address for the pair of `item` and the owning
/// token account, under the metadata service.
pub fn derive_token_record_address(
    metadata_program: &AccountKey,
    item: &AccountKey,
    token_account: &AccountKey,
) -> (r: Option<(AccountKey, u8)>)
    requires
        metadata_program.wf(),
    ensures
        match r {
            Some(pair) => pair.0.wf() && pda_of(
                token_record_seeds_spec(metadata_program@, item@, token_account@),
                metadata_program@,
            ) == Some((pair.0@, pair.1)),
            None => pda_of(
                token_record_seeds_spec(metadata_program@, item@, token_account@),
                metadata_program@,
            ) is None,
        },
{
    let mut seeds: Vec<Vec<u8>> = Vec::new();
    seeds.push(metadata_prefix());
    seeds.push(dup_bytes(&metadata_program.bytes));
    seeds.push(dup_bytes(&item.bytes));
    seeds.push(token_record_seed());
    seeds.push(dup_bytes(&token_account.bytes));
    proof {
        assert(seeds.deep_view() =~~= token_record_seeds_spec(
            metadata_program@,
            item@,
            token_account@,
        ));
    }
    find_program_address(&seeds, metadata_program)
}

/// Law: address derivation is deterministic. Equal seed lists and an equal
/// owning program always yield the same address and derivation counter, so
/// buyer-side and seller-side computations agree without communication.
pub proof fn lemma_derivation_deterministic(
    s1: Seq<Seq<u8>>,
    p1: Seq<u8>,
    s2: Seq<Seq<u8>>,
    p2: Seq<u8>,
)
    requires
        s1 == s2,
        p1 == p2,
    ensures
        pda_of(s1, p1) == pda_of(s2, p2),
        pda_with_bump_of(s1, p1) == pda_with_bump_of(s2, p2),
{
}

} // verus!
