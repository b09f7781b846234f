//! Transfer Invoker: assembles the full ordered account list and
//! instruction arguments for a transfer call against the external
//! metadata/rule services, in direct-signature or delegated-signature form.

use vstd::prelude::*;

use crate::derive::{listing_seeds_spec, listings_seed, listings_seed_bytes};
use crate::keys::{dup_bytes, AccountKey};
use crate::payload::{AuthorizationDataLocal, PayloadTypeLocal};

use mpl_token_metadata::instructions::{TransferV1, TransferV1InstructionArgs};
use mpl_token_metadata::types::{AuthorizationData, Payload, PayloadType, ProofInfo, SeedsVec};
use solana_program::instruction::Instruction;
use solana_program::pubkey::Pubkey;

verus! {

/// The host ledger's public-key type, carried through opaquely; the
/// library's own model of it is `AccountKey`.
#[verifier::external_type_specification]
#[verifier::external_body]
pub struct ExPubkey(Pubkey);

/// The host ledger's instruction type: what the entry points assemble and
/// hand back for the host to issue.
#[verifier::external_type_specification]
#[verifier::external_body]
pub struct ExInstruction(Instruction);

/// The rule-evaluation service's authorization object, carried through
/// opaquely; the library's own model of it is `AuthorizationDataLocal`.
#[verifier::external_type_specification]
#[verifier::external_body]
pub struct ExAuthorizationData(AuthorizationData);

/// The complete account set of one transfer call, as plain identities.
#[derive(Clone, Debug)]
pub struct TransferAccounts {
    /// The party authorizing the transfer (owner or delegate).
    pub authority: AccountKey,
    /// The wallet paying for the call.
    pub owner_wallet: AccountKey,
    /// Source token account of the asset.
    pub source_token: AccountKey,
    /// Destination token account of the asset.
    pub destination_token: AccountKey,
    /// Owner of the destination token account.
    pub destination_owner: AccountKey,
    /// Asset identity.
    pub item: AccountKey,
    /// Metadata record of the asset.
    pub metadata: AccountKey,
    /// Edition record of the asset.
    pub edition: AccountKey,
    /// Token record of the source token account.
    pub source_token_record: AccountKey,
    /// Token record of the destination token account.
    pub destination_token_record: AccountKey,
    /// Rule-set account, when the asset is bound to one.
    pub rule_set: Option<AccountKey>,
    /// Identity of the metadata service.
    pub token_metadata_program: AccountKey,
    /// Identity of the rule-evaluation service.
    pub authorization_rules_program: AccountKey,
    /// Identity of the token service.
    pub token_program: AccountKey,
    /// Identity of the associated-token service.
    pub associated_token_program: AccountKey,
    /// Identity of the system service.
    pub system_program: AccountKey,
    /// The instruction-introspection account.
    pub instructions_sysvar: AccountKey,
}

impl TransferAccounts {
    pub open spec fn wf(&self) -> bool {
        &&& self.authority.wf()
        &&& self.owner_wallet.wf()
        &&& self.source_token.wf()
        &&& self.destination_token.wf()
        &&& self.destination_owner.wf()
        &&& self.item.wf()
        &&& self.metadata.wf()
        &&& self.edition.wf()
        &&& self.source_token_record.wf()
        &&& self.destination_token_record.wf()
        &&& match self.rule_set {
            Some(k) => k.wf(),
            None => true,
        }
        &&& self.token_metadata_program.wf()
        &&& self.authorization_rules_program.wf()
        &&& self.token_program.wf()
        &&& self.associated_token_program.wf()
        &&& self.system_program.wf()
        &&& self.instructions_sysvar.wf()
    }
}

/// The fixed, service-defined ordering of every account in a transfer
/// call: owner authority, owner wallet, source and destination token
/// accounts, destination owner, asset identity, metadata and edition
/// records, both token records, the rule-set account when present, then
/// the metadata / rule / token / associated-token / system service
/// identities and the instruction-introspection account.
pub open spec fn account_order_spec(a: TransferAccounts) -> Seq<Seq<u8>> {
    let fixed = seq![
        a.authority@,
        a.owner_wallet@,
        a.source_token@,
        a.destination_token@,
        a.destination_owner@,
        a.item@,
        a.metadata@,
        a.edition@,
        a.source_token_record@,
        a.destination_token_record@,
    ];
    let with_rules = match a.rule_set {
        Some(k) => fixed.push(k@),
        None => fixed,
    };
    with_rules + seq![
        a.token_metadata_program@,
        a.authorization_rules_program@,
        a.token_program@,
        a.associated_token_program@,
        a.system_program@,
        a.instructions_sysvar@,
    ]
}

/// The ordered account list of a transfer call.
pub fn transfer_account_order(a: &TransferAccounts) -> (r: Vec<AccountKey>)
    ensures
        r.deep_view() == account_order_spec(*a),
{
    let mut v: Vec<AccountKey> = Vec::new();
    v.push(a.authority.dup());
    v.push(a.owner_wallet.dup());
    v.push(a.source_token.dup());
    v.push(a.destination_token.dup());
    v.push(a.destination_owner.dup());
    v.push(a.item.dup());
    v.push(a.metadata.dup());
    v.push(a.edition.dup());
    v.push(a.source_token_record.dup());
    v.push(a.destination_token_record.dup());
    match &a.rule_set {
        Some(k) => v.push(k.dup()),
        None => (),
    }
    v.push(a.token_metadata_program.dup());
    v.push(a.authorization_rules_program.dup());
    v.push(a.token_program.dup());
    v.push(a.associated_token_program.dup());
    v.push(a.system_program.dup());
    v.push(a.instructions_sysvar.dup());
    proof {
        assert(v.deep_view() =~~= account_order_spec(*a));
    }
    v
}

// --------------------------------------------------- delegated signing

/// The signer-seed triple of a delegated transfer: the asset identity,
/// the literal `"listings"`, and the listing's derivation counter.
pub open spec fn delegated_seeds_spec(item: Seq<u8>, bump: u8) -> Seq<Seq<u8>> {
    seq![item, listings_seed_bytes(), seq![bump]]
}

/// The seeds supplied to the host so it computes and injects the program's
/// delegated signature when the listing escrow authorizes a sale.
pub fn delegated_signer_seeds(item: &AccountKey, bump: u8) -> (r: Vec<Vec<u8>>)
    ensures
        r.deep_view() == delegated_seeds_spec(item@, bump),
{
    let mut v: Vec<Vec<u8>> = Vec::new();
    v.push(dup_bytes(&item.bytes));
    v.push(listings_seed());
    let mut b: Vec<u8> = Vec::new();
    b.push(bump);
    v.push(b);
    proof {
        assert(v.deep_view() =~~= delegated_seeds_spec(item@, bump));
    }
    v
}

/// Recomputes the address that the delegated signer seeds stand for: the
/// listing record address that the stored derivation counter re-derives.
pub fn rederive_delegated_address(item: &AccountKey, bump: u8, program: &AccountKey) -> (r: Option<
    AccountKey,
>)
    requires
        program.wf(),
    ensures
        match r {
            Some(k) => k.wf() && crate::derive::pda_with_bump_of(
                delegated_seeds_spec(item@, bump),
                program@,
            ) == Some(k@),
            None => crate::derive::pda_with_bump_of(delegated_seeds_spec(item@, bump), program@)
                is None,
        },
{
    let seeds = delegated_signer_seeds(item, bump);
    crate::derive::create_program_address(&seeds, program)
}

/// Law: the delegated signer seeds are exactly the listing's creation
/// seeds with the derivation counter appended, so handing them to the host
/// re-derives the very address the listing was created at.
pub proof fn lemma_delegated_seeds_extend_listing_seeds(item: Seq<u8>, bump: u8)
    ensures
        delegated_seeds_spec(item, bump) == listing_seeds_spec(item).push(seq![bump]),
{
    assert(delegated_seeds_spec(item, bump) =~= listing_seeds_spec(item).push(seq![bump]));
}

// --------------------------------------------------- instruction assembly

/// Relies on solana_program's `Pubkey::new_from_array` to carry a 32-byte
/// identity into the host ledger's key type unchanged.
#[verifier::external_body]
fn to_pubkey(k: &AccountKey) -> Pubkey
    requires
        k.wf(),
{
    Pubkey::new_from_array(k.bytes.as_slice().try_into().unwrap())
}

/// Relies on the std slice-to-array conversion to regroup each 32-byte
/// hash of a Merkle proof as a fixed-size array, bytes unchanged.
#[verifier::external_body]
fn to_hashes(v: &Vec<Vec<u8>>) -> Vec<[u8; 32]>
    requires
        forall|i: int| 0 <= i < v@.len() ==> (#[trigger] v@[i])@.len() == 32,
{
    v.iter().map(|h| h.as_slice().try_into().unwrap()).collect()
}

/// Relies on mpl_token_metadata's `AuthorizationData`, `Payload` and
/// `PayloadType`: each entry of the caller's structure is carried into the
/// payload map under its name, variant for variant, bytes unchanged.
#[verifier::external_body]
fn to_mpl_authorization(d: &AuthorizationDataLocal) -> AuthorizationData
    requires
        d.wf(),
{
    let mut map = std::collections::HashMap::new();
    for tp in d.payload.iter() {
        let v = match &tp.payload {
            PayloadTypeLocal::Pubkey(k) => PayloadType::Pubkey(to_pubkey(k)),
            PayloadTypeLocal::Seeds(s) => PayloadType::Seeds(SeedsVec { seeds: s.seeds.clone() }),
            PayloadTypeLocal::MerkleProof(p) => PayloadType::MerkleProof(ProofInfo {
                proof: to_hashes(&p.proof),
            }),
            PayloadTypeLocal::Number(n) => PayloadType::Number(*n),
        };
        map.insert(tp.name.clone(), v);
    }
    AuthorizationData { payload: Payload { map } }
}

/// Byte content of the metadata service's own identity: the address its
/// source declares, and the value it places in an unused optional account
/// slot of its instructions.
pub open spec fn mpl_metadata_id_bytes() -> Seq<u8> {
    seq![
        11u8, 112u8, 101u8, 177u8, 227u8, 209u8, 124u8, 69u8, 56u8, 157u8, 82u8, 127u8, 107u8,
        4u8, 195u8, 205u8, 88u8, 184u8, 108u8, 115u8, 26u8, 160u8, 253u8, 181u8, 73u8, 182u8,
        209u8, 188u8, 3u8, 248u8, 41u8, 70u8,
    ]
}

/// The metadata service's identity as a plain key.
pub fn mpl_metadata_program_key() -> (r: AccountKey)
    ensures
        r.wf(),
        r@ == mpl_metadata_id_bytes(),
{
    let mut v: Vec<u8> = Vec::new();
    v.push(11);
    v.push(112);
    v.push(101);
    v.push(177);
    v.push(227);
    v.push(209);
    v.push(124);
    v.push(69);
    v.push(56);
    v.push(157);
    v.push(82);
    v.push(127);
    v.push(107);
    v.push(4);
    v.push(195);
    v.push(205);
    v.push(88);
    v.push(184);
    v.push(108);
    v.push(115);
    v.push(26);
    v.push(160);
    v.push(253);
    v.push(181);
    v.push(73);
    v.push(182);
    v.push(209);
    v.push(188);
    v.push(3);
    v.push(248);
    v.push(41);
    v.push(70);
    proof {
        assert(v@ =~= mpl_metadata_id_bytes());
    }
    AccountKey { bytes: v }
}

/// The metadata service's own slot order for the transfer instruction's
/// seventeen accounts, exactly as its source lays them out: source token
/// account, owner authority as token owner, destination token account,
/// destination owner, asset identity, metadata record, edition record,
/// source token record, destination token record, authority, paying
/// wallet, system service, instruction introspection, token service,
/// associated-token service, rule-evaluation service, and the rule-set
/// account (the metadata service's own identity standing in when none is
/// present).
pub open spec fn transfer_slot_keys_spec(a: TransferAccounts) -> Seq<Seq<u8>> {
    seq![
        a.source_token@,
        a.authority@,
        a.destination_token@,
        a.destination_owner@,
        a.item@,
        a.metadata@,
        a.edition@,
        a.source_token_record@,
        a.destination_token_record@,
        a.authority@,
        a.owner_wallet@,
        a.system_program@,
        a.instructions_sysvar@,
        a.token_program@,
        a.associated_token_program@,
        a.authorization_rules_program@,
        match a.rule_set {
            Some(k) => k@,
            None => mpl_metadata_id_bytes(),
        },
    ]
}

/// Arranges the account set into the service's slot order; this is the
/// role-to-slot mapping the instruction is assembled from.
pub fn transfer_slots(a: &TransferAccounts) -> (r: Vec<AccountKey>)
    requires
        a.wf(),
    ensures
        r@.len() == 17,
        forall|i: int| 0 <= i < r@.len() ==> (#[trigger] r@[i]).wf(),
        r.deep_view() == transfer_slot_keys_spec(*a),
{
    let mut v: Vec<AccountKey> = Vec::new();
    v.push(a.source_token.dup());
    v.push(a.authority.dup());
    v.push(a.destination_token.dup());
    v.push(a.destination_owner.dup());
    v.push(a.item.dup());
    v.push(a.metadata.dup());
    v.push(a.edition.dup());
    v.push(a.source_token_record.dup());
    v.push(a.destination_token_record.dup());
    v.push(a.authority.dup());
    v.push(a.owner_wallet.dup());
    v.push(a.system_program.dup());
    v.push(a.instructions_sysvar.dup());
    v.push(a.token_program.dup());
    v.push(a.associated_token_program.dup());
    v.push(a.authorization_rules_program.dup());
    match &a.rule_set {
        Some(k) => v.push(k.dup()),
        None => v.push(mpl_metadata_program_key()),
    }
    proof {
        assert(v.deep_view() =~~= transfer_slot_keys_spec(*a));
    }
    v
}

/// Relies on mpl_token_metadata's `TransferV1::instruction`: it assembles
/// the transfer instruction for the metadata/rule services, placing the
/// seventeen accounts in its fixed slot layout — each field below takes
/// the slot of the same position. The payload bounds in
/// `AuthorizationDataLocal::wf` keep every count and length within the
/// wire format's 32-bit fields, so the serialization the source unwraps
/// cannot fail.
#[verifier::external_body]
fn build_transfer_v1(
    slots: &Vec<AccountKey>,
    amount: u64,
    auth: Option<&AuthorizationDataLocal>,
) -> Instruction
    requires
        slots@.len() == 17,
        forall|i: int| 0 <= i < slots@.len() ==> (#[trigger] slots@[i]).wf(),
        match auth {
            Some(d) => d.wf(),
            None => true,
        },
{
    let p: Vec<Pubkey> = slots.iter().map(to_pubkey).collect();
    let accounts = TransferV1 {
        token: p[0], token_owner: p[1], destination_token: p[2], destination_owner: p[3],
        mint: p[4], metadata: p[5], edition: Some(p[6]), token_record: Some(p[7]),
        destination_token_record: Some(p[8]), authority: p[9], payer: p[10],
        system_program: p[11], sysvar_instructions: p[12], spl_token_program: p[13],
        spl_ata_program: p[14], authorization_rules_program: Some(p[15]),
        authorization_rules: Some(p[16]),
    };
    let args = TransferV1InstructionArgs {
        amount, authorization_data: auth.map(to_mpl_authorization),
    };
    accounts.instruction(args)
}

/// Assembles the transfer instruction for one unit of the asset together
/// with the full ordered account list the call must name.
pub fn send_pnft(a: &TransferAccounts, auth: Option<&AuthorizationDataLocal>) -> (r: (
    Instruction,
    Vec<AccountKey>,
))
    requires
        a.wf(),
        match auth {
            Some(d) => d.wf(),
            None => true,
        },
    ensures
        r.1.deep_view() == account_order_spec(*a),
{
    let slots = transfer_slots(a);
    let instruction = build_transfer_v1(&slots, 1, auth);
    let order = transfer_account_order(a);
    (instruction, order)
}

} // verus!
