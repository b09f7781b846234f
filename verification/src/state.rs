//! Listing State Machine and entry points: direct transfer, listing
//! creation (escrow of the asset), and sale (release of the asset to a
//! buyer under the escrow's derived signature). Every entry point either
//! succeeds with the stated effect or fails closed, leaving the whole
//! account set exactly as it was.

use vstd::prelude::*;

use crate::derive::{derive_listing_address, listing_seeds_spec, pda_of, pda_with_bump_of};
use crate::errors::ErrorCode;
use crate::keys::{key_eq, AccountKey, TokenAccountState};
use crate::payload::{buy_authorization, validate_authorization, AuthorizationDataLocal};
use crate::transfer::{
    account_order_spec, delegated_seeds_spec, delegated_signer_seeds, rederive_delegated_address,
    send_pnft, TransferAccounts,
};

use solana_program::instruction::Instruction;

verus! {

/// Persistent record of a marketplace listing.
#[derive(Clone, Debug)]
pub struct Listing {
    /// Derivation counter securing the listing's own derived address.
    pub bump: u8,
    /// Asset identity; immutable after creation.
    pub item: AccountKey,
    /// Address of the token account escrowing the asset under the
    /// listing's custody.
    pub item_token: AccountKey,
}

impl Listing {
    pub open spec fn wf(&self) -> bool {
        self.item.wf() && self.item_token.wf()
    }
}

/// The service identities shared by every transfer call.
#[derive(Clone, Debug)]
pub struct ProgNftShared {
    /// Identity of the metadata service.
    pub token_metadata_program: AccountKey,
    /// The instruction-introspection account.
    pub instructions: AccountKey,
    /// Identity of the rule-evaluation service.
    pub authorization_rules_program: AccountKey,
}

impl ProgNftShared {
    pub open spec fn wf(&self) -> bool {
        self.token_metadata_program.wf() && self.instructions.wf()
            && self.authorization_rules_program.wf()
    }
}

/// Whether the trailing account list supplies the rule-set account that
/// the caller announced.
pub open spec fn rules_account_ok(rules_acc_present: bool, rule_set: Option<AccountKey>) -> bool {
    rules_acc_present ==> rule_set is Some
}

/// Whether a caller-supplied authorization structure is well-formed.
pub open spec fn auth_wf(auth: Option<AuthorizationDataLocal>) -> bool {
    match auth {
        Some(d) => d.wf(),
        None => true,
    }
}

/// The rule-set account actually handed to the transfer: only read when
/// the caller announced it.
pub open spec fn selected_rule_set(rules_acc_present: bool, rule_set: Option<AccountKey>) -> Option<
    AccountKey,
> {
    if rules_acc_present {
        rule_set
    } else {
        None
    }
}

/// Picks the announced rule-set account, or reports that the trailing
/// account list does not supply it.
fn select_rule_set(rules_acc_present: bool, rule_set: Option<AccountKey>) -> (r: Result<
    Option<AccountKey>,
    ErrorCode,
>)
    ensures
        r is Ok <==> rules_account_ok(rules_acc_present, rule_set),
        r matches Ok(s) ==> s == selected_rule_set(rules_acc_present, rule_set),
        r is Err ==> r == Err::<Option<AccountKey>, ErrorCode>(ErrorCode::TransferBuilderFailed),
{
    if rules_acc_present {
        match rule_set {
            Some(k) => Ok(Some(k)),
            None => Err(ErrorCode::TransferBuilderFailed),
        }
    } else {
        Ok(None)
    }
}

// ------------------------------------------------------------- transfer

/// The capability-checked account set of a direct transfer.
#[derive(Clone, Debug)]
pub struct TransferPNFT {
    /// Owner of the source token account; the direct signer.
    pub owner: AccountKey,
    /// The receiving party.
    pub receiver: AccountKey,
    /// Source token account.
    pub src: TokenAccountState,
    /// Destination token account.
    pub dest: TokenAccountState,
    /// Asset identity.
    pub nft_mint: AccountKey,
    /// Metadata record of the asset.
    pub nft_metadata: AccountKey,
    /// Edition record of the asset.
    pub edition: AccountKey,
    /// Token record of the source token account.
    pub owner_token_record: AccountKey,
    /// Token record of the destination token account.
    pub dest_token_record: AccountKey,
    /// Identity of the token service.
    pub token_program: AccountKey,
    /// Identity of the system service.
    pub system_program: AccountKey,
    /// Identity of the associated-token service.
    pub associated_token_program: AccountKey,
    /// Shared service identities.
    pub pnft_shared: ProgNftShared,
}

impl TransferPNFT {
    pub open spec fn wf(&self) -> bool {
        &&& self.owner.wf()
        &&& self.receiver.wf()
        &&& self.src.wf()
        &&& self.dest.wf()
        &&& self.nft_mint.wf()
        &&& self.nft_metadata.wf()
        &&& self.edition.wf()
        &&& self.owner_token_record.wf()
        &&& self.dest_token_record.wf()
        &&& self.token_program.wf()
        &&& self.system_program.wf()
        &&& self.associated_token_program.wf()
        &&& self.pnft_shared.wf()
    }
}

/// The transfer call's account set in the service-defined arrangement.
pub open spec fn transfer_accounts_spec(c: TransferPNFT, rule_set: Option<AccountKey>) -> TransferAccounts {
    TransferAccounts {
        authority: c.owner,
        owner_wallet: c.owner,
        source_token: c.src.key,
        destination_token: c.dest.key,
        destination_owner: c.receiver,
        item: c.nft_mint,
        metadata: c.nft_metadata,
        edition: c.edition,
        source_token_record: c.owner_token_record,
        destination_token_record: c.dest_token_record,
        rule_set,
        token_metadata_program: c.pnft_shared.token_metadata_program,
        authorization_rules_program: c.pnft_shared.authorization_rules_program,
        token_program: c.token_program,
        associated_token_program: c.associated_token_program,
        system_program: c.system_program,
        instructions_sysvar: c.pnft_shared.instructions,
    }
}

/// Builds the transfer account set from the entry point's accounts.
fn transfer_accounts(c: &TransferPNFT, rule_set: Option<AccountKey>) -> (a: TransferAccounts)
    requires
        c.wf(),
        match rule_set {
            Some(k) => k.wf(),
            None => true,
        },
    ensures
        a.wf(),
        account_order_spec(a) == account_order_spec(transfer_accounts_spec(*c, rule_set)),
{
    let a = TransferAccounts {
        authority: c.owner.dup(),
        owner_wallet: c.owner.dup(),
        source_token: c.src.key.dup(),
        destination_token: c.dest.key.dup(),
        destination_owner: c.receiver.dup(),
        item: c.nft_mint.dup(),
        metadata: c.nft_metadata.dup(),
        edition: c.edition.dup(),
        source_token_record: c.owner_token_record.dup(),
        destination_token_record: c.dest_token_record.dup(),
        rule_set,
        token_metadata_program: c.pnft_shared.token_metadata_program.dup(),
        authorization_rules_program: c.pnft_shared.authorization_rules_program.dup(),
        token_program: c.token_program.dup(),
        associated_token_program: c.associated_token_program.dup(),
        system_program: c.system_program.dup(),
        instructions_sysvar: c.pnft_shared.instructions.dup(),
    };
    proof {
        assert(account_order_spec(a) =~~= account_order_spec(
            transfer_accounts_spec(*c, rule_set),
        ));
    }
    a
}

/// Every condition a direct transfer needs: the announced rule-set account
/// is supplied, the payload is well-formed, the source holds exactly one
/// unit and the destination none. The balance conditions state the data
/// model's invariant for a supply-one asset: the one unit sits in exactly
/// one token account, so while the source holds it every other account
/// holds zero; a state refused here is one the ledger cannot present, and
/// on it the external token service would reject the move in any case.
pub open spec fn transfer_ok(
    c: TransferPNFT,
    auth: Option<AuthorizationDataLocal>,
    rules_acc_present: bool,
    rule_set: Option<AccountKey>,
) -> bool {
    &&& rules_account_ok(rules_acc_present, rule_set)
    &&& auth_wf(auth)
    &&& c.src.amount == 1
    &&& c.dest.amount == 0
}

/// The error a refused direct transfer reports, by the first failing check.
pub open spec fn transfer_err(
    c: TransferPNFT,
    auth: Option<AuthorizationDataLocal>,
    rules_acc_present: bool,
    rule_set: Option<AccountKey>,
) -> ErrorCode {
    if !rules_account_ok(rules_acc_present, rule_set) {
        ErrorCode::TransferBuilderFailed
    } else if !auth_wf(auth) {
        ErrorCode::PayloadConversionFailed
    } else {
        ErrorCode::InvalidItem
    }
}

/// The account set after a successful transfer: one unit moved from the
/// source token account to the destination token account.
pub open spec fn transfer_post(c: TransferPNFT) -> TransferPNFT {
    TransferPNFT {
        src: TokenAccountState { amount: 0, ..c.src },
        dest: TokenAccountState { amount: 1, ..c.dest },
        ..c
    }
}

/// Direct-mode transfer: issues the transfer of one unit of the asset
/// under the owner's own signature. On any refusal the account set is
/// left exactly as it was.
pub fn transfer_pnft(
    ctx: &mut TransferPNFT,
    authorization_data: Option<AuthorizationDataLocal>,
    rules_acc_present: bool,
    rule_set: Option<AccountKey>,
) -> (r: Result<(Instruction, Vec<AccountKey>), ErrorCode>)
    requires
        old(ctx).wf(),
        match rule_set {
            Some(k) => k.wf(),
            None => true,
        },
    ensures
        r is Ok <==> transfer_ok(*old(ctx), authorization_data, rules_acc_present, rule_set),
        r is Ok ==> *final(ctx) == transfer_post(*old(ctx)),
        r matches Ok(p) ==> p.1.deep_view() == account_order_spec(
            transfer_accounts_spec(
                *old(ctx),
                selected_rule_set(rules_acc_present, rule_set),
            ),
        ),
        r is Err ==> *final(ctx) == *old(ctx) && r == Err::<(Instruction, Vec<AccountKey>), ErrorCode>(
            transfer_err(*old(ctx), authorization_data, rules_acc_present, rule_set),
        ),
{
    let selected = match select_rule_set(rules_acc_present, rule_set) {
        Ok(s) => s,
        Err(e) => {
            return Err(e);
        },
    };
    match &authorization_data {
        Some(d) => {
            match validate_authorization(d) {
                Ok(()) => (),
                Err(e) => {
                    return Err(e);
                },
            }
        },
        None => (),
    }
    if ctx.src.amount != 1 || ctx.dest.amount != 0 {
        return Err(ErrorCode::InvalidItem);
    }
    let accounts = transfer_accounts(ctx, selected);
    let (instruction, order) = send_pnft(&accounts, authorization_data.as_ref());
    ctx.src.amount = 0;
    ctx.dest.amount = 1;
    Ok((instruction, order))
}

// ------------------------------------------------------------------ list

/// The capability-checked account set of a listing creation. The listing
/// record account stands at `listing_key` and is created by this call;
/// the escrow token account is freshly created under the listing's
/// custody.
#[derive(Clone, Debug)]
pub struct ListPNFT {
    /// Asset identity.
    pub item: AccountKey,
    /// The seller's token account holding the asset.
    pub authority_item_token: TokenAccountState,
    /// Address of the listing record account.
    pub listing_key: AccountKey,
    /// The listing record; absent until this call creates it.
    pub listing: Option<Listing>,
    /// The freshly created escrow token account under the listing's custody.
    pub listing_item_token: TokenAccountState,
    /// The seller; the direct signer.
    pub authority: AccountKey,
    /// Identity of the token service.
    pub token_program: AccountKey,
    /// Identity of the system service.
    pub system_program: AccountKey,
    /// Identity of the associated-token service.
    pub associated_token_program: AccountKey,
    /// Metadata record of the asset.
    pub item_metadata: AccountKey,
    /// Edition record of the asset.
    pub edition: AccountKey,
    /// Token record of the seller's token account.
    pub authority_token_record: AccountKey,
    /// Token record of the escrow token account.
    pub listing_token_record: AccountKey,
    /// Identity of the metadata service.
    pub token_metadata_program: AccountKey,
    /// The instruction-introspection account.
    pub instructions: AccountKey,
    /// Identity of the rule-evaluation service.
    pub authorization_rules_program: AccountKey,
}

impl ListPNFT {
    pub open spec fn wf(&self) -> bool {
        &&& self.item.wf()
        &&& self.authority_item_token.wf()
        &&& self.listing_key.wf()
        &&& self.listing is None
        &&& self.listing_item_token.wf()
        &&& self.authority.wf()
        &&& self.token_program.wf()
        &&& self.system_program.wf()
        &&& self.associated_token_program.wf()
        &&& self.item_metadata.wf()
        &&& self.edition.wf()
        &&& self.authority_token_record.wf()
        &&& self.listing_token_record.wf()
        &&& self.token_metadata_program.wf()
        &&& self.instructions.wf()
        &&& self.authorization_rules_program.wf()
        &&& self.authority_item_token.mint@ == self.item@
        &&& self.authority_item_token.owner@ == self.authority@
        &&& self.listing_item_token.mint@ == self.item@
        &&& self.listing_item_token.owner@ == self.listing_key@
        &&& self.listing_item_token.amount == 0
    }
}

/// The listing call's account set in the service-defined arrangement:
/// the seller signs directly and the escrow receives the asset.
pub open spec fn list_accounts_spec(c: ListPNFT, rule_set: Option<AccountKey>) -> TransferAccounts {
    TransferAccounts {
        authority: c.authority,
        owner_wallet: c.authority,
        source_token: c.authority_item_token.key,
        destination_token: c.listing_item_token.key,
        destination_owner: c.listing_key,
        item: c.item,
        metadata: c.item_metadata,
        edition: c.edition,
        source_token_record: c.authority_token_record,
        destination_token_record: c.listing_token_record,
        rule_set,
        token_metadata_program: c.token_metadata_program,
        authorization_rules_program: c.authorization_rules_program,
        token_program: c.token_program,
        associated_token_program: c.associated_token_program,
        system_program: c.system_program,
        instructions_sysvar: c.instructions,
    }
}

/// Builds the listing call's transfer account set.
fn list_accounts(c: &ListPNFT, rule_set: Option<AccountKey>) -> (a: TransferAccounts)
    requires
        c.wf(),
        match rule_set {
            Some(k) => k.wf(),
            None => true,
        },
    ensures
        a.wf(),
        account_order_spec(a) == account_order_spec(list_accounts_spec(*c, rule_set)),
{
    let a = TransferAccounts {
        authority: c.authority.dup(),
        owner_wallet: c.authority.dup(),
        source_token: c.authority_item_token.key.dup(),
        destination_token: c.listing_item_token.key.dup(),
        destination_owner: c.listing_key.dup(),
        item: c.item.dup(),
        metadata: c.item_metadata.dup(),
        edition: c.edition.dup(),
        source_token_record: c.authority_token_record.dup(),
        destination_token_record: c.listing_token_record.dup(),
        rule_set,
        token_metadata_program: c.token_metadata_program.dup(),
        authorization_rules_program: c.authorization_rules_program.dup(),
        token_program: c.token_program.dup(),
        associated_token_program: c.associated_token_program.dup(),
        system_program: c.system_program.dup(),
        instructions_sysvar: c.instructions.dup(),
    };
    proof {
        assert(account_order_spec(a) =~~= account_order_spec(list_accounts_spec(*c, rule_set)));
    }
    a
}

/// Every condition a listing creation needs: the seller's token account
/// holds exactly one unit, the announced rule-set account is supplied,
/// the payload is well-formed, and the listing record account stands at
/// the address this program derives for the asset.
pub open spec fn list_ok(
    c: ListPNFT,
    auth: Option<AuthorizationDataLocal>,
    rules_acc_present: bool,
    rule_set: Option<AccountKey>,
    program: Seq<u8>,
) -> bool {
    &&& c.authority_item_token.amount == 1
    &&& rules_account_ok(rules_acc_present, rule_set)
    &&& auth_wf(auth)
    &&& match pda_of(listing_seeds_spec(c.item@), program) {
        Some(pair) => pair.0 == c.listing_key@,
        None => false,
    }
}

/// The error a refused listing creation reports, by the first failing
/// check.
pub open spec fn list_err(
    c: ListPNFT,
    auth: Option<AuthorizationDataLocal>,
    rules_acc_present: bool,
    rule_set: Option<AccountKey>,
    program: Seq<u8>,
) -> ErrorCode {
    if c.authority_item_token.amount != 1 {
        ErrorCode::InvalidItem
    } else if !rules_account_ok(rules_acc_present, rule_set) {
        ErrorCode::TransferBuilderFailed
    } else if !auth_wf(auth) {
        ErrorCode::PayloadConversionFailed
    } else {
        ErrorCode::TransferBuilderFailed
    }
}

/// Escrows one unit of the asset and opens the listing: the asset moves
/// from the seller's token account into the listing-owned escrow account,
/// and the listing record is created with the asset identity, the escrow
/// address and the derivation counter securing the listing's own address.
/// On any refusal the account set is left exactly as it was. The `price`
/// argument is accepted but not read by any part of the transfer logic.
pub fn list_pnft(
    ctx: &mut ListPNFT,
    price: u64,
    authorization_data: Option<AuthorizationDataLocal>,
    rules_acc_present: bool,
    rule_set: Option<AccountKey>,
    program: &AccountKey,
) -> (r: Result<(Instruction, Vec<AccountKey>), ErrorCode>)
    requires
        old(ctx).wf(),
        program.wf(),
        match rule_set {
            Some(k) => k.wf(),
            None => true,
        },
    ensures
        r is Ok <==> list_ok(
            *old(ctx),
            authorization_data,
            rules_acc_present,
            rule_set,
            program@,
        ),
        r is Ok ==> {
            &&& final(ctx).authority_item_token == (TokenAccountState {
                amount: 0,
                ..old(ctx).authority_item_token
            })
            &&& final(ctx).listing_item_token == (TokenAccountState {
                amount: 1,
                ..old(ctx).listing_item_token
            })
            &&& match final(ctx).listing {
                Some(l) => {
                    &&& l.item@ == old(ctx).item@
                    &&& l.item_token@ == old(ctx).listing_item_token.key@
                    &&& pda_of(listing_seeds_spec(old(ctx).item@), program@) == Some(
                        (old(ctx).listing_key@, l.bump),
                    )
                    &&& pda_with_bump_of(
                        delegated_seeds_spec(old(ctx).item@, l.bump),
                        program@,
                    ) == Some(old(ctx).listing_key@)
                },
                None => false,
            }
            &&& final(ctx).item == old(ctx).item
            &&& final(ctx).listing_key == old(ctx).listing_key
            &&& final(ctx).authority == old(ctx).authority
            &&& final(ctx).item_metadata == old(ctx).item_metadata
            &&& final(ctx).edition == old(ctx).edition
            &&& final(ctx).authority_token_record == old(ctx).authority_token_record
            &&& final(ctx).listing_token_record == old(ctx).listing_token_record
            &&& final(ctx).token_program == old(ctx).token_program
            &&& final(ctx).system_program == old(ctx).system_program
            &&& final(ctx).associated_token_program == old(ctx).associated_token_program
            &&& final(ctx).token_metadata_program == old(ctx).token_metadata_program
            &&& final(ctx).instructions == old(ctx).instructions
            &&& final(ctx).authorization_rules_program == old(ctx).authorization_rules_program
        },
        r matches Ok(p) ==> p.1.deep_view() == account_order_spec(
            list_accounts_spec(*old(ctx), selected_rule_set(rules_acc_present, rule_set)),
        ),
        r is Err ==> *final(ctx) == *old(ctx) && r == Err::<(Instruction, Vec<AccountKey>), ErrorCode>(
            list_err(*old(ctx), authorization_data, rules_acc_present, rule_set, program@),
        ),
{
    let _ = price;
    if ctx.authority_item_token.amount != 1 {
        return Err(ErrorCode::InvalidItem);
    }
    let selected = match select_rule_set(rules_acc_present, rule_set) {
        Ok(s) => s,
        Err(e) => {
            return Err(e);
        },
    };
    match &authorization_data {
        Some(d) => {
            match validate_authorization(d) {
                Ok(()) => (),
                Err(e) => {
                    return Err(e);
                },
            }
        },
        None => (),
    }
    let bump: u8 = match derive_listing_address(&ctx.item, program) {
        Some(pair) => {
            if !key_eq(&pair.0, &ctx.listing_key) {
                return Err(ErrorCode::TransferBuilderFailed);
            }
            pair.1
        },
        None => {
            return Err(ErrorCode::TransferBuilderFailed);
        },
    };
    let accounts = list_accounts(ctx, selected);
    let (instruction, order) = send_pnft(&accounts, authorization_data.as_ref());
    ctx.authority_item_token.amount = 0;
    ctx.listing_item_token.amount = 1;
    ctx.listing = Some(
        Listing { bump, item: ctx.item.dup(), item_token: ctx.listing_item_token.key.dup() },
    );
    proof {
        crate::transfer::lemma_delegated_seeds_extend_listing_seeds(old(ctx).item@, bump);
    }
    Ok((instruction, order))
}

// ------------------------------------------------------------------- buy

/// The capability-checked account set of a purchase.
#[derive(Clone, Debug)]
pub struct BuyPNFT {
    /// Asset identity.
    pub item: AccountKey,
    /// The buyer's token account for the asset.
    pub buyer_item_token: TokenAccountState,
    /// Address of the listing record account; the delegated authority.
    pub listing_key: AccountKey,
    /// The listing record.
    pub listing: Listing,
    /// The escrow token account under the listing's custody.
    pub listing_item_token: TokenAccountState,
    /// The buyer; signer and payer of the call.
    pub buyer: AccountKey,
    /// Identity of the token service.
    pub token_program: AccountKey,
    /// Identity of the system service.
    pub system_program: AccountKey,
    /// Identity of the associated-token service.
    pub associated_token_program: AccountKey,
    /// Metadata record of the asset.
    pub item_metadata: AccountKey,
    /// Edition record of the asset.
    pub edition: AccountKey,
    /// Token record of the buyer's token account.
    pub buyer_token_record: AccountKey,
    /// Token record of the escrow token account.
    pub listing_token_record: AccountKey,
    /// Identity of the metadata service.
    pub token_metadata_program: AccountKey,
    /// The instruction-introspection account.
    pub instructions: AccountKey,
    /// Identity of the rule-evaluation service.
    pub authorization_rules_program: AccountKey,
    /// The rule-set account of the asset.
    pub ruleset: AccountKey,
}

impl BuyPNFT {
    pub open spec fn wf(&self) -> bool {
        &&& self.item.wf()
        &&& self.buyer_item_token.wf()
        &&& self.listing_key.wf()
        &&& self.listing.wf()
        &&& self.listing_item_token.wf()
        &&& self.buyer.wf()
        &&& self.token_program.wf()
        &&& self.system_program.wf()
        &&& self.associated_token_program.wf()
        &&& self.item_metadata.wf()
        &&& self.edition.wf()
        &&& self.buyer_token_record.wf()
        &&& self.listing_token_record.wf()
        &&& self.token_metadata_program.wf()
        &&& self.instructions.wf()
        &&& self.authorization_rules_program.wf()
        &&& self.ruleset.wf()
        &&& self.buyer_item_token.mint@ == self.item@
        &&& self.buyer_item_token.owner@ == self.buyer@
        &&& self.listing_item_token.mint@ == self.item@
        &&& self.listing_item_token.owner@ == self.listing_key@
    }
}

/// The purchase call's account set in the service-defined arrangement:
/// the listing record is the authority and owner of the source, the buyer
/// pays and receives.
pub open spec fn buy_accounts_spec(c: BuyPNFT) -> TransferAccounts {
    TransferAccounts {
        authority: c.listing_key,
        owner_wallet: c.buyer,
        source_token: c.listing_item_token.key,
        destination_token: c.buyer_item_token.key,
        destination_owner: c.buyer,
        item: c.item,
        metadata: c.item_metadata,
        edition: c.edition,
        source_token_record: c.listing_token_record,
        destination_token_record: c.buyer_token_record,
        rule_set: Some(c.ruleset),
        token_metadata_program: c.token_metadata_program,
        authorization_rules_program: c.authorization_rules_program,
        token_program: c.token_program,
        associated_token_program: c.associated_token_program,
        system_program: c.system_program,
        instructions_sysvar: c.instructions,
    }
}

/// Builds the purchase call's transfer account set.
fn buy_accounts(c: &BuyPNFT) -> (a: TransferAccounts)
    requires
        c.wf(),
    ensures
        a.wf(),
        account_order_spec(a) == account_order_spec(buy_accounts_spec(*c)),
{
    let a = TransferAccounts {
        authority: c.listing_key.dup(),
        owner_wallet: c.buyer.dup(),
        source_token: c.listing_item_token.key.dup(),
        destination_token: c.buyer_item_token.key.dup(),
        destination_owner: c.buyer.dup(),
        item: c.item.dup(),
        metadata: c.item_metadata.dup(),
        edition: c.edition.dup(),
        source_token_record: c.listing_token_record.dup(),
        destination_token_record: c.buyer_token_record.dup(),
        rule_set: Some(c.ruleset.dup()),
        token_metadata_program: c.token_metadata_program.dup(),
        authorization_rules_program: c.authorization_rules_program.dup(),
        token_program: c.token_program.dup(),
        associated_token_program: c.associated_token_program.dup(),
        system_program: c.system_program.dup(),
        instructions_sysvar: c.instructions.dup(),
    };
    proof {
        assert(account_order_spec(a) =~~= account_order_spec(buy_accounts_spec(*c)));
    }
    a
}

/// Whether the supplied accounts match the listing record: the stored
/// asset identity and escrow address must equal the accounts the caller
/// handed in.
pub open spec fn buy_constraints_hold(c: BuyPNFT) -> bool {
    c.listing.item@ == c.item@ && c.listing.item_token@ == c.listing_item_token.key@
}

/// Every condition a purchase needs: the accounts match the listing
/// record, the escrow holds exactly the one escrowed unit, the buyer's
/// account holds none, and the listing's stored derivation counter
/// re-derives the listing's own address. That the buyer's account is
/// empty is the supply-one data-model invariant, not an extra rule:
/// while the escrow holds the single unit no other token account of the
/// asset can hold one, so a state refused on that ground is one the
/// ledger cannot present.
pub open spec fn buy_ok(c: BuyPNFT, program: Seq<u8>) -> bool {
    &&& buy_constraints_hold(c)
    &&& c.listing_item_token.amount == 1
    &&& c.buyer_item_token.amount == 0
    &&& pda_with_bump_of(delegated_seeds_spec(c.listing.item@, c.listing.bump), program) == Some(
        c.listing_key@,
    )
}

/// The error a refused purchase reports, by the first failing check.
pub open spec fn buy_err(c: BuyPNFT, program: Seq<u8>) -> ErrorCode {
    if !buy_constraints_hold(c) {
        ErrorCode::InvalidItem
    } else if c.listing_item_token.amount != 1 {
        ErrorCode::InvalidItem
    } else if c.buyer_item_token.amount != 0 {
        ErrorCode::InvalidItem
    } else {
        ErrorCode::TransferBuilderFailed
    }
}

/// The account set after a successful purchase: the escrow is emptied and
/// the buyer's token account holds the one unit; the listing record
/// itself is left in place.
pub open spec fn buy_post(c: BuyPNFT) -> BuyPNFT {
    BuyPNFT {
        listing_item_token: TokenAccountState { amount: 0, ..c.listing_item_token },
        buyer_item_token: TokenAccountState { amount: 1, ..c.buyer_item_token },
        ..c
    }
}

/// Releases the escrowed asset to the buyer under the listing's derived
/// signature. The authorization payload is synthesized here, never
/// caller-supplied: one entry under the reserved source-seeds key holding
/// the seeds that prove the source is the program-escrowed listing
/// account. On any refusal the account set is left exactly as it was.
pub fn buy_pnft(ctx: &mut BuyPNFT, program: &AccountKey) -> (r: Result<
    (Instruction, Vec<AccountKey>, Vec<Vec<u8>>),
    ErrorCode,
>)
    requires
        old(ctx).wf(),
        program.wf(),
    ensures
        r is Ok <==> buy_ok(*old(ctx), program@),
        r is Ok ==> *final(ctx) == buy_post(*old(ctx)),
        r matches Ok(p) ==> {
            &&& p.1.deep_view() == account_order_spec(buy_accounts_spec(*old(ctx)))
            &&& p.2.deep_view() == delegated_seeds_spec(
                old(ctx).listing.item@,
                old(ctx).listing.bump,
            )
            &&& pda_with_bump_of(p.2.deep_view(), program@) == Some(old(ctx).listing_key@)
        },
        r is Err ==> *final(ctx) == *old(ctx) && r == Err::<
            (Instruction, Vec<AccountKey>, Vec<Vec<u8>>),
            ErrorCode,
        >(buy_err(*old(ctx), program@)),
{
    if !key_eq(&ctx.listing.item, &ctx.item) {
        return Err(ErrorCode::InvalidItem);
    }
    if !key_eq(&ctx.listing.item_token, &ctx.listing_item_token.key) {
        return Err(ErrorCode::InvalidItem);
    }
    if ctx.listing_item_token.amount != 1 {
        return Err(ErrorCode::InvalidItem);
    }
    if ctx.buyer_item_token.amount != 0 {
        return Err(ErrorCode::InvalidItem);
    }
    match rederive_delegated_address(&ctx.listing.item, ctx.listing.bump, program) {
        Some(k) => {
            if !key_eq(&k, &ctx.listing_key) {
                return Err(ErrorCode::TransferBuilderFailed);
            }
        },
        None => {
            return Err(ErrorCode::TransferBuilderFailed);
        },
    }
    let auth = buy_authorization(&ctx.item);
    let accounts = buy_accounts(ctx);
    let (instruction, order) = send_pnft(&accounts, Some(&auth));
    let seeds = delegated_signer_seeds(&ctx.listing.item, ctx.listing.bump);
    ctx.listing_item_token.amount = 0;
    ctx.buyer_item_token.amount = 1;
    Ok((instruction, order, seeds))
}

/// Law: two purchase attempts against the same listing cannot both
/// succeed. After one success the escrow token account is empty, so the
/// conditions of a purchase no longer hold: the second attempt is refused
/// and, by the purchase contract, leaves every account unchanged.
pub proof fn lemma_second_buy_excluded(c: BuyPNFT, program: Seq<u8>)
    requires
        buy_ok(c, program),
    ensures
        !buy_ok(buy_post(c), program),
        buy_err(buy_post(c), program) == ErrorCode::InvalidItem,
{
}

} // verus!
