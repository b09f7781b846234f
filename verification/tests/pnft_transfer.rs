use pnft_transfer::codec::{decode_proof, decode_seeds, encode_proof, encode_seeds, encode_u32};
use pnft_transfer::derive::{
    derive_edition_address, derive_listing_address, derive_metadata_address,
    derive_token_record_address,
};
use pnft_transfer::errors::ErrorCode;
use pnft_transfer::keys::{key_eq, AccountKey, TokenAccountState};
use pnft_transfer::payload::{
    buy_authorization, source_seeds_entry, validate_authorization, AuthorizationDataLocal,
    PayloadTypeLocal, ProofInfoLocal, SeedsVecLocal, TaggedPayload,
};
use pnft_transfer::state::{
    buy_pnft, list_pnft, transfer_pnft, BuyPNFT, ListPNFT, Listing, ProgNftShared, TransferPNFT,
};
use pnft_transfer::transfer::{
    mpl_metadata_program_key, send_pnft, transfer_slots, TransferAccounts,
};

use solana_program::pubkey::Pubkey;

fn key(b: u8) -> AccountKey {
    AccountKey::new(vec![b; 32]).unwrap()
}

fn pk(k: &AccountKey) -> Pubkey {
    Pubkey::new_from_array(<[u8; 32]>::try_from(k.bytes.as_slice()).unwrap())
}

fn from_pk(p: &Pubkey) -> AccountKey {
    AccountKey::new(p.to_bytes().to_vec()).unwrap()
}

// ------------------------------------------------------------ derivation

#[test]
fn derive_listing_deterministic() {
    let item = key(1);
    let program = key(2);
    let a = derive_listing_address(&item, &program).unwrap();
    let b = derive_listing_address(&item, &program).unwrap();
    assert_eq!(a.0.bytes, b.0.bytes);
    assert_eq!(a.1, b.1);
}

#[test]
fn derive_listing_matches_host() {
    let item = key(3);
    let program = key(4);
    let (k, bump) = derive_listing_address(&item, &program).unwrap();
    let seeds: [&[u8]; 2] = [item.bytes.as_slice(), b"listings"];
    let (expect, expect_bump) = Pubkey::find_program_address(&seeds, &pk(&program));
    assert_eq!(k.bytes, expect.to_bytes().to_vec());
    assert_eq!(bump, expect_bump);
    assert_ne!(k.bytes, item.bytes);
}

#[test]
fn derive_metadata_matches_service() {
    let item = key(5);
    let mp = from_pk(&mpl_token_metadata::ID);
    let (k, bump) = derive_metadata_address(&mp, &item).unwrap();
    let (expect, expect_bump) = mpl_token_metadata::accounts::Metadata::find_pda(&pk(&item));
    assert_eq!(k.bytes, expect.to_bytes().to_vec());
    assert_eq!(bump, expect_bump);
}

#[test]
fn derive_edition_matches_service() {
    let item = key(6);
    let mp = from_pk(&mpl_token_metadata::ID);
    let (k, bump) = derive_edition_address(&mp, &item).unwrap();
    let (expect, expect_bump) = mpl_token_metadata::accounts::MasterEdition::find_pda(&pk(&item));
    assert_eq!(k.bytes, expect.to_bytes().to_vec());
    assert_eq!(bump, expect_bump);
}

#[test]
fn derive_token_record_matches_service() {
    let item = key(7);
    let token = key(8);
    let mp = from_pk(&mpl_token_metadata::ID);
    let (k, bump) = derive_token_record_address(&mp, &item, &token).unwrap();
    let (expect, expect_bump) =
        mpl_token_metadata::accounts::TokenRecord::find_pda(&pk(&item), &pk(&token));
    assert_eq!(k.bytes, expect.to_bytes().to_vec());
    assert_eq!(bump, expect_bump);
}

// --------------------------------------------------------------- payload

#[test]
fn source_seeds_entry_content() {
    let item = key(9);
    let entry = source_seeds_entry(&item);
    assert_eq!(entry.name.as_str(), "SourceSeeds");
    match entry.payload {
        PayloadTypeLocal::Seeds(s) => {
            assert_eq!(s.seeds.len(), 2);
            assert_eq!(s.seeds[0], vec![9u8; 32]);
            assert_eq!(s.seeds[1], b"listings".to_vec());
        },
        _ => panic!("expected a seeds entry"),
    }
}

#[test]
fn buy_authorization_is_one_entry() {
    let item = key(10);
    let auth = buy_authorization(&item);
    assert_eq!(auth.payload.len(), 1);
    assert_eq!(auth.payload[0].name.as_str(), "SourceSeeds");
}

#[test]
fn validate_accepts_well_formed() {
    let data = AuthorizationDataLocal {
        payload: vec![
            TaggedPayload { name: "A".to_string(), payload: PayloadTypeLocal::Number(7) },
            TaggedPayload {
                name: "B".to_string(),
                payload: PayloadTypeLocal::Seeds(SeedsVecLocal { seeds: vec![vec![1, 2, 3]] }),
            },
            TaggedPayload {
                name: "C".to_string(),
                payload: PayloadTypeLocal::MerkleProof(ProofInfoLocal {
                    proof: vec![vec![0u8; 32]],
                }),
            },
        ],
    };
    assert!(validate_authorization(&data).is_ok());
}

#[test]
fn validate_rejects_long_seed() {
    let data = AuthorizationDataLocal {
        payload: vec![TaggedPayload {
            name: "S".to_string(),
            payload: PayloadTypeLocal::Seeds(SeedsVecLocal { seeds: vec![vec![0u8; 33]] }),
        }],
    };
    assert_eq!(validate_authorization(&data), Err(ErrorCode::PayloadConversionFailed));
}

#[test]
fn validate_rejects_too_many_seeds() {
    let data = AuthorizationDataLocal {
        payload: vec![TaggedPayload {
            name: "S".to_string(),
            payload: PayloadTypeLocal::Seeds(SeedsVecLocal { seeds: vec![vec![0u8; 1]; 17] }),
        }],
    };
    assert_eq!(validate_authorization(&data), Err(ErrorCode::PayloadConversionFailed));
}

#[test]
fn validate_rejects_short_proof_hash() {
    let data = AuthorizationDataLocal {
        payload: vec![TaggedPayload {
            name: "P".to_string(),
            payload: PayloadTypeLocal::MerkleProof(ProofInfoLocal { proof: vec![vec![0u8; 31]] }),
        }],
    };
    assert_eq!(validate_authorization(&data), Err(ErrorCode::PayloadConversionFailed));
}

// ----------------------------------------------------------------- codec

#[test]
fn u32_encoding_exact() {
    assert_eq!(encode_u32(0x12345678), vec![0x78, 0x56, 0x34, 0x12]);
    assert_eq!(encode_u32(0), vec![0, 0, 0, 0]);
}

#[test]
fn seeds_encoding_exact() {
    let s = SeedsVecLocal { seeds: vec![vec![0xAB]] };
    assert_eq!(encode_seeds(&s), vec![1, 0, 0, 0, 1, 0, 0, 0, 0xAB]);
}

#[test]
fn seeds_round_trip() {
    let s = SeedsVecLocal { seeds: vec![vec![1, 2, 3], vec![], vec![7u8; 32]] };
    let bytes = encode_seeds(&s);
    let back = decode_seeds(&bytes).unwrap();
    assert_eq!(back.seeds, s.seeds);
}

#[test]
fn seeds_decode_rejects_trailing_bytes() {
    let s = SeedsVecLocal { seeds: vec![vec![1, 2, 3]] };
    let mut bytes = encode_seeds(&s);
    bytes.push(0);
    assert!(decode_seeds(&bytes).is_none());
}

#[test]
fn seeds_decode_rejects_truncated() {
    let s = SeedsVecLocal { seeds: vec![vec![1, 2, 3]] };
    let mut bytes = encode_seeds(&s);
    bytes.pop();
    assert!(decode_seeds(&bytes).is_none());
}

#[test]
fn proof_round_trip() {
    let p = ProofInfoLocal { proof: vec![vec![0x11; 32], vec![0x22; 32]] };
    let bytes = encode_proof(&p);
    let back = decode_proof(&bytes).unwrap();
    assert_eq!(back.proof, p.proof);
}

#[test]
fn proof_decode_rejects_empty_input() {
    assert!(decode_proof(&vec![]).is_none());
}

#[test]
fn proof_decode_rejects_short_hash() {
    let mut bytes = encode_u32(1);
    bytes.extend(vec![0u8; 31]);
    assert!(decode_proof(&bytes).is_none());
}

// ------------------------------------------------------ instruction slots

fn transfer_accounts(rule_set: Option<AccountKey>) -> TransferAccounts {
    TransferAccounts {
        authority: key(100),
        owner_wallet: key(101),
        source_token: key(102),
        destination_token: key(103),
        destination_owner: key(104),
        item: key(105),
        metadata: key(106),
        edition: key(107),
        source_token_record: key(108),
        destination_token_record: key(109),
        rule_set,
        token_metadata_program: key(110),
        authorization_rules_program: key(111),
        token_program: key(112),
        associated_token_program: key(113),
        system_program: key(114),
        instructions_sysvar: key(115),
    }
}

#[test]
fn transfer_slot_mapping_matches_instruction() {
    let a = transfer_accounts(Some(key(120)));
    let slots = transfer_slots(&a);
    let (ix, _order) = send_pnft(&a, None);
    assert_eq!(ix.accounts.len(), 17);
    assert_eq!(slots.len(), 17);
    for i in 0..17 {
        assert_eq!(ix.accounts[i].pubkey.to_bytes().to_vec(), slots[i].bytes);
    }
    assert_eq!(slots[0].bytes, a.source_token.bytes);
    assert_eq!(slots[9].bytes, a.authority.bytes);
    assert_eq!(slots[10].bytes, a.owner_wallet.bytes);
    assert_eq!(slots[16].bytes, key(120).bytes);
}

#[test]
fn transfer_slots_default_rule_account() {
    let a = transfer_accounts(None);
    let slots = transfer_slots(&a);
    let (ix, _order) = send_pnft(&a, None);
    assert_eq!(slots[16].bytes, mpl_token_metadata::ID.to_bytes().to_vec());
    assert_eq!(ix.accounts[16].pubkey, mpl_token_metadata::ID);
}

#[test]
fn metadata_program_key_matches_service() {
    assert_eq!(mpl_metadata_program_key().bytes, mpl_token_metadata::ID.to_bytes().to_vec());
}

// ----------------------------------------------------------- entry points

fn transfer_ctx() -> TransferPNFT {
    TransferPNFT {
        owner: key(20),
        receiver: key(21),
        src: TokenAccountState { key: key(22), mint: key(30), owner: key(20), amount: 1 },
        dest: TokenAccountState { key: key(23), mint: key(30), owner: key(21), amount: 0 },
        nft_mint: key(30),
        nft_metadata: key(31),
        edition: key(32),
        owner_token_record: key(33),
        dest_token_record: key(34),
        token_program: key(40),
        system_program: key(41),
        associated_token_program: key(42),
        pnft_shared: ProgNftShared {
            token_metadata_program: key(43),
            instructions: key(44),
            authorization_rules_program: key(45),
        },
    }
}

#[test]
fn transfer_moves_one_unit() {
    let mut ctx = transfer_ctx();
    let r = transfer_pnft(&mut ctx, None, false, None);
    let (ix, order) = r.unwrap();
    assert_eq!(ctx.src.amount, 0);
    assert_eq!(ctx.dest.amount, 1);
    assert_eq!(ix.program_id, mpl_token_metadata::ID);
    assert_eq!(ix.accounts.len(), 17);
    assert_eq!(ix.accounts[0].pubkey, pk(&ctx.src.key));
    assert_eq!(ix.accounts[9].pubkey, pk(&ctx.owner));
    assert_eq!(order.len(), 16);
    assert!(key_eq(&order[0], &ctx.owner));
    assert!(key_eq(&order[2], &ctx.src.key));
    assert!(key_eq(&order[15], &ctx.pnft_shared.instructions));
}

#[test]
fn transfer_requires_one_unit_held() {
    let mut ctx = transfer_ctx();
    ctx.src.amount = 0;
    let r = transfer_pnft(&mut ctx, None, false, None);
    assert_eq!(r.unwrap_err(), ErrorCode::InvalidItem);
    assert_eq!(ctx.src.amount, 0);
    assert_eq!(ctx.dest.amount, 0);
}

#[test]
fn transfer_missing_rule_account_fails() {
    let mut ctx = transfer_ctx();
    let r = transfer_pnft(&mut ctx, None, true, None);
    assert_eq!(r.unwrap_err(), ErrorCode::TransferBuilderFailed);
    assert_eq!(ctx.src.amount, 1);
}

#[test]
fn transfer_malformed_payload_fails() {
    let mut ctx = transfer_ctx();
    let bad = AuthorizationDataLocal {
        payload: vec![TaggedPayload {
            name: "S".to_string(),
            payload: PayloadTypeLocal::Seeds(SeedsVecLocal { seeds: vec![vec![0u8; 40]] }),
        }],
    };
    let r = transfer_pnft(&mut ctx, Some(bad), false, None);
    assert_eq!(r.unwrap_err(), ErrorCode::PayloadConversionFailed);
    assert_eq!(ctx.src.amount, 1);
    assert_eq!(ctx.dest.amount, 0);
}

fn list_ctx(program: &AccountKey) -> ListPNFT {
    let item = key(50);
    let (listing_key, _bump) = derive_listing_address(&item, program).unwrap();
    ListPNFT {
        item: item.clone(),
        authority_item_token: TokenAccountState {
            key: key(51),
            mint: item.clone(),
            owner: key(52),
            amount: 1,
        },
        listing_key: listing_key.clone(),
        listing: None,
        listing_item_token: TokenAccountState {
            key: key(53),
            mint: item,
            owner: listing_key,
            amount: 0,
        },
        authority: key(52),
        token_program: key(60),
        system_program: key(61),
        associated_token_program: key(62),
        item_metadata: key(63),
        edition: key(64),
        authority_token_record: key(65),
        listing_token_record: key(66),
        token_metadata_program: key(67),
        instructions: key(68),
        authorization_rules_program: key(69),
    }
}

#[test]
fn list_escrows_the_asset() {
    let program = key(2);
    let mut ctx = list_ctx(&program);
    let r = list_pnft(&mut ctx, 1000, None, false, None, &program);
    assert!(r.is_ok());
    assert_eq!(ctx.authority_item_token.amount, 0);
    assert_eq!(ctx.listing_item_token.amount, 1);
    let listing = ctx.listing.as_ref().unwrap();
    assert_eq!(listing.item.bytes, ctx.item.bytes);
    assert_eq!(listing.item_token.bytes, ctx.listing_item_token.key.bytes);
    let (_, bump) = derive_listing_address(&ctx.item, &program).unwrap();
    assert_eq!(listing.bump, bump);
}

#[test]
fn list_requires_exactly_one_unit() {
    let program = key(2);
    let mut ctx = list_ctx(&program);
    ctx.authority_item_token.amount = 0;
    let r = list_pnft(&mut ctx, 1000, None, false, None, &program);
    assert_eq!(r.unwrap_err(), ErrorCode::InvalidItem);
    assert!(ctx.listing.is_none());
    assert_eq!(ctx.listing_item_token.amount, 0);

    let mut ctx2 = list_ctx(&program);
    ctx2.authority_item_token.amount = 2;
    let r2 = list_pnft(&mut ctx2, 1000, None, false, None, &program);
    assert_eq!(r2.unwrap_err(), ErrorCode::InvalidItem);
    assert!(ctx2.listing.is_none());
    assert_eq!(ctx2.authority_item_token.amount, 2);
}

#[test]
fn list_rejects_wrong_listing_account() {
    let program = key(2);
    let mut ctx = list_ctx(&program);
    ctx.listing_key = key(0x99);
    ctx.listing_item_token.owner = key(0x99);
    let r = list_pnft(&mut ctx, 1000, None, false, None, &program);
    assert_eq!(r.unwrap_err(), ErrorCode::TransferBuilderFailed);
    assert!(ctx.listing.is_none());
    assert_eq!(ctx.authority_item_token.amount, 1);
}

fn buy_ctx(program: &AccountKey) -> BuyPNFT {
    let item = key(70);
    let (listing_key, bump) = derive_listing_address(&item, program).unwrap();
    BuyPNFT {
        item: item.clone(),
        buyer_item_token: TokenAccountState {
            key: key(71),
            mint: item.clone(),
            owner: key(72),
            amount: 0,
        },
        listing_key: listing_key.clone(),
        listing: Listing { bump, item: item.clone(), item_token: key(73) },
        listing_item_token: TokenAccountState {
            key: key(73),
            mint: item,
            owner: listing_key,
            amount: 1,
        },
        buyer: key(72),
        token_program: key(80),
        system_program: key(81),
        associated_token_program: key(82),
        item_metadata: key(83),
        edition: key(84),
        buyer_token_record: key(85),
        listing_token_record: key(86),
        token_metadata_program: key(87),
        instructions: key(88),
        authorization_rules_program: key(89),
        ruleset: key(90),
    }
}

#[test]
fn buy_releases_the_asset() {
    let program = key(2);
    let mut ctx = buy_ctx(&program);
    let r = buy_pnft(&mut ctx, &program);
    let (ix, order, seeds) = r.unwrap();
    assert_eq!(ctx.listing_item_token.amount, 0);
    assert_eq!(ctx.buyer_item_token.amount, 1);
    assert_eq!(ix.program_id, mpl_token_metadata::ID);
    assert_eq!(order.len(), 17);
    assert!(key_eq(&order[0], &ctx.listing_key));
    assert!(key_eq(&order[10], &ctx.ruleset));
    assert_eq!(seeds.len(), 3);
    assert_eq!(seeds[0], ctx.item.bytes);
    assert_eq!(seeds[1], b"listings".to_vec());
    assert_eq!(seeds[2], vec![ctx.listing.bump]);
    let seed_refs: [&[u8]; 3] = [&seeds[0], &seeds[1], &seeds[2]];
    let rederived = Pubkey::create_program_address(&seed_refs, &pk(&program)).unwrap();
    assert_eq!(rederived.to_bytes().to_vec(), ctx.listing_key.bytes);
}

#[test]
fn buy_fails_closed_on_mismatched_listing() {
    let program = key(2);
    let mut ctx = buy_ctx(&program);
    ctx.listing.item = key(0x55);
    let r = buy_pnft(&mut ctx, &program);
    assert_eq!(r.unwrap_err(), ErrorCode::InvalidItem);
    assert_eq!(ctx.listing_item_token.amount, 1);
    assert_eq!(ctx.buyer_item_token.amount, 0);

    let mut ctx2 = buy_ctx(&program);
    ctx2.listing.item_token = key(0x56);
    let r2 = buy_pnft(&mut ctx2, &program);
    assert_eq!(r2.unwrap_err(), ErrorCode::InvalidItem);
    assert_eq!(ctx2.listing_item_token.amount, 1);
    assert_eq!(ctx2.buyer_item_token.amount, 0);
}

#[test]
fn buy_fails_closed_on_wrong_bump() {
    let program = key(2);
    let mut ctx = buy_ctx(&program);
    ctx.listing.bump = ctx.listing.bump.wrapping_add(1);
    let r = buy_pnft(&mut ctx, &program);
    assert_eq!(r.unwrap_err(), ErrorCode::TransferBuilderFailed);
    assert_eq!(ctx.listing_item_token.amount, 1);
    assert_eq!(ctx.buyer_item_token.amount, 0);
}

#[test]
fn list_then_buy_moves_asset_to_buyer() {
    let program = key(2);
    let mut lctx = list_ctx(&program);
    assert!(list_pnft(&mut lctx, 500, None, false, None, &program).is_ok());
    let listing = lctx.listing.clone().unwrap();
    let buyer = key(0x77);
    let mut bctx = BuyPNFT {
        item: lctx.item.clone(),
        buyer_item_token: TokenAccountState {
            key: key(0x78),
            mint: lctx.item.clone(),
            owner: buyer.clone(),
            amount: 0,
        },
        listing_key: lctx.listing_key.clone(),
        listing: Listing {
            bump: listing.bump,
            item: listing.item.clone(),
            item_token: lctx.listing_item_token.key.clone(),
        },
        listing_item_token: lctx.listing_item_token.clone(),
        buyer,
        token_program: key(80),
        system_program: key(81),
        associated_token_program: key(82),
        item_metadata: key(83),
        edition: key(84),
        buyer_token_record: key(85),
        listing_token_record: key(86),
        token_metadata_program: key(87),
        instructions: key(88),
        authorization_rules_program: key(89),
        ruleset: key(90),
    };
    assert!(buy_pnft(&mut bctx, &program).is_ok());
    assert_eq!(bctx.listing_item_token.amount, 0);
    assert_eq!(bctx.buyer_item_token.amount, 1);
}

#[test]
fn second_buy_fails_without_effect() {
    let program = key(2);
    let mut ctx = buy_ctx(&program);
    assert!(buy_pnft(&mut ctx, &program).is_ok());
    assert_eq!(ctx.listing_item_token.amount, 0);
    assert_eq!(ctx.buyer_item_token.amount, 1);
    let second = buy_pnft(&mut ctx, &program);
    assert_eq!(second.unwrap_err(), ErrorCode::InvalidItem);
    assert_eq!(ctx.listing_item_token.amount, 0);
    assert_eq!(ctx.buyer_item_token.amount, 1);
}
