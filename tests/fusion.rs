use anchor_lang::prelude::Pubkey;
use anchor_lang::AnchorSerialize;
use mpl_token_metadata::accounts::Metadata;
use mpl_token_metadata::types::{Collection, Key};
use nft_fusion::derive::to_be_bytes;
use nft_fusion::{
    check_identifiers, check_membership, check_request, derive_authority, derive_collection_mint,
    derive_fused_mint, fuse_with_records, fused_mint_address, initialize, mint_nft, read_metadata,
    Address, CollectionRef, Config, CpiCall, MetadataView, NftFusionError, Plan, TokenHolding,
};
use std::str::FromStr;

const PROGRAM: &str = "5gJMGxawUbdqfRpdVKj1eJrPfgMQ1Rrroa5WEoidLWQU";
const CREATOR: &str = "LFujUyg8wPiwqt2DFGdSe6wApqwNvpf4zdMebdPVMbz";

fn program_id() -> Address {
    Address::from_base58(PROGRAM).unwrap()
}

fn cfg() -> Config {
    Config::standard(program_id()).unwrap()
}

fn requester() -> Address {
    Address::new([7u8; 32])
}

fn collection_mint() -> Address {
    Address::new([9u8; 32])
}

fn holding(owner: Address, mint: Address, amount: u64) -> TokenHolding {
    TokenHolding { owner, mint, amount }
}

fn record(mint: Address, key: Address, verified: bool) -> MetadataView {
    MetadataView { mint, collection: Some(CollectionRef { key, verified }) }
}

struct Sources {
    h1: TokenHolding,
    m1: MetadataView,
    h2: TokenHolding,
    m2: MetadataView,
}

fn owned_sources() -> Sources {
    let mint3 = Address::new([3u8; 32]);
    let mint7 = Address::new([17u8; 32]);
    Sources {
        h1: holding(requester(), mint3, 1),
        m1: record(mint3, collection_mint(), true),
        h2: holding(requester(), mint7, 1),
        m2: record(mint7, collection_mint(), true),
    }
}

fn fuse(s: &Sources, id1: u16, id2: u16, live: &Vec<Address>) -> Result<Plan, NftFusionError> {
    fuse_with_records(&cfg(), &requester(), &collection_mint(), id1, id2, &s.h1, &s.m1, &s.h2, &s.m2, live, "QmCid")
}

fn metadata_bytes(mint: Address, collection: Option<(Address, bool)>) -> Vec<u8> {
    let m = Metadata {
        key: Key::MetadataV1,
        update_authority: Pubkey::new_from_array([1u8; 32]),
        mint: Pubkey::new_from_array(mint.bytes),
        name: "Source".to_string(),
        symbol: "CC".to_string(),
        uri: "https://example.org/x".to_string(),
        seller_fee_basis_points: 500,
        creators: None,
        primary_sale_happened: false,
        is_mutable: false,
        edition_nonce: None,
        token_standard: None,
        collection: collection.map(|(k, v)| Collection { verified: v, key: Pubkey::new_from_array(k.bytes) }),
        uses: None,
        collection_details: None,
        programmable_config: None,
    };
    m.try_to_vec().unwrap()
}

#[test]
fn standard_config_values() {
    let c = cfg();
    assert_eq!(c.collection_name, "Child Collection");
    assert_eq!(c.symbol, "CC");
    assert_eq!(c.base_uri, "https://mygateway.mypinata.cloud/ipfs/");
    assert_eq!(c.royalty_bps, 500);
    assert_eq!(c.min_id, 1);
    assert_eq!(c.max_id, 1000);
    assert_eq!(c.creator.bytes, Pubkey::from_str(CREATOR).unwrap().to_bytes());
    assert_eq!(c.program_id, program_id());
}

#[test]
fn config_rejects_invalid_creator() {
    let r = Config::new(program_id(), "N".to_string(), "S".to_string(), "u/".to_string(), "not a key", 500, 1, 1000);
    assert_eq!(r.unwrap_err(), NftFusionError::InvalidCreatorAddress);
    let short = Config::new(program_id(), "N".to_string(), "S".to_string(), "u/".to_string(), "abc", 500, 1, 1000);
    assert_eq!(short.unwrap_err(), NftFusionError::InvalidCreatorAddress);
}

#[test]
fn base58_addresses_decode() {
    let a = Address::from_base58(PROGRAM).unwrap();
    assert_eq!(a.bytes, Pubkey::from_str(PROGRAM).unwrap().to_bytes());
    assert_ne!(a.bytes, [0u8; 32]);
    assert!(Address::from_base58("0OIl").is_none());
    assert!(Address::from_base58("").is_none());
}

#[test]
fn address_equality_compares_all_bytes() {
    let mut b = [5u8; 32];
    let a = Address::new(b);
    b[31] = 6;
    assert_ne!(a, Address::new(b));
    assert_eq!(a, Address::new([5u8; 32]));
    assert_eq!(a.to_vec(), vec![5u8; 32]);
}

#[test]
fn fused_names() {
    assert_eq!(nft_fusion::compose_fused_name(3, 7), "#3 + #7");
    assert_eq!(nft_fusion::compose_fused_name(10, 1000), "#10 + #1000");
    assert_eq!(nft_fusion::compose_fused_name(0, 65535), "#0 + #65535");
}

#[test]
fn big_endian_seed_bytes() {
    assert_eq!(to_be_bytes(258), vec![1u8, 2]);
    assert_eq!(to_be_bytes(7), vec![0u8, 7]);
    assert_eq!(to_be_bytes(65535), vec![255u8, 255]);
}

#[test]
fn authority_matches_ledger_derivation() {
    let pid = Pubkey::from_str(PROGRAM).unwrap();
    let (expected, bump) = Pubkey::find_program_address(&[&[7u8; 32][..], &b"authority"[..]], &pid);
    let pda = derive_authority(&requester(), &program_id()).unwrap();
    assert_eq!(pda.address.bytes, expected.to_bytes());
    assert_eq!(pda.bump, bump);
    let seeds = pda.signer_seeds();
    assert_eq!(seeds, vec![vec![7u8; 32], b"authority".to_vec(), vec![bump]]);
}

#[test]
fn collection_mint_matches_ledger_derivation() {
    let pid = Pubkey::from_str(PROGRAM).unwrap();
    let (expected, bump) = Pubkey::find_program_address(&[&b"child-collection-mint"[..]], &pid);
    let pda = derive_collection_mint(&program_id()).unwrap();
    assert_eq!(pda.address.bytes, expected.to_bytes());
    assert_eq!(pda.bump, bump);
}

#[test]
fn fused_mint_same_for_both_orders() {
    let pid = Pubkey::from_str(PROGRAM).unwrap();
    let (expected, _) = Pubkey::find_program_address(&[&3u16.to_be_bytes()[..], &7u16.to_be_bytes()[..]], &pid);
    let ab = fused_mint_address(3, 7, &program_id()).unwrap();
    let ba = fused_mint_address(7, 3, &program_id()).unwrap();
    assert_eq!(ab.address, ba.address);
    assert_eq!(ab.address.bytes, expected.to_bytes());
    let literal = derive_fused_mint(3, 7, &program_id()).unwrap();
    assert_eq!(literal.address, ab.address);
    let reversed = derive_fused_mint(7, 3, &program_id()).unwrap();
    assert_ne!(reversed.address, ab.address);
}

#[test]
fn descending_pair_refused_as_out_of_order() {
    assert_eq!(check_identifiers(&cfg(), 7, 3), Err(NftFusionError::IdentifiersOutOfOrder));
    assert_eq!(check_identifiers(&cfg(), 3, 7), Ok(()));
    let s = owned_sources();
    assert_eq!(fuse(&s, 7, 3, &vec![]).unwrap_err(), NftFusionError::IdentifiersOutOfOrder);
}

#[test]
fn equal_identifiers_refused() {
    assert_eq!(check_identifiers(&cfg(), 5, 5), Err(NftFusionError::IdentifiersEqual));
    assert_eq!(check_identifiers(&cfg(), 0, 0), Err(NftFusionError::IdentifiersEqual));
    let s = owned_sources();
    let stranger = holding(Address::new([1u8; 32]), Address::new([2u8; 32]), 0);
    let r = mint_nft(&cfg(), &requester(), &collection_mint(), 4, 4, &stranger, &vec![], &stranger, &vec![], &vec![], "c");
    assert_eq!(r.unwrap_err(), NftFusionError::IdentifiersEqual);
    assert_eq!(fuse(&s, 3, 3, &vec![]).unwrap_err(), NftFusionError::IdentifiersEqual);
}

#[test]
fn identifiers_out_of_range_refused() {
    assert_eq!(check_identifiers(&cfg(), 0, 5), Err(NftFusionError::IdentifierOutOfRange));
    assert_eq!(check_identifiers(&cfg(), 5, 1001), Err(NftFusionError::IdentifierOutOfRange));
    assert_eq!(check_identifiers(&cfg(), 1, 1000), Ok(()));
    let stranger = holding(Address::new([1u8; 32]), Address::new([2u8; 32]), 0);
    let r = mint_nft(&cfg(), &requester(), &collection_mint(), 999, 1001, &stranger, &vec![], &stranger, &vec![], &vec![], "c");
    assert_eq!(r.unwrap_err(), NftFusionError::IdentifierOutOfRange);
}

#[test]
fn holding_of_another_owner_refused() {
    let mut s = owned_sources();
    s.h2.owner = Address::new([8u8; 32]);
    assert_eq!(
        check_request(&cfg(), &requester(), 3, 7, &s.h1, &s.h2),
        Err(NftFusionError::TokenAccountWrongOwner)
    );
    assert_eq!(fuse(&s, 3, 7, &vec![]).unwrap_err(), NftFusionError::TokenAccountWrongOwner);
}

#[test]
fn fuse_three_and_seven() {
    let s = owned_sources();
    let plan = fuse(&s, 3, 7, &vec![]).unwrap();
    let fused = fused_mint_address(7, 3, &program_id()).unwrap();
    let authority = derive_authority(&requester(), &program_id()).unwrap();
    assert_eq!(plan.created, vec![fused.address]);
    assert_eq!(plan.authority.address, authority.address);
    assert_eq!(plan.calls.len(), 5);
    match &plan.calls[0] {
        CpiCall::CreateMint { pda, freezable } => {
            assert_eq!(pda.address, fused.address);
            assert!(!freezable);
        }
        other => panic!("unexpected first call {:?}", other),
    }
    match &plan.calls[1] {
        CpiCall::CreateAssociatedHolding { owner, mint } => {
            assert_eq!(*owner, requester());
            assert_eq!(*mint, fused.address);
        }
        other => panic!("unexpected second call {:?}", other),
    }
    match &plan.calls[2] {
        CpiCall::MintOne { mint, owner } => {
            assert_eq!(*mint, fused.address);
            assert_eq!(*owner, requester());
        }
        other => panic!("unexpected third call {:?}", other),
    }
    match &plan.calls[3] {
        CpiCall::CreateMetadata { mint, data } => {
            assert_eq!(*mint, fused.address);
            assert_eq!(data.name, "#3 + #7");
            assert_eq!(data.symbol, "CC");
            assert_eq!(data.uri, "https://mygateway.mypinata.cloud/ipfs/QmCid");
            assert_eq!(data.seller_fee_basis_points, 500);
            assert_eq!(data.creators.len(), 2);
            assert_eq!(data.creators[0].address, authority.address);
            assert_eq!(data.creators[0].share, 0);
            assert!(data.creators[0].verified);
            assert_eq!(data.creators[1].address, cfg().creator);
            assert_eq!(data.creators[1].share, 100);
            assert!(!data.creators[1].verified);
            let c = data.collection.unwrap();
            assert_eq!(c.key, collection_mint());
            assert!(!c.verified);
            assert!(!data.is_mutable);
        }
        other => panic!("unexpected fourth call {:?}", other),
    }
    match &plan.calls[4] {
        CpiCall::SetAndVerifyCollection { mint, collection_mint: c } => {
            assert_eq!(*mint, fused.address);
            assert_eq!(*c, collection_mint());
        }
        other => panic!("unexpected fifth call {:?}", other),
    }
}

#[test]
fn unowned_source_refused_before_creation() {
    let mut s = owned_sources();
    s.h2.amount = 0;
    assert_eq!(fuse(&s, 3, 7, &vec![]).unwrap_err(), NftFusionError::AssetNotOwned);
    assert_eq!(
        check_request(&cfg(), &requester(), 3, 7, &s.h1, &s.h2),
        Err(NftFusionError::AssetNotOwned)
    );
}

#[test]
fn source_of_other_collection_refused() {
    let mut s = owned_sources();
    s.m1 = record(s.m1.mint, Address::new([42u8; 32]), true);
    assert_eq!(fuse(&s, 3, 7, &vec![]).unwrap_err(), NftFusionError::CollectionMismatch);
    assert_eq!(
        check_membership(&collection_mint(), &s.h1, &s.m1, &s.h2, &s.m2),
        Err(NftFusionError::CollectionMismatch)
    );
}

#[test]
fn source_without_collection_refused() {
    let mut s = owned_sources();
    s.m2.collection = None;
    assert_eq!(fuse(&s, 3, 7, &vec![]).unwrap_err(), NftFusionError::CollectionMismatch);
}

#[test]
fn unverified_source_refused() {
    let mut s = owned_sources();
    s.m2 = record(s.m2.mint, collection_mint(), false);
    assert_eq!(fuse(&s, 3, 7, &vec![]).unwrap_err(), NftFusionError::CollectionNotVerified);
}

#[test]
fn record_of_other_mint_refused() {
    let mut s = owned_sources();
    s.h1.mint = Address::new([99u8; 32]);
    assert_eq!(fuse(&s, 3, 7, &vec![]).unwrap_err(), NftFusionError::MetadataMintMismatch);
}

#[test]
fn repeated_fusion_refused() {
    let s = owned_sources();
    let first = fuse(&s, 3, 7, &vec![]).unwrap();
    let again = fuse(&s, 3, 7, &first.created);
    assert_eq!(again.unwrap_err(), NftFusionError::AccountAlreadyExists);
    let other_pair = fuse(&s, 3, 8, &first.created);
    assert!(other_pair.is_ok());
}

#[test]
fn initialize_plans_collection() {
    let plan = initialize(&cfg(), &requester(), &vec![], "QmCollection").unwrap();
    let authority = derive_authority(&requester(), &program_id()).unwrap();
    let mint = derive_collection_mint(&program_id()).unwrap();
    assert_eq!(plan.created, vec![authority.address, mint.address]);
    assert_eq!(plan.calls.len(), 6);
    assert!(matches!(&plan.calls[0], CpiCall::CreateAuthority { address } if *address == authority.address));
    assert!(matches!(&plan.calls[1], CpiCall::CreateMint { pda, freezable: true } if pda.address == mint.address));
    assert!(matches!(&plan.calls[2], CpiCall::CreateAssociatedHolding { owner, mint: m } if *owner == requester() && *m == mint.address));
    assert!(matches!(&plan.calls[3], CpiCall::MintOne { mint: m, owner } if *m == mint.address && *owner == requester()));
    match &plan.calls[4] {
        CpiCall::CreateMetadata { mint: m, data } => {
            assert_eq!(*m, mint.address);
            assert_eq!(data.name, "Child Collection");
            assert_eq!(data.uri, "https://mygateway.mypinata.cloud/ipfs/QmCollection");
            assert!(data.collection.is_none());
            assert!(!data.is_mutable);
            assert_eq!(data.creators[0].address, authority.address);
        }
        other => panic!("unexpected call {:?}", other),
    }
    assert!(matches!(&plan.calls[5], CpiCall::CreateMasterEdition { mint: m, max_supply: 0 } if *m == mint.address));
}

#[test]
fn repeated_initialize_refused() {
    let first = initialize(&cfg(), &requester(), &vec![], "c").unwrap();
    let again = initialize(&cfg(), &requester(), &first.created, "c");
    assert_eq!(again.unwrap_err(), NftFusionError::AccountAlreadyExists);
}

#[test]
fn metadata_bytes_decode() {
    let mint = Address::new([3u8; 32]);
    let data = metadata_bytes(mint, Some((collection_mint(), true)));
    let m = read_metadata(&data).unwrap();
    assert_eq!(m.mint, mint);
    let c = m.collection.unwrap();
    assert_eq!(c.key, collection_mint());
    assert!(c.verified);
    assert!(read_metadata(&vec![]).is_none());
    assert!(read_metadata(&vec![0u8; 10]).is_none());
}

#[test]
fn mint_nft_from_account_data() {
    let s = owned_sources();
    let d1 = metadata_bytes(s.m1.mint, Some((collection_mint(), true)));
    let d2 = metadata_bytes(s.m2.mint, Some((collection_mint(), true)));
    let plan = mint_nft(&cfg(), &requester(), &collection_mint(), 3, 7, &s.h1, &d1, &s.h2, &d2, &vec![], "QmCid").unwrap();
    assert_eq!(plan.created, vec![fused_mint_address(3, 7, &program_id()).unwrap().address]);
    let bad = mint_nft(&cfg(), &requester(), &collection_mint(), 3, 7, &s.h1, &d1, &s.h2, &vec![4u8, 1, 2], &vec![], "QmCid");
    assert_eq!(bad.unwrap_err(), NftFusionError::MalformedMetadata);
    let d3 = metadata_bytes(s.m2.mint, Some((Address::new([42u8; 32]), true)));
    let other = mint_nft(&cfg(), &requester(), &collection_mint(), 3, 7, &s.h1, &d1, &s.h2, &d3, &vec![], "QmCid");
    assert_eq!(other.unwrap_err(), NftFusionError::CollectionMismatch);
}
