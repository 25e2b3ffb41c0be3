use crate::address::Address;
use crate::config::Config;
use crate::text::{concat, decimal, push_char, push_decimal};
use crate::validate::CollectionRef;
use vstd::prelude::*;

verus! {

/// One entry of a record's creator list.
#[derive(Clone, Copy, Debug)]
pub struct Creator {
    pub address: Address,
    pub share: u8,
    pub verified: bool,
}

/// The descriptive record sent to the metadata program for a new asset.
#[derive(Clone, Debug)]
pub struct RecordData {
    pub name: String,
    pub symbol: String,
    pub uri: String,
    pub seller_fee_basis_points: u16,
    pub creators: Vec<Creator>,
    pub collection: Option<CollectionRef>,
    pub is_mutable: bool,
}

/// The display name of the fused asset of `id1` and `id2`: `#<id1> + #<id2>`.
pub open spec fn fused_name(id1: u16, id2: u16) -> Seq<char> {
    seq!['#'] + decimal(id1 as nat) + seq![' ', '+', ' ', '#'] + decimal(id2 as nat)
}

/// What every record of this engine shares: the configured symbol, the
/// gateway followed by the content identifier, the configured royalty,
/// the authority (share 0, verified) and the configured creator (share 100,
/// unverified) as creators, and immutability.
pub open spec fn common_fields(r: RecordData, cfg: Config, authority: Seq<u8>, cid: Seq<char>) -> bool {
    &&& r.symbol@ == cfg.symbol@
    &&& r.uri@ == cfg.base_uri@ + cid
    &&& r.seller_fee_basis_points == cfg.royalty_bps
    &&& r.creators@.len() == 2
    &&& r.creators@[0].address@ == authority
    &&& r.creators@[0].share == 0
    &&& r.creators@[0].verified
    &&& r.creators@[1].address@ == cfg.creator@
    &&& r.creators@[1].share == 100
    &&& !r.creators@[1].verified
    &&& !r.is_mutable
}

/// The record of the collection: its configured name and no collection
/// reference of its own.
pub open spec fn is_collection_record(r: RecordData, cfg: Config, authority: Seq<u8>, cid: Seq<char>) -> bool {
    &&& common_fields(r, cfg, authority, cid)
    &&& r.name@ == cfg.collection_name@
    &&& r.collection.is_none()
}

/// The record of a fused asset: its composed name and an unverified
/// reference to the collection mint.
pub open spec fn is_fused_record(
    r: RecordData,
    cfg: Config,
    authority: Seq<u8>,
    collection_mint: Seq<u8>,
    id1: u16,
    id2: u16,
    cid: Seq<char>,
) -> bool {
    &&& common_fields(r, cfg, authority, cid)
    &&& r.name@ == fused_name(id1, id2)
    &&& match r.collection {
        Some(c) => c.key@ == collection_mint && !c.verified,
        None => false,
    }
}

fn creators(cfg: &Config, authority: &Address) -> (r: Vec<Creator>)
    ensures
        r@.len() == 2,
        r@[0].address@ == authority@,
        r@[0].share == 0,
        r@[0].verified,
        r@[1].address@ == cfg.creator@,
        r@[1].share == 100,
        !r@[1].verified,
{
    vec![
        Creator { address: *authority, share: 0, verified: true },
        Creator { address: cfg.creator, share: 100, verified: false },
    ]
}

/// The name `#<id1> + #<id2>`.
pub fn compose_fused_name(id1: u16, id2: u16) -> (r: String)
    ensures
        r@ == fused_name(id1, id2),
{
    let mut s = String::new();
    push_char(&mut s, '#');
    push_decimal(&mut s, id1);
    push_char(&mut s, ' ');
    push_char(&mut s, '+');
    push_char(&mut s, ' ');
    push_char(&mut s, '#');
    push_decimal(&mut s, id2);
    assert(s@ =~= fused_name(id1, id2));
    s
}

/// The record of the collection for content identifier `cid`.
pub fn compose_collection_record(cfg: &Config, authority: &Address, cid: &str) -> (r: RecordData)
    ensures
        is_collection_record(r, *cfg, authority@, cid@),
{
    RecordData {
        name: cfg.collection_name.clone(),
        symbol: cfg.symbol.clone(),
        uri: concat(cfg.base_uri.as_str(), cid),
        seller_fee_basis_points: cfg.royalty_bps,
        creators: creators(cfg, authority),
        collection: None,
        is_mutable: false,
    }
}

/// The record of the fused asset of `id1` and `id2` for content identifier `cid`.
pub fn compose_fused_record(
    cfg: &Config,
    authority: &Address,
    collection_mint: &Address,
    id1: u16,
    id2: u16,
    cid: &str,
) -> (r: RecordData)
    ensures
        is_fused_record(r, *cfg, authority@, collection_mint@, id1, id2, cid@),
{
    RecordData {
        name: compose_fused_name(id1, id2),
        symbol: cfg.symbol.clone(),
        uri: concat(cfg.base_uri.as_str(), cid),
        seller_fee_basis_points: cfg.royalty_bps,
        creators: creators(cfg, authority),
        collection: Some(CollectionRef { key: *collection_mint, verified: false }),
        is_mutable: false,
    }
}

} // verus!
