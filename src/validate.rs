use crate::address::Address;
use crate::config::Config;
use crate::error::NftFusionError;
use mpl_token_metadata::accounts::Metadata;
use vstd::prelude::*;

verus! {

/// The fields of a token holding that the checks read.
#[derive(Clone, Copy, Debug)]
pub struct TokenHolding {
    pub owner: Address,
    pub mint: Address,
    pub amount: u64,
}

/// A metadata record's reference to a collection.
#[derive(Clone, Copy, Debug)]
pub struct CollectionRef {
    pub key: Address,
    pub verified: bool,
}

/// The fields of a source asset's metadata record that the checks read.
#[derive(Clone, Copy, Debug)]
pub struct MetadataView {
    pub mint: Address,
    pub collection: Option<CollectionRef>,
}

impl View for MetadataView {
    type V = (Seq<u8>, Option<(Seq<u8>, bool)>);

    open spec fn view(&self) -> (Seq<u8>, Option<(Seq<u8>, bool)>) {
        (
            self.mint@,
            match self.collection {
                Some(c) => Some((c.key@, c.verified)),
                None => None,
            },
        )
    }
}

/// The view of a decoded record, if there is one.
pub open spec fn record_view(m: Option<MetadataView>) -> Option<(Seq<u8>, Option<(Seq<u8>, bool)>)> {
    match m {
        Some(v) => Some(v@),
        None => None,
    }
}

/// The mint and the collection reference (key, verified) of the metadata
/// record that account data decodes to, if it decodes to one.
pub uninterp spec fn metadata_record(data: Seq<u8>) -> Option<(Seq<u8>, Option<(Seq<u8>, bool)>)>;

/// Relies on `Metadata::safe_deserialize`: data that starts with the
/// metadata key and decodes as a record gives that record, anything else an
/// error; the outcome depends on the data alone.
#[verifier::external_body]
fn decode_metadata(data: &[u8]) -> (r: Option<MetadataView>)
    ensures
        record_view(r) == metadata_record(data@),
{
    match Metadata::safe_deserialize(data) {
        Ok(m) => Some(MetadataView {
            mint: Address { bytes: m.mint.to_bytes() },
            collection: m.collection.map(|c| CollectionRef { key: Address { bytes: c.key.to_bytes() }, verified: c.verified }),
        }),
        Err(_) => None,
    }
}

/// Decodes a source asset's metadata account data.
pub fn read_metadata(data: &Vec<u8>) -> (r: Option<MetadataView>)
    ensures
        record_view(r) == metadata_record(data@),
{
    decode_metadata(data.as_slice())
}

/// `Ok` where there is no error, else the error.
pub open spec fn verdict(e: Option<NftFusionError>) -> Result<(), NftFusionError> {
    match e {
        Some(e) => Err(e),
        None => Ok(()),
    }
}

/// The first failing check on the two identifiers: distinct, ascending, in range.
pub open spec fn identifier_error(min_id: u16, max_id: u16, id1: u16, id2: u16) -> Option<NftFusionError> {
    if id1 == id2 {
        Some(NftFusionError::IdentifiersEqual)
    } else if id1 > id2 {
        Some(NftFusionError::IdentifiersOutOfOrder)
    } else if id1 < min_id || id1 > max_id || id2 < min_id || id2 > max_id {
        Some(NftFusionError::IdentifierOutOfRange)
    } else {
        None
    }
}

/// The first failing check on the holdings: owned by the requester, then non-empty.
pub open spec fn holding_error(requester: Seq<u8>, h1: TokenHolding, h2: TokenHolding) -> Option<NftFusionError> {
    if h1.owner@ != requester || h2.owner@ != requester {
        Some(NftFusionError::TokenAccountWrongOwner)
    } else if h1.amount == 0 || h2.amount == 0 {
        Some(NftFusionError::AssetNotOwned)
    } else {
        None
    }
}

/// A record references the collection mint.
pub open spec fn in_collection(m: (Seq<u8>, Option<(Seq<u8>, bool)>), collection_mint: Seq<u8>) -> bool {
    match m.1 {
        Some((key, _)) => key == collection_mint,
        None => false,
    }
}

/// A record's collection reference is verified.
pub open spec fn collection_verified(m: (Seq<u8>, Option<(Seq<u8>, bool)>)) -> bool {
    match m.1 {
        Some((_, verified)) => verified,
        None => false,
    }
}

/// The first failing check on the records: in the collection, verified, and
/// naming the mint of their holding.
pub open spec fn membership_error(
    collection_mint: Seq<u8>,
    h1: TokenHolding,
    m1: (Seq<u8>, Option<(Seq<u8>, bool)>),
    h2: TokenHolding,
    m2: (Seq<u8>, Option<(Seq<u8>, bool)>),
) -> Option<NftFusionError> {
    if !in_collection(m1, collection_mint) || !in_collection(m2, collection_mint) {
        Some(NftFusionError::CollectionMismatch)
    } else if !collection_verified(m1) || !collection_verified(m2) {
        Some(NftFusionError::CollectionNotVerified)
    } else if h1.mint@ != m1.0 || h2.mint@ != m2.0 {
        Some(NftFusionError::MetadataMintMismatch)
    } else {
        None
    }
}

/// The checks that need no metadata record, in order.
pub open spec fn request_error(
    min_id: u16,
    max_id: u16,
    requester: Seq<u8>,
    id1: u16,
    id2: u16,
    h1: TokenHolding,
    h2: TokenHolding,
) -> Option<NftFusionError> {
    match identifier_error(min_id, max_id, id1, id2) {
        Some(e) => Some(e),
        None => holding_error(requester, h1, h2),
    }
}

/// Every check of a fusion request, in order; `None` where it is accepted.
pub open spec fn fusion_error(
    min_id: u16,
    max_id: u16,
    requester: Seq<u8>,
    collection_mint: Seq<u8>,
    id1: u16,
    id2: u16,
    h1: TokenHolding,
    m1: (Seq<u8>, Option<(Seq<u8>, bool)>),
    h2: TokenHolding,
    m2: (Seq<u8>, Option<(Seq<u8>, bool)>),
) -> Option<NftFusionError> {
    match request_error(min_id, max_id, requester, id1, id2, h1, h2) {
        Some(e) => Some(e),
        None => membership_error(collection_mint, h1, m1, h2, m2),
    }
}

/// Checks the two identifiers against each other and the configured range.
pub fn check_identifiers(cfg: &Config, id1: u16, id2: u16) -> (r: Result<(), NftFusionError>)
    ensures
        r == verdict(identifier_error(cfg.min_id, cfg.max_id, id1, id2)),
{
    if id1 == id2 {
        return Err(NftFusionError::IdentifiersEqual);
    }
    if id1 > id2 {
        return Err(NftFusionError::IdentifiersOutOfOrder);
    }
    if id1 < cfg.min_id || id1 > cfg.max_id || id2 < cfg.min_id || id2 > cfg.max_id {
        return Err(NftFusionError::IdentifierOutOfRange);
    }
    Ok(())
}

/// Checks the identifiers, then that the requester owns and holds both sources.
pub fn check_request(
    cfg: &Config,
    requester: &Address,
    id1: u16,
    id2: u16,
    h1: &TokenHolding,
    h2: &TokenHolding,
) -> (r: Result<(), NftFusionError>)
    ensures
        r == verdict(request_error(cfg.min_id, cfg.max_id, requester@, id1, id2, *h1, *h2)),
{
    check_identifiers(cfg, id1, id2)?;
    if h1.owner != *requester || h2.owner != *requester {
        return Err(NftFusionError::TokenAccountWrongOwner);
    }
    if h1.amount == 0 || h2.amount == 0 {
        return Err(NftFusionError::AssetNotOwned);
    }
    Ok(())
}

fn member_of(m: &MetadataView, collection_mint: &Address) -> (r: bool)
    ensures
        r == in_collection(m@, collection_mint@),
{
    match m.collection {
        Some(c) => c.key == *collection_mint,
        None => false,
    }
}

fn verified(m: &MetadataView) -> (r: bool)
    ensures
        r == collection_verified(m@),
{
    match m.collection {
        Some(c) => c.verified,
        None => false,
    }
}

/// Checks that both records are verified members of the collection and name
/// the mints of their holdings.
pub fn check_membership(
    collection_mint: &Address,
    h1: &TokenHolding,
    m1: &MetadataView,
    h2: &TokenHolding,
    m2: &MetadataView,
) -> (r: Result<(), NftFusionError>)
    ensures
        r == verdict(membership_error(collection_mint@, *h1, m1@, *h2, m2@)),
{
    if !member_of(m1, collection_mint) || !member_of(m2, collection_mint) {
        return Err(NftFusionError::CollectionMismatch);
    }
    if !verified(m1) || !verified(m2) {
        return Err(NftFusionError::CollectionNotVerified);
    }
    if h1.mint != m1.mint || h2.mint != m2.mint {
        return Err(NftFusionError::MetadataMintMismatch);
    }
    Ok(())
}

/// Every check of a fusion request, in the order that decides which error
/// is reported.
pub fn validate_fusion(
    cfg: &Config,
    requester: &Address,
    collection_mint: &Address,
    id1: u16,
    id2: u16,
    h1: &TokenHolding,
    m1: &MetadataView,
    h2: &TokenHolding,
    m2: &MetadataView,
) -> (r: Result<(), NftFusionError>)
    ensures
        r == verdict(
            fusion_error(cfg.min_id, cfg.max_id, requester@, collection_mint@, id1, id2, *h1, m1@, *h2, m2@),
        ),
{
    check_request(cfg, requester, id1, id2, h1, h2)?;
    check_membership(collection_mint, h1, m1, h2, m2)
}

} // verus!
