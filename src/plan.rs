use crate::address::Address;
use crate::compose::{compose_collection_record, compose_fused_record, is_collection_record, is_fused_record, RecordData};
use crate::config::Config;
use crate::derive::{
    authority_seeds, collection_mint_seeds, derive_authority, derive_collection_mint, derive_fused_mint,
    fused_mint_seeds, program_address, Pda,
};
use crate::error::NftFusionError;
use crate::validate::{
    check_request, fusion_error, metadata_record, read_metadata, request_error, validate_fusion, MetadataView,
    TokenHolding,
};
use vstd::prelude::*;

verus! {

/// One inter-program call, or account creation, performed under the
/// authority's signature. Mints always have 0 decimals and the authority as
/// mint authority.
#[derive(Clone, Debug)]
pub enum CpiCall {
    /// Create the authority's own empty account.
    CreateAuthority { address: Address },
    /// Create a mint at its program-derived address; `freezable` makes the
    /// authority its freeze authority too.
    CreateMint { pda: Pda, freezable: bool },
    /// Create the associated holding of `owner` for `mint`.
    CreateAssociatedHolding { owner: Address, mint: Address },
    /// Mint exactly one unit of `mint` into the associated holding of `owner`.
    MintOne { mint: Address, owner: Address },
    /// Create the metadata record of `mint`.
    CreateMetadata { mint: Address, data: RecordData },
    /// Create the master edition of `mint`, allowing `max_supply` prints.
    CreateMasterEdition { mint: Address, max_supply: u64 },
    /// Reference the collection from the record of `mint` and verify it.
    SetAndVerifyCollection { mint: Address, collection_mint: Address },
}

/// The ordered, all-or-nothing work of one request: the authority that signs,
/// the accounts that the work creates (none may exist beforehand), and the calls.
#[derive(Clone, Debug)]
pub struct Plan {
    pub authority: Pda,
    pub created: Vec<Address>,
    pub calls: Vec<CpiCall>,
}

/// The addresses of a list of accounts.
pub open spec fn addresses(v: Seq<Address>) -> Seq<Seq<u8>> {
    v.map_values(|a: Address| a@)
}

/// Whether `a` is among `live`.
pub fn is_live(live: &Vec<Address>, a: &Address) -> (r: bool)
    ensures
        r == addresses(live@).contains(a@),
{
    let mut i: usize = 0;
    while i < live.len()
        invariant
            i <= live@.len(),
            forall|j: int| 0 <= j < i ==> live@[j]@ != a@,
        decreases live@.len() - i,
    {
        if live[i] == *a {
            assert(addresses(live@)[i as int] == a@);
            return true;
        }
        i = i + 1;
    }
    assert forall|j: int| 0 <= j < addresses(live@).len() implies addresses(live@)[j] != a@ by {
        assert(addresses(live@)[j] == live@[j]@);
    }
    false
}

/// The authority and collection mint addresses of an initialization, or its error.
pub type InitOutcome = Result<(Seq<u8>, Seq<u8>), NftFusionError>;

/// What initialization comes to for `requester` when the accounts at `live`
/// exist: the authority and collection mint addresses, or the error.
pub open spec fn init_outcome(program_id: Seq<u8>, requester: Seq<u8>, live: Seq<Seq<u8>>) -> InitOutcome {
    match program_address(authority_seeds(requester), program_id) {
        None => Err(NftFusionError::AddressDerivationExhausted),
        Some((authority, _)) => match program_address(collection_mint_seeds(), program_id) {
            None => Err(NftFusionError::AddressDerivationExhausted),
            Some((mint, _)) => if live.contains(authority) || live.contains(mint) {
                Err(NftFusionError::AccountAlreadyExists)
            } else {
                Ok((authority, mint))
            },
        },
    }
}

/// The initialization plan: create the authority and the collection mint,
/// the requester's holding, mint the one unit, then the collection's
/// immutable record and a master edition that allows no prints.
pub open spec fn is_init_plan(p: Plan, cfg: Config, requester: Seq<u8>, cid: Seq<char>) -> bool {
    let authority = p.authority.address@;
    let mint = p.created@[1]@;
    &&& p.authority.derived_from(authority_seeds(requester), cfg.program_id@)
    &&& addresses(p.created@).len() == 2
    &&& p.created@[0]@ == authority
    &&& p.calls@.len() == 6
    &&& p.calls@[0] matches CpiCall::CreateAuthority { address } && address@ == authority
    &&& p.calls@[1] matches CpiCall::CreateMint { pda: m, freezable } && m.derived_from(
        collection_mint_seeds(),
        cfg.program_id@,
    ) && m.address@ == mint && freezable
    &&& p.calls@[2] matches CpiCall::CreateAssociatedHolding { owner, mint: m } && owner@ == requester
        && m@ == mint
    &&& p.calls@[3] matches CpiCall::MintOne { mint: m, owner } && m@ == mint && owner@ == requester
    &&& p.calls@[4] matches CpiCall::CreateMetadata { mint: m, data } && m@ == mint && is_collection_record(
        data,
        cfg,
        authority,
        cid,
    )
    &&& p.calls@[5] matches CpiCall::CreateMasterEdition { mint: m, max_supply } && m@ == mint
        && max_supply == 0
}

/// Plans the creation of the collection by `requester`, with the record's
/// URI built from `cid`; `live` lists accounts known to exist.
pub fn initialize(cfg: &Config, requester: &Address, live: &Vec<Address>, cid: &str) -> (r: Result<
    Plan,
    NftFusionError,
>)
    ensures
        match r {
            Ok(p) => init_outcome(cfg.program_id@, requester@, addresses(live@)).is_ok()
                && is_init_plan(p, *cfg, requester@, cid@),
            Err(e) => init_outcome(cfg.program_id@, requester@, addresses(live@)) == InitOutcome::Err(e),
        },
{
    let authority = derive_authority(requester, &cfg.program_id)?;
    let mint = derive_collection_mint(&cfg.program_id)?;
    if is_live(live, &authority.address) || is_live(live, &mint.address) {
        return Err(NftFusionError::AccountAlreadyExists);
    }
    let a = authority.address;
    let m = mint.address;
    let data = compose_collection_record(cfg, &a, cid);
    let calls: Vec<CpiCall> = vec![
        CpiCall::CreateAuthority { address: a },
        CpiCall::CreateMint { pda: mint, freezable: true },
        CpiCall::CreateAssociatedHolding { owner: *requester, mint: m },
        CpiCall::MintOne { mint: m, owner: *requester },
        CpiCall::CreateMetadata { mint: m, data },
        CpiCall::CreateMasterEdition { mint: m, max_supply: 0 },
    ];
    let created: Vec<Address> = vec![a, m];
    Ok(Plan { authority, created, calls })
}

/// The fused mint address of a fusion, or its error.
pub type FuseOutcome = Result<Seq<u8>, NftFusionError>;

/// What a fusion of `id1` and `id2` comes to once both source records are
/// read, when the accounts at `live` exist: the checks in order, then the
/// two derivations, then the fused mint must not exist yet.
pub open spec fn fusion_outcome(
    cfg: Config,
    requester: Seq<u8>,
    collection_mint: Seq<u8>,
    id1: u16,
    id2: u16,
    h1: TokenHolding,
    m1: (Seq<u8>, Option<(Seq<u8>, bool)>),
    h2: TokenHolding,
    m2: (Seq<u8>, Option<(Seq<u8>, bool)>),
    live: Seq<Seq<u8>>,
) -> FuseOutcome {
    match fusion_error(cfg.min_id, cfg.max_id, requester, collection_mint, id1, id2, h1, m1, h2, m2) {
        Some(e) => Err(e),
        None => match program_address(authority_seeds(requester), cfg.program_id@) {
            None => Err(NftFusionError::AddressDerivationExhausted),
            Some(_) => match program_address(fused_mint_seeds(id1, id2), cfg.program_id@) {
                None => Err(NftFusionError::AddressDerivationExhausted),
                Some((mint, _)) => if live.contains(mint) {
                    Err(NftFusionError::AccountAlreadyExists)
                } else {
                    Ok(mint)
                },
            },
        },
    }
}

/// What a fusion comes to from the source records' account data: the checks
/// that need no record come first, then both records must decode.
pub open spec fn mint_outcome(
    cfg: Config,
    requester: Seq<u8>,
    collection_mint: Seq<u8>,
    id1: u16,
    id2: u16,
    h1: TokenHolding,
    data1: Seq<u8>,
    h2: TokenHolding,
    data2: Seq<u8>,
    live: Seq<Seq<u8>>,
) -> FuseOutcome {
    match request_error(cfg.min_id, cfg.max_id, requester, id1, id2, h1, h2) {
        Some(e) => Err(e),
        None => match (metadata_record(data1), metadata_record(data2)) {
            (Some(m1), Some(m2)) => fusion_outcome(cfg, requester, collection_mint, id1, id2, h1, m1, h2, m2, live),
            _ => Err(NftFusionError::MalformedMetadata),
        },
    }
}

/// The fusion plan: create the fused mint at its derived address, the
/// requester's holding, mint the one unit, create the fused record with an
/// unverified collection link, then verify that link.
pub open spec fn is_fuse_plan(
    p: Plan,
    cfg: Config,
    requester: Seq<u8>,
    collection_mint: Seq<u8>,
    id1: u16,
    id2: u16,
    cid: Seq<char>,
) -> bool {
    let authority = p.authority.address@;
    let mint = p.created@[0]@;
    &&& p.authority.derived_from(authority_seeds(requester), cfg.program_id@)
    &&& p.created@.len() == 1
    &&& p.calls@.len() == 5
    &&& p.calls@[0] matches CpiCall::CreateMint { pda: m, freezable } && m.derived_from(
        fused_mint_seeds(id1, id2),
        cfg.program_id@,
    ) && m.address@ == mint && !freezable
    &&& p.calls@[1] matches CpiCall::CreateAssociatedHolding { owner, mint: m } && owner@ == requester
        && m@ == mint
    &&& p.calls@[2] matches CpiCall::MintOne { mint: m, owner } && m@ == mint && owner@ == requester
    &&& p.calls@[3] matches CpiCall::CreateMetadata { mint: m, data } && m@ == mint && is_fused_record(
        data,
        cfg,
        authority,
        collection_mint,
        id1,
        id2,
        cid,
    )
    &&& p.calls@[4] matches CpiCall::SetAndVerifyCollection { mint: m, collection_mint: c } && m@ == mint
        && c@ == collection_mint
}

/// Plans the fusion of sources `id1` and `id2` from records already read.
pub fn fuse_with_records(
    cfg: &Config,
    requester: &Address,
    collection_mint: &Address,
    id1: u16,
    id2: u16,
    h1: &TokenHolding,
    m1: &MetadataView,
    h2: &TokenHolding,
    m2: &MetadataView,
    live: &Vec<Address>,
    cid: &str,
) -> (r: Result<Plan, NftFusionError>)
    ensures
        match r {
            Ok(p) => fusion_outcome(
                *cfg,
                requester@,
                collection_mint@,
                id1,
                id2,
                *h1,
                m1@,
                *h2,
                m2@,
                addresses(live@),
            ) == FuseOutcome::Ok(p.created@[0]@) && is_fuse_plan(p, *cfg, requester@, collection_mint@, id1, id2, cid@),
            Err(e) => fusion_outcome(
                *cfg,
                requester@,
                collection_mint@,
                id1,
                id2,
                *h1,
                m1@,
                *h2,
                m2@,
                addresses(live@),
            ) == FuseOutcome::Err(e),
        },
{
    validate_fusion(cfg, requester, collection_mint, id1, id2, h1, m1, h2, m2)?;
    let authority = derive_authority(requester, &cfg.program_id)?;
    let mint = derive_fused_mint(id1, id2, &cfg.program_id)?;
    if is_live(live, &mint.address) {
        return Err(NftFusionError::AccountAlreadyExists);
    }
    let a = authority.address;
    let m = mint.address;
    let data = compose_fused_record(cfg, &a, collection_mint, id1, id2, cid);
    let calls: Vec<CpiCall> = vec![
        CpiCall::CreateMint { pda: mint, freezable: false },
        CpiCall::CreateAssociatedHolding { owner: *requester, mint: m },
        CpiCall::MintOne { mint: m, owner: *requester },
        CpiCall::CreateMetadata { mint: m, data },
        CpiCall::SetAndVerifyCollection { mint: m, collection_mint: *collection_mint },
    ];
    let created: Vec<Address> = vec![m];
    Ok(Plan { authority, created, calls })
}

/// Plans the fusion of sources `id1` and `id2`, reading their metadata
/// records from the accounts' data once the checks that need no record pass.
pub fn mint_nft(
    cfg: &Config,
    requester: &Address,
    collection_mint: &Address,
    id1: u16,
    id2: u16,
    h1: &TokenHolding,
    data1: &Vec<u8>,
    h2: &TokenHolding,
    data2: &Vec<u8>,
    live: &Vec<Address>,
    cid: &str,
) -> (r: Result<Plan, NftFusionError>)
    ensures
        match r {
            Ok(p) => mint_outcome(
                *cfg,
                requester@,
                collection_mint@,
                id1,
                id2,
                *h1,
                data1@,
                *h2,
                data2@,
                addresses(live@),
            ) == FuseOutcome::Ok(p.created@[0]@) && is_fuse_plan(p, *cfg, requester@, collection_mint@, id1, id2, cid@),
            Err(e) => mint_outcome(
                *cfg,
                requester@,
                collection_mint@,
                id1,
                id2,
                *h1,
                data1@,
                *h2,
                data2@,
                addresses(live@),
            ) == FuseOutcome::Err(e),
        },
{
    check_request(cfg, requester, id1, id2, h1, h2)?;
    let m1 = match read_metadata(data1) {
        Some(m) => m,
        None => return Err(NftFusionError::MalformedMetadata),
    };
    let m2 = match read_metadata(data2) {
        Some(m) => m,
        None => return Err(NftFusionError::MalformedMetadata),
    };
    fuse_with_records(cfg, requester, collection_mint, id1, id2, h1, &m1, h2, &m2, live, cid)
}

} // verus!
