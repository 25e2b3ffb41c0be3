use crate::config::Config;
use crate::derive::{pair_seeds, program_address};
use crate::error::NftFusionError;
use crate::plan::{init_outcome, mint_outcome, FuseOutcome, InitOutcome};
use crate::validate::TokenHolding;
use vstd::prelude::*;

verus! {

/// Initialization cannot be repeated: once it has succeeded and the accounts
/// it creates exist, initializing again for the same requester fails because
/// those accounts exist, and nothing is minted a second time.
pub proof fn initialize_is_not_repeatable(program_id: Seq<u8>, requester: Seq<u8>, live: Seq<Seq<u8>>)
    requires
        init_outcome(program_id, requester, live).is_ok(),
    ensures
        init_outcome(program_id, requester, live + seq![
            init_outcome(program_id, requester, live)->Ok_0.0,
            init_outcome(program_id, requester, live)->Ok_0.1,
        ]) == InitOutcome::Err(NftFusionError::AccountAlreadyExists),
{
    let (a, m) = init_outcome(program_id, requester, live)->Ok_0;
    let after = live + seq![a, m];
    assert(after[live.len() as int] == a);
}

/// Both orders of two distinct identifiers name the same fused mint, and the
/// ascending order is the one form of a request that is accepted: the
/// descending one fails with `IdentifiersOutOfOrder` whatever else it holds,
/// and the ascending one, where it succeeds, creates exactly the pair's mint.
pub proof fn fused_mint_ignores_order(
    cfg: Config,
    requester: Seq<u8>,
    collection_mint: Seq<u8>,
    a: u16,
    b: u16,
    h1: TokenHolding,
    data1: Seq<u8>,
    h2: TokenHolding,
    data2: Seq<u8>,
    live: Seq<Seq<u8>>,
)
    requires
        a != b,
    ensures
        pair_seeds(a, b) == pair_seeds(b, a),
        program_address(pair_seeds(a, b), cfg.program_id@) == program_address(pair_seeds(b, a), cfg.program_id@),
        mint_outcome(cfg, requester, collection_mint, max_of(a, b), min_of(a, b), h1, data1, h2, data2, live)
            == FuseOutcome::Err(NftFusionError::IdentifiersOutOfOrder),
        mint_outcome(cfg, requester, collection_mint, min_of(a, b), max_of(a, b), h1, data1, h2, data2, live).is_ok()
            ==> (program_address(pair_seeds(a, b), cfg.program_id@) matches Some((m, _)) && m == mint_outcome(
            cfg,
            requester,
            collection_mint,
            min_of(a, b),
            max_of(a, b),
            h1,
            data1,
            h2,
            data2,
            live,
        )->Ok_0),
{
}

/// The smaller of two identifiers.
pub open spec fn min_of(a: u16, b: u16) -> u16 {
    if a < b {
        a
    } else {
        b
    }
}

/// The larger of two identifiers.
pub open spec fn max_of(a: u16, b: u16) -> u16 {
    if a < b {
        b
    } else {
        a
    }
}

/// Fusing an identifier with itself fails with `IdentifiersEqual`, whatever
/// else the request holds.
pub proof fn equal_identifiers_refused(
    cfg: Config,
    requester: Seq<u8>,
    collection_mint: Seq<u8>,
    id: u16,
    h1: TokenHolding,
    data1: Seq<u8>,
    h2: TokenHolding,
    data2: Seq<u8>,
    live: Seq<Seq<u8>>,
)
    ensures
        mint_outcome(cfg, requester, collection_mint, id, id, h1, data1, h2, data2, live)
            == FuseOutcome::Err(NftFusionError::IdentifiersEqual),
{
}

/// An ascending pair with an identifier outside the configured range fails
/// with `IdentifierOutOfRange`, whatever the holdings and records are.
pub proof fn out_of_range_refused(
    cfg: Config,
    requester: Seq<u8>,
    collection_mint: Seq<u8>,
    id1: u16,
    id2: u16,
    h1: TokenHolding,
    data1: Seq<u8>,
    h2: TokenHolding,
    data2: Seq<u8>,
    live: Seq<Seq<u8>>,
)
    requires
        id1 < id2,
        id1 < cfg.min_id || id1 > cfg.max_id || id2 < cfg.min_id || id2 > cfg.max_id,
    ensures
        mint_outcome(cfg, requester, collection_mint, id1, id2, h1, data1, h2, data2, live)
            == FuseOutcome::Err(NftFusionError::IdentifierOutOfRange),
{
}

/// A fusion cannot be repeated: once it has succeeded and its fused mint
/// exists, the same request fails because that account exists, so no second
/// record is created.
pub proof fn fusion_is_not_repeatable(
    cfg: Config,
    requester: Seq<u8>,
    collection_mint: Seq<u8>,
    id1: u16,
    id2: u16,
    h1: TokenHolding,
    data1: Seq<u8>,
    h2: TokenHolding,
    data2: Seq<u8>,
    live: Seq<Seq<u8>>,
)
    requires
        mint_outcome(cfg, requester, collection_mint, id1, id2, h1, data1, h2, data2, live).is_ok(),
    ensures
        mint_outcome(
            cfg,
            requester,
            collection_mint,
            id1,
            id2,
            h1,
            data1,
            h2,
            data2,
            live.push(mint_outcome(cfg, requester, collection_mint, id1, id2, h1, data1, h2, data2, live)->Ok_0),
        ) == FuseOutcome::Err(NftFusionError::AccountAlreadyExists),
{
    let m = mint_outcome(cfg, requester, collection_mint, id1, id2, h1, data1, h2, data2, live)->Ok_0;
    assert(live.push(m)[live.len() as int] == m);
}

} // verus!
