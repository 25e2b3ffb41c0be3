use crate::address::{base58_key, Address};
use crate::error::NftFusionError;
use vstd::prelude::*;

verus! {

/// The fixed settings of one deployment: the program's own address, the
/// collection's name and symbol, the gateway that URIs start with, the
/// creator that shares the royalties, the royalty rate and the identifier range.
#[derive(Clone, Debug)]
pub struct Config {
    pub program_id: Address,
    pub collection_name: String,
    pub symbol: String,
    pub base_uri: String,
    pub creator: Address,
    pub royalty_bps: u16,
    pub min_id: u16,
    pub max_id: u16,
}

impl Config {
    /// A configuration whose creator is given in base58; an invalid key is
    /// reported instead of aborting.
    pub fn new(
        program_id: Address,
        collection_name: String,
        symbol: String,
        base_uri: String,
        creator: &str,
        royalty_bps: u16,
        min_id: u16,
        max_id: u16,
    ) -> (r: Result<Config, NftFusionError>)
        ensures
            match r {
                Ok(c) => {
                    &&& base58_key(creator@) == Some(c.creator@)
                    &&& c.program_id == program_id
                    &&& c.collection_name@ == collection_name@
                    &&& c.symbol@ == symbol@
                    &&& c.base_uri@ == base_uri@
                    &&& c.royalty_bps == royalty_bps
                    &&& c.min_id == min_id
                    &&& c.max_id == max_id
                },
                Err(e) => e == NftFusionError::InvalidCreatorAddress && base58_key(creator@).is_none(),
            },
    {
        match Address::from_base58(creator) {
            Some(c) => Ok(
                Config {
                    program_id,
                    collection_name,
                    symbol,
                    base_uri,
                    creator: c,
                    royalty_bps,
                    min_id,
                    max_id,
                },
            ),
            None => Err(NftFusionError::InvalidCreatorAddress),
        }
    }

    /// The deployed configuration: collection "Child Collection" with symbol
    /// "CC", URIs on the project's IPFS gateway, a 5% royalty, and
    /// identifiers 1 to 1000.
    pub fn standard(program_id: Address) -> (r: Result<Config, NftFusionError>)
        ensures
            match r {
                Ok(c) => {
                    &&& c.program_id == program_id
                    &&& c.collection_name@ == "Child Collection"@
                    &&& c.symbol@ == "CC"@
                    &&& c.base_uri@ == "https://mygateway.mypinata.cloud/ipfs/"@
                    &&& base58_key("LFujUyg8wPiwqt2DFGdSe6wApqwNvpf4zdMebdPVMbz"@) == Some(c.creator@)
                    &&& c.royalty_bps == 500
                    &&& c.min_id == 1
                    &&& c.max_id == 1000
                },
                Err(e) => e == NftFusionError::InvalidCreatorAddress
                    && base58_key("LFujUyg8wPiwqt2DFGdSe6wApqwNvpf4zdMebdPVMbz"@).is_none(),
            },
    {
        Config::new(
            program_id,
            "Child Collection".to_owned(),
            "CC".to_owned(),
            "https://mygateway.mypinata.cloud/ipfs/".to_owned(),
            "LFujUyg8wPiwqt2DFGdSe6wApqwNvpf4zdMebdPVMbz",
            500,
            1,
            1000,
        )
    }
}

} // verus!
