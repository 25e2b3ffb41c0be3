//! Minting and fusing collection-verified NFTs: request validation,
//! program-derived addressing, metadata composition and the ordered list of
//! inter-program calls that an on-ledger entry point performs.
//!
//! A fused asset's mint lives at an address derived from its two source
//! identifiers, smaller first, so a pair can be fused once: the address
//! itself is the record that it was.

pub mod address;
pub mod compose;
pub mod config;
pub mod derive;
pub mod error;
pub mod laws;
pub mod plan;
pub mod text;
pub mod validate;

pub use address::Address;
pub use compose::{compose_collection_record, compose_fused_name, compose_fused_record, Creator, RecordData};
pub use config::Config;
pub use derive::{derive_authority, derive_collection_mint, derive_fused_mint, fused_mint_address, Pda};
pub use error::NftFusionError;
pub use plan::{fuse_with_records, initialize, mint_nft, CpiCall, Plan};
pub use validate::{
    check_identifiers, check_membership, check_request, read_metadata, validate_fusion, CollectionRef,
    MetadataView, TokenHolding,
};
