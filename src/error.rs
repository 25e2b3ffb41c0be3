use vstd::prelude::*;

verus! {

/// Every way in which a request to this engine can fail.
#[derive(Clone, Copy, Debug, PartialEq, Eq, Structural)]
pub enum NftFusionError {
    /// The two source identifiers are the same.
    IdentifiersEqual,
    /// The first source identifier is not below the second.
    IdentifiersOutOfOrder,
    /// A source identifier lies outside the configured range.
    IdentifierOutOfRange,
    /// A source holding is not owned by the requester.
    TokenAccountWrongOwner,
    /// A source holding has a zero balance.
    AssetNotOwned,
    /// A source record does not reference the collection mint.
    CollectionMismatch,
    /// A source record's collection reference is not verified.
    CollectionNotVerified,
    /// A source holding's mint differs from the mint in its record.
    MetadataMintMismatch,
    /// No bump seed gives an off-curve address for the seeds.
    AddressDerivationExhausted,
    /// An account that the request would create exists already.
    AccountAlreadyExists,
    /// A source metadata record could not be decoded.
    MalformedMetadata,
    /// The configured creator address is not a valid key.
    InvalidCreatorAddress,
}

} // verus!
