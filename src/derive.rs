use crate::address::Address;
use crate::error::NftFusionError;
use anchor_lang::prelude::Pubkey;
use vstd::prelude::*;

verus! {

/// The address and bump seed that the ledger's derivation gives for a seed
/// list and a program, or `None` where no bump seed gives an off-curve address.
pub uninterp spec fn program_address(seeds: Seq<Seq<u8>>, program_id: Seq<u8>) -> Option<(Seq<u8>, u8)>;

/// Relies on `Pubkey::try_find_program_address`: the first bump seed, from 255
/// down, for which the seeds give an address off the signing curve, together
/// with that address; a function of the seeds and the program alone.
#[verifier::external_body]
fn find_program_address(seeds: &Vec<Vec<u8>>, program_id: &Address) -> (r: Option<(Address, u8)>)
    ensures
        match r {
            Some((a, bump)) => program_address(seeds_of(seeds), program_id@) == Some((a@, bump)),
            None => program_address(seeds_of(seeds), program_id@).is_none(),
        },
{
    let parts: Vec<&[u8]> = seeds.iter().map(|s| s.as_slice()).collect();
    Pubkey::try_find_program_address(&parts, &Pubkey::new_from_array(program_id.bytes))
        .map(|(k, bump)| (Address { bytes: k.to_bytes() }, bump))
}

/// The bytes of each seed of a seed list.
pub open spec fn seeds_of(v: &Vec<Vec<u8>>) -> Seq<Seq<u8>> {
    v@.map_values(|s: Vec<u8>| s@)
}

/// The tag seed of the authority account: ASCII `authority`.
pub open spec fn authority_tag() -> Seq<u8> {
    seq![97u8, 117, 116, 104, 111, 114, 105, 116, 121]
}

/// The only seed of the collection mint: ASCII `child-collection-mint`.
pub open spec fn collection_mint_tag() -> Seq<u8> {
    seq![99u8, 104, 105, 108, 100, 45, 99, 111, 108, 108, 101, 99, 116, 105, 111, 110, 45, 109,
        105, 110, 116]
}

/// A 16-bit identifier as two big-endian bytes.
pub open spec fn be_bytes(n: u16) -> Seq<u8> {
    seq![(n / 256) as u8, (n % 256) as u8]
}

/// Seeds of a requester's authority: the requester's key, then the tag.
pub open spec fn authority_seeds(requester: Seq<u8>) -> Seq<Seq<u8>> {
    seq![requester, authority_tag()]
}

/// Seeds of the collection mint.
pub open spec fn collection_mint_seeds() -> Seq<Seq<u8>> {
    seq![collection_mint_tag()]
}

/// Seeds of the fused mint for two identifiers, in the order given.
pub open spec fn fused_mint_seeds(id1: u16, id2: u16) -> Seq<Seq<u8>> {
    seq![be_bytes(id1), be_bytes(id2)]
}

/// Seeds of the fused mint of an unordered pair: smaller identifier first.
pub open spec fn pair_seeds(a: u16, b: u16) -> Seq<Seq<u8>> {
    if a <= b {
        fused_mint_seeds(a, b)
    } else {
        fused_mint_seeds(b, a)
    }
}

/// A program-derived address with the bump seed that makes it one, and the
/// seeds it comes from: with the bump appended they are the signing seeds.
#[derive(Clone, Debug)]
pub struct Pda {
    pub address: Address,
    pub bump: u8,
    pub seeds: Vec<Vec<u8>>,
}

impl Pda {
    /// `self` is what the derivation gives for `seeds` under `program_id`.
    pub open spec fn derived_from(&self, seeds: Seq<Seq<u8>>, program_id: Seq<u8>) -> bool {
        &&& seeds_of(&self.seeds) == seeds
        &&& program_address(seeds, program_id) == Some((self.address@, self.bump))
    }

    /// The seeds with the bump appended, as the runtime takes them to sign.
    pub fn signer_seeds(&self) -> (r: Vec<Vec<u8>>)
        ensures
            seeds_of(&r) == seeds_of(&self.seeds).push(seq![self.bump]),
    {
        let mut r: Vec<Vec<u8>> = Vec::new();
        let mut i: usize = 0;
        while i < self.seeds.len()
            invariant
                i <= self.seeds@.len(),
                r@.len() == i,
                forall|j: int| 0 <= j < i ==> r@[j]@ == self.seeds@[j]@,
            decreases self.seeds@.len() - i,
        {
            let c = self.seeds[i].clone();
            assert(c@ =~= self.seeds@[i as int]@);
            r.push(c);
            i = i + 1;
        }
        let last: Vec<u8> = vec![self.bump];
        assert(last@ =~= seq![self.bump]);
        r.push(last);
        assert(seeds_of(&r) =~= seeds_of(&self.seeds).push(seq![self.bump]));
        r
    }
}

/// Derives the address of `seeds` under `program_id`.
pub fn derive(seeds: Vec<Vec<u8>>, program_id: &Address) -> (r: Result<Pda, NftFusionError>)
    ensures
        match r {
            Ok(p) => p.derived_from(seeds_of(&seeds), program_id@),
            Err(e) => e == NftFusionError::AddressDerivationExhausted
                && program_address(seeds_of(&seeds), program_id@).is_none(),
        },
{
    match find_program_address(&seeds, program_id) {
        Some((address, bump)) => Ok(Pda { address, bump, seeds }),
        None => Err(NftFusionError::AddressDerivationExhausted),
    }
}

fn tag_bytes_authority() -> (r: Vec<u8>)
    ensures
        r@ == authority_tag(),
{
    let r: Vec<u8> = vec![97u8, 117, 116, 104, 111, 114, 105, 116, 121];
    assert(r@ =~= authority_tag());
    r
}

fn tag_bytes_collection_mint() -> (r: Vec<u8>)
    ensures
        r@ == collection_mint_tag(),
{
    let r: Vec<u8> = vec![99u8, 104, 105, 108, 100, 45, 99, 111, 108, 108, 101, 99, 116, 105,
        111, 110, 45, 109, 105, 110, 116];
    assert(r@ =~= collection_mint_tag());
    r
}

/// The two big-endian bytes of `n`.
pub fn to_be_bytes(n: u16) -> (r: Vec<u8>)
    ensures
        r@ == be_bytes(n),
{
    let r: Vec<u8> = vec![(n / 256) as u8, (n % 256) as u8];
    assert(r@ =~= be_bytes(n));
    r
}

/// The authority of `requester`: the capability under which every mint and
/// record of that requester is created.
pub fn derive_authority(requester: &Address, program_id: &Address) -> (r: Result<Pda, NftFusionError>)
    ensures
        match r {
            Ok(p) => p.derived_from(authority_seeds(requester@), program_id@),
            Err(e) => e == NftFusionError::AddressDerivationExhausted
                && program_address(authority_seeds(requester@), program_id@).is_none(),
        },
{
    let seeds: Vec<Vec<u8>> = vec![requester.to_vec(), tag_bytes_authority()];
    assert(seeds_of(&seeds) =~= authority_seeds(requester@));
    derive(seeds, program_id)
}

/// The mint of the collection.
pub fn derive_collection_mint(program_id: &Address) -> (r: Result<Pda, NftFusionError>)
    ensures
        match r {
            Ok(p) => p.derived_from(collection_mint_seeds(), program_id@),
            Err(e) => e == NftFusionError::AddressDerivationExhausted
                && program_address(collection_mint_seeds(), program_id@).is_none(),
        },
{
    let seeds: Vec<Vec<u8>> = vec![tag_bytes_collection_mint()];
    assert(seeds_of(&seeds) =~= collection_mint_seeds());
    derive(seeds, program_id)
}

/// The mint of the fused asset of `id1` and `id2`, in the order given: the
/// derivation does not reorder.
pub fn derive_fused_mint(id1: u16, id2: u16, program_id: &Address) -> (r: Result<Pda, NftFusionError>)
    ensures
        match r {
            Ok(p) => p.derived_from(fused_mint_seeds(id1, id2), program_id@),
            Err(e) => e == NftFusionError::AddressDerivationExhausted
                && program_address(fused_mint_seeds(id1, id2), program_id@).is_none(),
        },
{
    let seeds: Vec<Vec<u8>> = vec![to_be_bytes(id1), to_be_bytes(id2)];
    assert(seeds_of(&seeds) =~= fused_mint_seeds(id1, id2));
    derive(seeds, program_id)
}

/// The mint of the fused asset of the unordered pair `{a, b}`: both orders of
/// a pair resolve to the same address.
pub fn fused_mint_address(a: u16, b: u16, program_id: &Address) -> (r: Result<Pda, NftFusionError>)
    ensures
        match r {
            Ok(p) => p.derived_from(pair_seeds(a, b), program_id@),
            Err(e) => e == NftFusionError::AddressDerivationExhausted
                && program_address(pair_seeds(a, b), program_id@).is_none(),
        },
{
    if a <= b {
        derive_fused_mint(a, b, program_id)
    } else {
        derive_fused_mint(b, a, program_id)
    }
}

} // verus!
