use anchor_lang::prelude::Pubkey;
use std::str::FromStr;
use vstd::prelude::*;

verus! {

/// A 32-byte ledger address (an account key or a program-derived address).
#[derive(Clone, Copy, Debug)]
pub struct Address {
    pub bytes: [u8; 32],
}

impl View for Address {
    type V = Seq<u8>;

    open spec fn view(&self) -> Seq<u8> {
        self.bytes@
    }
}

impl PartialEq for Address {
    fn eq(&self, other: &Address) -> (r: bool) {
        let mut i: usize = 0;
        while i < 32
            invariant
                i <= 32,
                forall|j: int| 0 <= j < i ==> self.bytes@[j] == other.bytes@[j],
            decreases 32 - i,
        {
            if self.bytes[i] != other.bytes[i] {
                return false;
            }
            i = i + 1;
        }
        assert(self@ =~= other@);
        true
    }
}

impl vstd::std_specs::cmp::PartialEqSpecImpl for Address {
    open spec fn obeys_eq_spec() -> bool {
        true
    }

    open spec fn eq_spec(&self, other: &Address) -> bool {
        self@ == other@
    }
}

impl Eq for Address {
}

/// What base58 text decodes to as a 32-byte key, if it is one.
pub uninterp spec fn base58_key(s: Seq<char>) -> Option<Seq<u8>>;

/// Relies on `Pubkey::from_str`: base58 text of exactly 32 bytes gives that
/// key, anything else an error; the outcome depends on the text alone.
#[verifier::external_body]
fn parse_pubkey(s: &str) -> (r: Option<Address>)
    ensures
        match r {
            Some(a) => base58_key(s@) == Some(a@),
            None => base58_key(s@).is_none(),
        },
{
    match Pubkey::from_str(s) {
        Ok(k) => Some(Address { bytes: k.to_bytes() }),
        Err(_) => None,
    }
}

impl Address {
    pub fn new(bytes: [u8; 32]) -> (r: Address)
        ensures
            r@ == bytes@,
    {
        Address { bytes }
    }

    /// Reads a key written in base58; `None` where the text is no 32-byte key.
    pub fn from_base58(s: &str) -> (r: Option<Address>)
        ensures
            match r {
                Some(a) => base58_key(s@) == Some(a@),
                None => base58_key(s@).is_none(),
            },
    {
        parse_pubkey(s)
    }

    /// The address as a seed: its 32 bytes.
    pub fn to_vec(&self) -> (r: Vec<u8>)
        ensures
            r@ == self@,
    {
        let mut v: Vec<u8> = Vec::new();
        let mut i: usize = 0;
        while i < 32
            invariant
                i <= 32,
                v@ == self@.subrange(0, i as int),
            decreases 32 - i,
        {
            v.push(self.bytes[i]);
            i = i + 1;
        }
        assert(v@ =~= self@);
        v
    }
}

} // verus!
