use vstd::prelude::*;
use solana_program::pubkey::Pubkey;
use crate::error::OnchainAccountError;

verus! {

/// A 32-byte public key or program-derived address.
#[derive(Debug, Clone, Copy)]
pub struct Address {
    pub bytes: [u8; 32],
}

impl View for Address {
    type V = Seq<u8>;

    open spec fn view(&self) -> Seq<u8> {
        self.bytes@
    }
}

impl Address {
    /// Wraps 32 raw bytes.
    pub fn new(bytes: [u8; 32]) -> (r: Address)
        ensures
            r@ == bytes@,
    {
        Address { bytes }
    }

    /// The raw bytes, as used for a seed or a wire value.
    pub fn to_vec(&self) -> (r: Vec<u8>)
        ensures
            r@ == self@,
            r@.len() == 32,
    {
        let mut v: Vec<u8> = Vec::new();
        let mut i: usize = 0;
        while i < 32
            invariant
                i <= 32,
                v@ == self@.subrange(0, i as int),
            decreases 32 - i,
        {
            v.push(self.bytes[i]);
            i = i + 1;
        }
        assert(v@ =~= self@);
        v
    }

    /// Reads an address from exactly 32 bytes.
    pub fn from_slice(b: &[u8]) -> (r: Address)
        requires
            b@.len() == 32,
        ensures
            r@ == b@,
    {
        let mut bytes: [u8; 32] = [0u8; 32];
        let mut i: usize = 0;
        while i < 32
            invariant
                i <= 32,
                b@.len() == 32,
                bytes@.len() == 32,
                forall|k: int| 0 <= k < i ==> bytes@[k] == b@[k],
            decreases 32 - i,
        {
            bytes[i] = b[i];
            i = i + 1;
        }
        assert(bytes@ =~= b@);
        Address { bytes }
    }
}

impl PartialEq for Address {
    fn eq(&self, other: &Address) -> (r: bool) {
        let mut i: usize = 0;
        while i < 32
            invariant
                i <= 32,
                forall|k: int| 0 <= k < i ==> self@[k] == other@[k],
            decreases 32 - i,
        {
            if self.bytes[i] != other.bytes[i] {
                return false;
            }
            i = i + 1;
        }
        assert(self@ =~= other@);
        true
    }
}

impl vstd::std_specs::cmp::PartialEqSpecImpl for Address {
    open spec fn obeys_eq_spec() -> bool {
        true
    }

    open spec fn eq_spec(&self, other: &Address) -> bool {
        self@ == other@
    }
}

impl Eq for Address {
}

/// The byte strings of a seed list.
pub open spec fn seeds_view(seeds: Seq<Vec<u8>>) -> Seq<Seq<u8>> {
    seeds.map_values(|s: Vec<u8>| s@)
}

/// The canonical program-derived address and bump for a seed list under a
/// program identity, or `None` when no bump yields an off-curve address.
pub uninterp spec fn program_address(seeds: Seq<Seq<u8>>, program: Seq<u8>) -> Option<(Seq<u8>, u8)>;

/// Relies on solana_program's `Pubkey::try_find_program_address`: a pure
/// function of the seeds and the program identity (hashing and a curve test,
/// no state), returning the first off-curve candidate or `None`.
#[verifier::external_body]
fn try_find_program_address(seeds: &Vec<Vec<u8>>, program_id: &Address) -> (r: Option<(Address, u8)>)
    ensures
        match program_address(seeds_view(seeds@), program_id@) {
            Some((a, b)) => r matches Some((x, y)) && x@ == a && y == b,
            None => r is None,
        },
{
    let refs: Vec<&[u8]> = seeds.iter().map(|s| s.as_slice()).collect();
    let program = Pubkey::new_from_array(program_id.bytes);
    Pubkey::try_find_program_address(&refs, &program).map(|(k, b)| (Address { bytes: k.to_bytes() }, b))
}

/// Whether `r` is what derivation yields for `seeds` under `program`.
pub open spec fn derived_as(
    seeds: Seq<Seq<u8>>,
    program: Seq<u8>,
    r: Result<(Address, u8), OnchainAccountError>,
) -> bool {
    match program_address(seeds, program) {
        Some((a, b)) => r matches Ok((x, y)) && x@ == a && y == b,
        None => r == Err::<(Address, u8), _>(OnchainAccountError::NoValidAddress),
    }
}

/// Derives the program address and canonical bump for `seeds`; fails with
/// `NoValidAddress` when no bump qualifies.
pub fn find_program_address(seeds: &Vec<Vec<u8>>, program_id: &Address) -> (r: Result<(Address, u8), OnchainAccountError>)
    ensures
        derived_as(seeds_view(seeds@), program_id@, r),
{
    match try_find_program_address(seeds, program_id) {
        Some(p) => Ok(p),
        None => Err(OnchainAccountError::NoValidAddress),
    }
}

/// Derivation is deterministic: any two results of deriving from the same
/// seeds under the same program identity agree on address and bump.
pub proof fn lemma_derivation_deterministic(
    seeds: Seq<Seq<u8>>,
    program: Seq<u8>,
    r1: Result<(Address, u8), OnchainAccountError>,
    r2: Result<(Address, u8), OnchainAccountError>,
)
    requires
        derived_as(seeds, program, r1),
        derived_as(seeds, program, r2),
    ensures
        r1 is Ok <==> r2 is Ok,
        r1 is Ok ==> r1->Ok_0.0@ == r2->Ok_0.0@ && r1->Ok_0.1 == r2->Ok_0.1,
        r1 is Err ==> r1 == r2,
{
}

} // verus!
