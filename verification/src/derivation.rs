use vstd::prelude::*;
use crate::error::SettlementError;

verus! {

/// The address that the host's program-derived-address scheme assigns to
/// `seeds` under `program_id`: `None` where a seed breaks the scheme's length
/// caps or the hashed point is refused, otherwise the 32-byte address. The
/// result depends on the seed bytes and the program id alone.
pub uninterp spec fn pda_of(seeds: Seq<Seq<u8>>, program_id: Seq<u8>) -> Option<Seq<u8>>;

/// Relies on solana's `Pubkey::create_program_address` (re-exported by
/// anchor_lang): a deterministic derivation from the seed bytes and the
/// program id, returning a 32-byte address or an error, and nothing else.
#[verifier::external_body]
fn derive_program_address(seeds: &Vec<Vec<u8>>, program_id: &Vec<u8>) -> (r: Option<Vec<u8>>)
    requires
        program_id@.len() == 32,
    ensures
        r.deep_view() == pda_of(seeds.deep_view(), program_id@),
        r is Some ==> r->0@.len() == 32,
{
    let pid = anchor_lang::prelude::Pubkey::try_from(program_id.as_slice()).unwrap();
    let mut refs: Vec<&[u8]> = Vec::new();
    for s in seeds.iter() {
        refs.push(s.as_slice());
    }
    match anchor_lang::prelude::Pubkey::create_program_address(&refs, &pid) {
        Ok(address) => Some(address.to_bytes().to_vec()),
        Err(_) => None,
    }
}

/// Byte-for-byte equality of two byte strings.
pub fn bytes_eq(a: &Vec<u8>, b: &Vec<u8>) -> (r: bool)
    ensures
        r == (a@ == b@),
{
    if a.len() != b.len() {
        return false;
    }
    let mut i: usize = 0;
    while i < a.len()
        invariant
            a@.len() == b@.len(),
            i <= a@.len(),
            forall|j: int| 0 <= j < i ==> a@[j] == b@[j],
        decreases a@.len() - i,
    {
        if a[i] != b[i] {
            return false;
        }
        i += 1;
    }
    proof {
        assert(a@ =~= b@);
    }
    true
}

/// An owned copy of a byte string.
pub fn clone_bytes(v: &Vec<u8>) -> (r: Vec<u8>)
    ensures
        r@ == v@,
{
    let mut r: Vec<u8> = Vec::new();
    let mut i: usize = 0;
    while i < v.len()
        invariant
            i <= v@.len(),
            r@ == v@.subrange(0, i as int),
        decreases v@.len() - i,
    {
        r.push(v[i]);
        i += 1;
    }
    proof {
        assert(r@ =~= v@);
    }
    r
}

/// A single-byte seed carrying a bump value.
pub fn bump_seed(b: u8) -> (r: Vec<u8>)
    ensures
        r@ == seq![b],
{
    let mut r: Vec<u8> = Vec::new();
    r.push(b);
    proof {
        assert(r@ =~= seq![b]);
    }
    r
}

/// Packs the three seed byte strings every derivation in this design uses:
/// two domain components followed by a bump.
pub fn seed_triple(a: Vec<u8>, b: Vec<u8>, c: Vec<u8>) -> (r: Vec<Vec<u8>>)
    ensures
        r.deep_view() == seq![a@, b@, c@],
{
    let ghost av = a@;
    let ghost bv = b@;
    let ghost cv = c@;
    let mut r: Vec<Vec<u8>> = Vec::new();
    r.push(a);
    r.push(b);
    r.push(c);
    proof {
        assert(r@[0].deep_view() =~= av);
        assert(r@[1].deep_view() =~= bv);
        assert(r@[2].deep_view() =~= cv);
        assert(r.deep_view() =~= seq![av, bv, cv]);
    }
    r
}

/// Recomputes the derived address for `seeds` and reports whether it matches
/// the caller-supplied `expected` address. A `true` answer is exactly the
/// structural-integrity condition the settlement checks rely on.
pub fn check_derived(seeds: &Vec<Vec<u8>>, program_id: &Vec<u8>, expected: &Vec<u8>) -> (r: bool)
    requires
        program_id@.len() == 32,
    ensures
        r == (pda_of(seeds.deep_view(), program_id@) == Some(expected@)),
{
    match derive_program_address(seeds, program_id) {
        Some(address) => {
            proof {
                assert(address.deep_view() =~= address@);
            }
            bytes_eq(&address, expected)
        },
        None => false,
    }
}

/// An unforgeable authorization token for transfers out of an account whose
/// authority is a derived address. It can only be built by recomputing the
/// derivation from the exact seeds and bump, and it is consumed by the one
/// transfer it signs; it is never persisted.
pub struct SignerCapability {
    seeds: Vec<Vec<u8>>,
    address: Vec<u8>,
}

impl SignerCapability {
    /// The seed byte strings the capability was derived from.
    pub closed spec fn seeds_spec(self) -> Seq<Seq<u8>> {
        self.seeds.deep_view()
    }

    /// The derived address the capability authorizes for.
    pub closed spec fn address_spec(self) -> Seq<u8> {
        self.address@
    }

    /// A capability is well formed for a program exactly when its address is
    /// the one the derivation scheme assigns to its seeds.
    pub open spec fn wf(self, program_id: Seq<u8>) -> bool {
        pda_of(self.seeds_spec(), program_id) == Some(self.address_spec())
    }

    /// Builds the signing capability for a derived authority, refusing the
    /// request when recomputing the address from the seeds does not match the
    /// caller-supplied one (seed or bump forgery).
    pub fn signing_context(seeds: Vec<Vec<u8>>, program_id: &Vec<u8>, expected: &Vec<u8>) -> (r:
        Result<SignerCapability, SettlementError>)
        requires
            program_id@.len() == 32,
        ensures
            r is Ok <==> pda_of(seeds.deep_view(), program_id@) == Some(expected@),
            r is Ok ==> r->Ok_0.wf(program_id@) && r->Ok_0.address_spec() == expected@
                && r->Ok_0.seeds_spec() == seeds.deep_view(),
            r is Err ==> r->Err_0 == SettlementError::StructuralMismatch,
    {
        if check_derived(&seeds, program_id, expected) {
            let address = clone_bytes(expected);
            Ok(SignerCapability { seeds, address })
        } else {
            Err(SettlementError::StructuralMismatch)
        }
    }

    /// The derived address this capability signs for.
    pub fn address_bytes(&self) -> (r: &Vec<u8>)
        ensures
            r@ == self.address_spec(),
    {
        &self.address
    }

    /// Surrenders the capability, handing its seed material to the one
    /// transfer it authorizes.
    pub fn into_seeds(self) -> (r: Vec<Vec<u8>>)
        ensures
            r.deep_view() == self.seeds_spec(),
    {
        self.seeds
    }
}

} // verus!
