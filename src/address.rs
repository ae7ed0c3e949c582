//! Deterministic derivation of the session and escrow addresses.
use anchor_lang::prelude::Pubkey;
use vstd::prelude::*;

use crate::identity::Identity;

verus! {

/// The address of the program that owns every session and escrow account.
pub const PROGRAM_ID: [u8; 32] = [
    149, 253, 229, 65, 67, 20, 55, 17, 11, 243, 28, 18, 123, 163, 61, 100,
    252, 214, 125, 122, 85, 198, 187, 173, 80, 16, 203, 154, 81, 128, 213, 112,
];

/// The derived address (and its bump) for a list of seeds under a program, or
/// `None` where no bump gives an address off the curve or the seeds are too many
/// or too long.
pub uninterp spec fn program_address(seeds: Seq<Seq<u8>>, program: Seq<u8>) -> Option<(Seq<u8>, u8)>;

/// The bytes of `"session"`, the first seed of a session address.
pub open spec fn session_seed() -> Seq<u8> {
    seq![115u8, 101u8, 115u8, 115u8, 105u8, 111u8, 110u8]
}

/// The bytes of `"escrow"`, the first seed of an escrow address.
pub open spec fn escrow_seed() -> Seq<u8> {
    seq![101u8, 115u8, 99u8, 114u8, 111u8, 119u8]
}

/// Seeds of the session record of `owner` for the service `service_id`.
pub open spec fn session_seeds(owner: Seq<u8>, service_id: Seq<u8>) -> Seq<Seq<u8>> {
    seq![session_seed(), owner, service_id]
}

/// Seeds of the escrow holder bound to the session record at `session`.
pub open spec fn escrow_seeds(session: Seq<u8>) -> Seq<Seq<u8>> {
    seq![escrow_seed(), session]
}

/// An address with its bump, as plain values.
pub open spec fn address_view(r: Option<(Identity, u8)>) -> Option<(Seq<u8>, u8)> {
    match r {
        Some((k, b)) => Some((k@, b)),
        None => None,
    }
}

/// Relies on `Pubkey::try_find_program_address`: a pure function of the seeds and
/// the program id (SHA-256 over them with a bump, searched from 255 down), which
/// returns `None` instead of panicking.
#[verifier::external_body]
fn try_find_program_address(seeds: &Vec<Vec<u8>>, program: &Identity) -> (r: Option<(Identity, u8)>)
    ensures
        address_view(r) == program_address(seeds.deep_view(), program@),
{
    let slices: Vec<&[u8]> = seeds.iter().map(|s| s.as_slice()).collect();
    Pubkey::try_find_program_address(&slices, &Pubkey::new_from_array(program.bytes)).map(
        |(k, b)| (Identity::new(k.to_bytes()), b),
    )
}

fn program_identity() -> (r: Identity)
    ensures
        r@ == PROGRAM_ID@,
{
    Identity::new(PROGRAM_ID)
}

/// Address of the session record of `owner` for the service `service_id`.
pub fn session_address(owner: &Identity, service_id: &Identity) -> (r: Option<(Identity, u8)>)
    ensures
        address_view(r) == program_address(session_seeds(owner@, service_id@), PROGRAM_ID@),
{
    let seed: Vec<u8> = vec![115u8, 101u8, 115u8, 115u8, 105u8, 111u8, 110u8];
    let o = owner.to_vec();
    let v = service_id.to_vec();
    assert(seed.deep_view() =~= session_seed());
    assert(o.deep_view() =~= owner@);
    assert(v.deep_view() =~= service_id@);
    let ghost parts = seq![seed.deep_view(), o.deep_view(), v.deep_view()];
    let seeds: Vec<Vec<u8>> = vec![seed, o, v];
    assert(seeds.deep_view() =~= parts);
    try_find_program_address(&seeds, &program_identity())
}

/// Address of the escrow holder bound to the session record at `session`.
pub fn escrow_address(session: &Identity) -> (r: Option<(Identity, u8)>)
    ensures
        address_view(r) == program_address(escrow_seeds(session@), PROGRAM_ID@),
{
    let seed: Vec<u8> = vec![101u8, 115u8, 99u8, 114u8, 111u8, 119u8];
    let k = session.to_vec();
    assert(seed.deep_view() =~= escrow_seed());
    assert(k.deep_view() =~= session@);
    let ghost parts = seq![seed.deep_view(), k.deep_view()];
    let seeds: Vec<Vec<u8>> = vec![seed, k];
    assert(seeds.deep_view() =~= parts);
    try_find_program_address(&seeds, &program_identity())
}

} // verus!
