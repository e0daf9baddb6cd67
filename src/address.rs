use vstd::prelude::*;

use crate::key::Pubkey;

verus! {

/// The domain tag that every escrow address is derived from, with the buyer's key.
pub const ESCROW_SEED: [u8; 6] = [101, 115, 99, 114, 111, 119];

/// The bytes of `ESCROW_SEED`: "escrow".
pub open spec fn escrow_tag() -> Seq<u8> {
    seq![101u8, 115u8, 99u8, 114u8, 111u8, 119u8]
}

/// The program-derived address of the seeds `[tag, owner, [bump]]` under the
/// program `program`, or `None` where those seeds give no such address.
pub uninterp spec fn derived_address(tag: Seq<u8>, owner: Seq<u8>, bump: u8, program: Seq<u8>) -> Option<Seq<u8>>;

/// Relies on `Pubkey::create_program_address` of solana-program: called on the
/// seeds `[tag, owner, [bump]]`, it hashes them with the program's key and gives
/// the address, or an error where the seeds are too long or the hash lies on the
/// curve; which of the two depends on the arguments alone.
#[verifier::external_body]
fn create_program_address(tag: &[u8], owner: &Pubkey, bump: u8, program_id: &Pubkey) -> (r: Option<Pubkey>)
    ensures
        r matches Some(k) ==> derived_address(tag@, owner@, bump, program_id@) == Some(k@),
        r is None ==> derived_address(tag@, owner@, bump, program_id@) is None,
{
    let program = anchor_lang::prelude::Pubkey::new_from_array(program_id.bytes);
    let seeds: [&[u8]; 3] = [tag, &owner.bytes, &[bump]];
    anchor_lang::prelude::Pubkey::create_program_address(&seeds, &program)
        .ok()
        .map(|k| Pubkey { bytes: k.to_bytes() })
}

/// Relies on `Pubkey::try_find_program_address` of solana-program: called on the
/// seeds `[tag, owner]`, it tries the bumps from 255 down to 1 with
/// `create_program_address` and gives the first address found with its bump, or
/// `None` where no bump gives one.
#[verifier::external_body]
fn try_find_program_address(tag: &[u8], owner: &Pubkey, program_id: &Pubkey) -> (r: Option<(Pubkey, u8)>)
    ensures
        r matches Some((k, b)) ==> {
            &&& 1 <= b
            &&& derived_address(tag@, owner@, b, program_id@) == Some(k@)
            &&& forall|c: u8| b < c ==> (#[trigger] derived_address(tag@, owner@, c, program_id@)) is None
        },
        r is None ==> forall|c: u8| 1 <= c ==> (#[trigger] derived_address(tag@, owner@, c, program_id@)) is None,
{
    let program = anchor_lang::prelude::Pubkey::new_from_array(program_id.bytes);
    let seeds: [&[u8]; 2] = [tag, &owner.bytes];
    anchor_lang::prelude::Pubkey::try_find_program_address(&seeds, &program)
        .map(|(k, b)| (Pubkey { bytes: k.to_bytes() }, b))
}

/// Whether `bump` is the canonical bump of an escrow of `buyer`: the largest bump
/// from 255 down to 1 that gives an address.
pub open spec fn is_canonical_bump(program_id: Pubkey, buyer: Pubkey, bump: u8) -> bool {
    &&& 1 <= bump
    &&& derived_address(escrow_tag(), buyer@, bump, program_id@) is Some
    &&& forall|c: u8| bump < c ==> (#[trigger] derived_address(escrow_tag(), buyer@, c, program_id@)) is None
}

/// Whether no bump from 255 down to 1 gives an escrow address for `buyer`.
pub open spec fn no_escrow_address(program_id: Pubkey, buyer: Pubkey) -> bool {
    forall|c: u8| 1 <= c ==> (#[trigger] derived_address(escrow_tag(), buyer@, c, program_id@)) is None
}

/// The escrow address of `buyer` under `program_id`, with its canonical bump.
pub fn derive_address(program_id: &Pubkey, buyer: &Pubkey) -> (r: Option<(Pubkey, u8)>)
    ensures
        r matches Some((k, b)) ==> {
            &&& is_canonical_bump(*program_id, *buyer, b)
            &&& derived_address(escrow_tag(), buyer@, b, program_id@) == Some(k@)
        },
        r is None <==> no_escrow_address(*program_id, *buyer),
{
    let tag = ESCROW_SEED;
    assert(tag@ =~= escrow_tag());
    try_find_program_address(&tag, buyer, program_id)
}

/// Whether `address` is the escrow address of `buyer` under `program_id` with the
/// bump `bump`.
pub open spec fn address_matches(address: Pubkey, program_id: Pubkey, buyer: Pubkey, bump: u8) -> bool {
    derived_address(escrow_tag(), buyer@, bump, program_id@) == Some(address@)
}

/// Whether `address` is the escrow address of `buyer` with the bump `bump`.
pub fn verify_address(address: &Pubkey, program_id: &Pubkey, buyer: &Pubkey, bump: u8) -> (r: bool)
    ensures
        r == address_matches(*address, *program_id, *buyer, bump),
{
    let tag = ESCROW_SEED;
    assert(tag@ =~= escrow_tag());
    match create_program_address(&tag, buyer, bump, program_id) {
        Some(k) => k.same_as(address),
        None => false,
    }
}

} // verus!
