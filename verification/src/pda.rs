//! Program-derived addresses and the well-known program ids, taken from the
//! outside crates behind trusted items.
use crate::codec::Address;
use vstd::prelude::*;

verus! {

/// What `Address::try_find_program_address(seeds, program_id)` returns: the
/// first off-curve address hashed from the seeds, a bump seed (tried from 255
/// down) and the program id, together with that bump; `None` when no bump
/// gives one or the seeds are too many or too long.  It is a function of the
/// seeds and the program id alone.
pub uninterp spec fn spec_find_program_address(seeds: Seq<Seq<u8>>, program_id: Seq<u8>) -> Option<
    (Seq<u8>, u8),
>;

/// Calls `solana_address::Address::try_find_program_address` (re-exported by
/// pinocchio as `pinocchio::Address`).  Trusted: its result is the value of
/// `spec_find_program_address` on the seeds' bytes and the program id's bytes.
#[verifier::external_body]
pub(crate) fn find_program_address(seeds: &Vec<Vec<u8>>, program_id: &Address) -> (r: Option<
    (Address, u8),
>)
    ensures
        match r {
            Some((address, bump)) => spec_find_program_address(seeds.deep_view(), program_id@)
                == Some((address@, bump)),
            None => spec_find_program_address(seeds.deep_view(), program_id@) is None,
        },
{
    let slices: Vec<&[u8]> = seeds.iter().map(|s| s.as_slice()).collect();
    let program = pinocchio::Address::new_from_array(*program_id);
    match pinocchio::Address::try_find_program_address(&slices, &program) {
        Some((address, bump)) => Some((address.to_bytes(), bump)),
        None => None,
    }
}

/// The system program id, `11111111111111111111111111111111`: 32 zero bytes.
pub open spec fn spec_system_program_id() -> Seq<u8> {
    Seq::new(32, |i: int| 0u8)
}

/// The SPL token program id, `TokenkegQfeZyiNwAJbNbGKPFXCWuBvf9Ss623VQ5DA`.
pub open spec fn spec_token_program_id() -> Seq<u8> {
    seq![
        6u8, 221, 246, 225, 215, 101, 161, 147, 217, 203, 225, 70, 206, 235, 121, 172,
        28, 180, 133, 237, 95, 91, 55, 145, 58, 140, 245, 133, 126, 255, 0, 169,
    ]
}

/// Calls `pinocchio_system::id()`.  Trusted: the crate declares it with
/// `declare_id!("11111111111111111111111111111111")`, whose bytes are all zero.
#[verifier::external_body]
pub(crate) fn system_program_id() -> (r: Address)
    ensures
        r@ == spec_system_program_id(),
{
    pinocchio_system::id().to_bytes()
}

/// Calls `pinocchio_token::id()`.  Trusted: the crate declares it with
/// `declare_id!("TokenkegQfeZyiNwAJbNbGKPFXCWuBvf9Ss623VQ5DA")`, whose
/// base58 decoding is the 32 bytes of `spec_token_program_id`.
#[verifier::external_body]
pub(crate) fn token_program_id() -> (r: Address)
    ensures
        r@ == spec_token_program_id(),
{
    pinocchio_token::id().to_bytes()
}

} // verus!
