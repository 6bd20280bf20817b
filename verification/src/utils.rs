//! Address derivation and validation, and the storage-retention checks.
//!
//! The derivation itself and the retention arithmetic are the host ledger's;
//! they are reached through narrow trusted wrappers, and everything built on
//! them is verified.

use vstd::prelude::*;
use crate::error::{EscrowError, EscrowErrorV};
use crate::pubkey::Pubkey;

verus! {

/// The fixed derivation seed of the coordinator's single registry authority.
pub open spec fn spec_seed() -> Seq<u8> {
    seq![101u8, 115u8, 99u8, 114u8, 111u8, 119u8]
}

/// The fixed derivation seed, as bytes.
pub fn seed_bytes() -> (r: Vec<u8>)
    ensures
        r@ == spec_seed(),
{
    let mut r: Vec<u8> = Vec::new();
    r.push(101u8);
    r.push(115u8);
    r.push(99u8);
    r.push(114u8);
    r.push(111u8);
    r.push(119u8);
    proof {
        assert(r@ =~= spec_seed());
    }
    r
}

/// The derived authority address and disambiguation byte for a coordinator
/// identity and seed, or nothing in the statistically improbable event that
/// no disambiguation byte yields a valid address.
pub uninterp spec fn pda_of(program_id: Seq<u8>, seed: Seq<u8>) -> Option<(Seq<u8>, u8)>;

/// Whether `candidate` is the derived authority address for `program_id` and
/// `seed`.
pub open spec fn pda_matches(program_id: Seq<u8>, seed: Seq<u8>, candidate: Seq<u8>) -> bool {
    match pda_of(program_id, seed) {
        Some(v) => v.0 == candidate,
        None => false,
    }
}

/// Relies on `solana_program::pubkey::Pubkey::try_find_program_address`: a
/// deterministic function of the seed and the program identity alone.
#[verifier::external_body]
fn try_find_authority(program_id: &Pubkey, seed: &Vec<u8>) -> (r: Option<(Pubkey, u8)>)
    requires
        program_id.wf(),
    ensures
        match r {
            Some(v) => pda_of(program_id@, seed@) == Some((v.0@, v.1)) && v.0.wf(),
            None => pda_of(program_id@, seed@) == None::<(Seq<u8>, u8)>,
        },
{
    let id = solana_program::pubkey::Pubkey::new_from_array(
        program_id.bytes.as_slice().try_into().unwrap(),
    );
    match solana_program::pubkey::Pubkey::try_find_program_address(&[seed.as_slice()], &id) {
        Some((address, bump)) => Some((Pubkey { bytes: address.to_bytes().to_vec() }, bump)),
        None => None,
    }
}

/// Derives the authority address and disambiguation byte from the
/// coordinator's identity and a seed. Deterministic: identical inputs always
/// yield the identical result.
pub fn derive(program_id: &Pubkey, seed: &Vec<u8>) -> (r: Option<(Pubkey, u8)>)
    requires
        program_id.wf(),
    ensures
        match r {
            Some(v) => pda_of(program_id@, seed@) == Some((v.0@, v.1)) && v.0.wf(),
            None => pda_of(program_id@, seed@) == None::<(Seq<u8>, u8)>,
        },
{
    try_find_authority(program_id, seed)
}

/// Recomputes the derived authority for `program_id` and `seed` and checks
/// it against `candidate`. Succeeds exactly when `candidate` is the derived
/// address, returning it with its disambiguation byte; any other outcome is
/// `InvalidAuthority`.
pub fn verify_pda(candidate: &Pubkey, program_id: &Pubkey, seed: &Vec<u8>) -> (r: Result<
    (Pubkey, u8),
    EscrowError,
>)
    requires
        program_id.wf(),
    ensures
        match r {
            Ok(v) => {
                &&& pda_of(program_id@, seed@) == Some((v.0@, v.1))
                &&& v.0@ == candidate@
                &&& v.0.wf()
                &&& pda_matches(program_id@, seed@, candidate@)
            },
            Err(e) => e@ == EscrowErrorV::InvalidAuthority && !pda_matches(
                program_id@,
                seed@,
                candidate@,
            ),
        },
{
    match derive(program_id, seed) {
        None => Err(EscrowError::InvalidAuthority),
        Some((address, bump)) => {
            if address.key_eq(candidate) {
                Ok((address, bump))
            } else {
                Err(EscrowError::InvalidAuthority)
            }
        },
    }
}

/// The minimum balance the host's default storage-retention policy demands
/// of a buffer of `space` bytes.
pub uninterp spec fn min_balance_of(space: usize) -> u64;

/// Relies on `solana_program::rent::Rent::default().minimum_balance`: the
/// deployment-default retention minimum, a function of the size alone. The
/// size bound keeps its per-byte-rate multiplication inside 64 bits.
#[verifier::external_body]
pub(crate) fn min_retention_balance(space: usize) -> (r: u64)
    requires
        space < 0x0008_0000_0000_0000,
    ensures
        r == min_balance_of(space),
{
    solana_program::rent::Rent::default().minimum_balance(space)
}

/// Relies on `solana_program::rent::Rent::default().is_exempt`, defined in
/// its source as `balance >= minimum_balance(data_len)`. The length bound
/// keeps its per-byte-rate multiplication inside 64 bits.
#[verifier::external_body]
fn retention_exempt(lamports: u64, data_len: usize) -> (r: bool)
    requires
        data_len < 0x0008_0000_0000_0000,
    ensures
        r == (lamports >= min_balance_of(data_len)),
{
    solana_program::rent::Rent::default().is_exempt(lamports, data_len)
}

/// Checks an account's balance against the storage-retention policy for its
/// data length. Succeeds exactly when the balance meets the policy minimum.
pub fn verify_rent_exemption(lamports: u64, data_len: usize) -> (r: Result<(), EscrowError>)
    requires
        data_len < 0x0008_0000_0000_0000,
    ensures
        match r {
            Ok(_) => lamports >= min_balance_of(data_len),
            Err(e) => e@ == EscrowErrorV::NotRentExempt && lamports < min_balance_of(data_len),
        },
{
    if retention_exempt(lamports, data_len) {
        Ok(())
    } else {
        Err(EscrowError::NotRentExempt)
    }
}

} // verus!
