//! The asset-ledger collaborator's view of an asset account: its asset type,
//! its owner of record, and the quantity it holds.
//!
//! The asset ledger's record layout is fixed width (165 bytes): asset type at
//! 0..32, owner at 32..64, little-endian quantity at 64..72, an optional
//! delegate with a 4-byte tag at 72, a state byte at 108, an optional native
//! marker with its tag at 109, and an optional close authority with its tag
//! at 129. Reading it is the ledger's own code, behind a trusted wrapper.

use solana_program::program_pack::Pack;
use vstd::prelude::*;
use vstd::bytes::spec_u64_from_le_bytes;
use crate::error::{EscrowError, EscrowErrorV};
use crate::pubkey::Pubkey;

verus! {

/// What the asset ledger reports of one asset account.
#[derive(Debug)]
pub struct TokenAccountData {
    /// The asset-type identifier.
    pub mint: Pubkey,
    /// The owner of record.
    pub owner: Pubkey,
    /// The quantity of the asset held.
    pub amount: u64,
}

/// The mathematical model of an asset-account record.
pub ghost struct TokenAccountDataV {
    pub mint: Seq<u8>,
    pub owner: Seq<u8>,
    pub amount: u64,
}

impl View for TokenAccountData {
    type V = TokenAccountDataV;

    open spec fn view(&self) -> TokenAccountDataV {
        TokenAccountDataV { mint: self.mint@, owner: self.owner@, amount: self.amount }
    }
}

/// Whether four bytes starting at `i` are a valid optional-field tag.
pub open spec fn coption_tag_ok(d: Seq<u8>, i: int) -> bool {
    (d[i] == 0 || d[i] == 1) && d[i + 1] == 0 && d[i + 2] == 0 && d[i + 3] == 0
}

/// Whether a buffer parses as an initialized asset-account record: exactly
/// 165 bytes, every optional-field tag valid, and the state byte naming an
/// initialized state (1 or 2).
pub open spec fn token_account_parse_ok(d: Seq<u8>) -> bool {
    &&& d.len() == 165
    &&& coption_tag_ok(d, 72)
    &&& (d[108] == 1 || d[108] == 2)
    &&& coption_tag_ok(d, 109)
    &&& coption_tag_ok(d, 129)
}

/// The record read from a buffer that parses.
pub open spec fn spec_token_account(d: Seq<u8>) -> TokenAccountDataV {
    TokenAccountDataV {
        mint: d.subrange(0, 32),
        owner: d.subrange(32, 64),
        amount: spec_u64_from_le_bytes(d.subrange(64, 72)),
    }
}

/// Relies on `spl_token::state::Account::unpack`: it accepts exactly the
/// 165-byte initialized records with valid optional-field tags, and reads
/// the asset type, owner and little-endian quantity at fixed offsets.
#[verifier::external_body]
pub(crate) fn unpack_token_account(data: &Vec<u8>) -> (r: Result<TokenAccountData, EscrowError>)
    ensures
        match r {
            Ok(a) => {
                &&& token_account_parse_ok(data@)
                &&& a@ == spec_token_account(data@)
                &&& a.mint.wf()
                &&& a.owner.wf()
            },
            Err(e) => !token_account_parse_ok(data@) && e@ == EscrowErrorV::MalformedAssetAccount,
        },
{
    match spl_token::state::Account::unpack(data.as_slice()) {
        Ok(a) => Ok(TokenAccountData {
            mint: Pubkey { bytes: a.mint.to_bytes().to_vec() },
            owner: Pubkey { bytes: a.owner.to_bytes().to_vec() },
            amount: a.amount,
        }),
        Err(_) => Err(EscrowError::MalformedAssetAccount),
    }
}

/// Reads an asset-account record, reporting `MalformedAssetAccount` exactly
/// when the buffer is not a well-shaped initialized record.
pub fn read_token_account(data: &Vec<u8>) -> (r: Result<TokenAccountData, EscrowError>)
    ensures
        match r {
            Ok(a) => {
                &&& token_account_parse_ok(data@)
                &&& a@ == spec_token_account(data@)
                &&& a.mint.wf()
                &&& a.owner.wf()
            },
            Err(e) => !token_account_parse_ok(data@) && e@ == EscrowErrorV::MalformedAssetAccount,
        },
{
    unpack_token_account(data)
}

} // verus!
