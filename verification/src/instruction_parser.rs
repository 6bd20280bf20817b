//! The request decoder: an opaque payload becomes one of the four tagged
//! operations, after shape checks only — no semantic validation happens here.
//!
//! Wire format: `[1 byte tag][operation-specific bytes]`. Tag 0 carries seed
//! bytes and one trailing disambiguation byte; tags 1 and 2 carry a 4-byte
//! little-endian expected amount; tag 3 carries nothing.

use vstd::prelude::*;
use vstd::bytes::{spec_u32_from_le_bytes, u32_from_le_bytes};
use vstd::slice::slice_subrange;
use crate::error::{EscrowError, EscrowErrorV};
use crate::state::copy_range;

verus! {

/// One decoded request.
#[derive(Debug)]
pub enum EscrowInstruction {
    /// Create the registry storage, validating against the supplied seed.
    Init { seed: Vec<u8>, bump_seed: u8 },
    /// Lock an asset account and record the depositor's expectations.
    Deposit { amount_expected: u32 },
    /// Settle a deposited account against the executor's offer.
    Execute { amount_expected: u32 },
    /// Return a deposited account to its depositor.
    Reclaim,
}

/// The mathematical model of a decoded request.
pub ghost enum EscrowInstructionV {
    Init { seed: Seq<u8>, bump_seed: u8 },
    Deposit { amount_expected: u32 },
    Execute { amount_expected: u32 },
    Reclaim,
}

impl View for EscrowInstruction {
    type V = EscrowInstructionV;

    open spec fn view(&self) -> EscrowInstructionV {
        match self {
            EscrowInstruction::Init { seed, bump_seed } => EscrowInstructionV::Init {
                seed: seed@,
                bump_seed: *bump_seed,
            },
            EscrowInstruction::Deposit { amount_expected } => EscrowInstructionV::Deposit {
                amount_expected: *amount_expected,
            },
            EscrowInstruction::Execute { amount_expected } => EscrowInstructionV::Execute {
                amount_expected: *amount_expected,
            },
            EscrowInstruction::Reclaim => EscrowInstructionV::Reclaim,
        }
    }
}

/// What decoding a payload yields: the operation for a well-shaped payload,
/// and the exact failure otherwise.
pub open spec fn spec_parse_data(d: Seq<u8>) -> Result<EscrowInstructionV, EscrowErrorV> {
    if d.len() == 0 {
        Err(EscrowErrorV::EmptyPayload)
    } else if d[0] == 0 {
        if d.len() < 2 {
            Err(EscrowErrorV::TruncatedPayload)
        } else {
            Ok(EscrowInstructionV::Init {
                seed: d.subrange(1, d.len() - 1),
                bump_seed: d[d.len() - 1],
            })
        }
    } else if d[0] == 1 {
        if d.len() < 5 {
            Err(EscrowErrorV::TruncatedPayload)
        } else {
            Ok(EscrowInstructionV::Deposit {
                amount_expected: spec_u32_from_le_bytes(d.subrange(1, 5)),
            })
        }
    } else if d[0] == 2 {
        if d.len() < 5 {
            Err(EscrowErrorV::TruncatedPayload)
        } else {
            Ok(EscrowInstructionV::Execute {
                amount_expected: spec_u32_from_le_bytes(d.subrange(1, 5)),
            })
        }
    } else if d[0] == 3 {
        Ok(EscrowInstructionV::Reclaim)
    } else {
        Err(EscrowErrorV::UnknownOperation)
    }
}

/// Decodes a request payload, checking shape only.
pub fn parse_data(instruction_data: &Vec<u8>) -> (r: Result<EscrowInstruction, EscrowError>)
    ensures
        match r {
            Ok(ins) => spec_parse_data(instruction_data@) == Ok::<EscrowInstructionV,
                EscrowErrorV>(ins@),
            Err(e) => spec_parse_data(instruction_data@) == Err::<EscrowInstructionV,
                EscrowErrorV>(e@),
        },
{
    let data_len = instruction_data.len();
    if data_len == 0 {
        return Err(EscrowError::EmptyPayload);
    }
    let tag = instruction_data[0];
    if tag == 0 {
        if data_len < 2 {
            return Err(EscrowError::TruncatedPayload);
        }
        let seed = copy_range(instruction_data, 1, data_len - 2);
        let bump_seed = instruction_data[data_len - 1];
        Ok(EscrowInstruction::Init { seed, bump_seed })
    } else if tag == 1 {
        if data_len < 5 {
            return Err(EscrowError::TruncatedPayload);
        }
        let amount_expected = u32_from_le_bytes(slice_subrange(instruction_data.as_slice(), 1, 5));
        Ok(EscrowInstruction::Deposit { amount_expected })
    } else if tag == 2 {
        if data_len < 5 {
            return Err(EscrowError::TruncatedPayload);
        }
        let amount_expected = u32_from_le_bytes(slice_subrange(instruction_data.as_slice(), 1, 5));
        Ok(EscrowInstruction::Execute { amount_expected })
    } else if tag == 3 {
        Ok(EscrowInstruction::Reclaim)
    } else {
        Err(EscrowError::UnknownOperation)
    }
}

} // verus!
