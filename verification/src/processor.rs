//! The instruction processor: the four-operation state machine over the
//! registry. Each handler validates its plain-value inputs, derives and
//! checks the authority address, rewrites the registry buffer, and returns
//! the ordered list of custody effects the host must apply — all gated by a
//! single upfront validation pass, so a failing check leaves the registry
//! byte-for-byte unchanged and asks for no custody change.

use vstd::prelude::*;
use crate::error::{EscrowError, EscrowErrorV};
use crate::instruction_parser::{parse_data, spec_parse_data, EscrowInstruction, EscrowInstructionV};
use crate::pubkey::{Pubkey, zero_address};
use crate::state::{
    first_free, find_match, registry_bytes_ok, released_slot, spec_decode_collection,
    spec_encode_collection, Escrow, EscrowCollection, EscrowV, DATA_LEN,
};
use crate::token_account::{read_token_account, spec_token_account, token_account_parse_ok};
use crate::utils::{
    min_balance_of, min_retention_balance, pda_matches, pda_of, spec_seed, seed_bytes, verify_pda,
    verify_rent_exemption,
};

verus! {

/// What the processor sees of one supplied account: its address, the program
/// owning it, its balance, its host-verified flags, and its data bytes.
#[derive(Debug)]
pub struct AccountView {
    /// The account's address.
    pub key: Pubkey,
    /// The program that owns the account.
    pub owner_program: Pubkey,
    /// The account's balance.
    pub lamports: u64,
    /// Whether the host verified the account's signature.
    pub is_signer: bool,
    /// Whether the host granted write access.
    pub is_writable: bool,
    /// The account's data.
    pub data: Vec<u8>,
}

/// The mathematical model of a supplied account.
pub ghost struct AccountViewV {
    pub key: Seq<u8>,
    pub owner_program: Seq<u8>,
    pub lamports: u64,
    pub is_signer: bool,
    pub is_writable: bool,
    pub data: Seq<u8>,
}

impl View for AccountView {
    type V = AccountViewV;

    open spec fn view(&self) -> AccountViewV {
        AccountViewV {
            key: self.key@,
            owner_program: self.owner_program@,
            lamports: self.lamports,
            is_signer: self.is_signer,
            is_writable: self.is_writable,
            data: self.data@,
        }
    }
}

/// A well-formed account model: both addresses hold exactly 32 bytes, and
/// the data stays inside the host's storable range (the bound also keeps
/// the retention arithmetic of the storage policy inside 64 bits).
pub open spec fn account_wf(a: AccountViewV) -> bool {
    &&& a.key.len() == 32
    &&& a.owner_program.len() == 32
    &&& a.data.len() < 0x0008_0000_0000_0000
}

/// One external custody effect the host must apply on a successful
/// operation, in order. No effect is requested on any failing path.
#[derive(Debug, PartialEq, Eq)]
pub enum Effect {
    /// Create and fund the registry buffer at the derived address.
    CreateRegistry {
        /// The fee-paying account.
        payer: Pubkey,
        /// The derived registry address.
        address: Pubkey,
        /// The funding required for permanent retention.
        lamports: u64,
        /// The buffer size in bytes.
        space: u64,
        /// The authority's disambiguation byte, for co-signing.
        bump: u8,
    },
    /// Reauthorize an asset account that its current owner signs for.
    SetAuthorityByOwner {
        /// The asset account whose owner of record changes.
        account: Pubkey,
        /// The owner of record afterwards.
        new_authority: Pubkey,
        /// The current owner, a verified signer of this request.
        owner: Pubkey,
    },
    /// Reauthorize an asset account under the coordinator's derived
    /// authority, co-signed with the fixed seed and `bump`.
    SetAuthorityByDerived {
        /// The asset account whose owner of record changes.
        account: Pubkey,
        /// The owner of record afterwards.
        new_authority: Pubkey,
        /// The derived authority that currently owns the account.
        authority: Pubkey,
        /// The authority's disambiguation byte, for co-signing.
        bump: u8,
    },
}

/// The mathematical model of one custody effect.
pub ghost enum EffectV {
    CreateRegistry { payer: Seq<u8>, address: Seq<u8>, lamports: u64, space: u64, bump: u8 },
    SetAuthorityByOwner { account: Seq<u8>, new_authority: Seq<u8>, owner: Seq<u8> },
    SetAuthorityByDerived {
        account: Seq<u8>,
        new_authority: Seq<u8>,
        authority: Seq<u8>,
        bump: u8,
    },
}

impl View for Effect {
    type V = EffectV;

    open spec fn view(&self) -> EffectV {
        match self {
            Effect::CreateRegistry { payer, address, lamports, space, bump } =>
                EffectV::CreateRegistry {
                    payer: payer@,
                    address: address@,
                    lamports: *lamports,
                    space: *space,
                    bump: *bump,
                },
            Effect::SetAuthorityByOwner { account, new_authority, owner } =>
                EffectV::SetAuthorityByOwner {
                    account: account@,
                    new_authority: new_authority@,
                    owner: owner@,
                },
            Effect::SetAuthorityByDerived { account, new_authority, authority, bump } =>
                EffectV::SetAuthorityByDerived {
                    account: account@,
                    new_authority: new_authority@,
                    authority: authority@,
                    bump: *bump,
                },
        }
    }
}

/// The models of a list of effects, in order.
pub open spec fn effects_view(v: Seq<Effect>) -> Seq<EffectV> {
    v.map_values(|e: Effect| e@)
}

// ---------------------------------------------------------------------------
// The state machine, as mathematics: one transition function per operation.
// Each takes the operation's plain inputs and yields either the new registry
// bytes with the ordered custody effects, or the exact error.
// ---------------------------------------------------------------------------

/// The inputs of one initialize operation.
pub ghost struct InitIn {
    pub program_id: Seq<u8>,
    pub payer_key: Seq<u8>,
    pub payer_is_signer: bool,
    pub payer_is_writable: bool,
    pub pda_key: Seq<u8>,
    pub pda_is_signer: bool,
    pub pda_is_writable: bool,
    pub pda_data_len: nat,
    pub system_key: Seq<u8>,
    pub seed: Seq<u8>,
    pub width: nat,
}

/// What one initialize operation yields: the registry-creation effect, or
/// the exact error. The registry buffer itself is created by the host, so no
/// registry bytes are produced here.
pub open spec fn spec_init(i: InitIn) -> Result<Seq<EffectV>, EscrowErrorV> {
    if !i.payer_is_signer {
        Err(EscrowErrorV::MissingRequiredSignature)
    } else if !i.payer_is_writable {
        Err(EscrowErrorV::AccountNotWritable)
    } else if i.pda_is_signer {
        Err(EscrowErrorV::InvalidAuthority)
    } else if !i.pda_is_writable {
        Err(EscrowErrorV::AccountNotWritable)
    } else if i.system_key != zero_address() {
        Err(EscrowErrorV::IncorrectProgramId)
    } else {
        match pda_of(i.program_id, i.seed) {
            None => Err(EscrowErrorV::InvalidAuthority),
            Some(der) => if der.0 != i.pda_key {
                Err(EscrowErrorV::InvalidAuthority)
            } else if i.pda_data_len != 0 {
                Err(EscrowErrorV::AuthorityAlreadyExists)
            } else {
                Ok(
                    seq![
                        EffectV::CreateRegistry {
                            payer: i.payer_key,
                            address: i.pda_key,
                            lamports: min_balance_of((101 * i.width) as usize),
                            space: (101 * i.width) as u64,
                            bump: der.1,
                        },
                    ],
                )
            },
        }
    }
}

/// The inputs of one deposit operation.
pub ghost struct DepositIn {
    pub program_id: Seq<u8>,
    pub registry: Seq<u8>,
    pub width: nat,
    pub pda_key: Seq<u8>,
    pub pda_owner_program: Seq<u8>,
    pub owner_key: Seq<u8>,
    pub owner_is_signer: bool,
    pub token_key: Seq<u8>,
    pub token_owner_program: Seq<u8>,
    pub token_is_writable: bool,
    pub token_lamports: u64,
    pub token_data: Seq<u8>,
    pub token_program_key: Seq<u8>,
    pub token_expected: Seq<u8>,
    pub amount_expected: u32,
}

/// What one deposit yields: the registry bytes with the lowest-index free
/// slot populated and one owner-signed custody transfer to the derived
/// authority, or the exact error.
pub open spec fn spec_deposit(i: DepositIn) -> Result<(Seq<u8>, Seq<EffectV>), EscrowErrorV> {
    if !i.owner_is_signer {
        Err(EscrowErrorV::MissingRequiredSignature)
    } else if i.token_owner_program != i.token_program_key {
        Err(EscrowErrorV::IncorrectProgramId)
    } else if !i.token_is_writable {
        Err(EscrowErrorV::AccountNotWritable)
    } else if i.token_lamports < min_balance_of(i.token_data.len() as usize) {
        Err(EscrowErrorV::NotRentExempt)
    } else if i.pda_owner_program != i.program_id {
        Err(EscrowErrorV::IncorrectProgramId)
    } else if !token_account_parse_ok(i.token_data) {
        Err(EscrowErrorV::MalformedAssetAccount)
    } else if spec_token_account(i.token_data).owner != i.owner_key {
        Err(EscrowErrorV::IllegalOwner)
    } else {
        match pda_of(i.program_id, spec_seed()) {
            None => Err(EscrowErrorV::InvalidAuthority),
            Some(der) => if der.0 != i.pda_key {
                Err(EscrowErrorV::InvalidAuthority)
            } else if !registry_bytes_ok(i.registry, i.width) {
                Err(EscrowErrorV::MalformedState)
            } else {
                let coll = spec_decode_collection(i.registry, i.width);
                match first_free(coll) {
                    None => Err(EscrowErrorV::NoAvailableSlots),
                    Some(idx) => {
                        let slot = EscrowV {
                            active: true,
                            amount_expected: i.amount_expected,
                            token_expected: i.token_expected,
                            holding_account: i.token_key,
                            owner_account: i.owner_key,
                        };
                        Ok(
                            (
                                spec_encode_collection(coll.update(idx, slot)),
                                seq![
                                    EffectV::SetAuthorityByOwner {
                                        account: i.token_key,
                                        new_authority: i.pda_key,
                                        owner: i.owner_key,
                                    },
                                ],
                            ),
                        )
                    },
                }
            },
        }
    }
}

/// The inputs of one execute (settlement) operation.
pub ghost struct ExecuteIn {
    pub program_id: Seq<u8>,
    pub registry: Seq<u8>,
    pub width: nat,
    pub pda_key: Seq<u8>,
    pub executor_key: Seq<u8>,
    pub executor_is_signer: bool,
    pub token_key: Seq<u8>,
    pub token_is_writable: bool,
    pub token_lamports: u64,
    pub token_data: Seq<u8>,
    pub token_expected: Seq<u8>,
    pub deposit_key: Seq<u8>,
    pub deposit_is_writable: bool,
    pub deposit_data: Seq<u8>,
    pub amount_expected: u32,
}

/// What one settlement yields: success exactly when the slot is found, the
/// deposited account is under the derived authority, and all four mutual
/// expectations hold — then the slot is released and the two custody
/// transfers are requested in order; otherwise the exact error, each
/// mismatch reported with the expected and the offered value.
pub open spec fn spec_execute(i: ExecuteIn) -> Result<(Seq<u8>, Seq<EffectV>), EscrowErrorV> {
    if !i.executor_is_signer {
        Err(EscrowErrorV::MissingRequiredSignature)
    } else if !i.deposit_is_writable {
        Err(EscrowErrorV::AccountNotWritable)
    } else if !i.token_is_writable {
        Err(EscrowErrorV::AccountNotWritable)
    } else if i.token_lamports < min_balance_of(i.token_data.len() as usize) {
        Err(EscrowErrorV::NotRentExempt)
    } else if !registry_bytes_ok(i.registry, i.width) {
        Err(EscrowErrorV::MalformedState)
    } else if !token_account_parse_ok(i.token_data) {
        Err(EscrowErrorV::MalformedAssetAccount)
    } else {
        let coll = spec_decode_collection(i.registry, i.width);
        let tok = spec_token_account(i.token_data);
        match find_match(coll, i.deposit_key) {
            None => Err(EscrowErrorV::NoMatchingSlot),
            Some(idx) => {
                let slot = coll[idx];
                match pda_of(i.program_id, spec_seed()) {
                    None => Err(EscrowErrorV::InvalidAuthority),
                    Some(der) => if der.0 != i.pda_key {
                        Err(EscrowErrorV::InvalidAuthority)
                    } else if !token_account_parse_ok(i.deposit_data) {
                        Err(EscrowErrorV::MalformedAssetAccount)
                    } else {
                        let dep = spec_token_account(i.deposit_data);
                        if dep.owner != i.pda_key {
                            Err(EscrowErrorV::IllegalOwner)
                        } else if !slot.active {
                            Err(EscrowErrorV::NotInitialized)
                        } else if tok.amount != slot.amount_expected as u64 {
                            Err(EscrowErrorV::ExecutorAmountMismatch {
                                expected: slot.amount_expected,
                                offered: tok.amount,
                            })
                        } else if dep.amount != i.amount_expected as u64 {
                            Err(EscrowErrorV::DepositorAmountMismatch {
                                expected: i.amount_expected,
                                offered: dep.amount,
                            })
                        } else if slot.token_expected != tok.mint {
                            Err(EscrowErrorV::ExecutorAssetMismatch {
                                expected: slot.token_expected,
                                offered: tok.mint,
                            })
                        } else if dep.mint != i.token_expected {
                            Err(EscrowErrorV::DepositorAssetMismatch {
                                expected: i.token_expected,
                                offered: dep.mint,
                            })
                        } else {
                            Ok(
                                (
                                    spec_encode_collection(coll.update(idx, released_slot())),
                                    seq![
                                        EffectV::SetAuthorityByOwner {
                                            account: i.token_key,
                                            new_authority: slot.owner_account,
                                            owner: i.executor_key,
                                        },
                                        EffectV::SetAuthorityByDerived {
                                            account: i.deposit_key,
                                            new_authority: i.executor_key,
                                            authority: i.pda_key,
                                            bump: der.1,
                                        },
                                    ],
                                ),
                            )
                        }
                    },
                }
            },
        }
    }
}

/// The inputs of one reclaim operation.
pub ghost struct ReclaimIn {
    pub program_id: Seq<u8>,
    pub registry: Seq<u8>,
    pub width: nat,
    pub pda_key: Seq<u8>,
    pub owner_key: Seq<u8>,
    pub owner_is_signer: bool,
    pub token_key: Seq<u8>,
    pub token_is_writable: bool,
    pub token_data: Seq<u8>,
}

/// What one reclaim yields: the slot released and one derived-authority
/// custody transfer back to the depositor, exactly when the slot is found,
/// the account is under the derived authority, and the caller is the
/// recorded depositor; otherwise the exact error.
pub open spec fn spec_reclaim(i: ReclaimIn) -> Result<(Seq<u8>, Seq<EffectV>), EscrowErrorV> {
    if !i.owner_is_signer {
        Err(EscrowErrorV::MissingRequiredSignature)
    } else if !i.token_is_writable {
        Err(EscrowErrorV::AccountNotWritable)
    } else {
        match pda_of(i.program_id, spec_seed()) {
            None => Err(EscrowErrorV::InvalidAuthority),
            Some(der) => if der.0 != i.pda_key {
                Err(EscrowErrorV::InvalidAuthority)
            } else if !registry_bytes_ok(i.registry, i.width) {
                Err(EscrowErrorV::MalformedState)
            } else if !token_account_parse_ok(i.token_data) {
                Err(EscrowErrorV::MalformedAssetAccount)
            } else {
                let coll = spec_decode_collection(i.registry, i.width);
                let tok = spec_token_account(i.token_data);
                match find_match(coll, i.token_key) {
                    None => Err(EscrowErrorV::NoMatchingSlot),
                    Some(idx) => if tok.owner != i.pda_key {
                        Err(EscrowErrorV::IllegalOwner)
                    } else if coll[idx].owner_account != i.owner_key {
                        Err(EscrowErrorV::IllegalOwner)
                    } else {
                        Ok(
                            (
                                spec_encode_collection(coll.update(idx, released_slot())),
                                seq![
                                    EffectV::SetAuthorityByDerived {
                                        account: i.token_key,
                                        new_authority: i.owner_key,
                                        authority: i.pda_key,
                                        bump: der.1,
                                    },
                                ],
                            ),
                        )
                    },
                }
            },
        }
    }
}

// ---------------------------------------------------------------------------
// The executable handlers, each proved equal to its transition function.
// ---------------------------------------------------------------------------

/// Creates the coordinator's registry storage; one-time per deployment. The
/// caller pays; the supplied address is validated against derivation with
/// the supplied seed; the storage collaborator must be the system program
/// (the well-known zero address); existing storage is refused.
pub fn init_escrow(
    payer: &AccountView,
    pda: &AccountView,
    system: &AccountView,
    program_id: &Pubkey,
    seed: &Vec<u8>,
    width: usize,
) -> (r: Result<Vec<Effect>, EscrowError>)
    requires
        program_id.wf(),
        101 * width <= usize::MAX,
        101 * width < 0x0008_0000_0000_0000,
    ensures
        ({
            let out = spec_init(
                InitIn {
                    program_id: program_id@,
                    payer_key: payer@.key,
                    payer_is_signer: payer@.is_signer,
                    payer_is_writable: payer@.is_writable,
                    pda_key: pda@.key,
                    pda_is_signer: pda@.is_signer,
                    pda_is_writable: pda@.is_writable,
                    pda_data_len: pda@.data.len(),
                    system_key: system@.key,
                    seed: seed@,
                    width: width as nat,
                },
            );
            match r {
                Ok(effs) => out matches Ok(p) && effects_view(effs@) == p,
                Err(e) => out matches Err(ev) && e@ == ev,
            }
        }),
{
    if !payer.is_signer {
        return Err(EscrowError::MissingRequiredSignature);
    }
    if !payer.is_writable {
        return Err(EscrowError::AccountNotWritable);
    }
    if pda.is_signer {
        return Err(EscrowError::InvalidAuthority);
    }
    if !pda.is_writable {
        return Err(EscrowError::AccountNotWritable);
    }
    if !system.key.key_eq(&Pubkey::zeroed()) {
        return Err(EscrowError::IncorrectProgramId);
    }
    match verify_pda(&pda.key, program_id, seed) {
        Err(e) => Err(e),
        Ok((address, bump)) => {
            if pda.data.len() != 0 {
                return Err(EscrowError::AuthorityAlreadyExists);
            }
            let space = width * DATA_LEN;
            let lamports = min_retention_balance(space);
            let mut effs: Vec<Effect> = Vec::new();
            effs.push(
                Effect::CreateRegistry {
                    payer: payer.key.clone(),
                    address,
                    lamports,
                    space: space as u64,
                    bump,
                },
            );
            proof {
                let out = spec_init(
                    InitIn {
                        program_id: program_id@,
                        payer_key: payer@.key,
                        payer_is_signer: payer@.is_signer,
                        payer_is_writable: payer@.is_writable,
                        pda_key: pda@.key,
                        pda_is_signer: pda@.is_signer,
                        pda_is_writable: pda@.is_writable,
                        pda_data_len: pda@.data.len(),
                        system_key: system@.key,
                        seed: seed@,
                        width: width as nat,
                    },
                );
                assert(effects_view(effs@) =~= out->Ok_0);
            }
            Ok(effs)
        },
    }
}

/// Locks the offered asset account in the lowest-index free slot, recording
/// the depositor's expectations, and asks the host to pass the account's
/// custody to the derived authority. A failing check leaves the registry
/// unchanged and asks for nothing.
pub fn deposit(
    registry_data: &mut Vec<u8>,
    width: usize,
    pda: &AccountView,
    owner: &AccountView,
    token_account: &AccountView,
    token_program: &AccountView,
    token_expected: &Pubkey,
    program_id: &Pubkey,
    amount_expected: u32,
) -> (r: Result<Vec<Effect>, EscrowError>)
    requires
        program_id.wf(),
        account_wf(pda@),
        account_wf(owner@),
        account_wf(token_account@),
        account_wf(token_program@),
        token_expected.wf(),
    ensures
        ({
            let out = spec_deposit(
                DepositIn {
                    program_id: program_id@,
                    registry: old(registry_data)@,
                    width: width as nat,
                    pda_key: pda@.key,
                    pda_owner_program: pda@.owner_program,
                    owner_key: owner@.key,
                    owner_is_signer: owner@.is_signer,
                    token_key: token_account@.key,
                    token_owner_program: token_account@.owner_program,
                    token_is_writable: token_account@.is_writable,
                    token_lamports: token_account@.lamports,
                    token_data: token_account@.data,
                    token_program_key: token_program@.key,
                    token_expected: token_expected@,
                    amount_expected: amount_expected,
                },
            );
            match r {
                Ok(effs) => out matches Ok(p) && final(registry_data)@ == p.0 && effects_view(
                    effs@,
                ) == p.1,
                Err(e) => out matches Err(ev) && e@ == ev && final(registry_data)@ == old(
                    registry_data,
                )@,
            }
        }),
{
    if !owner.is_signer {
        return Err(EscrowError::MissingRequiredSignature);
    }
    if !token_account.owner_program.key_eq(&token_program.key) {
        return Err(EscrowError::IncorrectProgramId);
    }
    if !token_account.is_writable {
        return Err(EscrowError::AccountNotWritable);
    }
    if let Err(e) = verify_rent_exemption(token_account.lamports, token_account.data.len()) {
        return Err(e);
    }
    if !pda.owner_program.key_eq(program_id) {
        return Err(EscrowError::IncorrectProgramId);
    }
    let tok = match read_token_account(&token_account.data) {
        Ok(t) => t,
        Err(e) => return Err(e),
    };
    if !tok.owner.key_eq(&owner.key) {
        return Err(EscrowError::IllegalOwner);
    }
    let seed = seed_bytes();
    let verified = match verify_pda(&pda.key, program_id, &seed) {
        Ok(v) => v,
        Err(e) => return Err(e),
    };
    let mut coll = match EscrowCollection::unpack_from_slice(registry_data, width) {
        Ok(c) => c,
        Err(e) => return Err(e),
    };
    match coll.find_next_available() {
        None => Err(EscrowError::NoAvailableSlots),
        Some(idx) => {
            let slot = Escrow {
                active: true,
                amount_expected,
                token_expected: token_expected.clone(),
                holding_account: token_account.key.clone(),
                owner_account: owner.key.clone(),
            };
            coll.set_slot(idx, slot);
            coll.pack_into_slice(registry_data);
            let mut effs: Vec<Effect> = Vec::new();
            effs.push(
                Effect::SetAuthorityByOwner {
                    account: token_account.key.clone(),
                    new_authority: pda.key.clone(),
                    owner: owner.key.clone(),
                },
            );
            proof {
                let out = spec_deposit(
                    DepositIn {
                        program_id: program_id@,
                        registry: old(registry_data)@,
                        width: width as nat,
                        pda_key: pda@.key,
                        pda_owner_program: pda@.owner_program,
                        owner_key: owner@.key,
                        owner_is_signer: owner@.is_signer,
                        token_key: token_account@.key,
                        token_owner_program: token_account@.owner_program,
                        token_is_writable: token_account@.is_writable,
                        token_lamports: token_account@.lamports,
                        token_data: token_account@.data,
                        token_program_key: token_program@.key,
                        token_expected: token_expected@,
                        amount_expected: amount_expected,
                    },
                );
                assert(effects_view(effs@) =~= out->Ok_0.1);
            }
            Ok(effs)
        },
    }
}

/// Settles a deposited account against the executor's offer: all four
/// mutual-expectation checks must pass before any custody change is
/// requested, the two transfers are returned in order, and the slot is
/// released. A failing check leaves the registry unchanged and asks for
/// nothing.
pub fn execute(
    registry_data: &mut Vec<u8>,
    width: usize,
    pda: &AccountView,
    executor: &AccountView,
    token_account: &AccountView,
    token_expected: &Pubkey,
    deposit_account: &AccountView,
    program_id: &Pubkey,
    amount_expected: u32,
) -> (r: Result<Vec<Effect>, EscrowError>)
    requires
        program_id.wf(),
        account_wf(pda@),
        account_wf(executor@),
        account_wf(token_account@),
        account_wf(deposit_account@),
        token_expected.wf(),
    ensures
        ({
            let out = spec_execute(
                ExecuteIn {
                    program_id: program_id@,
                    registry: old(registry_data)@,
                    width: width as nat,
                    pda_key: pda@.key,
                    executor_key: executor@.key,
                    executor_is_signer: executor@.is_signer,
                    token_key: token_account@.key,
                    token_is_writable: token_account@.is_writable,
                    token_lamports: token_account@.lamports,
                    token_data: token_account@.data,
                    token_expected: token_expected@,
                    deposit_key: deposit_account@.key,
                    deposit_is_writable: deposit_account@.is_writable,
                    deposit_data: deposit_account@.data,
                    amount_expected: amount_expected,
                },
            );
            match r {
                Ok(effs) => out matches Ok(p) && final(registry_data)@ == p.0 && effects_view(
                    effs@,
                ) == p.1,
                Err(e) => out matches Err(ev) && e@ == ev && final(registry_data)@ == old(
                    registry_data,
                )@,
            }
        }),
{
    if !executor.is_signer {
        return Err(EscrowError::MissingRequiredSignature);
    }
    if !deposit_account.is_writable {
        return Err(EscrowError::AccountNotWritable);
    }
    if !token_account.is_writable {
        return Err(EscrowError::AccountNotWritable);
    }
    if let Err(e) = verify_rent_exemption(token_account.lamports, token_account.data.len()) {
        return Err(e);
    }
    let mut coll = match EscrowCollection::unpack_from_slice(registry_data, width) {
        Ok(c) => c,
        Err(e) => return Err(e),
    };
    let tok = match read_token_account(&token_account.data) {
        Ok(t) => t,
        Err(e) => return Err(e),
    };
    let idx = match coll.find_by_token_account(&deposit_account.key) {
        Some(i) => i,
        None => return Err(EscrowError::NoMatchingSlot),
    };
    proof {
        assert(coll@[idx as int] == coll.items@[idx as int]@);
    }
    let seed = seed_bytes();
    let verified = match verify_pda(&pda.key, program_id, &seed) {
        Ok(v) => v,
        Err(e) => return Err(e),
    };
    let dep = match read_token_account(&deposit_account.data) {
        Ok(t) => t,
        Err(e) => return Err(e),
    };
    if !dep.owner.key_eq(&pda.key) {
        return Err(EscrowError::IllegalOwner);
    }
    if !coll.items[idx].active {
        return Err(EscrowError::NotInitialized);
    }
    let slot_amount = coll.items[idx].amount_expected;
    if tok.amount != slot_amount as u64 {
        return Err(EscrowError::ExecutorAmountMismatch {
            expected: slot_amount,
            offered: tok.amount,
        });
    }
    if dep.amount != amount_expected as u64 {
        return Err(EscrowError::DepositorAmountMismatch {
            expected: amount_expected,
            offered: dep.amount,
        });
    }
    if !coll.items[idx].token_expected.key_eq(&tok.mint) {
        return Err(EscrowError::ExecutorAssetMismatch {
            expected: coll.items[idx].token_expected.clone(),
            offered: tok.mint.clone(),
        });
    }
    if !dep.mint.key_eq(token_expected) {
        return Err(EscrowError::DepositorAssetMismatch {
            expected: token_expected.clone(),
            offered: dep.mint.clone(),
        });
    }
    let depositor = coll.items[idx].owner_account.clone();
    coll.release(idx);
    coll.pack_into_slice(registry_data);
    let mut effs: Vec<Effect> = Vec::new();
    effs.push(
        Effect::SetAuthorityByOwner {
            account: token_account.key.clone(),
            new_authority: depositor,
            owner: executor.key.clone(),
        },
    );
    effs.push(
        Effect::SetAuthorityByDerived {
            account: deposit_account.key.clone(),
            new_authority: executor.key.clone(),
            authority: pda.key.clone(),
            bump: verified.1,
        },
    );
    proof {
        let out = spec_execute(
            ExecuteIn {
                program_id: program_id@,
                registry: old(registry_data)@,
                width: width as nat,
                pda_key: pda@.key,
                executor_key: executor@.key,
                executor_is_signer: executor@.is_signer,
                token_key: token_account@.key,
                token_is_writable: token_account@.is_writable,
                token_lamports: token_account@.lamports,
                token_data: token_account@.data,
                token_expected: token_expected@,
                deposit_key: deposit_account@.key,
                deposit_is_writable: deposit_account@.is_writable,
                deposit_data: deposit_account@.data,
                amount_expected: amount_expected,
            },
        );
        assert(effects_view(effs@) =~= out->Ok_0.1);
    }
    Ok(effs)
}

/// Returns a deposited account to its depositor before a settlement: the
/// account must be under the derived authority and the caller must be the
/// recorded depositor; then custody returns to the caller and the slot is
/// released. A failing check leaves the registry unchanged and asks for
/// nothing.
pub fn reclaim(
    registry_data: &mut Vec<u8>,
    width: usize,
    pda: &AccountView,
    owner: &AccountView,
    token_account: &AccountView,
    program_id: &Pubkey,
) -> (r: Result<Vec<Effect>, EscrowError>)
    requires
        program_id.wf(),
        account_wf(pda@),
        account_wf(owner@),
        account_wf(token_account@),
    ensures
        ({
            let out = spec_reclaim(
                ReclaimIn {
                    program_id: program_id@,
                    registry: old(registry_data)@,
                    width: width as nat,
                    pda_key: pda@.key,
                    owner_key: owner@.key,
                    owner_is_signer: owner@.is_signer,
                    token_key: token_account@.key,
                    token_is_writable: token_account@.is_writable,
                    token_data: token_account@.data,
                },
            );
            match r {
                Ok(effs) => out matches Ok(p) && final(registry_data)@ == p.0 && effects_view(
                    effs@,
                ) == p.1,
                Err(e) => out matches Err(ev) && e@ == ev && final(registry_data)@ == old(
                    registry_data,
                )@,
            }
        }),
{
    if !owner.is_signer {
        return Err(EscrowError::MissingRequiredSignature);
    }
    if !token_account.is_writable {
        return Err(EscrowError::AccountNotWritable);
    }
    let seed = seed_bytes();
    let verified = match verify_pda(&pda.key, program_id, &seed) {
        Ok(v) => v,
        Err(e) => return Err(e),
    };
    let mut coll = match EscrowCollection::unpack_from_slice(registry_data, width) {
        Ok(c) => c,
        Err(e) => return Err(e),
    };
    let tok = match read_token_account(&token_account.data) {
        Ok(t) => t,
        Err(e) => return Err(e),
    };
    let idx = match coll.find_by_token_account(&token_account.key) {
        Some(i) => i,
        None => return Err(EscrowError::NoMatchingSlot),
    };
    proof {
        assert(coll@[idx as int] == coll.items@[idx as int]@);
    }
    if !tok.owner.key_eq(&pda.key) {
        return Err(EscrowError::IllegalOwner);
    }
    if !coll.items[idx].owner_account.key_eq(&owner.key) {
        return Err(EscrowError::IllegalOwner);
    }
    coll.release(idx);
    coll.pack_into_slice(registry_data);
    let mut effs: Vec<Effect> = Vec::new();
    effs.push(
        Effect::SetAuthorityByDerived {
            account: token_account.key.clone(),
            new_authority: owner.key.clone(),
            authority: pda.key.clone(),
            bump: verified.1,
        },
    );
    proof {
        let out = spec_reclaim(
            ReclaimIn {
                program_id: program_id@,
                registry: old(registry_data)@,
                width: width as nat,
                pda_key: pda@.key,
                owner_key: owner@.key,
                owner_is_signer: owner@.is_signer,
                token_key: token_account@.key,
                token_is_writable: token_account@.is_writable,
                token_data: token_account@.data,
            },
        );
        assert(effects_view(effs@) =~= out->Ok_0.1);
    }
    Ok(effs)
}

/// What one whole request yields: the decoded operation dispatched to its
/// transition over the positional account list, or the exact decode or
/// account-shape error. Account order per operation: initialize takes
/// [payer, registry, storage collaborator]; deposit takes [registry,
/// owner, asset account, asset ledger, expected asset type]; execute takes
/// those five then the target deposited account; reclaim takes [registry,
/// owner, deposited account, asset ledger].
pub open spec fn spec_process(
    program_id: Seq<u8>,
    accounts: Seq<AccountViewV>,
    registry: Seq<u8>,
    data: Seq<u8>,
    width: nat,
) -> Result<(Seq<u8>, Seq<EffectV>), EscrowErrorV> {
    match spec_parse_data(data) {
        Err(e) => Err(e),
        Ok(ins) => match ins {
            EscrowInstructionV::Init { seed, .. } => if accounts.len() < 3 {
                Err(EscrowErrorV::NotEnoughAccounts)
            } else {
                match spec_init(
                    InitIn {
                        program_id: program_id,
                        payer_key: accounts[0].key,
                        payer_is_signer: accounts[0].is_signer,
                        payer_is_writable: accounts[0].is_writable,
                        pda_key: accounts[1].key,
                        pda_is_signer: accounts[1].is_signer,
                        pda_is_writable: accounts[1].is_writable,
                        pda_data_len: accounts[1].data.len(),
                        system_key: accounts[2].key,
                        seed: seed,
                        width: width,
                    },
                ) {
                    Ok(effs) => Ok((registry, effs)),
                    Err(e) => Err(e),
                }
            },
            EscrowInstructionV::Deposit { amount_expected } => if accounts.len() < 5 {
                Err(EscrowErrorV::NotEnoughAccounts)
            } else {
                spec_deposit(
                    DepositIn {
                        program_id: program_id,
                        registry: registry,
                        width: width,
                        pda_key: accounts[0].key,
                        pda_owner_program: accounts[0].owner_program,
                        owner_key: accounts[1].key,
                        owner_is_signer: accounts[1].is_signer,
                        token_key: accounts[2].key,
                        token_owner_program: accounts[2].owner_program,
                        token_is_writable: accounts[2].is_writable,
                        token_lamports: accounts[2].lamports,
                        token_data: accounts[2].data,
                        token_program_key: accounts[3].key,
                        token_expected: accounts[4].key,
                        amount_expected: amount_expected,
                    },
                )
            },
            EscrowInstructionV::Execute { amount_expected } => if accounts.len() < 6 {
                Err(EscrowErrorV::NotEnoughAccounts)
            } else {
                spec_execute(
                    ExecuteIn {
                        program_id: program_id,
                        registry: registry,
                        width: width,
                        pda_key: accounts[0].key,
                        executor_key: accounts[1].key,
                        executor_is_signer: accounts[1].is_signer,
                        token_key: accounts[2].key,
                        token_is_writable: accounts[2].is_writable,
                        token_lamports: accounts[2].lamports,
                        token_data: accounts[2].data,
                        token_expected: accounts[4].key,
                        deposit_key: accounts[5].key,
                        deposit_is_writable: accounts[5].is_writable,
                        deposit_data: accounts[5].data,
                        amount_expected: amount_expected,
                    },
                )
            },
            EscrowInstructionV::Reclaim => if accounts.len() < 4 {
                Err(EscrowErrorV::NotEnoughAccounts)
            } else {
                spec_reclaim(
                    ReclaimIn {
                        program_id: program_id,
                        registry: registry,
                        width: width,
                        pda_key: accounts[0].key,
                        owner_key: accounts[1].key,
                        owner_is_signer: accounts[1].is_signer,
                        token_key: accounts[2].key,
                        token_is_writable: accounts[2].is_writable,
                        token_data: accounts[2].data,
                    },
                )
            },
        },
    }
}

/// Decodes one request and runs its operation end-to-end over the
/// positional account list, rewriting the registry buffer and returning the
/// ordered custody effects; any failing check surfaces as its exact error
/// with the registry byte-for-byte unchanged. `registry_data` carries the
/// registry account's persisted bytes in and out; initialization reads the
/// account's emptiness from its entry in `accounts` instead and leaves
/// `registry_data` untouched.
pub fn parse_execute_instruction(
    program_id: &Pubkey,
    accounts: &Vec<AccountView>,
    registry_data: &mut Vec<u8>,
    instruction_data: &Vec<u8>,
    width: usize,
) -> (r: Result<Vec<Effect>, EscrowError>)
    requires
        program_id.wf(),
        forall|j: int| 0 <= j < accounts@.len() ==> account_wf((#[trigger] accounts@[j])@),
        101 * width <= usize::MAX,
        101 * width < 0x0008_0000_0000_0000,
    ensures
        ({
            let out = spec_process(
                program_id@,
                accounts@.map_values(|a: AccountView| a@),
                old(registry_data)@,
                instruction_data@,
                width as nat,
            );
            match r {
                Ok(effs) => out matches Ok(p) && final(registry_data)@ == p.0 && effects_view(
                    effs@,
                ) == p.1,
                Err(e) => out matches Err(ev) && e@ == ev && final(registry_data)@ == old(
                    registry_data,
                )@,
            }
        }),
{
    let ghost mapped = accounts@.map_values(|a: AccountView| a@);
    proof {
        assert forall|j: int| 0 <= j < accounts@.len() implies mapped[j] == (
        #[trigger] accounts@[j])@ by {}
    }
    let ins = match parse_data(instruction_data) {
        Ok(i) => i,
        Err(e) => return Err(e),
    };
    match ins {
        EscrowInstruction::Init { seed, bump_seed: _ } => {
            if accounts.len() < 3 {
                return Err(EscrowError::NotEnoughAccounts);
            }
            init_escrow(&accounts[0], &accounts[1], &accounts[2], program_id, &seed, width)
        },
        EscrowInstruction::Deposit { amount_expected } => {
            if accounts.len() < 5 {
                return Err(EscrowError::NotEnoughAccounts);
            }
            deposit(
                registry_data,
                width,
                &accounts[0],
                &accounts[1],
                &accounts[2],
                &accounts[3],
                &accounts[4].key,
                program_id,
                amount_expected,
            )
        },
        EscrowInstruction::Execute { amount_expected } => {
            if accounts.len() < 6 {
                return Err(EscrowError::NotEnoughAccounts);
            }
            execute(
                registry_data,
                width,
                &accounts[0],
                &accounts[1],
                &accounts[2],
                &accounts[4].key,
                &accounts[5],
                program_id,
                amount_expected,
            )
        },
        EscrowInstruction::Reclaim => {
            if accounts.len() < 4 {
                return Err(EscrowError::NotEnoughAccounts);
            }
            reclaim(registry_data, width, &accounts[0], &accounts[1], &accounts[2], program_id)
        },
    }
}

// ---------------------------------------------------------------------------
// Laws of the state machine.
// ---------------------------------------------------------------------------

/// Every check a deposit makes before it looks for a free slot.
pub open spec fn deposit_preconditions(i: DepositIn) -> bool {
    &&& i.owner_is_signer
    &&& i.token_owner_program == i.token_program_key
    &&& i.token_is_writable
    &&& i.token_lamports >= min_balance_of(i.token_data.len() as usize)
    &&& i.pda_owner_program == i.program_id
    &&& token_account_parse_ok(i.token_data)
    &&& spec_token_account(i.token_data).owner == i.owner_key
    &&& pda_matches(i.program_id, spec_seed(), i.pda_key)
    &&& registry_bytes_ok(i.registry, i.width)
}

/// Capacity, exhausted side: against a registry whose `width` slots are all
/// occupied, no deposit succeeds, and one that passes every prior check
/// fails with exactly `NoAvailableSlots`.
pub proof fn lemma_capacity_full(i: DepositIn)
    requires
        forall|j: int| 0 <= j < i.width ==> (#[trigger] spec_decode_collection(
            i.registry,
            i.width,
        )[j]).active,
    ensures
        !(spec_deposit(i) is Ok),
        deposit_preconditions(i) ==> spec_deposit(i) == Err::<(Seq<u8>, Seq<EffectV>),
            EscrowErrorV,
        >(EscrowErrorV::NoAvailableSlots),
{
    let coll = spec_decode_collection(i.registry, i.width);
    if exists|k: int| crate::state::is_first_free(coll, k) {
        let k = choose|k: int| crate::state::is_first_free(coll, k);
        assert(coll[k].active);
    }
}

/// Capacity, free side: a deposit that passes every prior check against a
/// registry with at least one free slot succeeds.
pub proof fn lemma_capacity_free(i: DepositIn, j: int)
    requires
        deposit_preconditions(i),
        0 <= j < i.width,
        !spec_decode_collection(i.registry, i.width)[j].active,
    ensures
        spec_deposit(i) is Ok,
{
    crate::state::lemma_first_free_exists(spec_decode_collection(i.registry, i.width), j);
}

/// Every check a settlement makes before the four mutual expectations.
pub open spec fn execute_preconditions(i: ExecuteIn) -> bool {
    &&& i.executor_is_signer
    &&& i.deposit_is_writable
    &&& i.token_is_writable
    &&& i.token_lamports >= min_balance_of(i.token_data.len() as usize)
    &&& registry_bytes_ok(i.registry, i.width)
    &&& token_account_parse_ok(i.token_data)
    &&& find_match(spec_decode_collection(i.registry, i.width), i.deposit_key) is Some
    &&& pda_matches(i.program_id, spec_seed(), i.pda_key)
    &&& token_account_parse_ok(i.deposit_data)
    &&& spec_token_account(i.deposit_data).owner == i.pda_key
}

/// The slot a settlement matched, where one was matched.
pub open spec fn matched_slot(i: ExecuteIn) -> EscrowV {
    let coll = spec_decode_collection(i.registry, i.width);
    match find_match(coll, i.deposit_key) {
        Some(idx) => coll[idx],
        None => released_slot(),
    }
}

/// The four mutual-expectation checks of a settlement against `slot`.
pub open spec fn expectations_met(i: ExecuteIn, slot: EscrowV) -> bool {
    &&& spec_token_account(i.token_data).amount == slot.amount_expected as u64
    &&& spec_token_account(i.deposit_data).amount == i.amount_expected as u64
    &&& slot.token_expected == spec_token_account(i.token_data).mint
    &&& spec_token_account(i.deposit_data).mint == i.token_expected
}

/// Settlement correctness: given the shape checks, a settlement succeeds
/// exactly when all four mutual-expectation checks pass at the matched
/// slot, and the first failing check — in the order the operation makes
/// them — yields its own mismatch error carrying the expected and the
/// offered value.
pub proof fn lemma_settlement_iff(i: ExecuteIn)
    requires
        execute_preconditions(i),
    ensures
        spec_execute(i) is Ok <==> expectations_met(i, matched_slot(i)),
        ({
            let slot = matched_slot(i);
            let tok = spec_token_account(i.token_data);
            let dep = spec_token_account(i.deposit_data);
            &&& (tok.amount != slot.amount_expected as u64 ==> spec_execute(i) == Err::<
                (Seq<u8>, Seq<EffectV>),
                EscrowErrorV,
            >(
                EscrowErrorV::ExecutorAmountMismatch {
                    expected: slot.amount_expected,
                    offered: tok.amount,
                },
            ))
            &&& (tok.amount == slot.amount_expected as u64 && dep.amount != i.amount_expected
                as u64 ==> spec_execute(i) == Err::<(Seq<u8>, Seq<EffectV>), EscrowErrorV>(
                EscrowErrorV::DepositorAmountMismatch {
                    expected: i.amount_expected,
                    offered: dep.amount,
                },
            ))
            &&& (tok.amount == slot.amount_expected as u64 && dep.amount == i.amount_expected
                as u64 && slot.token_expected != tok.mint ==> spec_execute(i) == Err::<
                (Seq<u8>, Seq<EffectV>),
                EscrowErrorV,
            >(
                EscrowErrorV::ExecutorAssetMismatch {
                    expected: slot.token_expected,
                    offered: tok.mint,
                },
            ))
            &&& (tok.amount == slot.amount_expected as u64 && dep.amount == i.amount_expected
                as u64 && slot.token_expected == tok.mint && dep.mint != i.token_expected
                ==> spec_execute(i) == Err::<(Seq<u8>, Seq<EffectV>), EscrowErrorV>(
                EscrowErrorV::DepositorAssetMismatch {
                    expected: i.token_expected,
                    offered: dep.mint,
                },
            ))
        }),
{
    let coll = spec_decode_collection(i.registry, i.width);
    let idx = choose|k: int| crate::state::is_first_match(coll, i.deposit_key, k);
}

} // verus!
