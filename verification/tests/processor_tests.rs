//! The four-operation state machine end-to-end: the deposit, settlement,
//! reclaim and capacity scenarios, every error path, and the dispatcher.

use solana_escrow::error::EscrowError;
use solana_escrow::processor::{
    deposit, execute, init_escrow, parse_execute_instruction, reclaim, AccountView, Effect,
};
use solana_escrow::pubkey::Pubkey;
use solana_escrow::state::{Escrow, EscrowCollection, COLLECTION_WIDTH, DATA_LEN};
use solana_escrow::utils::seed_bytes;
use solana_program::program_option::COption;
use solana_program::program_pack::Pack;

fn key(fill: u8) -> Pubkey {
    Pubkey { bytes: vec![fill; 32] }
}

fn rent_minimum() -> u64 {
    solana_program::rent::Rent::default().minimum_balance(165)
}

fn token_data(mint: &Pubkey, owner: &Pubkey, amount: u64) -> Vec<u8> {
    let account = spl_token::state::Account {
        mint: solana_program::pubkey::Pubkey::try_from(mint.bytes.as_slice()).unwrap(),
        owner: solana_program::pubkey::Pubkey::try_from(owner.bytes.as_slice()).unwrap(),
        amount,
        delegate: COption::None,
        state: spl_token::state::AccountState::Initialized,
        is_native: COption::None,
        delegated_amount: 0,
        close_authority: COption::None,
    };
    let mut buf = vec![0u8; 165];
    spl_token::state::Account::pack(account, &mut buf).unwrap();
    buf
}

fn account(
    k: &Pubkey,
    owner_program: &Pubkey,
    lamports: u64,
    is_signer: bool,
    is_writable: bool,
    data: Vec<u8>,
) -> AccountView {
    AccountView {
        key: k.clone(),
        owner_program: owner_program.clone(),
        lamports,
        is_signer,
        is_writable,
        data,
    }
}

fn fresh_registry(width: usize) -> Vec<u8> {
    let mut buf = Vec::new();
    EscrowCollection::new(width).pack_into_slice(&mut buf);
    buf
}

fn program_id() -> Pubkey {
    key(42)
}

fn pda() -> (Pubkey, u8) {
    solana_escrow::utils::derive(&program_id(), &seed_bytes()).unwrap()
}

fn alice_owner() -> Pubkey {
    key(0x01)
}

fn alice_holding() -> Pubkey {
    key(0x02)
}

fn asset_m() -> Pubkey {
    key(0xAA)
}

fn ledger() -> Pubkey {
    key(0x07)
}

fn ledger_view() -> AccountView {
    account(&ledger(), &key(0), 0, false, false, vec![])
}

fn system_view() -> AccountView {
    account(&key(0), &key(0), 0, false, false, vec![])
}

fn deposit_alice(registry: &mut Vec<u8>, holding: &Pubkey) -> Result<Vec<Effect>, EscrowError> {
    let (pda_key, _) = pda();
    let pda_view = account(&pda_key, &program_id(), 0, false, true, vec![]);
    let owner = account(&alice_owner(), &key(0), 0, true, false, vec![]);
    let token = account(
        holding,
        &ledger(),
        rent_minimum(),
        false,
        true,
        token_data(&key(0xA1), &alice_owner(), 99),
    );
    deposit(
        registry,
        COLLECTION_WIDTH,
        &pda_view,
        &owner,
        &token,
        &ledger_view(),
        &asset_m(),
        &program_id(),
        5,
    )
}

#[test]
fn deposit_populates_first_free_slot() {
    // Registry of width 5, all free; a deposit with amount_expected 5 and
    // asset M occupies slot 0 with exactly those fields.
    let mut registry = fresh_registry(COLLECTION_WIDTH);
    let effects = deposit_alice(&mut registry, &alice_holding()).unwrap();
    let (pda_key, _) = pda();
    assert_eq!(
        effects,
        vec![Effect::SetAuthorityByOwner {
            account: alice_holding(),
            new_authority: pda_key,
            owner: alice_owner(),
        }]
    );
    let expected_slot = Escrow {
        active: true,
        amount_expected: 5,
        token_expected: asset_m(),
        holding_account: alice_holding(),
        owner_account: alice_owner(),
    };
    assert_eq!(&registry[0..DATA_LEN], expected_slot.pack().as_slice());
    for s in 1..COLLECTION_WIDTH {
        assert_eq!(registry[s * DATA_LEN], 0, "slot {} must stay free", s);
    }
}

#[test]
fn deposit_requires_signer() {
    let mut registry = fresh_registry(COLLECTION_WIDTH);
    let before = registry.clone();
    let (pda_key, _) = pda();
    let pda_view = account(&pda_key, &program_id(), 0, false, true, vec![]);
    let owner = account(&alice_owner(), &key(0), 0, false, false, vec![]);
    let token = account(
        &alice_holding(),
        &ledger(),
        rent_minimum(),
        false,
        true,
        token_data(&key(0xA1), &alice_owner(), 99),
    );
    let r = deposit(
        &mut registry,
        COLLECTION_WIDTH,
        &pda_view,
        &owner,
        &token,
        &ledger_view(),
        &asset_m(),
        &program_id(),
        5,
    );
    assert_eq!(r.unwrap_err(), EscrowError::MissingRequiredSignature);
    assert_eq!(registry, before);
}

#[test]
fn deposit_requires_writable_asset_account() {
    let mut registry = fresh_registry(COLLECTION_WIDTH);
    let (pda_key, _) = pda();
    let pda_view = account(&pda_key, &program_id(), 0, false, true, vec![]);
    let owner = account(&alice_owner(), &key(0), 0, true, false, vec![]);
    let token = account(
        &alice_holding(),
        &ledger(),
        rent_minimum(),
        false,
        false,
        token_data(&key(0xA1), &alice_owner(), 99),
    );
    let r = deposit(
        &mut registry,
        COLLECTION_WIDTH,
        &pda_view,
        &owner,
        &token,
        &ledger_view(),
        &asset_m(),
        &program_id(),
        5,
    );
    assert_eq!(r.unwrap_err(), EscrowError::AccountNotWritable);
}

#[test]
fn deposit_requires_rent_exemption() {
    let mut registry = fresh_registry(COLLECTION_WIDTH);
    let (pda_key, _) = pda();
    let pda_view = account(&pda_key, &program_id(), 0, false, true, vec![]);
    let owner = account(&alice_owner(), &key(0), 0, true, false, vec![]);
    let token = account(
        &alice_holding(),
        &ledger(),
        rent_minimum() - 1,
        false,
        true,
        token_data(&key(0xA1), &alice_owner(), 99),
    );
    let r = deposit(
        &mut registry,
        COLLECTION_WIDTH,
        &pda_view,
        &owner,
        &token,
        &ledger_view(),
        &asset_m(),
        &program_id(),
        5,
    );
    assert_eq!(r.unwrap_err(), EscrowError::NotRentExempt);
}

#[test]
fn deposit_requires_registry_owned_by_coordinator() {
    let mut registry = fresh_registry(COLLECTION_WIDTH);
    let (pda_key, _) = pda();
    let pda_view = account(&pda_key, &key(0x77), 0, false, true, vec![]);
    let owner = account(&alice_owner(), &key(0), 0, true, false, vec![]);
    let token = account(
        &alice_holding(),
        &ledger(),
        rent_minimum(),
        false,
        true,
        token_data(&key(0xA1), &alice_owner(), 99),
    );
    let r = deposit(
        &mut registry,
        COLLECTION_WIDTH,
        &pda_view,
        &owner,
        &token,
        &ledger_view(),
        &asset_m(),
        &program_id(),
        5,
    );
    assert_eq!(r.unwrap_err(), EscrowError::IncorrectProgramId);
}

#[test]
fn deposit_rejects_foreign_asset_account() {
    // The offered account's owner of record is not the caller.
    let mut registry = fresh_registry(COLLECTION_WIDTH);
    let (pda_key, _) = pda();
    let pda_view = account(&pda_key, &program_id(), 0, false, true, vec![]);
    let owner = account(&alice_owner(), &key(0), 0, true, false, vec![]);
    let token = account(
        &alice_holding(),
        &ledger(),
        rent_minimum(),
        false,
        true,
        token_data(&key(0xA1), &key(0x33), 99),
    );
    let r = deposit(
        &mut registry,
        COLLECTION_WIDTH,
        &pda_view,
        &owner,
        &token,
        &ledger_view(),
        &asset_m(),
        &program_id(),
        5,
    );
    assert_eq!(r.unwrap_err(), EscrowError::IllegalOwner);
}

#[test]
fn deposit_rejects_wrong_authority_address() {
    let mut registry = fresh_registry(COLLECTION_WIDTH);
    let pda_view = account(&key(0x55), &program_id(), 0, false, true, vec![]);
    let owner = account(&alice_owner(), &key(0), 0, true, false, vec![]);
    let token = account(
        &alice_holding(),
        &ledger(),
        rent_minimum(),
        false,
        true,
        token_data(&key(0xA1), &alice_owner(), 99),
    );
    let r = deposit(
        &mut registry,
        COLLECTION_WIDTH,
        &pda_view,
        &owner,
        &token,
        &ledger_view(),
        &asset_m(),
        &program_id(),
        5,
    );
    assert_eq!(r.unwrap_err(), EscrowError::InvalidAuthority);
}

#[test]
fn deposit_rejects_malformed_registry() {
    let mut registry = vec![0u8; 3];
    let r = deposit_alice(&mut registry, &alice_holding());
    assert_eq!(r.unwrap_err(), EscrowError::MalformedState);
    assert_eq!(registry, vec![0u8; 3]);
}

#[test]
fn deposit_rejects_malformed_asset_account() {
    let mut registry = fresh_registry(COLLECTION_WIDTH);
    let (pda_key, _) = pda();
    let pda_view = account(&pda_key, &program_id(), 0, false, true, vec![]);
    let owner = account(&alice_owner(), &key(0), 0, true, false, vec![]);
    let token = account(&alice_holding(), &ledger(), rent_minimum(), false, true, vec![0u8; 165]);
    let r = deposit(
        &mut registry,
        COLLECTION_WIDTH,
        &pda_view,
        &owner,
        &token,
        &ledger_view(),
        &asset_m(),
        &program_id(),
        5,
    );
    assert_eq!(r.unwrap_err(), EscrowError::MalformedAssetAccount);
}

#[test]
fn capacity_is_exactly_the_width() {
    // Width 5 accepts five concurrent deposits; the sixth fails with
    // NoAvailableSlots while all five stay occupied.
    let mut registry = fresh_registry(COLLECTION_WIDTH);
    for s in 0..COLLECTION_WIDTH {
        let holding = key(0x10 + s as u8);
        deposit_alice(&mut registry, &holding).unwrap();
    }
    let before = registry.clone();
    let r = deposit_alice(&mut registry, &key(0x77));
    assert_eq!(r.unwrap_err(), EscrowError::NoAvailableSlots);
    assert_eq!(registry, before);
    let coll = EscrowCollection::unpack_from_slice(&registry, COLLECTION_WIDTH).unwrap();
    for s in 0..COLLECTION_WIDTH {
        assert!(coll.items[s].active, "slot {} must stay occupied", s);
        assert_eq!(coll.items[s].holding_account, key(0x10 + s as u8));
    }
}

fn occupied_registry(amount_expected: u32, token_expected: &Pubkey) -> Vec<u8> {
    let mut coll = EscrowCollection::new(COLLECTION_WIDTH);
    coll.set_slot(
        0,
        Escrow {
            active: true,
            amount_expected,
            token_expected: token_expected.clone(),
            holding_account: alice_holding(),
            owner_account: alice_owner(),
        },
    );
    let mut buf = Vec::new();
    coll.pack_into_slice(&mut buf);
    buf
}

fn bob_owner() -> Pubkey {
    key(0x03)
}

fn bob_holding() -> Pubkey {
    key(0x04)
}

fn asset_m_bob() -> Pubkey {
    key(0xB0)
}

fn asset_m_alice() -> Pubkey {
    key(0xA1)
}

fn execute_bob(
    registry: &mut Vec<u8>,
    bob_asset: &Pubkey,
    bob_amount: u64,
    declared_amount: u32,
) -> Result<Vec<Effect>, EscrowError> {
    let (pda_key, _) = pda();
    let pda_view = account(&pda_key, &program_id(), 0, false, true, vec![]);
    let executor = account(&bob_owner(), &key(0), 0, true, false, vec![]);
    let token = account(
        &bob_holding(),
        &ledger(),
        rent_minimum(),
        false,
        true,
        token_data(bob_asset, &bob_owner(), bob_amount),
    );
    let deposit_view = account(
        &alice_holding(),
        &key(0),
        0,
        false,
        true,
        token_data(&asset_m_alice(), &pda_key, 7),
    );
    execute(
        registry,
        COLLECTION_WIDTH,
        &pda_view,
        &executor,
        &token,
        &asset_m_alice(),
        &deposit_view,
        &program_id(),
        declared_amount,
    )
}

#[test]
fn execute_settles_on_matching_expectations() {
    // Occupied slot expects amount 10 of asset Mbob; the executor offers
    // exactly that and declares the depositor's actual holding: the swap
    // succeeds, the slot is zeroed, and the two custody transfers are
    // requested in order.
    let mut registry = occupied_registry(10, &asset_m_bob());
    let effects = execute_bob(&mut registry, &asset_m_bob(), 10, 7).unwrap();
    let (pda_key, bump) = pda();
    assert_eq!(
        effects,
        vec![
            Effect::SetAuthorityByOwner {
                account: bob_holding(),
                new_authority: alice_owner(),
                owner: bob_owner(),
            },
            Effect::SetAuthorityByDerived {
                account: alice_holding(),
                new_authority: bob_owner(),
                authority: pda_key,
                bump,
            },
        ]
    );
    assert_eq!(registry, fresh_registry(COLLECTION_WIDTH));
}

#[test]
fn execute_rejects_wrong_executor_asset() {
    // Same as the successful settlement, but the executor's asset type is
    // Mdavid instead of Mbob: the specific mismatch is reported and the
    // slot stays occupied and unchanged.
    let mut registry = occupied_registry(10, &asset_m_bob());
    let before = registry.clone();
    let r = execute_bob(&mut registry, &key(0xD0), 10, 7);
    assert_eq!(
        r.unwrap_err(),
        EscrowError::ExecutorAssetMismatch { expected: asset_m_bob(), offered: key(0xD0) }
    );
    assert_eq!(registry, before);
}

#[test]
fn execute_rejects_wrong_executor_amount() {
    let mut registry = occupied_registry(10, &asset_m_bob());
    let before = registry.clone();
    let r = execute_bob(&mut registry, &asset_m_bob(), 9, 7);
    assert_eq!(
        r.unwrap_err(),
        EscrowError::ExecutorAmountMismatch { expected: 10, offered: 9 }
    );
    assert_eq!(registry, before);
}

#[test]
fn execute_rejects_wrong_declared_amount() {
    let mut registry = occupied_registry(10, &asset_m_bob());
    let r = execute_bob(&mut registry, &asset_m_bob(), 10, 8);
    assert_eq!(
        r.unwrap_err(),
        EscrowError::DepositorAmountMismatch { expected: 8, offered: 7 }
    );
}

#[test]
fn execute_rejects_wrong_declared_asset() {
    let mut registry = occupied_registry(10, &asset_m_bob());
    let (pda_key, _) = pda();
    let pda_view = account(&pda_key, &program_id(), 0, false, true, vec![]);
    let executor = account(&bob_owner(), &key(0), 0, true, false, vec![]);
    let token = account(
        &bob_holding(),
        &ledger(),
        rent_minimum(),
        false,
        true,
        token_data(&asset_m_bob(), &bob_owner(), 10),
    );
    let deposit_view = account(
        &alice_holding(),
        &key(0),
        0,
        false,
        true,
        token_data(&asset_m_alice(), &pda_key, 7),
    );
    let r = execute(
        &mut registry,
        COLLECTION_WIDTH,
        &pda_view,
        &executor,
        &token,
        &key(0xD1),
        &deposit_view,
        &program_id(),
        7,
    );
    assert_eq!(
        r.unwrap_err(),
        EscrowError::DepositorAssetMismatch { expected: key(0xD1), offered: asset_m_alice() }
    );
}

#[test]
fn execute_rejects_unknown_deposit_account() {
    let mut registry = occupied_registry(10, &asset_m_bob());
    let (pda_key, _) = pda();
    let pda_view = account(&pda_key, &program_id(), 0, false, true, vec![]);
    let executor = account(&bob_owner(), &key(0), 0, true, false, vec![]);
    let token = account(
        &bob_holding(),
        &ledger(),
        rent_minimum(),
        false,
        true,
        token_data(&asset_m_bob(), &bob_owner(), 10),
    );
    let deposit_view = account(
        &key(0x66),
        &key(0),
        0,
        false,
        true,
        token_data(&asset_m_alice(), &pda_key, 7),
    );
    let r = execute(
        &mut registry,
        COLLECTION_WIDTH,
        &pda_view,
        &executor,
        &token,
        &asset_m_alice(),
        &deposit_view,
        &program_id(),
        7,
    );
    assert_eq!(r.unwrap_err(), EscrowError::NoMatchingSlot);
}

#[test]
fn execute_rejects_uncustodied_deposit_account() {
    // The deposited account's owner of record is not the derived authority.
    let mut registry = occupied_registry(10, &asset_m_bob());
    let (pda_key, _) = pda();
    let pda_view = account(&pda_key, &program_id(), 0, false, true, vec![]);
    let executor = account(&bob_owner(), &key(0), 0, true, false, vec![]);
    let token = account(
        &bob_holding(),
        &ledger(),
        rent_minimum(),
        false,
        true,
        token_data(&asset_m_bob(), &bob_owner(), 10),
    );
    let deposit_view = account(
        &alice_holding(),
        &key(0),
        0,
        false,
        true,
        token_data(&asset_m_alice(), &key(0x99), 7),
    );
    let r = execute(
        &mut registry,
        COLLECTION_WIDTH,
        &pda_view,
        &executor,
        &token,
        &asset_m_alice(),
        &deposit_view,
        &program_id(),
        7,
    );
    assert_eq!(r.unwrap_err(), EscrowError::IllegalOwner);
}

#[test]
fn reclaim_returns_deposit_to_owner() {
    let mut registry = occupied_registry(10, &asset_m_bob());
    let (pda_key, bump) = pda();
    let pda_view = account(&pda_key, &program_id(), 0, false, true, vec![]);
    let owner = account(&alice_owner(), &key(0), 0, true, false, vec![]);
    let token = account(
        &alice_holding(),
        &key(0),
        0,
        false,
        true,
        token_data(&asset_m_alice(), &pda_key, 7),
    );
    let effects = reclaim(
        &mut registry,
        COLLECTION_WIDTH,
        &pda_view,
        &owner,
        &token,
        &program_id(),
    )
    .unwrap();
    assert_eq!(
        effects,
        vec![Effect::SetAuthorityByDerived {
            account: alice_holding(),
            new_authority: alice_owner(),
            authority: pda_key,
            bump,
        }]
    );
    assert_eq!(registry, fresh_registry(COLLECTION_WIDTH));
}

#[test]
fn reclaim_rejects_non_owner() {
    // Reclaim by an address different from the slot's recorded owner fails
    // with IllegalOwner and the slot stays occupied.
    let mut registry = occupied_registry(10, &asset_m_bob());
    let before = registry.clone();
    let (pda_key, _) = pda();
    let pda_view = account(&pda_key, &program_id(), 0, false, true, vec![]);
    let eve = account(&key(0x0E), &key(0), 0, true, false, vec![]);
    let token = account(
        &alice_holding(),
        &key(0),
        0,
        false,
        true,
        token_data(&asset_m_alice(), &pda_key, 7),
    );
    let r = reclaim(&mut registry, COLLECTION_WIDTH, &pda_view, &eve, &token, &program_id());
    assert_eq!(r.unwrap_err(), EscrowError::IllegalOwner);
    assert_eq!(registry, before);
    let coll = EscrowCollection::unpack_from_slice(&registry, COLLECTION_WIDTH).unwrap();
    assert!(coll.items[0].active);
}

#[test]
fn reclaim_rejects_uncustodied_account() {
    let mut registry = occupied_registry(10, &asset_m_bob());
    let (pda_key, _) = pda();
    let pda_view = account(&pda_key, &program_id(), 0, false, true, vec![]);
    let owner = account(&alice_owner(), &key(0), 0, true, false, vec![]);
    let token = account(
        &alice_holding(),
        &key(0),
        0,
        false,
        true,
        token_data(&asset_m_alice(), &key(0x98), 7),
    );
    let r = reclaim(&mut registry, COLLECTION_WIDTH, &pda_view, &owner, &token, &program_id());
    assert_eq!(r.unwrap_err(), EscrowError::IllegalOwner);
}

#[test]
fn init_creates_registry_effect() {
    let (pda_key, bump) = pda();
    let payer = account(&key(0x09), &key(0), 0, true, true, vec![]);
    let pda_view = account(&pda_key, &key(0), 0, false, true, vec![]);
    let effects = init_escrow(
        &payer,
        &pda_view,
        &system_view(),
        &program_id(),
        &seed_bytes(),
        COLLECTION_WIDTH,
    )
    .unwrap();
    let space = (DATA_LEN * COLLECTION_WIDTH) as u64;
    let lamports =
        solana_program::rent::Rent::default().minimum_balance(DATA_LEN * COLLECTION_WIDTH);
    assert_eq!(
        effects,
        vec![Effect::CreateRegistry { payer: key(0x09), address: pda_key, lamports, space, bump }]
    );
}

#[test]
fn init_rejects_existing_storage() {
    let (pda_key, _) = pda();
    let payer = account(&key(0x09), &key(0), 0, true, true, vec![]);
    let pda_view = account(&pda_key, &key(0), 0, false, true, vec![0u8; 505]);
    let r = init_escrow(
        &payer,
        &pda_view,
        &system_view(),
        &program_id(),
        &seed_bytes(),
        COLLECTION_WIDTH,
    );
    assert_eq!(r.unwrap_err(), EscrowError::AuthorityAlreadyExists);
}

#[test]
fn init_rejects_unsigned_payer() {
    let (pda_key, _) = pda();
    let payer = account(&key(0x09), &key(0), 0, false, true, vec![]);
    let pda_view = account(&pda_key, &key(0), 0, false, true, vec![]);
    let r = init_escrow(
        &payer,
        &pda_view,
        &system_view(),
        &program_id(),
        &seed_bytes(),
        COLLECTION_WIDTH,
    );
    assert_eq!(r.unwrap_err(), EscrowError::MissingRequiredSignature);
}

#[test]
fn dispatcher_runs_deposit_from_payload() {
    let mut registry = fresh_registry(COLLECTION_WIDTH);
    let (pda_key, _) = pda();
    let accounts = vec![
        account(&pda_key, &program_id(), 0, false, true, vec![]),
        account(&alice_owner(), &key(0), 0, true, false, vec![]),
        account(
            &alice_holding(),
            &ledger(),
            rent_minimum(),
            false,
            true,
            token_data(&asset_m_alice(), &alice_owner(), 99),
        ),
        ledger_view(),
        account(&asset_m(), &key(0), 0, false, false, vec![]),
    ];
    let payload = vec![1u8, 5, 0, 0, 0];
    let effects = parse_execute_instruction(
        &program_id(),
        &accounts,
        &mut registry,
        &payload,
        COLLECTION_WIDTH,
    )
    .unwrap();
    assert_eq!(effects.len(), 1);
    let expected_slot = Escrow {
        active: true,
        amount_expected: 5,
        token_expected: asset_m(),
        holding_account: alice_holding(),
        owner_account: alice_owner(),
    };
    assert_eq!(&registry[0..DATA_LEN], expected_slot.pack().as_slice());
}

#[test]
fn dispatcher_rejects_short_account_list() {
    let mut registry = fresh_registry(COLLECTION_WIDTH);
    let (pda_key, _) = pda();
    let accounts = vec![account(&pda_key, &program_id(), 0, false, true, vec![])];
    let payload = vec![1u8, 5, 0, 0, 0];
    let r = parse_execute_instruction(
        &program_id(),
        &accounts,
        &mut registry,
        &payload,
        COLLECTION_WIDTH,
    );
    assert_eq!(r.unwrap_err(), EscrowError::NotEnoughAccounts);
}

#[test]
fn dispatcher_reports_decode_errors() {
    let mut registry = fresh_registry(COLLECTION_WIDTH);
    let accounts: Vec<AccountView> = vec![];
    let r = parse_execute_instruction(
        &program_id(),
        &accounts,
        &mut registry,
        &vec![],
        COLLECTION_WIDTH,
    );
    assert_eq!(r.unwrap_err(), EscrowError::EmptyPayload);
    let r = parse_execute_instruction(
        &program_id(),
        &accounts,
        &mut registry,
        &vec![9u8],
        COLLECTION_WIDTH,
    );
    assert_eq!(r.unwrap_err(), EscrowError::UnknownOperation);
}

#[test]
fn execute_requires_signer() {
    let mut registry = occupied_registry(10, &asset_m_bob());
    let (pda_key, _) = pda();
    let pda_view = account(&pda_key, &program_id(), 0, false, true, vec![]);
    let executor = account(&bob_owner(), &key(0), 0, false, false, vec![]);
    let token = account(
        &bob_holding(),
        &ledger(),
        rent_minimum(),
        false,
        true,
        token_data(&asset_m_bob(), &bob_owner(), 10),
    );
    let deposit_view = account(
        &alice_holding(),
        &key(0),
        0,
        false,
        true,
        token_data(&asset_m_alice(), &pda_key, 7),
    );
    let r = execute(
        &mut registry,
        COLLECTION_WIDTH,
        &pda_view,
        &executor,
        &token,
        &asset_m_alice(),
        &deposit_view,
        &program_id(),
        7,
    );
    assert_eq!(r.unwrap_err(), EscrowError::MissingRequiredSignature);
}

#[test]
fn reclaim_requires_signer() {
    let mut registry = occupied_registry(10, &asset_m_bob());
    let (pda_key, _) = pda();
    let pda_view = account(&pda_key, &program_id(), 0, false, true, vec![]);
    let owner = account(&alice_owner(), &key(0), 0, false, false, vec![]);
    let token = account(
        &alice_holding(),
        &key(0),
        0,
        false,
        true,
        token_data(&asset_m_alice(), &pda_key, 7),
    );
    let r = reclaim(&mut registry, COLLECTION_WIDTH, &pda_view, &owner, &token, &program_id());
    assert_eq!(r.unwrap_err(), EscrowError::MissingRequiredSignature);
}

#[test]
fn dispatcher_runs_init_from_payload() {
    let (pda_key, bump) = pda();
    let mut registry: Vec<u8> = Vec::new();
    let accounts = vec![
        account(&key(0x09), &key(0), 0, true, true, vec![]),
        account(&pda_key, &key(0), 0, false, true, vec![]),
        account(&key(0), &key(0), 0, false, false, vec![]),
    ];
    let mut payload = vec![0u8];
    payload.extend_from_slice(b"escrow");
    payload.push(bump);
    let effects = parse_execute_instruction(
        &program_id(),
        &accounts,
        &mut registry,
        &payload,
        COLLECTION_WIDTH,
    )
    .unwrap();
    let space = (DATA_LEN * COLLECTION_WIDTH) as u64;
    let lamports =
        solana_program::rent::Rent::default().minimum_balance(DATA_LEN * COLLECTION_WIDTH);
    assert_eq!(
        effects,
        vec![Effect::CreateRegistry { payer: key(0x09), address: pda_key, lamports, space, bump }]
    );
    assert!(registry.is_empty());
}

#[test]
fn deposit_rejects_unmanaged_asset_account() {
    // The offered account is not managed by the supplied asset-ledger
    // collaborator.
    let mut registry = fresh_registry(COLLECTION_WIDTH);
    let (pda_key, _) = pda();
    let pda_view = account(&pda_key, &program_id(), 0, false, true, vec![]);
    let owner = account(&alice_owner(), &key(0), 0, true, false, vec![]);
    let token = account(
        &alice_holding(),
        &key(0x66),
        rent_minimum(),
        false,
        true,
        token_data(&key(0xA1), &alice_owner(), 99),
    );
    let r = deposit(
        &mut registry,
        COLLECTION_WIDTH,
        &pda_view,
        &owner,
        &token,
        &ledger_view(),
        &asset_m(),
        &program_id(),
        5,
    );
    assert_eq!(r.unwrap_err(), EscrowError::IncorrectProgramId);
}

#[test]
fn init_rejects_wrong_storage_collaborator() {
    let (pda_key, _) = pda();
    let payer = account(&key(0x09), &key(0), 0, true, true, vec![]);
    let pda_view = account(&pda_key, &key(0), 0, false, true, vec![]);
    let not_system = account(&key(0x08), &key(0), 0, false, false, vec![]);
    let r = init_escrow(
        &payer,
        &pda_view,
        &not_system,
        &program_id(),
        &seed_bytes(),
        COLLECTION_WIDTH,
    );
    assert_eq!(r.unwrap_err(), EscrowError::IncorrectProgramId);
}

#[test]
fn deposit_rejects_noncanonical_registry() {
    // A persisted buffer whose flag byte is not a canonical boolean is
    // malformed state, and stays byte-for-byte untouched.
    let mut registry = fresh_registry(COLLECTION_WIDTH);
    registry[0] = 2;
    let before = registry.clone();
    let r = deposit_alice(&mut registry, &alice_holding());
    assert_eq!(r.unwrap_err(), EscrowError::MalformedState);
    assert_eq!(registry, before);
}
