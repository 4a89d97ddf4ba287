use auction_vault::handlers::{
    derive_fund_vault_accounts, derive_initialize_accounts, fund_vault, initialize, ErrorCode,
    FundVault, Initialize,
};
use auction_vault::ids::AccountId;
use auction_vault::ledger::{AccountData, Ledger, LedgerError};
use auction_vault::state::AuctionState;

fn wallet(b: u8) -> AccountId {
    AccountId { bytes: [b; 32] }
}

fn program_id() -> AccountId {
    AccountId { bytes: [7u8; 32] }
}

fn initialized_ledger(user_balance: u64) -> (Ledger, Initialize) {
    let mut ledger = Ledger::new();
    let user = wallet(1);
    ledger.create_wallet(&user, user_balance).unwrap();
    let accounts = derive_initialize_accounts(&program_id(), user).unwrap();
    initialize(&mut ledger, &accounts, 10, 5, 3600, 1000, 100, 2, 3).unwrap();
    (ledger, accounts)
}

#[test]
fn initialize_scenario_stores_parameters_verbatim() {
    let (ledger, accounts) = initialized_ledger(1_000);
    let data = ledger.data(&accounts.auction_instance).unwrap();
    let state = match data {
        AccountData::StateRecord(s) => s,
        other => panic!("state record expected, found {:?}", other),
    };
    assert_eq!(state.default_time_increase_per_bet, 10);
    assert_eq!(state.minimal_time_increase_per_bet, 5);
    assert_eq!(state.auction_duration, 3600);
    assert_eq!(state.max_participation_amount, 1000);
    assert_eq!(state.min_pot_size, 100);
    assert_eq!(state.auction_state, AuctionState::ENDED);
    assert_eq!(state.vault_public_key, accounts.vault);
}

#[test]
fn initialize_zeroes_progress_fields() {
    let (ledger, accounts) = initialized_ledger(1_000);
    let state = match ledger.data(&accounts.auction_instance).unwrap() {
        AccountData::StateRecord(s) => s,
        other => panic!("state record expected, found {:?}", other),
    };
    assert_eq!(state.time_decrease_per_bet_reduction_speed, 0);
    assert_eq!(state.current_auction_start_time, 0);
    assert_eq!(state.current_auction_starting_pot_size, 0);
    assert_eq!(state.current_auction_number, 0);
    assert_eq!(state.current_participation_amount, 0);
    assert_eq!(state.current_winning_bid_made_at, 0);
    assert_eq!(state.current_winning_pubkey.bytes, [0u8; 32]);
}

#[test]
fn initialize_fee_fields_are_fixed_fractions() {
    let (ledger, accounts) = initialized_ledger(1_000);
    let state = match ledger.data(&accounts.auction_instance).unwrap() {
        AccountData::StateRecord(s) => s,
        other => panic!("state record expected, found {:?}", other),
    };
    assert_eq!(state.treasury_to_pot_size_percentage_bps, 1000);
    assert_eq!(state.pot_size_to_participation_amount_percentage_bps, 100);
    assert_eq!(state.pot_size_fee_percentage_bps, 900);
    let den = auction_vault::state::BPS_DENOMINATOR as f64;
    assert_eq!(state.treasury_to_pot_size_percentage_bps as f64 / den, 0.1);
    assert_eq!(state.pot_size_to_participation_amount_percentage_bps as f64 / den, 0.01);
    assert_eq!(state.pot_size_fee_percentage_bps as f64 / den, 0.09);
}

#[test]
fn initialize_creates_vault_record_funded_with_rent() {
    let (ledger, accounts) = initialized_ledger(1_000);
    assert_eq!(ledger.data(&accounts.vault).unwrap(), AccountData::VaultRecord(
        auction_vault::state::Vault { bump: 0 },
    ));
    assert_eq!(ledger.balance(&accounts.vault).unwrap(), 2);
    assert_eq!(ledger.balance(&accounts.auction_instance).unwrap(), 3);
    assert_eq!(ledger.balance(&accounts.user).unwrap(), 1_000 - 2 - 3);
}

#[test]
fn initialize_twice_fails_with_creation_conflict() {
    let (mut ledger, accounts) = initialized_ledger(1_000);
    let user_before = ledger.balance(&accounts.user).unwrap();
    let second = initialize(&mut ledger, &accounts, 20, 9, 60, 1, 1, 2, 3);
    assert_eq!(second, Err(LedgerError::AccountAlreadyInUse));
    assert_eq!(ledger.balance(&accounts.user).unwrap(), user_before);
}

#[test]
fn initialize_fails_when_signer_cannot_cover_rent() {
    let mut ledger = Ledger::new();
    let user = wallet(1);
    ledger.create_wallet(&user, 4).unwrap();
    let accounts = derive_initialize_accounts(&program_id(), user).unwrap();
    let r = initialize(&mut ledger, &accounts, 10, 5, 3600, 1000, 100, 2, 3);
    assert_eq!(r, Err(LedgerError::InsufficientFunds));
    assert!(!ledger.contains(&accounts.vault));
    assert!(!ledger.contains(&accounts.auction_instance));
    assert_eq!(ledger.balance(&accounts.user).unwrap(), 4);
}

#[test]
fn fund_vault_scenario_insufficient_balance() {
    let (mut ledger, init_accounts) = initialized_ledger(1_000);
    let payer = wallet(2);
    ledger.create_wallet(&payer, 50).unwrap();
    let accounts = FundVault { vault: init_accounts.vault, payer };
    let vault_before = ledger.balance(&accounts.vault).unwrap();
    let r = fund_vault(&mut ledger, &accounts, 100);
    assert_eq!(r, Err(ErrorCode::NotEnoughSol));
    assert_eq!(ledger.balance(&accounts.vault).unwrap(), vault_before);
    assert_eq!(ledger.balance(&accounts.payer).unwrap(), 50);
}

#[test]
fn fund_vault_scenario_sufficient_balance() {
    let (mut ledger, init_accounts) = initialized_ledger(1_000);
    let payer = wallet(2);
    ledger.create_wallet(&payer, 200).unwrap();
    let accounts = derive_fund_vault_accounts(&program_id(), payer).unwrap();
    assert_eq!(accounts.vault, init_accounts.vault);
    let vault_before = ledger.balance(&accounts.vault).unwrap();
    let r = fund_vault(&mut ledger, &accounts, 100);
    assert_eq!(r, Ok(()));
    assert_eq!(ledger.balance(&accounts.vault).unwrap(), vault_before + 100);
    assert_eq!(ledger.balance(&accounts.payer).unwrap(), 100);
}

#[test]
fn fund_vault_exact_balance_succeeds() {
    let (mut ledger, init_accounts) = initialized_ledger(1_000);
    let payer = wallet(2);
    ledger.create_wallet(&payer, 100).unwrap();
    let accounts = FundVault { vault: init_accounts.vault, payer };
    let vault_before = ledger.balance(&accounts.vault).unwrap();
    assert_eq!(fund_vault(&mut ledger, &accounts, 100), Ok(()));
    assert_eq!(ledger.balance(&accounts.payer).unwrap(), 0);
    assert_eq!(ledger.balance(&accounts.vault).unwrap(), vault_before + 100);
}

#[test]
fn fund_vault_leaves_other_accounts_alone() {
    let (mut ledger, init_accounts) = initialized_ledger(1_000);
    let payer = wallet(2);
    let bystander = wallet(3);
    ledger.create_wallet(&payer, 200).unwrap();
    ledger.create_wallet(&bystander, 77).unwrap();
    let accounts = FundVault { vault: init_accounts.vault, payer };
    assert_eq!(fund_vault(&mut ledger, &accounts, 150), Ok(()));
    assert_eq!(ledger.balance(&bystander).unwrap(), 77);
    assert_eq!(ledger.balance(&init_accounts.user).unwrap(), 1_000 - 2 - 3);
}

#[test]
fn derived_addresses_differ_from_their_inputs_and_each_other() {
    let user = wallet(1);
    let accounts = derive_initialize_accounts(&program_id(), user).unwrap();
    assert_ne!(accounts.vault.bytes, program_id().bytes);
    assert_ne!(accounts.auction_instance.bytes, program_id().bytes);
    assert_ne!(accounts.vault.bytes, accounts.auction_instance.bytes);
    assert_eq!(accounts.user, user);
}

#[test]
fn derivation_is_deterministic() {
    let a = derive_initialize_accounts(&program_id(), wallet(1)).unwrap();
    let b = derive_initialize_accounts(&program_id(), wallet(9)).unwrap();
    assert_eq!(a.vault, b.vault);
    assert_eq!(a.auction_instance, b.auction_instance);
    let other = derive_initialize_accounts(&wallet(8), wallet(1)).unwrap();
    assert_ne!(other.vault, a.vault);
}

#[test]
fn sufficient_balance_is_the_funding_pre_check() {
    assert!(auction_vault::handlers::sufficient_balance(100, 100));
    assert!(auction_vault::handlers::sufficient_balance(100, 99));
    assert!(!auction_vault::handlers::sufficient_balance(100, 101));
    assert!(auction_vault::handlers::sufficient_balance(0, 0));
}

#[test]
fn not_enough_sol_message() {
    assert_eq!(ErrorCode::NotEnoughSol.message(), "Not enough SOL");
}
