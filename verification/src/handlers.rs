//! The program's two operations: initializing the auction's records and
//! funding the vault.

use vstd::prelude::*;

use crate::ids::{
    derived_address, find_derived_address, state_seed, state_seed_spec, vault_seed,
    vault_seed_spec, AccountId,
};
use crate::ledger::{AccountData, Ledger, LedgerError};
use crate::state::{is_initial_state, State, Vault};

verus! {

/// The program's one domain error.
#[derive(Clone, Copy, Debug, PartialEq, Eq, Structural)]
pub enum ErrorCode {
    /// The signer's balance does not cover the requested amount.
    NotEnoughSol,
}

impl ErrorCode {
    /// The message attached to the error.
    pub fn message(&self) -> (r: &'static str)
        ensures
            r@ == "Not enough SOL"@,
    {
        "Not enough SOL"
    }
}

/// The accounts that `initialize` touches: the two records to create and the
/// signer that funds their storage.
#[derive(Clone, Copy, Debug, PartialEq, Eq)]
pub struct Initialize {
    pub vault: AccountId,
    pub auction_instance: AccountId,
    pub user: AccountId,
}

/// The accounts that `fund_vault` touches: the vault and the paying signer.
#[derive(Clone, Copy, Debug, PartialEq, Eq)]
pub struct FundVault {
    pub vault: AccountId,
    pub payer: AccountId,
}

/// Derive the addresses of the two records from their fixed seeds and the
/// program's identity, and bundle them with the signer.
pub fn derive_initialize_accounts(program_id: &AccountId, user: AccountId) -> (r: Option<
    Initialize,
>)
    ensures
        (r is Some) == (derived_address(vault_seed_spec(), program_id@) is Some
            && derived_address(state_seed_spec(), program_id@) is Some),
        r is Some ==> r->0.vault@ == (derived_address(vault_seed_spec(), program_id@)->0).0,
        r is Some ==> r->0.auction_instance@ == (derived_address(
            state_seed_spec(),
            program_id@,
        )->0).0,
        r is Some ==> r->0.user == user,
{
    let vault_seed_bytes = vault_seed();
    let state_seed_bytes = state_seed();
    let vault = match find_derived_address(&vault_seed_bytes, program_id) {
        Some(p) => p.0,
        None => {
            return None;
        },
    };
    let auction_instance = match find_derived_address(&state_seed_bytes, program_id) {
        Some(p) => p.0,
        None => {
            return None;
        },
    };
    Some(Initialize { vault, auction_instance, user })
}

/// Derive the vault's address from its fixed seed and the program's
/// identity, and bundle it with the paying signer.
pub fn derive_fund_vault_accounts(program_id: &AccountId, payer: AccountId) -> (r: Option<
    FundVault,
>)
    ensures
        (r is Some) == (derived_address(vault_seed_spec(), program_id@) is Some),
        r is Some ==> r->0.vault@ == (derived_address(vault_seed_spec(), program_id@)->0).0,
        r is Some ==> r->0.payer == payer,
{
    let vault_seed_bytes = vault_seed();
    match find_derived_address(&vault_seed_bytes, program_id) {
        Some(p) => Some(FundVault { vault: p.0, payer }),
        None => None,
    }
}

/// Create the state and vault records, both funded by the signer: the state
/// record stores the five caller-supplied parameters verbatim, phase `ENDED`,
/// the fixed fee constants and the vault's address; the vault record holds
/// its single tag byte. Creation is refused where either derived address is
/// already in use, and where the signer cannot cover the records' storage
/// cost (`vault_rent` and `state_rent`, set by the host). On a deployment
/// whose prior accounts are all plain wallets, success leaves exactly one
/// state record and exactly one vault record, mutually linked.
pub fn initialize(
    ledger: &mut Ledger,
    accounts: &Initialize,
    default_time_increase_per_bet: i64,
    minimal_time_increase_per_bet: i64,
    auction_duration: i64,
    max_participation_amount: u64,
    min_pot_size: u64,
    vault_rent: u64,
    state_rent: u64,
) -> (r: Result<(), LedgerError>)
    requires
        old(ledger).wf(),
        old(ledger).has(accounts.user@),
        accounts.user@ != accounts.vault@,
        accounts.user@ != accounts.auction_instance@,
        accounts.vault@ != accounts.auction_instance@,
    ensures
        final(ledger).wf(),
        r is Err ==> *final(ledger) == *old(ledger),
        (r == Result::<(), LedgerError>::Err(LedgerError::AccountAlreadyInUse)) == (old(ledger).has(
            accounts.vault@,
        ) || old(ledger).has(accounts.auction_instance@)),
        (r == Result::<(), LedgerError>::Err(LedgerError::InsufficientFunds)) == (!old(ledger).has(
            accounts.vault@,
        ) && !old(ledger).has(accounts.auction_instance@) && old(ledger).balance_of(accounts.user@)
            < vault_rent + state_rent),
        r is Ok ==> {
            &&& final(ledger).has(accounts.vault@)
            &&& final(ledger).balance_of(accounts.vault@) == vault_rent
            &&& final(ledger).data_of(accounts.vault@) == AccountData::VaultRecord(
                Vault { bump: 0 },
            )
            &&& final(ledger).has(accounts.auction_instance@)
            &&& final(ledger).balance_of(accounts.auction_instance@) == state_rent
            &&& final(ledger).data_of(accounts.auction_instance@) is StateRecord
            &&& is_initial_state(
                final(ledger).data_of(accounts.auction_instance@)->StateRecord_0,
                default_time_increase_per_bet,
                minimal_time_increase_per_bet,
                auction_duration,
                max_participation_amount,
                min_pot_size,
                accounts.vault,
            )
            &&& final(ledger).balance_of(accounts.user@) == old(ledger).balance_of(accounts.user@)
                - vault_rent - state_rent
            &&& final(ledger).data_of(accounts.user@) == old(ledger).data_of(accounts.user@)
            &&& forall|k: Seq<u8>| #[trigger] old(ledger).has(k) ==> final(ledger).has(k)
            &&& forall|k: Seq<u8>| #[trigger]
                final(ledger).has(k) ==> old(ledger).has(k) || k == accounts.vault@ || k
                    == accounts.auction_instance@
            &&& forall|k: Seq<u8>|
                old(ledger).has(k) && k != accounts.user@
                    ==> final(ledger).balance_of(k) == old(ledger).balance_of(k)
                        && final(ledger).data_of(k) == old(ledger).data_of(k)
        },
        (r is Ok && (forall|k: Seq<u8>| #[trigger]
            old(ledger).has(k) ==> old(ledger).data_of(k) == AccountData::Wallet)) ==> {
            &&& forall|k: Seq<u8>|
                final(ledger).has(k) && (#[trigger] final(ledger).data_of(k)) is StateRecord
                    ==> k == accounts.auction_instance@
            &&& forall|k: Seq<u8>|
                final(ledger).has(k) && (#[trigger] final(ledger).data_of(k)) is VaultRecord
                    ==> k == accounts.vault@
        },
{
    if ledger.contains(&accounts.vault) || ledger.contains(&accounts.auction_instance) {
        return Err(LedgerError::AccountAlreadyInUse);
    }
    let user_balance = ledger.balance(&accounts.user).unwrap();
    if user_balance < vault_rent || user_balance - vault_rent < state_rent {
        return Err(LedgerError::InsufficientFunds);
    }
    let ghost pre = *ledger;
    ledger.debit(&accounts.user, vault_rent);
    let ghost after_first_debit = *ledger;
    ledger.debit(&accounts.user, state_rent);
    let ghost after_debit = *ledger;
    ledger.create_account(&accounts.vault, vault_rent, AccountData::VaultRecord(Vault { bump: 0 }));
    let ghost after_vault = *ledger;
    let state = State::initial(
        default_time_increase_per_bet,
        minimal_time_increase_per_bet,
        auction_duration,
        max_participation_amount,
        min_pot_size,
        accounts.vault,
    );
    ledger.create_account(&accounts.auction_instance, state_rent, AccountData::StateRecord(state));
    proof {
        assert(after_debit.balance_of(accounts.user@) == pre.balance_of(accounts.user@)
            - vault_rent - state_rent);
        assert(after_vault.balance_of(accounts.user@) == after_debit.balance_of(accounts.user@));
        assert(ledger.balance_of(accounts.user@) == after_vault.balance_of(accounts.user@));
        assert(ledger.balance_of(accounts.vault@) == after_vault.balance_of(accounts.vault@));
        assert(ledger.data_of(accounts.vault@) == after_vault.data_of(accounts.vault@));
        assert forall|k: Seq<u8>|
            pre.has(k) && k != accounts.user@ implies #[trigger] ledger.balance_of(k)
            == pre.balance_of(k) && ledger.data_of(k) == pre.data_of(k) by {
            assert(after_first_debit.has(k));
            assert(after_debit.has(k));
            assert(after_vault.has(k));
            assert(after_first_debit.balance_of(k) == pre.balance_of(k));
            assert(after_debit.balance_of(k) == after_first_debit.balance_of(k));
            assert(after_vault.balance_of(k) == after_debit.balance_of(k));
            assert(ledger.balance_of(k) == after_vault.balance_of(k));
        }
        if forall|k: Seq<u8>| #[trigger] pre.has(k) ==> pre.data_of(k) == AccountData::Wallet {
            assert forall|k: Seq<u8>|
                ledger.has(k) && (#[trigger] ledger.data_of(k)) is StateRecord implies k
                == accounts.auction_instance@ by {
                if k != accounts.auction_instance@ && k != accounts.vault@ {
                    assert(after_vault.has(k));
                    assert(after_debit.has(k));
                    assert(pre.has(k));
                    assert(ledger.balance_of(k) == pre.balance_of(k) || k == accounts.user@);
                    assert(ledger.data_of(k) == pre.data_of(k));
                    assert(pre.data_of(k) == AccountData::Wallet);
                }
            }
            assert forall|k: Seq<u8>|
                ledger.has(k) && (#[trigger] ledger.data_of(k)) is VaultRecord implies k
                == accounts.vault@ by {
                if k != accounts.auction_instance@ && k != accounts.vault@ {
                    assert(after_vault.has(k));
                    assert(after_debit.has(k));
                    assert(pre.has(k));
                    assert(ledger.balance_of(k) == pre.balance_of(k) || k == accounts.user@);
                    assert(ledger.data_of(k) == pre.data_of(k));
                    assert(pre.data_of(k) == AccountData::Wallet);
                }
            }
        }
    }
    Ok(())
}

/// The funding pre-check: whether a signer's balance covers a requested
/// amount. `fund_vault` refuses with the domain error exactly where this is
/// false, before any transfer is attempted.
pub fn sufficient_balance(balance: u64, amount: u64) -> (r: bool)
    ensures
        r == (amount <= balance),
{
    amount <= balance
}

/// Move `amount` from the paying signer into the vault. The transfer is
/// refused, and the ledger untouched, exactly where the signer's balance does
/// not cover the amount; on success the vault's balance grows by exactly
/// `amount` and the signer's shrinks by exactly `amount`.
pub fn fund_vault(ledger: &mut Ledger, accounts: &FundVault, amount: u64) -> (r: Result<
    (),
    ErrorCode,
>)
    requires
        old(ledger).wf(),
        old(ledger).has(accounts.payer@),
        old(ledger).has(accounts.vault@),
        accounts.payer@ != accounts.vault@,
        amount <= old(ledger).balance_of(accounts.payer@) ==> old(ledger).balance_of(
            accounts.vault@,
        ) + amount <= u64::MAX,
    ensures
        final(ledger).wf(),
        (r is Err) == (amount > old(ledger).balance_of(accounts.payer@)),
        r is Err ==> *final(ledger) == *old(ledger) && r->Err_0 == ErrorCode::NotEnoughSol,
        r is Ok ==> {
            &&& final(ledger).balance_of(accounts.payer@) == old(ledger).balance_of(
                accounts.payer@,
            ) - amount
            &&& final(ledger).balance_of(accounts.vault@) == old(ledger).balance_of(
                accounts.vault@,
            ) + amount
            &&& forall|k: Seq<u8>| final(ledger).has(k) == old(ledger).has(k)
            &&& forall|k: Seq<u8>| #[trigger]
                old(ledger).has(k) ==> final(ledger).data_of(k) == old(ledger).data_of(k)
            &&& forall|k: Seq<u8>|
                old(ledger).has(k) && k != accounts.payer@ && k != accounts.vault@
                    ==> final(ledger).balance_of(k) == old(ledger).balance_of(k)
        },
{
    let payer_balance = ledger.balance(&accounts.payer).unwrap();
    if !sufficient_balance(payer_balance, amount) {
        return Err(ErrorCode::NotEnoughSol);
    }
    let t = ledger.transfer(&accounts.payer, &accounts.vault, amount);
    match t {
        Ok(_) => Ok(()),
        Err(_) => {
            proof {
                assert(false);
            }
            Err(ErrorCode::NotEnoughSol)
        },
    }
}

} // verus!
