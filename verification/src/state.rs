//! The program's two persisted record types and the values that
//! initialization gives them.
//!
//! The original fee parameters are fractions of the pot; they are held here
//! as basis points (one basis point is 1/10000), so that the record carries
//! only fixed-width integers.

use vstd::prelude::*;

use crate::ids::AccountId;

verus! {

/// The phase of the auction. It is declared by the program, set once to
/// `ENDED` at initialization, and no operation moves it between phases:
/// auction progression is not implemented.
#[allow(non_camel_case_types)]
#[derive(Clone, Copy, Debug, PartialEq, Eq, Structural)]
pub enum AuctionState {
    STARTED,
    ENDED,
    LOTTERY,
    WAITING,
}

/// Treasury share of the pot, in basis points: 1000/10000 == 0.1.
pub const TREASURY_TO_POT_SIZE_BPS: u64 = 1000;

/// Pot-to-participation ratio, in basis points: 100/10000 == 0.01.
pub const POT_SIZE_TO_PARTICIPATION_AMOUNT_BPS: u64 = 100;

/// Fee share of the pot, in basis points: 900/10000 == 0.09.
pub const POT_SIZE_FEE_BPS: u64 = 900;

/// The denominator of the fee fields: one basis point is 1/10000.
pub const BPS_DENOMINATOR: u64 = 10000;

/// The auction's configuration and progress record, a singleton persisted at
/// an address derived from the seed "state".
#[derive(Clone, Copy, Debug, PartialEq, Eq)]
pub struct State {
    pub default_time_increase_per_bet: i64,
    pub minimal_time_increase_per_bet: i64,
    pub auction_duration: i64,
    pub max_participation_amount: u64,
    pub min_pot_size: u64,
    pub auction_state: AuctionState,
    pub time_decrease_per_bet_reduction_speed: u64,
    pub current_auction_start_time: i64,
    pub current_auction_starting_pot_size: u64,
    pub current_auction_number: u64,
    pub current_participation_amount: u64,
    pub treasury_to_pot_size_percentage_bps: u64,
    pub pot_size_to_participation_amount_percentage_bps: u64,
    pub pot_size_fee_percentage_bps: u64,
    pub current_winning_bid_made_at: i64,
    pub current_winning_pubkey: AccountId,
    pub vault_public_key: AccountId,
}

/// The vault record, a singleton persisted at an address derived from the
/// seed "vault". Its worth is the ledger balance at its address, not a field.
#[derive(Clone, Copy, Debug, PartialEq, Eq)]
pub struct Vault {
    pub bump: u8,
}

/// What initialization leaves in the state record: the five caller-supplied
/// parameters verbatim, phase `ENDED`, fee fields at their fixed constants,
/// every progress field zero-initialized, no winner recorded, and the
/// vault's address linked in.
pub open spec fn is_initial_state(
    s: State,
    default_time_increase_per_bet: i64,
    minimal_time_increase_per_bet: i64,
    auction_duration: i64,
    max_participation_amount: u64,
    min_pot_size: u64,
    vault_public_key: AccountId,
) -> bool {
    &&& s.default_time_increase_per_bet == default_time_increase_per_bet
    &&& s.minimal_time_increase_per_bet == minimal_time_increase_per_bet
    &&& s.auction_duration == auction_duration
    &&& s.max_participation_amount == max_participation_amount
    &&& s.min_pot_size == min_pot_size
    &&& s.auction_state == AuctionState::ENDED
    &&& s.time_decrease_per_bet_reduction_speed == 0
    &&& s.current_auction_start_time == 0
    &&& s.current_auction_starting_pot_size == 0
    &&& s.current_auction_number == 0
    &&& s.current_participation_amount == 0
    &&& s.treasury_to_pot_size_percentage_bps == TREASURY_TO_POT_SIZE_BPS
    &&& s.pot_size_to_participation_amount_percentage_bps == POT_SIZE_TO_PARTICIPATION_AMOUNT_BPS
    &&& s.pot_size_fee_percentage_bps == POT_SIZE_FEE_BPS
    &&& s.current_winning_bid_made_at == 0
    &&& s.current_winning_pubkey.is_zero()
    &&& s.vault_public_key == vault_public_key
}

impl Vault {
    /// The serialized size of the vault record: its discriminator and its
    /// one tag byte. Derived from the per-field widths, never hand-kept.
    pub const LEN: usize = crate::DISCRIMINATOR_LENGTH + crate::BIT_8_LENGTH;
}

impl State {
    /// The serialized size of the state record: its discriminator, five
    /// timestamps, six unsigned 64-bit quantities, three fractional fee
    /// fields, one enumeration tag and two public keys. Derived from the
    /// per-field widths, never hand-kept.
    pub const LEN: usize = crate::DISCRIMINATOR_LENGTH + 5 * crate::TIMESTAMP_LENGTH + 6
        * crate::BIT_64_LENGTH + 3 * crate::FLOAT_64_LENGTH + crate::ENUM_LENGTH + 2
        * crate::PUBLIC_KEY_LENGTH;

    /// Build the state record as initialization leaves it.
    pub fn initial(
        default_time_increase_per_bet: i64,
        minimal_time_increase_per_bet: i64,
        auction_duration: i64,
        max_participation_amount: u64,
        min_pot_size: u64,
        vault_public_key: AccountId,
    ) -> (s: State)
        ensures
            is_initial_state(
                s,
                default_time_increase_per_bet,
                minimal_time_increase_per_bet,
                auction_duration,
                max_participation_amount,
                min_pot_size,
                vault_public_key,
            ),
    {
        State {
            default_time_increase_per_bet,
            minimal_time_increase_per_bet,
            auction_duration,
            max_participation_amount,
            min_pot_size,
            auction_state: AuctionState::ENDED,
            time_decrease_per_bet_reduction_speed: 0,
            current_auction_start_time: 0,
            current_auction_starting_pot_size: 0,
            current_auction_number: 0,
            current_participation_amount: 0,
            treasury_to_pot_size_percentage_bps: TREASURY_TO_POT_SIZE_BPS,
            pot_size_to_participation_amount_percentage_bps: POT_SIZE_TO_PARTICIPATION_AMOUNT_BPS,
            pot_size_fee_percentage_bps: POT_SIZE_FEE_BPS,
            current_winning_bid_made_at: 0,
            current_winning_pubkey: AccountId::zeroed(),
            vault_public_key,
        }
    }
}

/// After a successful initialization the state record is in phase `ENDED`,
/// carries the vault's address, and stores all five caller-supplied
/// parameters unchanged, for every choice of valid parameters.
pub proof fn lemma_initial_state_stores_parameters(
    s: State,
    default_time_increase_per_bet: i64,
    minimal_time_increase_per_bet: i64,
    auction_duration: i64,
    max_participation_amount: u64,
    min_pot_size: u64,
    vault_public_key: AccountId,
)
    requires
        is_initial_state(
            s,
            default_time_increase_per_bet,
            minimal_time_increase_per_bet,
            auction_duration,
            max_participation_amount,
            min_pot_size,
            vault_public_key,
        ),
    ensures
        s.auction_state == AuctionState::ENDED,
        s.vault_public_key == vault_public_key,
        s.default_time_increase_per_bet == default_time_increase_per_bet,
        s.minimal_time_increase_per_bet == minimal_time_increase_per_bet,
        s.auction_duration == auction_duration,
        s.max_participation_amount == max_participation_amount,
        s.min_pot_size == min_pot_size,
{
}

/// The fee fields of an initialized state record equal the fixed constants
/// 0.1, 0.01 and 0.09 (as basis points over 10000), whatever the
/// caller-supplied parameters were: no input reaches them.
pub proof fn lemma_initial_state_fees_fixed(
    s: State,
    default_time_increase_per_bet: i64,
    minimal_time_increase_per_bet: i64,
    auction_duration: i64,
    max_participation_amount: u64,
    min_pot_size: u64,
    vault_public_key: AccountId,
)
    requires
        is_initial_state(
            s,
            default_time_increase_per_bet,
            minimal_time_increase_per_bet,
            auction_duration,
            max_participation_amount,
            min_pot_size,
            vault_public_key,
        ),
    ensures
        s.treasury_to_pot_size_percentage_bps == 1000,
        s.pot_size_to_participation_amount_percentage_bps == 100,
        s.pot_size_fee_percentage_bps == 900,
        10 * s.treasury_to_pot_size_percentage_bps == BPS_DENOMINATOR,
        100 * s.pot_size_to_participation_amount_percentage_bps == BPS_DENOMINATOR,
{
}

} // verus!
