//! A timed-auction scaffold over an externally hosted ledger.
//!
//! The library models the ledger as keyed storage (address -> account),
//! and provides the two operations of the program: initializing the
//! auction's state and vault records, and funding the vault.

pub mod handlers;
pub mod ids;
pub mod ledger;
pub mod state;

use vstd::prelude::*;

verus! {

/// Width in bytes of the leading type discriminator of a persisted record.
pub const DISCRIMINATOR_LENGTH: usize = 8;

/// Width in bytes of a serialized public key.
pub const PUBLIC_KEY_LENGTH: usize = 32;

/// Width in bytes of a serialized timestamp (signed 64-bit).
pub const TIMESTAMP_LENGTH: usize = 8;

/// Width in bytes of a serialized 8-bit field.
pub const BIT_8_LENGTH: usize = 1;

/// Width in bytes of a serialized unsigned 64-bit field.
pub const BIT_64_LENGTH: usize = 8;

/// Width in bytes of a serialized 64-bit fractional field.
pub const FLOAT_64_LENGTH: usize = 8;

/// Width in bytes of a serialized enumeration tag.
pub const ENUM_LENGTH: usize = 1 + 1;

} // verus!
