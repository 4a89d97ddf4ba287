//! Identities of accounts on the host ledger, and the derivation of the
//! program's own record addresses from fixed textual seeds.

use vstd::prelude::*;

verus! {

broadcast use vstd::array::group_array_axioms;

/// A 32-byte public identity (address) on the host ledger.
#[derive(Clone, Copy, Debug, PartialEq, Eq)]
pub struct AccountId {
    pub bytes: [u8; 32],
}

impl View for AccountId {
    type V = Seq<u8>;

    open spec fn view(&self) -> Seq<u8> {
        self.bytes@
    }
}

impl AccountId {
    /// Byte-for-byte comparison of two identities.
    pub fn eq_id(&self, other: &AccountId) -> (r: bool)
        ensures
            r <==> self@ == other@,
    {
        let mut i: usize = 0;
        while i < 32
            invariant
                i <= 32,
                forall|j: int| 0 <= j < i ==> self.bytes@[j] == other.bytes@[j],
            decreases 32 - i,
        {
            if self.bytes[i] != other.bytes[i] {
                return false;
            }
            i = i + 1;
        }
        proof {
            assert(self.bytes@ =~= other.bytes@);
        }
        true
    }

    /// The all-zero identity, used where no identity has been recorded yet.
    pub fn zeroed() -> (r: AccountId)
        ensures
            r@.len() == 32,
            forall|i: int| 0 <= i < 32 ==> r@[i] == 0u8,
    {
        AccountId { bytes: [0u8; 32] }
    }

    /// Whether every byte of the identity is zero.
    pub open spec fn is_zero(self) -> bool {
        forall|i: int| 0 <= i < 32 ==> self@[i] == 0u8
    }
}

/// The seed from which the vault record's address is derived: the ASCII bytes
/// of "vault".
pub open spec fn vault_seed_spec() -> Seq<u8> {
    seq![118u8, 97u8, 117u8, 108u8, 116u8]
}

/// The seed from which the state record's address is derived: the ASCII bytes
/// of "state".
pub open spec fn state_seed_spec() -> Seq<u8> {
    seq![115u8, 116u8, 97u8, 116u8, 101u8]
}

/// The vault record's address seed, as bytes.
pub fn vault_seed() -> (r: Vec<u8>)
    ensures
        r@ == vault_seed_spec(),
{
    let v: Vec<u8> = vec![118u8, 97u8, 117u8, 108u8, 116u8];
    proof {
        assert(v@ =~= vault_seed_spec());
    }
    v
}

/// The state record's address seed, as bytes.
pub fn state_seed() -> (r: Vec<u8>)
    ensures
        r@ == state_seed_spec(),
{
    let v: Vec<u8> = vec![115u8, 116u8, 97u8, 116u8, 101u8];
    proof {
        assert(v@ =~= state_seed_spec());
    }
    v
}

/// The address and bump seed that the host ledger's derivation algorithm
/// yields for a seed and a program identity, if any: a function of its
/// arguments alone. The algorithm itself belongs to the host ledger and is
/// not restated here.
pub uninterp spec fn derived_address(seed: Seq<u8>, program_id: Seq<u8>) -> Option<(Seq<u8>, u8)>;

/// Relies on Pubkey::try_find_program_address: the derived address and bump
/// seed depend on the seeds and the program identity alone, and None comes
/// only where no bump seed yields a valid address.
#[verifier::external_body]
pub fn find_derived_address(seed: &Vec<u8>, program_id: &AccountId) -> (r: Option<(AccountId, u8)>)
    ensures
        match r {
            Some(p) => derived_address(seed@, program_id@) == Some((p.0@, p.1)),
            None => derived_address(seed@, program_id@) is None,
        },
{
    let pid = anchor_lang::solana_program::pubkey::Pubkey::new_from_array(program_id.bytes);
    anchor_lang::solana_program::pubkey::Pubkey::try_find_program_address(&[seed.as_slice()], &pid)
        .map(|(key, bump)| (AccountId { bytes: key.to_bytes() }, bump))
}

} // verus!
