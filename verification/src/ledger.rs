//! The host ledger modeled as externally-owned keyed storage: each account is
//! addressed by its identity and holds a balance and, for the program's own
//! records, typed record data. Addresses are unique; every operation either
//! completes fully or leaves the ledger unchanged.

use vstd::prelude::*;

use crate::ids::AccountId;
use crate::state::{State, Vault};

verus! {

/// Failures of the host ledger's own primitives, surfaced verbatim.
#[derive(Clone, Copy, Debug, PartialEq, Eq, Structural)]
pub enum LedgerError {
    /// Account creation found an account already at the derived address.
    AccountAlreadyInUse,
    /// The funding signer cannot cover what the primitive moves.
    InsufficientFunds,
}

/// What an account holds besides its ledger-native balance.
#[derive(Clone, Copy, Debug, PartialEq, Eq)]
pub enum AccountData {
    /// A plain balance-holding account, such as a signer's wallet.
    Wallet,
    /// The auction's configuration and progress record.
    StateRecord(State),
    /// The vault record.
    VaultRecord(Vault),
}

/// One account of the ledger.
#[derive(Clone, Copy, Debug, PartialEq, Eq)]
pub struct AccountEntry {
    pub id: AccountId,
    pub balance: u64,
    pub data: AccountData,
}

/// The ledger: a collection of accounts with pairwise distinct addresses.
pub struct Ledger {
    entries: Vec<AccountEntry>,
}

impl Ledger {
    /// Addresses are pairwise distinct.
    pub closed spec fn wf(self) -> bool {
        forall|i: int, j: int|
            0 <= i < j < self.entries@.len() ==> self.entries@[i].id@ != self.entries@[j].id@
    }

    /// Whether an account exists at the address.
    pub closed spec fn has(self, id: Seq<u8>) -> bool {
        exists|i: int| 0 <= i < self.entries@.len() && self.entries@[i].id@ == id
    }

    /// The position of the account at the address, where one exists.
    closed spec fn idx(self, id: Seq<u8>) -> int {
        choose|i: int| 0 <= i < self.entries@.len() && self.entries@[i].id@ == id
    }

    /// The balance of the account at the address, where one exists.
    pub closed spec fn balance_of(self, id: Seq<u8>) -> u64 {
        self.entries@[self.idx(id)].balance
    }

    /// The data of the account at the address, where one exists.
    pub closed spec fn data_of(self, id: Seq<u8>) -> AccountData {
        self.entries@[self.idx(id)].data
    }

    proof fn lemma_idx_is(self, id: Seq<u8>, i: int)
        requires
            self.wf(),
            0 <= i < self.entries@.len(),
            self.entries@[i].id@ == id,
        ensures
            self.has(id),
            self.idx(id) == i,
    {
        assert(self.has(id));
        let j = self.idx(id);
        assert(0 <= j < self.entries@.len() && self.entries@[j].id@ == id);
        if i < j {
            assert(self.entries@[i].id@ != self.entries@[j].id@);
        } else if j < i {
            assert(self.entries@[j].id@ != self.entries@[i].id@);
        }
    }

    /// An empty ledger.
    pub fn new() -> (r: Ledger)
        ensures
            r.wf(),
            forall|id: Seq<u8>| !r.has(id),
    {
        Ledger { entries: Vec::new() }
    }

    fn find_index(&self, id: &AccountId) -> (r: Option<usize>)
        requires
            self.wf(),
        ensures
            match r {
                Some(i) => {
                    &&& i < self.entries@.len()
                    &&& self.entries@[i as int].id@ == id@
                    &&& self.has(id@)
                    &&& self.idx(id@) == i
                },
                None => !self.has(id@),
            },
    {
        let mut i: usize = 0;
        while i < self.entries.len()
            invariant
                self.wf(),
                i <= self.entries@.len(),
                forall|j: int| 0 <= j < i ==> self.entries@[j].id@ != id@,
            decreases self.entries@.len() - i,
        {
            if self.entries[i].id.eq_id(id) {
                proof {
                    self.lemma_idx_is(id@, i as int);
                }
                return Some(i);
            }
            i = i + 1;
        }
        None
    }

    /// Whether an account exists at the address.
    pub fn contains(&self, id: &AccountId) -> (r: bool)
        requires
            self.wf(),
        ensures
            r == self.has(id@),
    {
        self.find_index(id).is_some()
    }

    /// The balance at the address, where an account exists there.
    pub fn balance(&self, id: &AccountId) -> (r: Option<u64>)
        requires
            self.wf(),
        ensures
            (r is Some) == self.has(id@),
            r is Some ==> r->0 == self.balance_of(id@),
    {
        match self.find_index(id) {
            Some(i) => Some(self.entries[i].balance),
            None => None,
        }
    }

    /// The account data at the address, where an account exists there.
    pub fn data(&self, id: &AccountId) -> (r: Option<AccountData>)
        requires
            self.wf(),
        ensures
            (r is Some) == self.has(id@),
            r is Some ==> r->0 == self.data_of(id@),
    {
        match self.find_index(id) {
            Some(i) => Some(self.entries[i].data),
            None => None,
        }
    }

    /// Allocate a fresh account at an unused address, as the host ledger's
    /// creation primitive does.
    pub(crate) fn create_account(&mut self, id: &AccountId, balance: u64, data: AccountData)
        requires
            old(self).wf(),
            !old(self).has(id@),
        ensures
            final(self).wf(),
            final(self).has(id@),
            final(self).balance_of(id@) == balance,
            final(self).data_of(id@) == data,
            forall|k: Seq<u8>| #[trigger] old(self).has(k) ==> final(self).has(k),
            forall|k: Seq<u8>| #[trigger] final(self).has(k) ==> old(self).has(k) || k == id@,
            forall|k: Seq<u8>|
                #[trigger] old(self).has(k) ==> final(self).balance_of(k) == old(self).balance_of(k)
                    && final(self).data_of(k) == old(self).data_of(k),
    {
        let entry = AccountEntry { id: *id, balance, data };
        self.entries.push(entry);
        proof {
            let pre = *old(self);
            let post = *self;
            let n = pre.entries@.len() as int;
            assert forall|i: int, j: int|
                0 <= i < j < post.entries@.len() implies post.entries@[i].id@
                != post.entries@[j].id@ by {
                if j < n {
                    assert(pre.entries@[i].id@ != pre.entries@[j].id@);
                } else {
                    assert(post.entries@[j] == entry);
                    assert(post.entries@[i] == pre.entries@[i]);
                    if pre.entries@[i].id@ == id@ {
                        assert(pre.has(id@));
                    }
                }
            }
            post.lemma_idx_is(id@, n);
            assert forall|k: Seq<u8>| #[trigger] pre.has(k) implies post.has(k)
                && post.balance_of(k) == pre.balance_of(k) && post.data_of(k)
                == pre.data_of(k) by {
                let i = pre.idx(k);
                pre.lemma_idx_is(k, i);
                assert(post.entries@[i] == pre.entries@[i]);
                post.lemma_idx_is(k, i);
            }
            assert forall|k: Seq<u8>| #[trigger] post.has(k) implies pre.has(k) || k == id@ by {
                let i = post.idx(k);
                assert(0 <= i < post.entries@.len() && post.entries@[i].id@ == k);
                if i < n {
                    assert(pre.entries@[i].id@ == k);
                    assert(pre.has(k));
                }
            }
        }
    }

    fn set_balance_at(&mut self, i: usize, new_balance: u64)
        requires
            old(self).wf(),
            i < old(self).entries@.len(),
        ensures
            final(self).wf(),
            final(self).has(old(self).entries@[i as int].id@),
            final(self).balance_of(old(self).entries@[i as int].id@) == new_balance,
            forall|k: Seq<u8>| final(self).has(k) == old(self).has(k),
            forall|k: Seq<u8>|
                #[trigger] old(self).has(k) ==> final(self).data_of(k) == old(self).data_of(k),
            forall|k: Seq<u8>|
                old(self).has(k) && k != old(self).entries@[i as int].id@
                    ==> final(self).balance_of(k) == old(self).balance_of(k),
    {
        let e = self.entries[i];
        self.entries[i] = AccountEntry { id: e.id, balance: new_balance, data: e.data };
        proof {
            let pre = *old(self);
            let post = *self;
            let id = pre.entries@[i as int].id@;
            assert forall|j: int| 0 <= j < post.entries@.len() implies post.entries@[j].id@
                == pre.entries@[j].id@ by {}
            assert(post.wf());
            post.lemma_idx_is(id, i as int);
            assert forall|k: Seq<u8>| post.has(k) == pre.has(k) by {
                if pre.has(k) {
                    let j = pre.idx(k);
                    pre.lemma_idx_is(k, j);
                    assert(post.entries@[j].id@ == k);
                    assert(post.has(k));
                }
                if post.has(k) {
                    let j = post.idx(k);
                    assert(pre.entries@[j].id@ == k);
                    assert(pre.has(k));
                }
            }
            assert forall|k: Seq<u8>| #[trigger] pre.has(k) implies post.data_of(k)
                == pre.data_of(k) && (k != id ==> post.balance_of(k) == pre.balance_of(k)) by {
                let j = pre.idx(k);
                pre.lemma_idx_is(k, j);
                post.lemma_idx_is(k, j);
                if j != i as int {
                    assert(post.entries@[j] == pre.entries@[j]);
                }
            }
        }
    }

    /// Debit an existing account by an amount it can cover.
    pub(crate) fn debit(&mut self, id: &AccountId, amount: u64)
        requires
            old(self).wf(),
            old(self).has(id@),
            amount <= old(self).balance_of(id@),
        ensures
            final(self).wf(),
            final(self).balance_of(id@) == old(self).balance_of(id@) - amount,
            forall|k: Seq<u8>| final(self).has(k) == old(self).has(k),
            forall|k: Seq<u8>|
                #[trigger] old(self).has(k) ==> final(self).data_of(k) == old(self).data_of(k),
            forall|k: Seq<u8>|
                old(self).has(k) && k != id@ ==> final(self).balance_of(k) == old(self).balance_of(
                    k,
                ),
    {
        let i = self.find_index(id).unwrap();
        let bal = self.entries[i].balance;
        self.set_balance_at(i, bal - amount);
    }

    /// Credit an existing account, within the balance's machine width.
    pub(crate) fn credit(&mut self, id: &AccountId, amount: u64)
        requires
            old(self).wf(),
            old(self).has(id@),
            old(self).balance_of(id@) + amount <= u64::MAX,
        ensures
            final(self).wf(),
            final(self).balance_of(id@) == old(self).balance_of(id@) + amount,
            forall|k: Seq<u8>| final(self).has(k) == old(self).has(k),
            forall|k: Seq<u8>|
                #[trigger] old(self).has(k) ==> final(self).data_of(k) == old(self).data_of(k),
            forall|k: Seq<u8>|
                old(self).has(k) && k != id@ ==> final(self).balance_of(k) == old(self).balance_of(
                    k,
                ),
    {
        let i = self.find_index(id).unwrap();
        let bal = self.entries[i].balance;
        self.set_balance_at(i, bal + amount);
    }

    /// Create a plain wallet account with a starting balance, as the host
    /// does for a signer funded outside this program.
    pub fn create_wallet(&mut self, id: &AccountId, balance: u64) -> (r: Result<(), LedgerError>)
        requires
            old(self).wf(),
        ensures
            final(self).wf(),
            (r is Ok) == !old(self).has(id@),
            r is Err ==> *final(self) == *old(self) && r->Err_0 == LedgerError::AccountAlreadyInUse,
            r is Ok ==> {
                &&& final(self).has(id@)
                &&& final(self).balance_of(id@) == balance
                &&& final(self).data_of(id@) == AccountData::Wallet
                &&& forall|k: Seq<u8>| #[trigger] old(self).has(k) ==> final(self).has(k)
                &&& forall|k: Seq<u8>| #[trigger]
                    final(self).has(k) ==> old(self).has(k) || k == id@
                &&& forall|k: Seq<u8>| #[trigger]
                    old(self).has(k) ==> final(self).balance_of(k) == old(self).balance_of(k)
                        && final(self).data_of(k) == old(self).data_of(k)
            },
    {
        if self.contains(id) {
            return Err(LedgerError::AccountAlreadyInUse);
        }
        self.create_account(id, balance, AccountData::Wallet);
        Ok(())
    }

    /// Move an amount between two distinct existing accounts, as the host
    /// ledger's native transfer primitive does: all or nothing.
    pub fn transfer(&mut self, from: &AccountId, to: &AccountId, amount: u64) -> (r: Result<
        (),
        LedgerError,
    >)
        requires
            old(self).wf(),
            old(self).has(from@),
            old(self).has(to@),
            from@ != to@,
            amount <= old(self).balance_of(from@) ==> old(self).balance_of(to@) + amount
                <= u64::MAX,
        ensures
            final(self).wf(),
            (r is Err) == (amount > old(self).balance_of(from@)),
            r is Err ==> *final(self) == *old(self) && r->Err_0 == LedgerError::InsufficientFunds,
            r is Ok ==> {
                &&& final(self).balance_of(from@) == old(self).balance_of(from@) - amount
                &&& final(self).balance_of(to@) == old(self).balance_of(to@) + amount
                &&& forall|k: Seq<u8>| final(self).has(k) == old(self).has(k)
                &&& forall|k: Seq<u8>| #[trigger]
                    old(self).has(k) ==> final(self).data_of(k) == old(self).data_of(k)
                &&& forall|k: Seq<u8>|
                    old(self).has(k) && k != from@ && k != to@ ==> final(self).balance_of(k) == old(
                        self,
                    ).balance_of(k)
            },
    {
        let from_balance = self.balance(from).unwrap();
        if from_balance < amount {
            return Err(LedgerError::InsufficientFunds);
        }
        let ghost pre = *self;
        self.debit(from, amount);
        let ghost mid = *self;
        self.credit(to, amount);
        proof {
            assert(mid.balance_of(to@) == pre.balance_of(to@));
            assert(self.balance_of(from@) == pre.balance_of(from@) - amount);
        }
        Ok(())
    }
}

} // verus!
