//! A model of the per-chain ledger the external primitive maintains.
//!
//! The ledger maps each owner to a balance; an owner without a recorded row
//! reads as zero. Credits saturate at the amount type's maximum and debits
//! fail — changing nothing — when the recorded balance is too small, so no
//! operation ever wraps silently.

use vstd::prelude::*;

use crate::accounts::AccountEntry;
use crate::accounts::Owner;
use crate::errors::LedgerError;

verus! {

/// No two rows name the same owner.
pub open spec fn unique_keys(s: Seq<AccountEntry>) -> bool {
    forall|i: int, j: int| 0 <= i < j < s.len() ==> s[i].key != s[j].key
}

/// The balance the rows record for an owner: the value of the last row naming
/// it, or zero when no row does.
pub open spec fn bal_in(s: Seq<AccountEntry>, owner: Owner) -> u128
    decreases s.len(),
{
    if s.len() == 0 {
        0
    } else if s.last().key == owner {
        s.last().value
    } else {
        bal_in(s.drop_last(), owner)
    }
}

/// Saturating addition on amounts.
pub open spec fn sat_add(a: u128, b: u128) -> u128 {
    if a + b > u128::MAX {
        u128::MAX
    } else {
        (a + b) as u128
    }
}

/// The saturating sum of every recorded balance.
pub open spec fn sat_total_in(s: Seq<AccountEntry>) -> u128
    decreases s.len(),
{
    if s.len() == 0 {
        0
    } else {
        sat_add(sat_total_in(s.drop_last()), s.last().value)
    }
}

/// An owner listed in no row has balance zero.
pub proof fn lemma_bal_absent(s: Seq<AccountEntry>, owner: Owner)
    requires
        forall|i: int| 0 <= i < s.len() ==> s[i].key != owner,
    ensures
        bal_in(s, owner) == 0,
    decreases s.len(),
{
    if s.len() > 0 {
        assert(forall|i: int|
            0 <= i < s.drop_last().len() ==> s.drop_last()[i].key != owner);
        lemma_bal_absent(s.drop_last(), owner);
    }
}

/// With unique keys, the one row naming an owner records its balance.
pub proof fn lemma_bal_found(s: Seq<AccountEntry>, i: int)
    requires
        unique_keys(s),
        0 <= i < s.len(),
    ensures
        bal_in(s, s[i].key) == s[i].value,
    decreases s.len(),
{
    if i < s.len() - 1 {
        assert(s.last().key != s[i].key);
        assert(forall|j: int| 0 <= j < s.drop_last().len() ==> s.drop_last()[j] == s[j]);
        lemma_bal_found(s.drop_last(), i);
    }
}

/// Removing a row naming another owner leaves an owner's balance unchanged.
pub proof fn lemma_bal_remove(s: Seq<AccountEntry>, i: int, owner: Owner)
    requires
        0 <= i < s.len(),
        s[i].key != owner,
    ensures
        bal_in(s.remove(i), owner) == bal_in(s, owner),
    decreases s.len(),
{
    if i == s.len() - 1 {
        assert(s.remove(i) =~= s.drop_last());
    } else {
        assert(s.remove(i).last() == s.last());
        assert(s.remove(i).drop_last() =~= s.drop_last().remove(i));
        if s.last().key != owner {
            lemma_bal_remove(s.drop_last(), i, owner);
        }
    }
}

/// Removing a row keeps the remaining keys unique, and when keys were unique
/// the removed row's owner is no longer listed.
pub proof fn lemma_remove_unique(s: Seq<AccountEntry>, i: int)
    requires
        unique_keys(s),
        0 <= i < s.len(),
    ensures
        unique_keys(s.remove(i)),
        forall|j: int| 0 <= j < s.remove(i).len() ==> s.remove(i)[j].key != s[i].key,
{
    assert forall|j: int| 0 <= j < s.remove(i).len() implies s.remove(i)[j].key != s[i].key by {
        if j < i {
            assert(s.remove(i)[j] == s[j]);
        } else {
            assert(s.remove(i)[j] == s[j + 1]);
        }
    }
    assert forall|j: int, k: int|
        0 <= j < k < s.remove(i).len() implies s.remove(i)[j].key != s.remove(i)[k].key by {
        let j0 = if j < i { j } else { j + 1 };
        let k0 = if k < i { k } else { k + 1 };
        assert(s.remove(i)[j] == s[j0]);
        assert(s.remove(i)[k] == s[k0]);
    }
}

/// The per-chain ledger model: a list of rows with pairwise distinct owners.
pub struct Ledger {
    entries: Vec<AccountEntry>,
}

impl View for Ledger {
    type V = Seq<AccountEntry>;

    closed spec fn view(&self) -> Seq<AccountEntry> {
        self.entries@
    }
}

impl Ledger {
    /// Well-formed: no owner is recorded twice.
    pub open spec fn wf(&self) -> bool {
        unique_keys(self@)
    }

    /// The balance of an owner; zero when unrecorded.
    pub open spec fn bal(&self, owner: Owner) -> u128 {
        bal_in(self@, owner)
    }

    /// An empty ledger: every owner reads as zero.
    pub fn new() -> (r: Ledger)
        ensures
            r.wf(),
            r@ == Seq::<AccountEntry>::empty(),
            forall|p: Owner| r.bal(p) == 0,
    {
        let ledger = Ledger { entries: Vec::new() };
        proof {
            assert(ledger@ =~= Seq::<AccountEntry>::empty());
        }
        ledger
    }

    /// Index of the row naming `owner`, if one is recorded.
    fn find(&self, owner: Owner) -> (r: Option<usize>)
        ensures
            (match r {
                Some(i) => i < self@.len() && self@[i as int].key == owner,
                None => forall|j: int| 0 <= j < self@.len() ==> self@[j].key != owner,
            }),
    {
        let mut i: usize = 0;
        while i < self.entries.len()
            invariant
                i <= self.entries.len(),
                forall|j: int| 0 <= j < i ==> self.entries@[j].key != owner,
            decreases self.entries.len() - i,
        {
            if self.entries[i].key == owner {
                return Some(i);
            }
            i = i + 1;
        }
        None
    }

    /// Reads an owner's balance; an absent owner reads as zero, not as an
    /// error.
    pub fn balance(&self, owner: Owner) -> (r: u128)
        requires
            self.wf(),
        ensures
            r == self.bal(owner),
    {
        match self.find(owner) {
            Some(i) => {
                proof {
                    lemma_bal_found(self@, i as int);
                }
                self.entries[i].value
            },
            None => {
                proof {
                    lemma_bal_absent(self@, owner);
                }
                0
            },
        }
    }

    /// Adds `amount` to `owner`'s balance, saturating at the amount type's
    /// maximum; every other balance is untouched.
    pub fn credit(&mut self, owner: Owner, amount: u128)
        requires
            old(self).wf(),
        ensures
            final(self).wf(),
            final(self).bal(owner) == sat_add(old(self).bal(owner), amount),
            forall|p: Owner| p != owner ==> final(self).bal(p) == old(self).bal(p),
    {
        let ghost s0 = self@;
        match self.find(owner) {
            Some(i) => {
                let held = self.entries[i].value;
                let updated = if u128::MAX - held < amount {
                    u128::MAX
                } else {
                    held + amount
                };
                proof {
                    lemma_bal_found(s0, i as int);
                    lemma_remove_unique(s0, i as int);
                }
                self.entries.remove(i);
                self.entries.push(AccountEntry { key: owner, value: updated });
                proof {
                    let s2 = self@;
                    assert(s2.drop_last() =~= s0.remove(i as int));
                    assert(s2.last() == (AccountEntry { key: owner, value: updated }));
                    assert forall|p: Owner| p != owner implies bal_in(s2, p) == bal_in(s0, p) by {
                        lemma_bal_remove(s0, i as int, p);
                    }
                    assert forall|j: int, k: int|
                        0 <= j < k < s2.len() implies s2[j].key != s2[k].key by {
                        if k < s2.len() - 1 {
                            assert(s2[j] == s0.remove(i as int)[j]);
                            assert(s2[k] == s0.remove(i as int)[k]);
                        } else {
                            assert(s2[j] == s0.remove(i as int)[j]);
                        }
                    }
                }
            },
            None => {
                proof {
                    lemma_bal_absent(s0, owner);
                }
                self.entries.push(AccountEntry { key: owner, value: amount });
                proof {
                    let s2 = self@;
                    assert(s2.drop_last() =~= s0);
                    assert(s2.last() == (AccountEntry { key: owner, value: amount }));
                    assert forall|j: int, k: int|
                        0 <= j < k < s2.len() implies s2[j].key != s2[k].key by {
                        if k < s2.len() - 1 {
                            assert(s2[j] == s0[j]);
                            assert(s2[k] == s0[k]);
                        } else {
                            assert(s2[j] == s0[j]);
                        }
                    }
                }
            },
        }
    }

    /// Removes `amount` from `owner`'s balance. Succeeds exactly when the
    /// recorded balance covers the amount; a refused debit changes nothing.
    pub fn debit(&mut self, owner: Owner, amount: u128) -> (r: Result<(), LedgerError>)
        requires
            old(self).wf(),
        ensures
            final(self).wf(),
            r is Ok <==> old(self).bal(owner) >= amount,
            r is Ok ==> final(self).bal(owner) == old(self).bal(owner) - amount,
            r is Ok ==> (forall|p: Owner|
                p != owner ==> final(self).bal(p) == old(self).bal(p)),
            r is Err ==> r == Err::<(), LedgerError>(LedgerError::InsufficientBalance)
                && final(self)@ == old(self)@,
    {
        let ghost s0 = self@;
        match self.find(owner) {
            Some(i) => {
                proof {
                    lemma_bal_found(s0, i as int);
                }
                let held = self.entries[i].value;
                if held < amount {
                    return Err(LedgerError::InsufficientBalance);
                }
                let updated = held - amount;
                proof {
                    lemma_remove_unique(s0, i as int);
                }
                self.entries.remove(i);
                self.entries.push(AccountEntry { key: owner, value: updated });
                proof {
                    let s2 = self@;
                    assert(s2.drop_last() =~= s0.remove(i as int));
                    assert(s2.last() == (AccountEntry { key: owner, value: updated }));
                    assert forall|p: Owner| p != owner implies bal_in(s2, p) == bal_in(s0, p) by {
                        lemma_bal_remove(s0, i as int, p);
                    }
                    assert forall|j: int, k: int|
                        0 <= j < k < s2.len() implies s2[j].key != s2[k].key by {
                        if k < s2.len() - 1 {
                            assert(s2[j] == s0.remove(i as int)[j]);
                            assert(s2[k] == s0.remove(i as int)[k]);
                        } else {
                            assert(s2[j] == s0.remove(i as int)[j]);
                        }
                    }
                }
                Ok(())
            },
            None => {
                proof {
                    lemma_bal_absent(s0, owner);
                }
                if amount == 0 {
                    Ok(())
                } else {
                    Err(LedgerError::InsufficientBalance)
                }
            },
        }
    }

    /// The saturating sum of every recorded balance.
    pub fn total_balance(&self) -> (r: u128)
        ensures
            r == sat_total_in(self@),
    {
        let mut acc: u128 = 0;
        let mut i: usize = 0;
        proof {
            assert(self@.take(0) =~= Seq::<AccountEntry>::empty());
        }
        while i < self.entries.len()
            invariant
                i <= self.entries.len(),
                acc == sat_total_in(self@.take(i as int)),
            decreases self.entries.len() - i,
        {
            proof {
                assert(self@.take(i as int + 1).drop_last() =~= self@.take(i as int));
                assert(self@.take(i as int + 1).last() == self@[i as int]);
            }
            let value = self.entries[i].value;
            acc = if u128::MAX - acc < value {
                u128::MAX
            } else {
                acc + value
            };
            i = i + 1;
        }
        proof {
            assert(self@.take(self@.len() as int) =~= self@);
        }
        acc
    }

    /// A copy of every recorded row, in recorded order.
    pub fn snapshot(&self) -> (r: Vec<AccountEntry>)
        ensures
            r@ == self@,
    {
        let mut out: Vec<AccountEntry> = Vec::new();
        let mut i: usize = 0;
        while i < self.entries.len()
            invariant
                i <= self.entries.len(),
                out@ =~= self@.take(i as int),
            decreases self.entries.len() - i,
        {
            out.push(self.entries[i]);
            proof {
                assert(out@ =~= self@.take(i as int + 1));
            }
            i = i + 1;
        }
        proof {
            assert(self@.take(self@.len() as int) =~= self@);
        }
        out
    }

    /// Every recorded owner, in recorded order.
    pub fn owners(&self) -> (r: Vec<Owner>)
        ensures
            r@.len() == self@.len(),
            forall|i: int| 0 <= i < self@.len() ==> r@[i] == self@[i].key,
    {
        let mut out: Vec<Owner> = Vec::new();
        let mut i: usize = 0;
        while i < self.entries.len()
            invariant
                i <= self.entries.len(),
                out@.len() == i,
                forall|j: int| 0 <= j < i ==> out@[j] == self@[j].key,
            decreases self.entries.len() - i,
        {
            out.push(self.entries[i].key);
            i = i + 1;
        }
        out
    }
}

} // verus!
