//! The balance query service: the read path of the bridge.
//!
//! Read-only views over the chain's ledger — single-entry lookup, full
//! enumeration, key enumeration — and the fixed ticker symbol. Balances are
//! public ledger facts, so no permission check guards them; every answer is
//! read from the ledger the service borrows at call time, never from a cache.

use vstd::prelude::*;

use crate::accounts::AccountEntry;
use crate::accounts::Owner;
use crate::contract::WalletBridgeContract;
use crate::ticker_symbol;
use crate::TICKER_SYMBOL;

verus! {

/// The query surface of one chain's bridge, borrowing that chain's state so
/// that every answer reflects the ledger as it stands at the call.
pub struct WalletBridgeService<'a> {
    pub contract: &'a WalletBridgeContract,
}

impl<'a> WalletBridgeService<'a> {
    /// A service over the given chain state.
    pub fn new(contract: &'a WalletBridgeContract) -> (r: WalletBridgeService<'a>)
        ensures
            r.contract == contract,
    {
        WalletBridgeService { contract }
    }

    /// Single-entry lookup: the owner's current balance, zero when the owner
    /// is unrecorded — absence is not an error.
    pub fn entry(&self, key: Owner) -> (r: AccountEntry)
        requires
            self.contract.wf(),
        ensures
            r.key == key,
            r.value == self.contract.bal(key),
    {
        let value = self.contract.ledger.balance(key);
        AccountEntry { key, value }
    }

    /// Full enumeration: every recorded (owner, balance) pair, in recorded
    /// order.
    pub fn entries(&self) -> (r: Vec<AccountEntry>)
        ensures
            r@ == self.contract.ledger@,
    {
        self.contract.ledger.snapshot()
    }

    /// Key enumeration: every owner with a recorded entry, in recorded order.
    pub fn keys(&self) -> (r: Vec<Owner>)
        ensures
            r@.len() == self.contract.ledger@.len(),
            forall|i: int|
                0 <= i < self.contract.ledger@.len() ==> r@[i] == self.contract.ledger@[i].key,
    {
        self.contract.ledger.owners()
    }

    /// The asset's fixed display symbol; constant and side-effect free.
    pub fn ticker_symbol(&self) -> (r: String)
        ensures
            r@ == TICKER_SYMBOL@,
    {
        ticker_symbol()
    }
}

} // verus!
