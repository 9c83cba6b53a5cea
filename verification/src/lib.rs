//! Account-and-notification core of a multi-chain balance bridge.
//!
//! Each participating chain holds a local ledger of owner balances for one
//! fungible asset. Value-moving operations (transfers and claims) are gated by
//! a permission check, address their endpoints through chain-qualified
//! accounts, and end by deciding which remote chain must be woken with a
//! payload-free `Notify` message. That routing decision, the permission and
//! addressing rules, and a model of the per-chain ledger are what this crate
//! states and proves; the hosting runtime performs the actual I/O around them.

use vstd::prelude::*;

pub mod accounts;
pub mod contract;
pub mod errors;
pub mod ledger;
pub mod messages;
pub mod routing;
pub mod service;

pub use accounts::AccountEntry;
pub use accounts::ChainId;
pub use accounts::LedgerAccount;
pub use accounts::Owner;
pub use accounts::QualifiedAccount;
pub use contract::Operation;
pub use contract::Response;
pub use contract::WalletBridgeContract;
pub use errors::LedgerError;
pub use errors::OperationError;
pub use messages::Message;
pub use messages::OutgoingMessage;
pub use service::WalletBridgeService;

verus! {

/// Display symbol of the bridged asset; fixed for every chain of the bridge.
pub const TICKER_SYMBOL: &'static str = "TLINERA";

/// Returns the asset's fixed display symbol; no side effect.
pub fn ticker_symbol() -> (r: String)
    ensures
        r@ == TICKER_SYMBOL@,
{
    TICKER_SYMBOL.to_owned()
}

} // verus!
