//! Identifiers and the two account-addressing schemes of the bridge.
//!
//! A balance slot is addressed by a (chain, owner) pair. Two structurally
//! identical representations of that pair exist: the public operation/query
//! schema uses [`QualifiedAccount`], while the external ledger primitive takes
//! [`LedgerAccount`]. The conversion between them is total, pure and lossless,
//! which is proved below.

use vstd::prelude::*;

verus! {

/// Opaque identifier of a participating chain, held as four 64-bit words of a
/// 256-bit value. Only equality of chain identifiers matters to the routing
/// rules.
#[derive(Clone, Copy, PartialEq, Eq, Structural, Debug)]
pub struct ChainId {
    pub p0: u64,
    pub p1: u64,
    pub p2: u64,
    pub p3: u64,
}

/// Opaque identity able to hold a balance on a chain's ledger.
///
/// `Reserved(0)` is the distinguished chain-treasury identity from which
/// genesis balances are credited; the other variants carry key-derived
/// addresses of the two widths in use.
#[derive(Clone, Copy, PartialEq, Eq, Structural, Debug)]
pub enum Owner {
    Reserved(u8),
    Address32 { p0: u64, p1: u64, p2: u64, p3: u64 },
    Address20 { q0: u64, q1: u64, q2: u32 },
}

/// The distinguished chain-treasury identity.
pub open spec fn spec_treasury() -> Owner {
    Owner::Reserved(0)
}

/// Returns the chain-treasury identity used to fund genesis credits.
pub fn treasury() -> (r: Owner)
    ensures
        r == spec_treasury(),
{
    Owner::Reserved(0)
}

/// One ledger row: an owner and its recorded balance.
#[derive(Clone, Copy, PartialEq, Eq, Structural, Debug)]
pub struct AccountEntry {
    pub key: Owner,
    pub value: u128,
}

/// A balance slot in the public operation/query schema; it may live on a
/// chain other than the one executing the operation.
#[derive(Clone, Copy, PartialEq, Eq, Structural, Debug)]
pub struct QualifiedAccount {
    pub chain_id: ChainId,
    pub owner: Owner,
}

/// The same balance slot in the shape the external ledger primitive takes.
#[derive(Clone, Copy, PartialEq, Eq, Structural, Debug)]
pub struct LedgerAccount {
    pub chain_id: ChainId,
    pub owner: Owner,
}

/// What normalizing a public-schema account yields.
pub open spec fn spec_normalize(account: QualifiedAccount) -> LedgerAccount {
    LedgerAccount { chain_id: account.chain_id, owner: account.owner }
}

/// What lifting a ledger-primitive account back to the public schema yields.
pub open spec fn spec_qualify(account: LedgerAccount) -> QualifiedAccount {
    QualifiedAccount { chain_id: account.chain_id, owner: account.owner }
}

/// Converts a public-schema account into the ledger primitive's shape.
/// Total and pure: every qualified account converts cleanly, with no failure
/// mode.
pub fn normalize_account(account: QualifiedAccount) -> (r: LedgerAccount)
    ensures
        r == spec_normalize(account),
{
    LedgerAccount { chain_id: account.chain_id, owner: account.owner }
}

/// Converts a ledger-primitive account into the public schema's shape.
pub fn qualify_account(account: LedgerAccount) -> (r: QualifiedAccount)
    ensures
        r == spec_qualify(account),
{
    QualifiedAccount { chain_id: account.chain_id, owner: account.owner }
}

/// Law: the two account representations convert losslessly in both
/// directions; neither direction forgets or alters a field.
pub proof fn lemma_account_conversion_lossless(q: QualifiedAccount, l: LedgerAccount)
    ensures
        spec_qualify(spec_normalize(q)) == q,
        spec_normalize(spec_qualify(l)) == l,
{
}

} // verus!
