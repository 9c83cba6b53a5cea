//! The operation dispatcher: the write path of the bridge.
//!
//! One entry point per operation kind. Value-moving kinds check permission,
//! normalize their accounts, move the value, and end by deciding which remote
//! chain to wake; read-only kinds answer from the ledger; the two legacy kinds
//! are rejected outright. Message handling is an intentional no-op.

use vstd::prelude::*;

use crate::accounts::AccountEntry;
use crate::accounts::ChainId;
use crate::accounts::Owner;
use crate::accounts::QualifiedAccount;
use crate::accounts::normalize_account;
use crate::errors::LedgerError;
use crate::errors::OperationError;
use crate::ledger::Ledger;
use crate::ledger::sat_add;
use crate::ledger::unique_keys;
use crate::messages::Message;
use crate::messages::OutgoingMessage;
use crate::messages::notify_seq;
use crate::routing::claim_notify_target;
use crate::routing::spec_claim_notify;
use crate::routing::spec_transfer_notify;
use crate::routing::transfer_notify_target;
use crate::ticker_symbol;
use crate::TICKER_SYMBOL;

verus! {

/// An inbound operation, one variant per kind the bridge accepts. The two
/// legacy kinds that would need a delegated-allowance model carry no data:
/// they are rejected before any field would be read.
#[derive(Clone, Copy, PartialEq, Eq, Structural, Debug)]
pub enum Operation {
    Balance { owner: Owner },
    TickerSymbol,
    Approve,
    Transfer { owner: Owner, amount: u128, target_account: QualifiedAccount },
    TransferFrom,
    Claim { source_account: QualifiedAccount, amount: u128, target_account: QualifiedAccount },
}

/// The dispatcher's answer to an accepted operation.
#[derive(PartialEq, Eq, Debug)]
pub enum Response {
    Balance(u128),
    TickerSymbol(String),
    Accepted,
}

/// The owner the caller must control for the operation to proceed: the
/// debited owner of a transfer, the source owner of a claim, nobody for the
/// read-only and rejected kinds.
pub open spec fn spec_permission_subject(op: Operation) -> Option<Owner> {
    match op {
        Operation::Transfer { owner, .. } => Some(owner),
        Operation::Claim { source_account, .. } => Some(source_account.owner),
        _ => None,
    }
}

/// Names the owner whose permission the host must confirm before the
/// operation may move value.
pub fn permission_subject(op: &Operation) -> (r: Option<Owner>)
    ensures
        r == spec_permission_subject(*op),
{
    match op {
        Operation::Transfer { owner, .. } => Some(*owner),
        Operation::Claim { source_account, .. } => Some(source_account.owner),
        _ => None,
    }
}

/// The amount a distribution grants an owner, if it lists one.
pub open spec fn dist_amount(d: Seq<AccountEntry>, owner: Owner) -> Option<u128>
    decreases d.len(),
{
    if d.len() == 0 {
        None
    } else if d.last().key == owner {
        Some(d.last().value)
    } else {
        dist_amount(d.drop_last(), owner)
    }
}

proof fn lemma_dist_absent(d: Seq<AccountEntry>, owner: Owner)
    requires
        forall|i: int| 0 <= i < d.len() ==> d[i].key != owner,
    ensures
        dist_amount(d, owner) is None,
    decreases d.len(),
{
    if d.len() > 0 {
        assert(forall|i: int|
            0 <= i < d.drop_last().len() ==> d.drop_last()[i].key != owner);
        lemma_dist_absent(d.drop_last(), owner);
    }
}

/// The balance of `p` after the ledger primitive moved `amount` out of
/// `source_owner` on the chain `pre` models, towards `target`: the debited
/// slot shrinks, the credited slot grows exactly when it lives on this chain,
/// and value bound for another chain leaves no local trace beyond the debit.
pub open spec fn spec_balance_after_move(
    pre: WalletBridgeContract,
    source_owner: Owner,
    amount: u128,
    target: QualifiedAccount,
    p: Owner,
) -> u128
    recommends
        pre.bal(source_owner) >= amount,
{
    if target.chain_id == pre.chain_id {
        if p == source_owner && p == target.owner {
            pre.bal(p)
        } else if p == source_owner {
            (pre.bal(p) - amount) as u128
        } else if p == target.owner {
            sat_add(pre.bal(p), amount)
        } else {
            pre.bal(p)
        }
    } else {
        if p == source_owner {
            (pre.bal(p) - amount) as u128
        } else {
            pre.bal(p)
        }
    }
}

/// One chain's side of the bridge: its identity and the model of the ledger
/// the external primitive keeps for it.
pub struct WalletBridgeContract {
    pub chain_id: ChainId,
    pub ledger: Ledger,
}

impl WalletBridgeContract {
    /// Well-formed: the ledger records each owner at most once.
    pub open spec fn wf(&self) -> bool {
        self.ledger.wf()
    }

    /// The balance this chain's ledger holds for an owner.
    pub open spec fn bal(&self, owner: Owner) -> u128 {
        self.ledger.bal(owner)
    }

    /// A freshly created chain side, with an empty ledger.
    pub fn new(chain_id: ChainId) -> (r: WalletBridgeContract)
        ensures
            r.wf(),
            r.chain_id == chain_id,
            r.ledger@ == Seq::<AccountEntry>::empty(),
            forall|p: Owner| r.bal(p) == 0,
    {
        WalletBridgeContract { chain_id, ledger: Ledger::new() }
    }

    /// Seeds the ledger from the initial distribution, crediting every listed
    /// owner once from the chain-treasury identity. Consumed at chain
    /// creation; every unlisted owner is untouched.
    pub fn instantiate(&mut self, distribution: &Vec<AccountEntry>)
        requires
            old(self).wf(),
            unique_keys(distribution@),
        ensures
            final(self).wf(),
            final(self).chain_id == old(self).chain_id,
            forall|p: Owner| final(self).bal(p) == (match dist_amount(distribution@, p) {
                Some(granted) => sat_add(old(self).bal(p), granted),
                None => old(self).bal(p),
            }),
    {
        let ghost pre = *self;
        proof {
            assert(distribution@.take(0) =~= Seq::<AccountEntry>::empty());
        }
        let mut i: usize = 0;
        while i < distribution.len()
            invariant
                self.wf(),
                self.chain_id == pre.chain_id,
                i <= distribution.len(),
                unique_keys(distribution@),
                forall|p: Owner| self.bal(p) == (match dist_amount(
                    distribution@.take(i as int),
                    p,
                ) {
                    Some(granted) => sat_add(pre.bal(p), granted),
                    None => pre.bal(p),
                }),
            decreases distribution.len() - i,
        {
            let entry = distribution[i];
            let ghost mid = *self;
            self.ledger.credit(entry.key, entry.value);
            proof {
                let d = distribution@;
                let ii = i as int;
                assert(d.take(ii + 1).drop_last() =~= d.take(ii));
                assert(d.take(ii + 1).last() == d[ii]);
                assert forall|j: int| 0 <= j < d.take(ii).len() implies d.take(ii)[j].key
                    != d[ii].key by {
                    assert(d.take(ii)[j] == d[j]);
                }
                lemma_dist_absent(d.take(ii), d[ii].key);
                assert(entry == d[ii]);
                assert forall|p: Owner| self.bal(p) == (match dist_amount(d.take(ii + 1), p) {
                    Some(granted) => sat_add(pre.bal(p), granted),
                    None => pre.bal(p),
                }) by {
                    assert(mid.bal(p) == (match dist_amount(d.take(ii), p) {
                        Some(granted) => sat_add(pre.bal(p), granted),
                        None => pre.bal(p),
                    }));
                    if p == d[ii].key {
                        assert(dist_amount(d.take(ii), p) is None);
                        assert(mid.bal(p) == pre.bal(p));
                        assert(self.bal(p) == sat_add(mid.bal(p), entry.value));
                        assert(dist_amount(d.take(ii + 1), p) == Some(d[ii].value));
                    } else {
                        assert(self.bal(p) == mid.bal(p));
                        assert(dist_amount(d.take(ii + 1), p) == dist_amount(d.take(ii), p));
                    }
                }
            }
            i = i + 1;
        }
        proof {
            assert(distribution@.take(distribution@.len() as int) =~= distribution@);
        }
    }

    /// Executes one inbound operation on this chain.
    ///
    /// `authorized` is the verdict of the host's permission check — whether
    /// the operation's caller controls [`spec_permission_subject`]'s owner;
    /// it is consulted only for the value-moving kinds.
    ///
    /// A successful answer carries every outbound message the operation
    /// produces: none, or exactly one authenticated `Notify` to the chain the
    /// routing rules pick. A rejected operation changes no balance and sends
    /// nothing.
    pub fn execute_operation(&mut self, op: Operation, authorized: bool) -> (r: Result<
        (Response, Vec<OutgoingMessage>),
        OperationError,
    >)
        requires
            old(self).wf(),
        ensures
            final(self).wf(),
            final(self).chain_id == old(self).chain_id,
            (match op {
                Operation::Balance { owner } => (r matches Ok((resp, msgs))
                    && resp == Response::Balance(old(self).bal(owner))
                    && msgs@ == Seq::<OutgoingMessage>::empty()
                    && final(self).ledger@ == old(self).ledger@),
                Operation::TickerSymbol => (r matches Ok((resp, msgs))
                    && (resp matches Response::TickerSymbol(symbol) && symbol@ == TICKER_SYMBOL@)
                    && msgs@ == Seq::<OutgoingMessage>::empty()
                    && final(self).ledger@ == old(self).ledger@),
                Operation::Approve => (r == Err::<(Response, Vec<OutgoingMessage>), OperationError>(
                    OperationError::Unsupported,
                ) && final(self).ledger@ == old(self).ledger@),
                Operation::TransferFrom => (r == Err::<
                    (Response, Vec<OutgoingMessage>),
                    OperationError,
                >(OperationError::Unsupported) && final(self).ledger@ == old(self).ledger@),
                Operation::Transfer { owner, amount, target_account } => (if !authorized {
                    r == Err::<(Response, Vec<OutgoingMessage>), OperationError>(
                        OperationError::Unauthorized,
                    ) && final(self).ledger@ == old(self).ledger@
                } else if old(self).bal(owner) < amount {
                    r == Err::<(Response, Vec<OutgoingMessage>), OperationError>(
                        OperationError::LedgerFailure(LedgerError::InsufficientBalance),
                    ) && final(self).ledger@ == old(self).ledger@
                } else {
                    r matches Ok((resp, msgs)) && resp == Response::Accepted && msgs@ == notify_seq(
                        spec_transfer_notify(old(self).chain_id, target_account.chain_id),
                    ) && (forall|p: Owner| #[trigger] final(self).bal(p)
                        == spec_balance_after_move(*old(self), owner, amount, target_account, p))
                }),
                Operation::Claim { source_account, amount, target_account } => (if !authorized {
                    r == Err::<(Response, Vec<OutgoingMessage>), OperationError>(
                        OperationError::Unauthorized,
                    ) && final(self).ledger@ == old(self).ledger@
                } else if source_account.chain_id == old(self).chain_id {
                    if old(self).bal(source_account.owner) < amount {
                        r == Err::<(Response, Vec<OutgoingMessage>), OperationError>(
                            OperationError::LedgerFailure(LedgerError::InsufficientBalance),
                        ) && final(self).ledger@ == old(self).ledger@
                    } else {
                        r matches Ok((resp, msgs)) && resp == Response::Accepted && msgs@ == notify_seq(
                            spec_claim_notify(
                                old(self).chain_id,
                                source_account.chain_id,
                                target_account.chain_id,
                            ),
                        ) && (forall|p: Owner| #[trigger] final(self).bal(p)
                            == spec_balance_after_move(
                            *old(self),
                            source_account.owner,
                            amount,
                            target_account,
                            p,
                        ))
                    }
                } else {
                    r matches Ok((resp, msgs)) && resp == Response::Accepted && msgs@ == notify_seq(
                        spec_claim_notify(
                            old(self).chain_id,
                            source_account.chain_id,
                            target_account.chain_id,
                        ),
                    ) && final(self).ledger@ == old(self).ledger@
                }),
            }),
    {
        match op {
            Operation::Balance { owner } => {
                let balance = self.ledger.balance(owner);
                Ok((Response::Balance(balance), Vec::new()))
            },
            Operation::TickerSymbol => {
                Ok((Response::TickerSymbol(ticker_symbol()), Vec::new()))
            },
            Operation::Approve => Err(OperationError::Unsupported),
            Operation::TransferFrom => Err(OperationError::Unsupported),
            Operation::Transfer { owner, amount, target_account } => {
                if !authorized {
                    return Err(OperationError::Unauthorized);
                }
                let target = normalize_account(target_account);
                match self.ledger.debit(owner, amount) {
                    Err(failure) => {
                        return Err(OperationError::LedgerFailure(failure));
                    },
                    Ok(()) => {},
                }
                if target.chain_id == self.chain_id {
                    self.ledger.credit(target.owner, amount);
                }
                let mut messages: Vec<OutgoingMessage> = Vec::new();
                match transfer_notify_target(self.chain_id, target_account.chain_id) {
                    Some(destination) => {
                        messages.push(
                            OutgoingMessage {
                                destination,
                                message: Message::Notify,
                                authenticated: true,
                            },
                        );
                    },
                    None => {},
                }
                proof {
                    assert(messages@ =~= notify_seq(
                        spec_transfer_notify(old(self).chain_id, target_account.chain_id),
                    ));
                }
                Ok((Response::Accepted, messages))
            },
            Operation::Claim { source_account, amount, target_account } => {
                if !authorized {
                    return Err(OperationError::Unauthorized);
                }
                let source = normalize_account(source_account);
                let target = normalize_account(target_account);
                if source.chain_id == self.chain_id {
                    // the primitive's claim has a locally observable effect
                    // only when the claimed source lives on this chain
                    match self.ledger.debit(source.owner, amount) {
                        Err(failure) => {
                            return Err(OperationError::LedgerFailure(failure));
                        },
                        Ok(()) => {},
                    }
                    if target.chain_id == self.chain_id {
                        self.ledger.credit(target.owner, amount);
                    }
                }
                let mut messages: Vec<OutgoingMessage> = Vec::new();
                match claim_notify_target(
                    self.chain_id,
                    source_account.chain_id,
                    target_account.chain_id,
                ) {
                    Some(destination) => {
                        messages.push(
                            OutgoingMessage {
                                destination,
                                message: Message::Notify,
                                authenticated: true,
                            },
                        );
                    },
                    None => {},
                }
                proof {
                    assert(messages@ =~= notify_seq(
                        spec_claim_notify(
                            old(self).chain_id,
                            source_account.chain_id,
                            target_account.chain_id,
                        ),
                    ));
                }
                Ok((Response::Accepted, messages))
            },
        }
    }

    /// Consumes one inbound inter-chain message. `Notify` is an intentional
    /// no-op: the message exists to wake this chain, not to change it, so
    /// handling it — once, twice, or out of order — leaves the ledger and the
    /// chain identity exactly as they were.
    pub fn execute_message(&mut self, message: Message)
        ensures
            final(self).chain_id == old(self).chain_id,
            final(self).ledger@ == old(self).ledger@,
            forall|p: Owner| final(self).bal(p) == old(self).bal(p),
    {
        match message {
            Message::Notify => {},
        }
    }
}

} // verus!
