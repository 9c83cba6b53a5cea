use wallet_bridge::AccountEntry;
use wallet_bridge::ChainId;
use wallet_bridge::Message;
use wallet_bridge::Operation;
use wallet_bridge::OperationError;
use wallet_bridge::OutgoingMessage;
use wallet_bridge::QualifiedAccount;
use wallet_bridge::Response;
use wallet_bridge::WalletBridgeContract;
use wallet_bridge::LedgerError;
use wallet_bridge::Owner;

fn chain(tag: u64) -> ChainId {
    ChainId { p0: tag, p1: 0, p2: 0, p3: 0 }
}

fn owner(tag: u64) -> Owner {
    Owner::Address32 { p0: tag, p1: 0, p2: 0, p3: 0 }
}

fn account(chain_id: ChainId, o: Owner) -> QualifiedAccount {
    QualifiedAccount { chain_id, owner: o }
}

fn seeded_contract(chain_id: ChainId, seed: &[(Owner, u128)]) -> WalletBridgeContract {
    let mut contract = WalletBridgeContract::new(chain_id);
    let dist: Vec<AccountEntry> = seed
        .iter()
        .map(|&(key, value)| AccountEntry { key, value })
        .collect();
    contract.instantiate(&dist);
    contract
}

fn balance(contract: &mut WalletBridgeContract, o: Owner) -> u128 {
    match contract.execute_operation(Operation::Balance { owner: o }, false) {
        Ok((Response::Balance(v), msgs)) => {
            assert!(msgs.is_empty());
            v
        }
        other => panic!("balance query answered {:?}", other),
    }
}

fn notify_to(destination: ChainId) -> OutgoingMessage {
    OutgoingMessage { destination, message: Message::Notify, authenticated: true }
}

#[test]
fn genesis_balances() {
    let current = chain(1);
    let a = owner(10);
    let b = owner(11);
    let mut contract = seeded_contract(current, &[(a, 10), (b, 5)]);
    assert_eq!(balance(&mut contract, a), 10);
    assert_eq!(balance(&mut contract, b), 5);
    assert_eq!(contract.ledger.total_balance(), 15);
}

#[test]
fn genesis_unlisted_owner_reads_zero() {
    let current = chain(1);
    let a = owner(10);
    let mut contract = seeded_contract(current, &[(a, 10)]);
    assert_eq!(balance(&mut contract, owner(99)), 0);
}

#[test]
fn local_transfer_moves_balance_and_sends_nothing() {
    let current = chain(1);
    let a = owner(10);
    let b = owner(11);
    let mut contract = seeded_contract(current, &[(a, 10), (b, 5)]);
    let op = Operation::Transfer { owner: a, amount: 3, target_account: account(current, b) };
    let (resp, msgs) = contract.execute_operation(op, true).expect("local transfer");
    assert_eq!(resp, Response::Accepted);
    assert!(msgs.is_empty());
    assert_eq!(balance(&mut contract, a), 7);
    assert_eq!(balance(&mut contract, b), 8);
}

#[test]
fn remote_transfer_notifies_exactly_the_target_chain() {
    let current = chain(1);
    let remote = chain(2);
    let a = owner(10);
    let c = owner(12);
    let mut contract = seeded_contract(current, &[(a, 10)]);
    let op = Operation::Transfer { owner: a, amount: 3, target_account: account(remote, c) };
    let (resp, msgs) = contract.execute_operation(op, true).expect("remote transfer");
    assert_eq!(resp, Response::Accepted);
    assert_eq!(msgs, vec![notify_to(remote)]);
    assert_eq!(balance(&mut contract, a), 7);
    // the credit lands on the remote chain, not here
    assert_eq!(balance(&mut contract, c), 0);
}

#[test]
fn transfer_to_self_leaves_balance_unchanged() {
    let current = chain(1);
    let a = owner(10);
    let mut contract = seeded_contract(current, &[(a, 10)]);
    let op = Operation::Transfer { owner: a, amount: 4, target_account: account(current, a) };
    let (resp, msgs) = contract.execute_operation(op, true).expect("self transfer");
    assert_eq!(resp, Response::Accepted);
    assert!(msgs.is_empty());
    assert_eq!(balance(&mut contract, a), 10);
}

#[test]
fn claim_with_local_source_notifies_target_like_a_transfer() {
    let current = chain(1);
    let remote_target = chain(3);
    let a = owner(10);
    let d = owner(13);
    let mut contract = seeded_contract(current, &[(a, 10)]);
    let op = Operation::Claim {
        source_account: account(current, a),
        amount: 2,
        target_account: account(remote_target, d),
    };
    let (resp, msgs) = contract.execute_operation(op, true).expect("claim, local source");
    assert_eq!(resp, Response::Accepted);
    assert_eq!(msgs, vec![notify_to(remote_target)]);
    assert_eq!(balance(&mut contract, a), 8);

    // the identical outcome of a plain remote transfer from the same owner
    let mut twin = seeded_contract(current, &[(a, 10)]);
    let twin_op =
        Operation::Transfer { owner: a, amount: 2, target_account: account(remote_target, d) };
    let (twin_resp, twin_msgs) = twin.execute_operation(twin_op, true).expect("twin transfer");
    assert_eq!(twin_resp, Response::Accepted);
    assert_eq!(twin_msgs, msgs);
    assert_eq!(balance(&mut twin, a), 8);
}

#[test]
fn claim_with_local_source_and_local_target_sends_nothing() {
    let current = chain(1);
    let a = owner(10);
    let b = owner(11);
    let mut contract = seeded_contract(current, &[(a, 10)]);
    let op = Operation::Claim {
        source_account: account(current, a),
        amount: 2,
        target_account: account(current, b),
    };
    let (resp, msgs) = contract.execute_operation(op, true).expect("claim, all local");
    assert_eq!(resp, Response::Accepted);
    assert!(msgs.is_empty());
    assert_eq!(balance(&mut contract, a), 8);
    assert_eq!(balance(&mut contract, b), 2);
}

#[test]
fn claim_with_remote_source_notifies_only_the_source_chain() {
    let current = chain(1);
    let source_chain = chain(4);
    let target_chain = chain(3);
    let e = owner(14);
    let d = owner(13);
    let mut contract = seeded_contract(current, &[(e, 6)]);
    let op = Operation::Claim {
        source_account: account(source_chain, e),
        amount: 2,
        target_account: account(target_chain, d),
    };
    let (resp, msgs) = contract.execute_operation(op, true).expect("claim, remote source");
    assert_eq!(resp, Response::Accepted);
    assert_eq!(msgs, vec![notify_to(source_chain)]);
    // no local debit: the claimed slot lives on the source chain
    assert_eq!(balance(&mut contract, e), 6);
    assert_eq!(balance(&mut contract, d), 0);
}

#[test]
fn claim_with_remote_source_and_local_target_still_notifies_the_source() {
    let current = chain(1);
    let source_chain = chain(4);
    let e = owner(14);
    let d = owner(13);
    let mut contract = seeded_contract(current, &[]);
    let op = Operation::Claim {
        source_account: account(source_chain, e),
        amount: 2,
        target_account: account(current, d),
    };
    let (resp, msgs) = contract.execute_operation(op, true).expect("claim, remote source");
    assert_eq!(resp, Response::Accepted);
    assert_eq!(msgs, vec![notify_to(source_chain)]);
    assert_eq!(balance(&mut contract, d), 0);
}

#[test]
fn notify_twice_leaves_state_unchanged() {
    let current = chain(1);
    let a = owner(10);
    let b = owner(11);
    let mut contract = seeded_contract(current, &[(a, 10), (b, 5)]);
    let before = contract.ledger.snapshot();
    contract.execute_message(Message::Notify);
    assert_eq!(contract.ledger.snapshot(), before);
    contract.execute_message(Message::Notify);
    assert_eq!(contract.ledger.snapshot(), before);
    assert_eq!(balance(&mut contract, a), 10);
    assert_eq!(balance(&mut contract, b), 5);
}

#[test]
fn approve_and_transfer_from_always_fail_unsupported() {
    let current = chain(1);
    let a = owner(10);
    let mut contract = seeded_contract(current, &[(a, 10)]);
    let before = contract.ledger.snapshot();
    let refused = contract.execute_operation(Operation::Approve, true);
    assert_eq!(refused, Err(OperationError::Unsupported));
    let refused = contract.execute_operation(Operation::TransferFrom, true);
    assert_eq!(refused, Err(OperationError::Unsupported));
    assert_eq!(contract.ledger.snapshot(), before);
}

#[test]
fn unauthorized_transfer_and_claim_change_nothing() {
    let current = chain(1);
    let remote = chain(2);
    let a = owner(10);
    let b = owner(11);
    let mut contract = seeded_contract(current, &[(a, 10), (b, 5)]);
    let before = contract.ledger.snapshot();
    let transfer = Operation::Transfer { owner: a, amount: 3, target_account: account(remote, b) };
    assert_eq!(contract.execute_operation(transfer, false), Err(OperationError::Unauthorized));
    let claim = Operation::Claim {
        source_account: account(current, a),
        amount: 3,
        target_account: account(remote, b),
    };
    assert_eq!(contract.execute_operation(claim, false), Err(OperationError::Unauthorized));
    assert_eq!(contract.ledger.snapshot(), before);
}

#[test]
fn insufficient_balance_aborts_with_ledger_failure_and_no_message() {
    let current = chain(1);
    let remote = chain(2);
    let a = owner(10);
    let b = owner(11);
    let mut contract = seeded_contract(current, &[(a, 2)]);
    let before = contract.ledger.snapshot();
    let transfer = Operation::Transfer { owner: a, amount: 3, target_account: account(remote, b) };
    assert_eq!(
        contract.execute_operation(transfer, true),
        Err(OperationError::LedgerFailure(LedgerError::InsufficientBalance))
    );
    let claim = Operation::Claim {
        source_account: account(current, a),
        amount: 3,
        target_account: account(remote, b),
    };
    assert_eq!(
        contract.execute_operation(claim, true),
        Err(OperationError::LedgerFailure(LedgerError::InsufficientBalance))
    );
    assert_eq!(contract.ledger.snapshot(), before);
}

#[test]
fn ticker_symbol_operation_answers_the_constant() {
    let current = chain(1);
    let mut contract = seeded_contract(current, &[]);
    match contract.execute_operation(Operation::TickerSymbol, false) {
        Ok((Response::TickerSymbol(symbol), msgs)) => {
            assert_eq!(symbol, "TLINERA");
            assert!(msgs.is_empty());
        }
        other => panic!("ticker query answered {:?}", other),
    }
}

#[test]
fn remote_transfer_end_to_end_across_two_chains() {
    // chain 1 debits and notifies chain 2; the matching credit lands on
    // chain 2's ledger, and the notify wakes chain 2 without further effect
    let c1 = chain(1);
    let c2 = chain(2);
    let a = owner(10);
    let c = owner(12);
    let mut sender = seeded_contract(c1, &[(a, 10), (owner(11), 5)]);
    let mut receiver = seeded_contract(c2, &[]);
    let op = Operation::Transfer { owner: a, amount: 3, target_account: account(c2, c) };
    let (_, msgs) = sender.execute_operation(op, true).expect("remote transfer");
    assert_eq!(msgs, vec![notify_to(c2)]);
    // the external primitive lands the matching credit on the destination
    receiver.ledger.credit(c, 3);
    // delivery is at-least-once: the notify may arrive repeatedly, changing
    // nothing either time
    for msg in &msgs {
        receiver.execute_message(msg.message);
        receiver.execute_message(msg.message);
    }
    assert_eq!(balance(&mut sender, a), 7);
    assert_eq!(balance(&mut receiver, c), 3);
    assert_eq!(
        sender.ledger.total_balance() + receiver.ledger.total_balance(),
        15
    );
}
