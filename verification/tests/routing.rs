use wallet_bridge::routing::claim_notify_target;
use wallet_bridge::routing::transfer_notify_target;
use wallet_bridge::ChainId;

fn chain(tag: u64) -> ChainId {
    ChainId { p0: tag, p1: 0, p2: 0, p3: 0 }
}

#[test]
fn transfer_to_the_current_chain_wakes_nobody() {
    let current = chain(1);
    assert_eq!(transfer_notify_target(current, current), None);
}

#[test]
fn transfer_to_a_remote_chain_wakes_exactly_that_chain() {
    let current = chain(1);
    let remote = chain(2);
    assert_eq!(transfer_notify_target(current, remote), Some(remote));
}

#[test]
fn claim_from_the_current_chain_routes_like_a_transfer() {
    let current = chain(1);
    let remote = chain(2);
    assert_eq!(
        claim_notify_target(current, current, remote),
        transfer_notify_target(current, remote)
    );
    assert_eq!(
        claim_notify_target(current, current, current),
        transfer_notify_target(current, current)
    );
}

#[test]
fn claim_from_a_remote_chain_wakes_the_source_whatever_the_target() {
    let current = chain(1);
    let source = chain(4);
    assert_eq!(claim_notify_target(current, source, chain(3)), Some(source));
    assert_eq!(claim_notify_target(current, source, current), Some(source));
    assert_eq!(claim_notify_target(current, source, source), Some(source));
}
