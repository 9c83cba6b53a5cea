//! The inter-chain notification signal.
//!
//! A `Notify` message carries no payload: its only purpose is to wake the
//! destination chain so that observers there refresh their view. Handling it
//! mutates nothing, so duplicated or reordered delivery is harmless by
//! construction.

use vstd::prelude::*;

use crate::accounts::ChainId;

verus! {

/// The one inter-chain message of the bridge: a payload-free signal.
#[derive(Clone, Copy, PartialEq, Eq, Structural, Debug)]
pub enum Message {
    Notify,
}

/// An outbound message as handed to the delivery substrate: the message, its
/// destination chain, and whether it travels authenticated as originating
/// from the sending chain's execution.
#[derive(Clone, Copy, PartialEq, Eq, Structural, Debug)]
pub struct OutgoingMessage {
    pub destination: ChainId,
    pub message: Message,
    pub authenticated: bool,
}

/// The outbound batch produced by one notification decision: empty when no
/// chain needs waking, else exactly one authenticated `Notify` to the chosen
/// chain.
pub open spec fn notify_seq(dest: Option<ChainId>) -> Seq<OutgoingMessage> {
    match dest {
        Some(chain) => seq![
            OutgoingMessage { destination: chain, message: Message::Notify, authenticated: true },
        ],
        None => Seq::<OutgoingMessage>::empty(),
    }
}

} // verus!
