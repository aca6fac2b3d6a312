//! Classification of a node's response to a raw-transaction submission.
//!
//! The engine performs no network call itself: an adapter submits the
//! serialized bytes to the configured node and hands back a plain
//! [`NodeResponse`]; the verified classification here turns it into the
//! engine's [`BroadcastResult`]. Only `NodeUnreachable` is safe to retry,
//! and only with the byte-identical transaction.

use vstd::prelude::*;

verus! {

/// The node's error code for a transaction rejected by mempool policy.
pub const RPC_VERIFY_REJECTED: i64 = -26;

/// The node's error code for a transaction already in the block chain.
pub const RPC_VERIFY_ALREADY_IN_CHAIN: i64 = -27;

/// What came back from one submission attempt, as plain values: the node
/// accepted and returned the transaction identifier; the node answered
/// with an error code and message; or the node could not be reached at all
/// (a transport failure or timeout).
#[derive(Debug)]
pub enum NodeResponse {
    Accepted { txid: String },
    NodeError { code: i64, message: String },
    Unreachable,
}

/// The classified outcome of one broadcast attempt.
#[derive(Debug)]
pub enum BroadcastResult {
    /// The node accepted the transaction under this identifier.
    Accepted { txid: String },
    /// Duplicate submission: the transaction is already known to the
    /// chain. Idempotent — treated as success when the identifier
    /// matches what the engine computed.
    AlreadyBroadcast,
    /// The node refused the transaction for mempool-policy reasons.
    RejectedByPolicy { reason: String },
    /// Transport failure or timeout; safe to retry with the identical
    /// bytes.
    NodeUnreachable,
    /// A node-reported error not otherwise classified, surfaced verbatim.
    UnknownRejection { reason: String },
}

impl BroadcastResult {
    /// Whether the outcome means the transaction identified by
    /// `expected_txid` is (now or already) known to the network: either
    /// accepted under exactly that identifier, or a duplicate submission.
    pub fn is_success(&self, expected_txid: &String) -> (r: bool)
        ensures
            r == match *self {
                BroadcastResult::Accepted { txid } => txid@ == expected_txid@,
                BroadcastResult::AlreadyBroadcast => true,
                _ => false,
            },
    {
        match self {
            BroadcastResult::Accepted { txid } => txid.eq(expected_txid),
            BroadcastResult::AlreadyBroadcast => true,
            _ => false,
        }
    }
}

/// The exact classification rule: acceptance passes the identifier
/// through; the duplicate-submission code maps to `AlreadyBroadcast`; the
/// mempool-policy code maps to `RejectedByPolicy` with the node's words;
/// an unreachable node maps to `NodeUnreachable`; every other error is
/// surfaced verbatim as `UnknownRejection`.
pub open spec fn classified(resp: NodeResponse) -> BroadcastResult {
    match resp {
        NodeResponse::Accepted { txid } => BroadcastResult::Accepted { txid },
        NodeResponse::NodeError { code, message } => {
            if code == RPC_VERIFY_ALREADY_IN_CHAIN {
                BroadcastResult::AlreadyBroadcast
            } else if code == RPC_VERIFY_REJECTED {
                BroadcastResult::RejectedByPolicy { reason: message }
            } else {
                BroadcastResult::UnknownRejection { reason: message }
            }
        },
        NodeResponse::Unreachable => BroadcastResult::NodeUnreachable,
    }
}

/// Classifies one node response, exactly as [`classified`] states.
pub fn classify_node_response(resp: NodeResponse) -> (r: BroadcastResult)
    ensures
        r == classified(resp),
{
    match resp {
        NodeResponse::Accepted { txid } => BroadcastResult::Accepted { txid },
        NodeResponse::NodeError { code, message } => {
            if code == RPC_VERIFY_ALREADY_IN_CHAIN {
                BroadcastResult::AlreadyBroadcast
            } else if code == RPC_VERIFY_REJECTED {
                BroadcastResult::RejectedByPolicy { reason: message }
            } else {
                BroadcastResult::UnknownRejection { reason: message }
            }
        },
        NodeResponse::Unreachable => BroadcastResult::NodeUnreachable,
    }
}

} // verus!
