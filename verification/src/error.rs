//! Error taxonomy. Every failure is a tagged variant carrying structured
//! context, so a caller can match exhaustively and decide to retry
//! (transient), retry later (not yet finalized) or abandon (permanent).

use vstd::prelude::*;
use crate::types::Hash256;

verus! {

/// A way in which the provider returned internally inconsistent or malformed
/// data. All of these are permanent for the attempt at hand: the provider
/// violated its own contract, and only a fresh attempt (possibly against
/// another provider) can help.
#[derive(Clone, Copy, PartialEq, Eq, Structural, Debug)]
pub enum ProviderFault {
    /// A raw log arrived without a block number.
    LogWithoutBlockNumber,
    /// A raw log arrived without a transaction hash.
    LogWithoutTransactionHash,
    /// A raw log arrived without a block-scoped log index.
    LogWithoutLogIndex,
    /// No receipt exists for the transaction a log claims to come from; the
    /// log itself is evidence the transaction exists, so this is not a mere
    /// "not found".
    ReceiptMissingForLog { tx_hash: Hash256 },
    /// A receipt arrived without a block number.
    ReceiptWithoutBlockNumber,
    /// The receipt's block number disagrees with the raw log's.
    ReceiptBlockMismatch { log_block_number: u64, receipt_block_number: u64 },
    /// The receipt's entry at the log's block-scoped index carries different
    /// topics or data than the raw log: conflicting views of the same log.
    ReceiptLogContentMismatch { log_index: u64 },
    /// No entry of the receipt carries the raw log's block-scoped index.
    LogNotInReceipt { log_index: u64 },
    /// The matching entry's position in the receipt does not fit the 16-bit
    /// index-within-transaction; fail closed rather than truncate.
    LogPositionOverflow { position: usize },
}

/// A momentary inability of the provider to answer; the caller should retry
/// with backoff.
#[derive(Clone, Copy, PartialEq, Eq, Structural, Debug)]
pub enum TransientFault {
    /// The provider returned no block for the "finalized" tag.
    NoFinalizedBlock,
    /// The block returned for the "finalized" tag carries no number.
    FinalizedBlockWithoutNumber,
    /// The transport could not complete a call at all (a network hiccup).
    RpcUnavailable,
}

/// Every failure the core can report, by kind.
#[derive(Clone, Copy, PartialEq, Eq, Structural, Debug)]
pub enum BridgeError {
    /// The caller-supplied transaction hash has no receipt.
    TxNotFound,
    /// The transaction's block is above the current finalized height; a
    /// normal, expected state — retry later.
    TxNotFinalized,
    /// No log exists at the requested position, or the log there is not a
    /// recognized bridge event.
    NoBridgeEventsInTxPosition,
    /// The decoded event is not one the bridge acts upon.
    BridgeEventNotActionable,
    /// The provider returned inconsistent or malformed data.
    ProviderError(ProviderFault),
    /// The provider momentarily could not answer.
    TransientProviderError(TransientFault),
}

/// The core's result type.
pub type BridgeResult<T> = Result<T, BridgeError>;

} // verus!
