//! Single-action extraction: the decision stages behind "give me the
//! finalized bridge action for (transaction hash, event index)". The caller
//! fetches the receipt, the finalized height, and runs the external event
//! decoder and action extractor; each stage here takes those answers as plain
//! values and decides, under contract, whether to continue and with what.
//!
//! Stage order: receipt presence, receipt block number, finality gate (in
//! [`crate::finality`]), log selection at the caller-supplied position, then
//! the decoder and extractor gates.

use vstd::prelude::*;
use crate::error::{BridgeError, BridgeResult, ProviderFault};
use crate::types::{EthLog, Hash256, TransactionReceipt};

verus! {

/// Receipt presence gate. Here the transaction hash is caller-supplied and
/// may simply be wrong, so a missing receipt is "transaction not found" — not
/// the provider-integrity fault the receipt matcher reports when a log it
/// already saw has no receipt.
pub fn required_receipt(receipt: Option<TransactionReceipt>) -> (r: BridgeResult<
    TransactionReceipt,
>)
    ensures
        (match receipt {
            Option::Some(rc) => r == Ok::<TransactionReceipt, BridgeError>(rc),
            Option::None => r == Err::<TransactionReceipt, BridgeError>(BridgeError::TxNotFound),
        }),
{
    match receipt {
        Some(rc) => Ok(rc),
        None => Err(BridgeError::TxNotFound),
    }
}

/// A receipt must carry its transaction's block number; absence is a
/// permanent provider-data fault.
pub fn required_receipt_block(receipt: &TransactionReceipt) -> (r: BridgeResult<u64>)
    ensures
        (match receipt.block_number {
            Option::Some(n) => r == Ok::<u64, BridgeError>(n),
            Option::None => r == Err::<u64, BridgeError>(BridgeError::ProviderError(
                ProviderFault::ReceiptWithoutBlockNumber,
            )),
        }),
{
    match receipt.block_number {
        Some(n) => Ok(n),
        None => Err(BridgeError::ProviderError(ProviderFault::ReceiptWithoutBlockNumber)),
    }
}

/// Select the log at `event_idx` in the receipt's log list and build the
/// verified record for it. This path starts from the receipt itself, so the
/// caller-supplied position *is* the index-within-transaction; no re-matching
/// is needed. Out of range means there is no bridge event at this position.
pub fn log_at_position(
    receipt: TransactionReceipt,
    receipt_block_number: u64,
    tx_hash: Hash256,
    event_idx: u16,
) -> (r: BridgeResult<EthLog>)
    ensures
        event_idx as int >= receipt.logs@.len() ==> r == Err::<EthLog, BridgeError>(
            BridgeError::NoBridgeEventsInTxPosition,
        ),
        (event_idx as int) < receipt.logs@.len() ==> r == Ok::<EthLog, BridgeError>((EthLog {
            block_number: receipt_block_number,
            tx_hash,
            log_index_in_tx: event_idx,
            log: receipt.logs@[event_idx as int],
        })),
{
    let mut receipt = receipt;
    let position = event_idx as usize;
    if position >= receipt.logs.len() {
        return Err(BridgeError::NoBridgeEventsInTxPosition);
    }
    let log = receipt.logs.remove(position);
    Ok(EthLog { block_number: receipt_block_number, tx_hash, log_index_in_tx: event_idx, log })
}

/// Decoder gate: a structurally present log that the external decoder does
/// not recognize as a bridge event is indistinguishable, to the caller, from
/// an absent one.
pub fn required_bridge_event<E>(decoded: Option<E>) -> (r: BridgeResult<E>)
    ensures
        (match decoded {
            Option::Some(event) => r == Ok::<E, BridgeError>(event),
            Option::None => r == Err::<E, BridgeError>(BridgeError::NoBridgeEventsInTxPosition),
        }),
{
    match decoded {
        Some(event) => Ok(event),
        None => Err(BridgeError::NoBridgeEventsInTxPosition),
    }
}

/// Extractor gate: a recognized event the bridge does not act upon is
/// reported as not actionable.
pub fn required_action<A>(extracted: Option<A>) -> (r: BridgeResult<A>)
    ensures
        (match extracted {
            Option::Some(action) => r == Ok::<A, BridgeError>(action),
            Option::None => r == Err::<A, BridgeError>(BridgeError::BridgeEventNotActionable),
        }),
{
    match extracted {
        Some(action) => Ok(action),
        None => Err(BridgeError::BridgeEventNotActionable),
    }
}

} // verus!
