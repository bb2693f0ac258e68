//! Receipt matcher: cross-validates a raw log against its transaction's
//! receipt and derives the log's index *within the transaction* — the
//! position of the matching entry in the receipt's log list, not the
//! block-scoped index the provider reports. The provider's block-scoped index
//! is unsuitable as a downstream idempotency key; only the position within
//! the transaction is reused consistently by the receipt, so this module
//! double-checks the two views against each other and fails loudly on any
//! disagreement.

use vstd::prelude::*;
use crate::error::{BridgeError, BridgeResult, ProviderFault};
use crate::types::{EthLog, LogKey, RawLog, TransactionReceipt};
use crate::types::{bytes_eq, same_content, topics_eq};

verus! {

/// Whether a receipt entry carries the given block-scoped log index.
pub open spec fn entry_matches(entry: RawLog, block_scoped_index: u64) -> bool {
    entry.log_index == Some(block_scoped_index)
}

/// Whether some entry of `logs` carries the block-scoped index.
pub open spec fn has_match(logs: Seq<RawLog>, block_scoped_index: u64) -> bool {
    exists|j: int| 0 <= j < logs.len() && entry_matches(logs[j], block_scoped_index)
}

/// Whether every entry of `logs` that carries the block-scoped index agrees
/// with `log` on topics and data.
pub open spec fn content_consistent(logs: Seq<RawLog>, block_scoped_index: u64, log: RawLog) -> bool {
    forall|j: int|
        0 <= j < logs.len() && entry_matches(logs[j], block_scoped_index)
            ==> same_content(logs[j], log)
}

/// Whether `p` is the position of the last entry of `logs` that carries the
/// block-scoped index.
pub open spec fn is_last_match(logs: Seq<RawLog>, block_scoped_index: u64, p: int) -> bool {
    &&& 0 <= p < logs.len()
    &&& entry_matches(logs[p], block_scoped_index)
    &&& forall|j: int| p < j < logs.len() ==> !entry_matches(logs[j], block_scoped_index)
}

/// What a successful resolution of `log` (with validated fields `key`)
/// against `receipt` means: the receipt confirms the log's block number, the
/// verified output keeps the log's own payload and identity, and its
/// index-within-transaction is the position of the last receipt entry whose
/// block-scoped index matches — every such entry agreeing with the log byte
/// for byte.
pub open spec fn resolution_ok(
    log: RawLog,
    key: LogKey,
    receipt: TransactionReceipt,
    v: EthLog,
) -> bool {
    &&& receipt.block_number == Some(key.block_number)
    &&& v.block_number == key.block_number
    &&& v.tx_hash == key.tx_hash
    &&& v.log == log
    &&& is_last_match(receipt.logs@, key.log_index, v.log_index_in_tx as int)
    &&& content_consistent(receipt.logs@, key.log_index, log)
}

/// Law: a successful resolution assigns as index-within-transaction exactly a
/// 0-based position of the receipt's log list, namely one whose entry carries
/// the log's block-scoped index.
pub proof fn lemma_assigned_index_is_position(
    log: RawLog,
    key: LogKey,
    receipt: TransactionReceipt,
    v: EthLog,
)
    requires
        resolution_ok(log, key, receipt, v),
    ensures
        0 <= v.log_index_in_tx < receipt.logs@.len(),
        entry_matches(receipt.logs@[v.log_index_in_tx as int], key.log_index),
{
}

/// Law: two distinct entries of one receipt never receive the same
/// index-within-transaction. Resolutions of logs with different block-scoped
/// indices against the same receipt land on different positions, since one
/// entry carries at most one block-scoped index.
pub proof fn lemma_index_within_tx_unique(
    log1: RawLog,
    key1: LogKey,
    v1: EthLog,
    log2: RawLog,
    key2: LogKey,
    v2: EthLog,
    receipt: TransactionReceipt,
)
    requires
        resolution_ok(log1, key1, receipt, v1),
        resolution_ok(log2, key2, receipt, v2),
        key1.log_index != key2.log_index,
    ensures
        v1.log_index_in_tx != v2.log_index_in_tx,
{
    assert(entry_matches(receipt.logs@[v1.log_index_in_tx as int], key1.log_index));
    assert(entry_matches(receipt.logs@[v2.log_index_in_tx as int], key2.log_index));
}

/// First step of resolution: a raw log must carry a block number, a
/// transaction hash and a block-scoped log index before a receipt lookup
/// makes sense. Absence of any is a permanent provider-data fault, reported
/// in this order of precedence.
pub fn log_resolution_key(log: &RawLog) -> (r: BridgeResult<LogKey>)
    ensures
        log.block_number.is_none()
            ==> r == Err::<LogKey, BridgeError>(BridgeError::ProviderError(
                ProviderFault::LogWithoutBlockNumber,
            )),
        log.block_number.is_some() && log.transaction_hash.is_none()
            ==> r == Err::<LogKey, BridgeError>(BridgeError::ProviderError(
                ProviderFault::LogWithoutTransactionHash,
            )),
        log.block_number.is_some() && log.transaction_hash.is_some() && log.log_index.is_none()
            ==> r == Err::<LogKey, BridgeError>(BridgeError::ProviderError(
                ProviderFault::LogWithoutLogIndex,
            )),
        (match (log.block_number, log.transaction_hash, log.log_index) {
            (Option::Some(bn), Option::Some(th), Option::Some(li)) =>
                r == Ok::<LogKey, BridgeError>((LogKey {
                    block_number: bn,
                    tx_hash: th,
                    log_index: li,
                })),
            _ => true,
        }),
{
    let block_number = match log.block_number {
        None => {
            return Err(BridgeError::ProviderError(ProviderFault::LogWithoutBlockNumber));
        },
        Some(n) => n,
    };
    let tx_hash = match log.transaction_hash {
        None => {
            return Err(BridgeError::ProviderError(ProviderFault::LogWithoutTransactionHash));
        },
        Some(h) => h,
    };
    let log_index = match log.log_index {
        None => {
            return Err(BridgeError::ProviderError(ProviderFault::LogWithoutLogIndex));
        },
        Some(i) => i,
    };
    Ok(LogKey { block_number, tx_hash, log_index })
}

/// Second step of resolution: cross-check the raw log against the receipt
/// fetched for its transaction and derive the index-within-transaction.
///
/// The receipt must exist (the log is evidence its transaction exists), must
/// agree on the block number, and must contain an entry with the log's
/// block-scoped index whose topics and data equal the log's byte for byte;
/// the position of that entry — the last one, if the provider repeated the
/// index — becomes the 16-bit index-within-transaction. Any disagreement is a
/// permanent provider-integrity fault.
#[verifier::loop_isolation(false)]
pub fn match_log_in_receipt(
    log: RawLog,
    key: LogKey,
    receipt: &Option<TransactionReceipt>,
) -> (r: BridgeResult<EthLog>)
    requires
        log.block_number == Some(key.block_number),
        log.transaction_hash == Some(key.tx_hash),
        log.log_index == Some(key.log_index),
    ensures
        (match *receipt {
            Option::None => r == Err::<EthLog, BridgeError>(BridgeError::ProviderError(
                (ProviderFault::ReceiptMissingForLog { tx_hash: key.tx_hash }),
            )),
            Option::Some(rc) => match rc.block_number {
                Option::None => r == Err::<EthLog, BridgeError>(BridgeError::ProviderError(
                    ProviderFault::ReceiptWithoutBlockNumber,
                )),
                Option::Some(rbn) => if rbn != key.block_number {
                    r == Err::<EthLog, BridgeError>(BridgeError::ProviderError(
                        (ProviderFault::ReceiptBlockMismatch {
                            log_block_number: key.block_number,
                            receipt_block_number: rbn,
                        }),
                    ))
                } else {
                    &&& !content_consistent(rc.logs@, key.log_index, log)
                        ==> r == Err::<EthLog, BridgeError>(BridgeError::ProviderError(
                            (ProviderFault::ReceiptLogContentMismatch {
                                log_index: key.log_index,
                            }),
                        ))
                    &&& content_consistent(rc.logs@, key.log_index, log)
                        && !has_match(rc.logs@, key.log_index)
                        ==> r == Err::<EthLog, BridgeError>(BridgeError::ProviderError(
                            (ProviderFault::LogNotInReceipt { log_index: key.log_index }),
                        ))
                    &&& content_consistent(rc.logs@, key.log_index, log)
                        && has_match(rc.logs@, key.log_index)
                        ==> (r matches Ok(v) || r matches Err(BridgeError::ProviderError(
                            ProviderFault::LogPositionOverflow { .. },
                        )))
                },
            },
        }),
        (match r {
            Result::Ok(v) => match *receipt {
                Option::Some(rc) => resolution_ok(log, key, rc, v),
                Option::None => false,
            },
            Result::Err(_) => true,
        }),
        (match r {
            Result::Err(BridgeError::ProviderError(ProviderFault::LogPositionOverflow {
                position,
            })) => match *receipt {
                Option::Some(rc) => {
                    &&& is_last_match(rc.logs@, key.log_index, position as int)
                    &&& position > u16::MAX
                    &&& content_consistent(rc.logs@, key.log_index, log)
                },
                Option::None => false,
            },
            _ => true,
        }),
{
    let rc = match receipt {
        None => {
            return Err(BridgeError::ProviderError(
                ProviderFault::ReceiptMissingForLog { tx_hash: key.tx_hash },
            ));
        },
        Some(rc) => rc,
    };
    let receipt_block_number = match rc.block_number {
        None => {
            return Err(BridgeError::ProviderError(ProviderFault::ReceiptWithoutBlockNumber));
        },
        Some(n) => n,
    };
    if receipt_block_number != key.block_number {
        return Err(BridgeError::ProviderError(ProviderFault::ReceiptBlockMismatch {
            log_block_number: key.block_number,
            receipt_block_number,
        }));
    }
    let mut found: Option<usize> = None;
    let mut i: usize = 0;
    while i < rc.logs.len()
        invariant
            i <= rc.logs.len(),
            forall|j: int|
                0 <= j < i && entry_matches(rc.logs@[j], key.log_index)
                    ==> same_content(rc.logs@[j], log),
            match found {
                Some(f) => {
                    &&& f < i
                    &&& entry_matches(rc.logs@[f as int], key.log_index)
                    &&& forall|j: int| f < j < i ==> !entry_matches(rc.logs@[j], key.log_index)
                },
                None => forall|j: int| 0 <= j < i ==> !entry_matches(rc.logs@[j], key.log_index),
            },
        decreases rc.logs.len() - i,
    {
        let entry = &rc.logs[i];
        let index_matches = match entry.log_index {
            Some(li) => li == key.log_index,
            None => false,
        };
        if index_matches {
            let topics_agree = topics_eq(&entry.topics, &log.topics);
            let data_agree = bytes_eq(&entry.data, &log.data);
            if !topics_agree || !data_agree {
                return Err(BridgeError::ProviderError(
                    ProviderFault::ReceiptLogContentMismatch { log_index: key.log_index },
                ));
            }
            found = Some(i);
        }
        i += 1;
    }
    match found {
        None => Err(BridgeError::ProviderError(ProviderFault::LogNotInReceipt {
            log_index: key.log_index,
        })),
        Some(position) => {
            if position > u16::MAX as usize {
                Err(BridgeError::ProviderError(ProviderFault::LogPositionOverflow { position }))
            } else {
                Ok(EthLog {
                    block_number: key.block_number,
                    tx_hash: key.tx_hash,
                    log_index_in_tx: position as u16,
                    log,
                })
            }
        },
    }
}

} // verus!
