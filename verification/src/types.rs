//! Data model: the provider's answers as the core sees them, reduced to plain
//! values, and the core's validated output.

use vstd::prelude::*;

verus! {

/// A 256-bit word (transaction hash or log topic), held as four 64-bit limbs
/// in big-endian order: `limb0` covers the most significant bytes.
#[derive(Clone, Copy, PartialEq, Eq, Structural, Debug)]
pub struct Hash256 {
    pub limb0: u64,
    pub limb1: u64,
    pub limb2: u64,
    pub limb3: u64,
}

/// A raw log as the provider reports it. Every field the core relies on is
/// optional: provider output is untrusted and must be validated, never
/// assumed present. The same shape describes the entries of a transaction
/// receipt's log list.
#[derive(Debug)]
pub struct RawLog {
    /// Height of the block the log was emitted in, if the provider gave one.
    pub block_number: Option<u64>,
    /// Hash of the transaction that emitted the log, if the provider gave one.
    pub transaction_hash: Option<Hash256>,
    /// The log's index *within its block*, if the provider gave one. This is
    /// not the index within the transaction, which the core must derive.
    pub log_index: Option<u64>,
    /// The log's topic words.
    pub topics: Vec<Hash256>,
    /// The log's opaque data bytes.
    pub data: Vec<u8>,
}

/// A transaction receipt as the provider reports it: the block the
/// transaction landed in (again optional, to be validated) and the ordered
/// list of logs the transaction emitted.
#[derive(Debug)]
pub struct TransactionReceipt {
    pub block_number: Option<u64>,
    pub logs: Vec<RawLog>,
}

/// The three fields a raw log must carry before a receipt lookup makes sense,
/// with their presence already established.
#[derive(Clone, Copy, PartialEq, Eq, Structural, Debug)]
pub struct LogKey {
    pub block_number: u64,
    pub tx_hash: Hash256,
    /// The log's index within its block.
    pub log_index: u64,
}

/// The core's validated output: a log whose block number, transaction hash
/// and index *within its transaction* have all been resolved. The index
/// within the transaction is derived from the receipt, never taken from the
/// provider directly.
#[derive(Debug)]
pub struct EthLog {
    pub block_number: u64,
    pub tx_hash: Hash256,
    /// The log's position in its transaction's log list, a 16-bit ordinal.
    pub log_index_in_tx: u16,
    /// The raw payload the log arrived with.
    pub log: RawLog,
}

/// Whether two raw logs carry the same topic words and the same data bytes.
pub open spec fn same_content(a: RawLog, b: RawLog) -> bool {
    a.topics@ == b.topics@ && a.data@ == b.data@
}

/// Exact equality of two topic lists.
pub fn topics_eq(a: &Vec<Hash256>, b: &Vec<Hash256>) -> (r: bool)
    ensures
        r <==> a@ == b@,
{
    if a.len() != b.len() {
        return false;
    }
    let mut i: usize = 0;
    while i < a.len()
        invariant
            i <= a.len(),
            a.len() == b.len(),
            forall|j: int| 0 <= j < i ==> a@[j] == b@[j],
        decreases a.len() - i,
    {
        if !(a[i] == b[i]) {
            return false;
        }
        i += 1;
    }
    proof {
        assert(a@ =~= b@);
    }
    true
}

/// Exact equality of two byte strings.
pub fn bytes_eq(a: &Vec<u8>, b: &Vec<u8>) -> (r: bool)
    ensures
        r <==> a@ == b@,
{
    if a.len() != b.len() {
        return false;
    }
    let mut i: usize = 0;
    while i < a.len()
        invariant
            i <= a.len(),
            a.len() == b.len(),
            forall|j: int| 0 <= j < i ==> a@[j] == b@[j],
        decreases a.len() - i,
    {
        if a[i] != b[i] {
            return false;
        }
        i += 1;
    }
    proof {
        assert(a@ =~= b@);
    }
    true
}

} // verus!
