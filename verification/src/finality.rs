//! Finality gate: extracting the current finalized height from the provider's
//! answer to the "finalized" block-tag query, and deciding whether a block is
//! final against it. The height is queried fresh per check and never cached:
//! a stale cached value could wrongly approve a not-yet-final block.

use vstd::prelude::*;
use crate::error::{BridgeError, BridgeResult, TransientFault};

verus! {

/// The provider's answer to the "finalized" block-tag query, reduced to the
/// one field the core reads: the block's height, which some node
/// implementations legitimately omit for a while.
#[derive(Clone, Copy, PartialEq, Eq, Structural, Debug)]
pub struct FinalizedBlock {
    pub number: Option<u64>,
}

/// The current finalized height, from the provider's answer to the
/// "finalized" tag query. Both failure modes are transient: the tag may be
/// temporarily unavailable on some nodes, so callers retry rather than
/// abandon.
pub fn finalized_height_of(block: Option<FinalizedBlock>) -> (r: BridgeResult<u64>)
    ensures
        r == (match block {
            Option::None =>
                Err::<u64, BridgeError>(BridgeError::TransientProviderError(
                    TransientFault::NoFinalizedBlock,
                )),
            Option::Some(b) => match b.number {
                Option::None =>
                    Err::<u64, BridgeError>(BridgeError::TransientProviderError(
                        TransientFault::FinalizedBlockWithoutNumber,
                    )),
                Option::Some(h) => Ok::<u64, BridgeError>(h),
            },
        }),
{
    match block {
        None => Err(BridgeError::TransientProviderError(TransientFault::NoFinalizedBlock)),
        Some(b) => match b.number {
            None => Err(BridgeError::TransientProviderError(
                TransientFault::FinalizedBlockWithoutNumber,
            )),
            Some(h) => Ok(h),
        },
    }
}

/// A block at `height` is final exactly when it sits at or below the
/// provider's current finalized height.
pub fn is_finalized(height: u64, finalized_height: u64) -> (r: bool)
    ensures
        r == (height <= finalized_height),
{
    height <= finalized_height
}

/// The finality gate as the extraction path uses it: pass exactly the
/// finalized blocks through, report every other block as not yet finalized.
pub fn ensure_finalized(height: u64, finalized_height: u64) -> (r: BridgeResult<()>)
    ensures
        height <= finalized_height ==> r == Ok::<(), BridgeError>(()),
        height > finalized_height ==> r == Err::<(), BridgeError>(BridgeError::TxNotFinalized),
{
    if is_finalized(height, finalized_height) {
        Ok(())
    } else {
        Err(BridgeError::TxNotFinalized)
    }
}

} // verus!
