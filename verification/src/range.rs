//! Range-fetch join: the fail-together merge of the per-log resolutions that
//! the caller ran (concurrently or not) over the logs of a block range. A
//! bridge watcher must never silently skip an event it could not verify, so
//! one failed resolution fails the whole batch; partial success is not
//! exposed.

use vstd::prelude::*;
use crate::error::{BridgeError, BridgeResult};
use crate::types::EthLog;

verus! {

/// Merge the per-log resolution outcomes. If every resolution succeeded, the
/// verified records come back in the order the outcomes were given; if any
/// failed, the whole batch fails with the first failure, and nothing of the
/// rest is exposed.
#[verifier::loop_isolation(false)]
pub fn collect_resolutions(results: Vec<BridgeResult<EthLog>>) -> (r: BridgeResult<Vec<EthLog>>)
    ensures
        (match r {
            Result::Ok(out) => {
                &&& out@.len() == results@.len()
                &&& forall|i: int|
                    0 <= i < results@.len()
                        ==> results@[i] == Ok::<EthLog, BridgeError>(out@[i])
            },
            Result::Err(e) => exists|k: int|
                {
                    &&& 0 <= k < results@.len()
                    &&& results@[k] == Err::<EthLog, BridgeError>(e)
                    &&& forall|j: int| 0 <= j < k ==> results@[j] is Ok
                },
        }),
{
    let mut pending = results;
    let ghost all = pending@;
    let mut out: Vec<EthLog> = Vec::new();
    while pending.len() > 0
        invariant
            all.len() == out@.len() + pending@.len(),
            forall|j: int| 0 <= j < out@.len() ==> all[j] == Ok::<EthLog, BridgeError>(out@[j]),
            forall|j: int| 0 <= j < pending@.len() ==> pending@[j] == all[out@.len() + j],
        decreases pending@.len(),
    {
        let first = pending.remove(0);
        match first {
            Ok(v) => {
                out.push(v);
            },
            Err(e) => {
                proof {
                    assert(all[out@.len() as int] == Err::<EthLog, BridgeError>(e));
                }
                return Err(e);
            },
        }
    }
    Ok(out)
}

} // verus!
