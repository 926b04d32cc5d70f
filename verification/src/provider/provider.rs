//! Capacity reconciliation: the step by which the owner of a data client
//! brings the store's capacity in line with the capacity it is configured
//! with.

use vstd::prelude::*;
use crate::provider::data_client::{ClientError, DataClient};
use crate::provider::recency::{evicted_by, keep_newest, payloads};

verus! {

/// The capacity a provider asks for when it is given none.
pub const DEFAULT_STORAGE_MAX_SIZE: usize = 20;

/// Compares the capacity asked for with the capacity the store has and
/// resizes the store when they differ. `Ok(Some(evicted))` says that the
/// store was resized and which payloads left it, the least recently used
/// first; `Ok(None)` that the two agreed and nothing was done. A request for
/// zero is turned down and changes nothing.
pub fn reconcile_capacity<V, F>(client: &mut DataClient<V, F>, storage_max_size: usize) -> (resized:
    Result<Option<Vec<V>>, ClientError>)
    requires
        old(client).wf(),
    ensures
        final(client).wf(),
        match resized {
            Ok(change) => {
                &&& storage_max_size > 0
                &&& change.is_some() == (old(client).capacity() != storage_max_size)
                &&& final(client).capacity() == storage_max_size
                &&& final(client).cached() == keep_newest(
                    old(client).cached(),
                    storage_max_size as nat,
                )
                &&& change.is_some() ==> change.unwrap()@ == payloads(
                    evicted_by(old(client).cached(), storage_max_size as nat),
                )
            },
            Err(e) => {
                &&& storage_max_size == 0
                &&& e == ClientError::InvalidCapacity
                &&& final(client).capacity() == old(client).capacity()
                &&& final(client).cached() == old(client).cached()
            },
        },
        final(client).in_flight() == old(client).in_flight(),
        final(client).cursor_table() == old(client).cursor_table(),
{
    if storage_max_size == 0 {
        return Err(ClientError::InvalidCapacity);
    }
    if client.max_size() == storage_max_size {
        return Ok(None);
    }
    match client.resize(storage_max_size) {
        Ok(evicted) => Ok(Some(evicted)),
        Err(e) => Err(e),
    }
}

} // verus!
