//! The front door's decisions: what is handed to the memoizing cache engine,
//! and what a caller observes of its answer.
use vstd::prelude::*;

use crate::compute::FetchSymCacheInternal;
use crate::error::{SymCacheError, SymCacheErrorKind};
use crate::symcache::SymCache;
use crate::types::FetchSymCache;
use std::sync::Arc;

verus! {

/// The shared answer every caller of one key observes.
pub type SharedResult = Result<Arc<SymCache>, Arc<SymCacheError>>;

/// The computation unit handed to the cache engine for `request`.
pub fn memoized_request(request: FetchSymCache) -> (r: FetchSymCacheInternal)
    ensures
        r.request == request,
{
    FetchSymCacheInternal { request }
}

/// What the caller observes, given the engine's answer: `None` where the
/// request could not be delivered to the engine, which is a `Mailbox` error;
/// otherwise the engine's shared answer, passed on as it is.
pub fn settle_response(delivered: Option<SharedResult>) -> (r: SharedResult)
    ensures
        delivered is None ==> (r matches Err(e) && *e == SymCacheError {
            kind: SymCacheErrorKind::Mailbox,
        }),
        delivered matches Some(answer) ==> r == answer,
{
    match delivered {
        Some(answer) => answer,
        None => Err(Arc::new(SymCacheError { kind: SymCacheErrorKind::Mailbox })),
    }
}

} // verus!
