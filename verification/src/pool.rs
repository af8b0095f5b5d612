//! What this layer reads of the pending pool: the entries of its ready set,
//! in the order the pool exposes them.

use vstd::prelude::*;

verus! {

/// An entry of the pool's ready set. The pool owns it; this layer reads its
/// tags and hands its payload on.
#[derive(Clone, Debug, PartialEq, Eq)]
pub struct PoolReadyEntry {
    /// The tags that the entry provides once it is included; the first one
    /// names the account and nonce that the entry consumes.
    pub provides: Vec<Vec<u8>>,
    /// The queued unit of work itself.
    pub payload: Vec<u8>,
}

impl PoolReadyEntry {
    /// The first tag that the entry provides, where it provides any.
    pub open spec fn first_tag(&self) -> Option<Seq<u8>> {
        if self.provides@.len() > 0 {
            Some(self.provides@[0]@)
        } else {
            None
        }
    }
}

/// The first tags of a ready sequence, entry by entry.
pub open spec fn first_tags(ready: Seq<PoolReadyEntry>) -> Seq<Option<Seq<u8>>> {
    Seq::new(ready.len(), |i: int| ready[i].first_tag())
}

} // verus!
