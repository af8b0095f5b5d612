//! Resolving a client's block reference to a finalized state.
//!
//! A reference names the genesis block, the best finalized block, a block by
//! number or hash, or the pending state. Every reference but the last stands
//! for a concrete finalized state, if the chain has the block; the pending
//! state has no handle, and neither has a block that the chain does not know.
//! A caller that gets no handle answers from the pending overlay instead.

use vstd::prelude::*;
use crate::primitives::H256;

verus! {

/// A block as a client names it.
#[derive(Clone, Copy, Debug, PartialEq, Eq)]
pub enum BlockReference {
    Earliest,
    Latest,
    Pending,
    Number(u64),
    Hash(H256),
}

/// A finalized state: the state as of the block with this hash.
#[derive(Clone, Copy, Debug, PartialEq, Eq)]
pub struct StateHandle {
    pub block: H256,
}

/// What the finalized chain reports of itself.
#[derive(Clone, Copy, Debug, PartialEq, Eq)]
pub struct ChainInfo {
    pub genesis_hash: H256,
    pub best_hash: H256,
    pub best_number: u128,
}

/// A question that only the finalized chain can answer.
#[derive(Clone, Copy, Debug, PartialEq, Eq)]
pub enum BlockLookup {
    /// The hash of the finalized block with this number.
    ByNumber(u64),
    /// Whether a finalized block has this hash.
    ByHash(H256),
}

/// The lookup that a reference needs before it can be resolved: a number or
/// a hash has to be found in the chain, anything else is known without
/// asking.
pub open spec fn lookup_needed(reference: Option<BlockReference>) -> Option<BlockLookup> {
    match reference {
        Some(BlockReference::Number(number)) => Some(BlockLookup::ByNumber(number)),
        Some(BlockReference::Hash(hash)) => Some(BlockLookup::ByHash(hash)),
        _ => None,
    }
}

/// The state that a reference stands for. `found` is the chain's answer to
/// the lookup that the reference needs: the hash of the block it names, or
/// nothing where the chain has no such block.
pub open spec fn resolved(
    reference: Option<BlockReference>,
    info: ChainInfo,
    found: Option<H256>,
) -> Option<StateHandle> {
    match reference {
        Some(BlockReference::Earliest) => Some(StateHandle { block: info.genesis_hash }),
        Some(BlockReference::Latest) => Some(StateHandle { block: info.best_hash }),
        Some(BlockReference::Number(_)) | Some(BlockReference::Hash(_)) => match found {
            Some(block) => Some(StateHandle { block }),
            None => None,
        },
        Some(BlockReference::Pending) | None => None,
    }
}

/// Says which lookup a reference needs, if any.
pub fn lookup_for(reference: &Option<BlockReference>) -> (r: Option<BlockLookup>)
    ensures
        r == lookup_needed(*reference),
{
    match reference {
        Some(BlockReference::Number(number)) => Some(BlockLookup::ByNumber(*number)),
        Some(BlockReference::Hash(hash)) => Some(BlockLookup::ByHash(*hash)),
        _ => None,
    }
}

/// Resolves a reference to a finalized state.
///
/// The genesis block and the best block are taken from `info`. A block named
/// by number or hash resolves to the block that the chain found for it, and
/// to nothing where it found none. The pending state and an absent reference
/// resolve to nothing, whatever the chain holds.
pub fn resolve(reference: &Option<BlockReference>, info: &ChainInfo, found: Option<H256>) -> (r:
    Option<StateHandle>)
    ensures
        r == resolved(*reference, *info, found),
        *reference matches Some(BlockReference::Number(_)) && found is Some ==> r is Some,
        *reference == Some(BlockReference::Pending) ==> r is None,
{
    match reference {
        Some(BlockReference::Earliest) => Some(StateHandle { block: info.genesis_hash }),
        Some(BlockReference::Latest) => Some(StateHandle { block: info.best_hash }),
        Some(BlockReference::Number(_)) | Some(BlockReference::Hash(_)) => match found {
            Some(block) => Some(StateHandle { block }),
            None => None,
        },
        Some(BlockReference::Pending) | None => None,
    }
}

/// Where a read that names a block is answered.
#[derive(Clone, Copy, Debug, PartialEq, Eq)]
pub enum ReadTarget {
    /// Directly against this finalized state.
    Finalized(StateHandle),
    /// Against the pending state: the ready pool entries on top of `base`.
    Pending { base: StateHandle },
}

/// The target of a read: the resolved state where there is one, and the
/// pending state on top of the best finalized block otherwise.
pub open spec fn routed(handle: Option<StateHandle>, info: ChainInfo) -> ReadTarget {
    match handle {
        Some(handle) => ReadTarget::Finalized(handle),
        None => ReadTarget::Pending { base: StateHandle { block: info.best_hash } },
    }
}

/// Routes a read by the outcome of resolving its block reference.
pub fn route(handle: Option<StateHandle>, info: &ChainInfo) -> (r: ReadTarget)
    ensures
        r == routed(handle, *info),
{
    match handle {
        Some(handle) => ReadTarget::Finalized(handle),
        None => ReadTarget::Pending { base: StateHandle { block: info.best_hash } },
    }
}

/// A block number that the chain knows resolves to a finalized state, so a
/// read that names it is answered from that state and never from the pending
/// overlay.
pub proof fn law_known_number_is_finalized(number: u64, info: ChainInfo, block: H256)
    ensures
        resolved(Some(BlockReference::Number(number)), info, Some(block)) == Some(
            StateHandle { block },
        ),
        routed(resolved(Some(BlockReference::Number(number)), info, Some(block)), info)
            == ReadTarget::Finalized(StateHandle { block }),
{
}

/// The pending reference never resolves, whatever the chain reports and
/// whatever a lookup found, so a read that names it is answered on top of the
/// best finalized block.
pub proof fn law_pending_never_resolves(info: ChainInfo, found: Option<H256>)
    ensures
        resolved(Some(BlockReference::Pending), info, found) is None,
        routed(resolved(Some(BlockReference::Pending), info, found), info) == (ReadTarget::Pending {
            base: StateHandle { block: info.best_hash },
        }),
{
}

} // verus!
