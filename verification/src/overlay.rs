//! The pending state: the best finalized state with the effects of the ready
//! pool entries on top.
//!
//! An overlay is built for one read and dropped after it. It holds the base
//! state and a snapshot of the pool's ready set; a query against it opens the
//! base state, applies every entry of the snapshot in the pool's order and
//! reads the key last. The opening, applying and reading are done by the
//! caller, which owns the state; the order of that work is decided here.

use vstd::prelude::*;
use crate::block::StateHandle;
use crate::pool::PoolReadyEntry;
use crate::primitives::{H160, U256};

verus! {

/// What a read asks for.
#[derive(Clone, Copy, Debug, PartialEq, Eq)]
pub enum StateKey {
    /// The balance of an account.
    Balance(H160),
    /// A storage slot of a contract.
    Storage(H160, U256),
    /// The nonce of an account.
    Nonce(H160),
}

/// A finalized state and the pool entries whose effects lie on top of it.
///
/// An overlay serves one read: a query takes it over, and it cannot be
/// copied, so the next read has to build a new one from the pool as it is
/// then.
#[derive(Debug, PartialEq, Eq)]
pub struct PendingOverlay {
    base: StateHandle,
    effects: Vec<PoolReadyEntry>,
}

impl PendingOverlay {
    /// The finalized state under the overlay.
    pub closed spec fn spec_base(&self) -> StateHandle {
        self.base
    }

    /// The entries on top of the base, in the order they are applied.
    pub closed spec fn spec_effects(&self) -> Seq<PoolReadyEntry> {
        self.effects@
    }

    /// The finalized state under the overlay.
    pub fn base(&self) -> (r: StateHandle)
        ensures
            r == self.spec_base(),
    {
        self.base
    }

    /// The number of entries on top of the base.
    pub fn len(&self) -> (r: usize)
        ensures
            r == self.spec_effects().len(),
    {
        self.effects.len()
    }

    /// The entry that is applied at `index`, where the overlay has that
    /// many.
    pub fn effect(&self, index: usize) -> (r: Option<&PoolReadyEntry>)
        ensures
            index < self.spec_effects().len() ==> r == Some(&self.spec_effects()[index as int]),
            index >= self.spec_effects().len() ==> r is None,
    {
        if index < self.effects.len() {
            Some(&self.effects[index])
        } else {
            None
        }
    }
}

/// Builds the overlay of a snapshot of the ready set on a base state. The
/// overlay holds exactly the entries of the snapshot, in the snapshot's
/// order.
pub fn build_overlay(base: StateHandle, pool_ready: Vec<PoolReadyEntry>) -> (r: PendingOverlay)
    ensures
        r.spec_base() == base,
        r.spec_effects() == pool_ready@,
{
    PendingOverlay { base, effects: pool_ready }
}

/// A read against an overlay, under way. Each state but the last names the
/// work that the caller owes next; `V` is the value read and `E` the error of
/// the state that is read from.
#[derive(Debug, PartialEq, Eq)]
pub enum OverlayQuery<V, E> {
    /// The base state of the overlay is to be opened.
    Opening { overlay: PendingOverlay, key: StateKey },
    /// The entry at `next` is to be applied; all entries before it have been.
    Applying { overlay: PendingOverlay, key: StateKey, next: usize },
    /// `key` is to be read; every entry has been applied.
    Reading { key: StateKey },
    /// The read is over: the value, or the error of the state.
    Answered(Result<V, E>),
}

/// The outcome of a piece of work on the state.
#[derive(Debug, PartialEq, Eq)]
pub enum OverlayEvent<V, E> {
    /// The base state was opened, or could not be.
    Opened(Result<(), E>),
    /// An entry was applied. What the entry did to the state, and whether it
    /// took effect at all, is the state's own business.
    Applied,
    /// The key was read, or could not be.
    Read(Result<V, E>),
}

impl<V, E> OverlayQuery<V, E> {
    /// The state in which the entry at `next` is due, or the key where no
    /// entry is left.
    pub open spec fn due(overlay: PendingOverlay, key: StateKey, next: nat) -> OverlayQuery<V, E> {
        if next < overlay.spec_effects().len() {
            OverlayQuery::Applying { overlay, key, next: next as usize }
        } else {
            OverlayQuery::Reading { key }
        }
    }

    /// The state that follows `self` on `event`. A base state that cannot be
    /// opened ends the read with its error, and nothing is applied. An event
    /// that does not answer what the query waits for leaves it as it is.
    pub open spec fn after(self, event: OverlayEvent<V, E>) -> OverlayQuery<V, E> {
        match (self, event) {
            (OverlayQuery::Opening { overlay, key }, OverlayEvent::Opened(outcome)) => {
                match outcome {
                    Ok(_) => Self::due(overlay, key, 0),
                    Err(error) => OverlayQuery::Answered(Err(error)),
                }
            },
            (OverlayQuery::Applying { overlay, key, next }, OverlayEvent::Applied) => {
                Self::due(overlay, key, (next + 1) as nat)
            },
            (OverlayQuery::Reading { key }, OverlayEvent::Read(outcome)) => {
                OverlayQuery::Answered(outcome)
            },
            (state, _) => state,
        }
    }

    /// Whether the query is in a state that it can reach: an entry that is
    /// due exists.
    pub open spec fn well_formed(self) -> bool {
        self matches OverlayQuery::Applying { overlay, next, .. } ==> next
            < overlay.spec_effects().len()
    }

    /// Starts a read of `key` against `overlay`.
    pub fn query(overlay: PendingOverlay, key: StateKey) -> (r: OverlayQuery<V, E>)
        ensures
            r == (OverlayQuery::<V, E>::Opening { overlay, key }),
            r.well_formed(),
    {
        OverlayQuery::Opening { overlay, key }
    }

    /// Moves the query on by the outcome of the work it waited for.
    pub fn step(self, event: OverlayEvent<V, E>) -> (r: OverlayQuery<V, E>)
        ensures
            r == self.after(event),
            self.well_formed() ==> r.well_formed(),
    {
        match (self, event) {
            (OverlayQuery::Opening { overlay, key }, OverlayEvent::Opened(outcome)) => {
                match outcome {
                    Ok(_) => if 0 < overlay.len() {
                        OverlayQuery::Applying { overlay, key, next: 0 }
                    } else {
                        OverlayQuery::Reading { key }
                    },
                    Err(error) => OverlayQuery::Answered(Err(error)),
                }
            },
            (OverlayQuery::Applying { overlay, key, next }, OverlayEvent::Applied) => {
                let len = overlay.len();
                if len > 0 && next < len - 1 {
                    OverlayQuery::Applying { overlay, key, next: next + 1 }
                } else {
                    OverlayQuery::Reading { key }
                }
            },
            (OverlayQuery::Reading { key }, OverlayEvent::Read(outcome)) => {
                OverlayQuery::Answered(outcome)
            },
            (state, _) => state,
        }
    }
}

/// The state of a query after one `Applied` for each of `count` entries,
/// starting where the entry at `from` is due.
pub open spec fn after_applying<V, E>(
    overlay: PendingOverlay,
    key: StateKey,
    from: nat,
    count: nat,
) -> OverlayQuery<V, E>
    decreases count,
{
    if count == 0 {
        OverlayQuery::<V, E>::due(overlay, key, from)
    } else {
        after_applying::<V, E>(overlay, key, from, (count - 1) as nat).after(OverlayEvent::Applied)
    }
}

/// A query applies the entries of its overlay in their order, each one once:
/// after `count` entries were applied the entry at `count` is due, and the key
/// is read when, and only when, all of them were applied.
pub proof fn law_effects_apply_in_order<V, E>(overlay: PendingOverlay, key: StateKey, count: nat)
    requires
        count <= overlay.spec_effects().len(),
        overlay.spec_effects().len() <= usize::MAX,
    ensures
        after_applying::<V, E>(overlay, key, 0, count) == OverlayQuery::<V, E>::due(
            overlay,
            key,
            count,
        ),
        count < overlay.spec_effects().len() ==> after_applying::<V, E>(overlay, key, 0, count)
            == (OverlayQuery::<V, E>::Applying { overlay, key, next: count as usize }),
        count == overlay.spec_effects().len() ==> after_applying::<V, E>(overlay, key, 0, count)
            == (OverlayQuery::<V, E>::Reading { key }),
    decreases count,
{
    if count > 0 {
        law_effects_apply_in_order::<V, E>(overlay, key, (count - 1) as nat);
    }
}

/// A base state that cannot be opened answers the read with its own error,
/// and no entry is applied.
pub proof fn law_base_failure_is_returned<V, E>(overlay: PendingOverlay, key: StateKey, error: E)
    ensures
        (OverlayQuery::<V, E>::Opening { overlay, key }).after(OverlayEvent::Opened(Err(error)))
            == OverlayQuery::<V, E>::Answered(Err(error)),
{
}

} // verus!
