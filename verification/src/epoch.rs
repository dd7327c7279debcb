//! How long the set of announced titles of a feed is kept.

use vstd::prelude::*;
use crate::notified::NotifiedSet;

verus! {

/// When the set of announced titles of a feed is emptied.
#[derive(Clone, Copy, Debug, PartialEq, Eq, Structural)]
pub enum EpochPolicy {
    /// Never while the process runs. Only this policy keeps an event from
    /// being announced again in a later sweep.
    Persistent,
    /// At the start of a sweep, once `sweeps` sweeps have been made since
    /// the set was last empty. Zero counts as one.
    ResetEvery { sweeps: u32 },
}

/// Whether a feed that has made `made` sweeps in its epoch starts a new
/// epoch with the next sweep.
pub open spec fn epoch_ends(policy: EpochPolicy, made: int) -> bool {
    match policy {
        EpochPolicy::Persistent => false,
        EpochPolicy::ResetEvery { sweeps } => made >= sweeps,
    }
}

/// What is kept of one feed from sweep to sweep.
#[derive(Debug)]
pub struct FeedState {
    /// The titles announced in the current epoch.
    pub notified: NotifiedSet,
    /// The sweeps made in the current epoch. It is not counted where the
    /// set is kept for good.
    pub sweeps: u32,
}

impl FeedState {
    /// The state of a feed that has not been swept yet.
    pub fn new() -> (state: FeedState)
        ensures
            state.notified@ == Set::<Seq<char>>::empty(),
            state.sweeps == 0,
    {
        FeedState { notified: NotifiedSet::new(), sweeps: 0 }
    }

    /// Opens a sweep: where the policy ends the epoch here, the set is
    /// emptied and the count starts again; the sweep is then counted.
    pub fn begin_sweep(&mut self, policy: EpochPolicy)
        ensures
            final(self).notified@ == if epoch_ends(policy, old(self).sweeps as int) {
                Set::<Seq<char>>::empty()
            } else {
                old(self).notified@
            },
            final(self).sweeps == match policy {
                EpochPolicy::Persistent => old(self).sweeps as int,
                EpochPolicy::ResetEvery { sweeps } => if old(self).sweeps >= sweeps {
                    1
                } else {
                    old(self).sweeps + 1
                },
            },
    {
        match policy {
            EpochPolicy::Persistent => {},
            EpochPolicy::ResetEvery { sweeps } => {
                if self.sweeps >= sweeps {
                    self.notified.clear();
                    self.sweeps = 0;
                }
                self.sweeps = self.sweeps + 1;
            },
        }
    }
}

} // verus!
