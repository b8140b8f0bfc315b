use vstd::prelude::*;

use crate::workspace::Workspace;

verus! {

/// What the poll loop compares between two queries: how many workspaces
/// exist and which one is active.
#[derive(Clone, Copy, Debug, PartialEq, Eq, Structural)]
pub struct Snapshot {
    pub workspace_count: usize,
    pub active_id: u8,
}

/// Takes the snapshot of one query's result.
pub fn snapshot_of(workspaces: &Vec<Workspace>, active_workspace: &Workspace) -> (r: Snapshot)
    ensures
        r.workspace_count == workspaces@.len(),
        r.active_id == active_workspace.id,
{
    Snapshot { workspace_count: workspaces.len(), active_id: active_workspace.id }
}

/// Whether a poll that observes `current` after `previous` emits output.
pub open spec fn changed(previous: Option<Snapshot>, current: Snapshot) -> bool {
    previous != Some(current)
}

/// The decisions of the poll loop: it remembers the last snapshot it saw and
/// emits whenever the newly observed one differs from it.
pub struct Poller {
    last: Option<Snapshot>,
}

impl Poller {
    /// The last snapshot seen, if any.
    pub closed spec fn last_seen(&self) -> Option<Snapshot> {
        self.last
    }

    /// A poller that has seen nothing yet, so its first observation emits.
    pub fn new() -> (r: Poller)
        ensures
            r.last_seen() == None::<Snapshot>,
    {
        Poller { last: None }
    }

    /// Records `current` and says whether output is to be emitted for it.
    pub fn observe(&mut self, current: Snapshot) -> (emit: bool)
        ensures
            emit == changed(old(self).last_seen(), current),
            final(self).last_seen() == Some(current),
    {
        let emit = match self.last {
            Some(previous) => previous != current,
            None => true,
        };
        self.last = Some(current);
        emit
    }
}

/// Two consecutive identical snapshots emit at most once: after observing a
/// snapshot, observing the same one again emits nothing, and a different one
/// emits.
pub proof fn lemma_emits_only_on_change(current: Snapshot, next: Snapshot)
    ensures
        !changed(Some(current), current),
        changed(Some(current), next) <==> next != current,
{
}

} // verus!
