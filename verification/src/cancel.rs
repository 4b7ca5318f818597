//! Hierarchical cancellation scopes: one root scope tied to application
//! shutdown, one child scope per session. Cancelling a scope is observed by
//! the scope itself and every scope that descends from it, and by no other.

use vstd::prelude::*;

verus! {

/// One scope: an optional parent and its own cancellation flag.
#[derive(Clone, Copy, PartialEq, Eq, Structural, Debug)]
pub struct Scope {
    pub parent: Option<usize>,
    pub flagged: bool,
}

/// The forest of cancellation scopes. Scopes are never removed; a scope's
/// parent always precedes it, so ancestor chains are finite.
pub struct ScopeTree {
    pub scopes: Vec<Scope>,
}

impl ScopeTree {
    /// Every scope's parent is an earlier scope.
    pub open spec fn wf(self) -> bool {
        forall|i: int|
            0 <= i < self.scopes@.len() ==> (#[trigger] self.scopes@[i].parent matches Some(p)
                ==> p < i)
    }

    /// A scope is cancelled when its own flag is set or an ancestor's is.
    pub open spec fn spec_cancelled(self, i: int) -> bool
        decreases i,
    {
        if 0 <= i < self.scopes@.len() {
            self.scopes@[i].flagged || (match self.scopes@[i].parent {
                Some(p) => if p < i {
                    self.spec_cancelled(p as int)
                } else {
                    false
                },
                None => false,
            })
        } else {
            false
        }
    }

    /// Scope `j` equals `i` or lies below it in the forest.
    pub open spec fn descends(self, j: int, i: int) -> bool
        decreases j,
    {
        if 0 <= j < self.scopes@.len() {
            j == i || (match self.scopes@[j].parent {
                Some(p) => if p < j {
                    self.descends(p as int, i)
                } else {
                    false
                },
                None => false,
            })
        } else {
            false
        }
    }

    /// An empty forest.
    pub fn new() -> (r: ScopeTree)
        ensures
            r.scopes@.len() == 0,
            r.wf(),
    {
        ScopeTree { scopes: Vec::new() }
    }

    /// Opens a fresh scope, optionally below `parent`. The new scope starts
    /// out cancelled exactly when its parent already is, and no existing
    /// scope's status changes.
    pub fn new_scope(&mut self, parent: Option<usize>) -> (id: usize)
        requires
            old(self).wf(),
            parent matches Some(p) ==> p < old(self).scopes@.len(),
        ensures
            id == old(self).scopes@.len(),
            final(self).scopes@ == old(self).scopes@.push(Scope { parent, flagged: false }),
            final(self).wf(),
            forall|j: int|
                0 <= j < old(self).scopes@.len() ==> #[trigger] final(self).spec_cancelled(j)
                    == old(self).spec_cancelled(j),
            final(self).spec_cancelled(id as int) == match parent {
                Some(p) => old(self).spec_cancelled(p as int),
                None => false,
            },
    {
        let id = self.scopes.len();
        self.scopes.push(Scope { parent, flagged: false });
        proof {
            assert forall|j: int| 0 <= j < old(self).scopes@.len() implies #[trigger] self
                .spec_cancelled(j) == old(self).spec_cancelled(j) by {
                self.lemma_prefix_cancelled(*old(self), j);
            }
            match parent {
                Some(p) => self.lemma_prefix_cancelled(*old(self), p as int),
                None => (),
            }
        }
        id
    }

    /// Two trees that agree on the first scopes agree on their status.
    proof fn lemma_prefix_cancelled(self, other: ScopeTree, j: int)
        requires
            j < other.scopes@.len(),
            other.scopes@.len() <= self.scopes@.len(),
            forall|k: int|
                0 <= k < other.scopes@.len() ==> self.scopes@[k] == #[trigger] other.scopes@[k],
        ensures
            self.spec_cancelled(j) == other.spec_cancelled(j),
        decreases j,
    {
        if 0 <= j {
            match self.scopes@[j].parent {
                Some(p) => if p < j {
                    self.lemma_prefix_cancelled(other, p as int);
                },
                None => (),
            }
        }
    }

    /// Cancels scope `id`: afterwards a scope is cancelled exactly when it
    /// already was, or when it descends from `id`. Cancelling the root
    /// therefore reaches every child, and cancelling a child touches no
    /// other session's scope.
    pub fn cancel(&mut self, id: usize)
        requires
            old(self).wf(),
            id < old(self).scopes@.len(),
        ensures
            final(self).scopes@ == old(self).scopes@.update(
                id as int,
                Scope { parent: old(self).scopes@[id as int].parent, flagged: true },
            ),
            final(self).wf(),
            forall|j: int|
                0 <= j < old(self).scopes@.len() ==> #[trigger] final(self).spec_cancelled(j) == (
                old(self).spec_cancelled(j) || old(self).descends(j, id as int)),
    {
        let parent = self.scopes[id].parent;
        self.scopes.set(id, Scope { parent, flagged: true });
        proof {
            assert(final(self).scopes@[id as int].parent == old(self).scopes@[id as int].parent);
            assert forall|j: int| 0 <= j < old(self).scopes@.len() implies #[trigger] self
                .spec_cancelled(j) == (old(self).spec_cancelled(j) || old(self).descends(
                j,
                id as int,
            )) by {
                self.lemma_cancel_effect(*old(self), id as int, j);
            }
        }
    }

    /// The effect of setting one flag, by induction along the parent chain.
    proof fn lemma_cancel_effect(self, other: ScopeTree, id: int, j: int)
        requires
            other.wf(),
            0 <= id < other.scopes@.len(),
            self.scopes@ == other.scopes@.update(
                id,
                Scope { parent: other.scopes@[id].parent, flagged: true },
            ),
        ensures
            j < other.scopes@.len() ==> self.spec_cancelled(j) == (other.spec_cancelled(j)
                || other.descends(j, id)),
        decreases j,
    {
        if 0 <= j < other.scopes@.len() {
            match self.scopes@[j].parent {
                Some(p) => if p < j {
                    self.lemma_cancel_effect(other, id, p as int);
                },
                None => (),
            }
        }
    }

    /// Observable cancellation check, usable at any suspension point.
    pub fn is_cancelled(&self, id: usize) -> (r: bool)
        requires
            self.wf(),
            id < self.scopes@.len(),
        ensures
            r == self.spec_cancelled(id as int),
    {
        let mut cur = id;
        loop
            invariant
                self.wf(),
                cur < self.scopes@.len(),
                self.spec_cancelled(id as int) == self.spec_cancelled(cur as int),
            decreases cur,
        {
            if self.scopes[cur].flagged {
                return true;
            }
            match self.scopes[cur].parent {
                Some(p) => {
                    cur = p;
                },
                None => {
                    return false;
                },
            }
        }
    }
}

} // verus!
