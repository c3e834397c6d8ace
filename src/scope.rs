use vstd::prelude::*;

verus! {

/// The error of creating a scope or a task under a scope that was already aborted.
#[derive(Clone, Copy, Debug, PartialEq, Eq, Structural)]
pub struct AbortedError;

/// A tree of cancellation scopes, rooted at the daemon's scope (index 0), with the
/// background tasks registered under each. Aborting a scope aborts every scope below
/// it and stops their tasks; it is idempotent.
#[derive(Debug)]
pub struct ScopeTree {
    parents: Vec<usize>,
    aborted: Vec<bool>,
    task_scopes: Vec<usize>,
}

impl ScopeTree {
    pub closed spec fn wf(&self) -> bool {
        &&& self.parents@.len() == self.aborted@.len()
        &&& self.parents@.len() >= 1
        &&& self.parents@[0] == 0
        &&& forall|i: int| 0 < i < self.parents@.len() ==> #[trigger] self.parents@[i] < i
        &&& forall|t: int| 0 <= t < self.task_scopes@.len() ==> #[trigger] self.task_scopes@[t] < self.parents@.len()
    }

    /// How many scopes there are; they are numbered from 0, the root.
    pub closed spec fn num_scopes(&self) -> nat {
        self.parents@.len()
    }

    /// The scope directly above `s`; the root is its own parent.
    pub closed spec fn parent_spec(&self, s: int) -> int {
        self.parents@[s] as int
    }

    /// How many tasks were spawned; they are numbered from 0.
    pub closed spec fn num_tasks(&self) -> nat {
        self.task_scopes@.len()
    }

    /// The scope that a task was spawned under.
    pub closed spec fn task_scope(&self, t: int) -> int {
        self.task_scopes@[t] as int
    }

    /// `s` is `anc` or lies below it.
    pub closed spec fn descends(&self, s: int, anc: int) -> bool
        decreases s,
    {
        if s == anc {
            true
        } else if 0 < s < self.parents@.len() && self.parents@[s] < s {
            self.descends(self.parents@[s] as int, anc)
        } else {
            false
        }
    }

    /// The scope, or one above it, was aborted.
    pub closed spec fn is_aborted_spec(&self, s: int) -> bool
        decreases s,
    {
        if 0 <= s < self.aborted@.len() && self.aborted@[s] {
            true
        } else if 0 < s < self.parents@.len() && self.parents@[s] < s {
            self.is_aborted_spec(self.parents@[s] as int)
        } else {
            false
        }
    }

    /// A task runs until its scope is aborted.
    pub open spec fn task_running(&self, t: int) -> bool {
        !self.is_aborted_spec(self.task_scope(t))
    }

    /// `new` is `old` with one more scope, `s`, running directly below `parent`; nothing
    /// else changed.
    pub open spec fn child_created(old: ScopeTree, parent: int, s: int, new: ScopeTree) -> bool {
        &&& s == old.num_scopes() && new.num_scopes() == s + 1
        &&& new.num_tasks() == old.num_tasks()
        &&& !new.is_aborted_spec(s)
        &&& new.parent_spec(s) == parent
        &&& new.descends(s, parent)
        &&& forall|x: int| 0 <= x < old.num_scopes() ==> (#[trigger] new.is_aborted_spec(x) == old.is_aborted_spec(x))
        &&& forall|x: int| 0 <= x < old.num_scopes() ==> (#[trigger] new.parent_spec(x) == old.parent_spec(x))
        &&& forall|x: int, a: int| 0 <= x < old.num_scopes() ==> (#[trigger] new.descends(x, a) == old.descends(x, a))
        &&& forall|t: int| 0 <= t < old.num_tasks() ==> #[trigger] new.task_scope(t) == old.task_scope(t)
    }

    /// `new` is `old` after aborting `s`: the scopes at or below `s` are aborted, and
    /// nothing else changed.
    pub open spec fn aborted_from(old: ScopeTree, s: int, new: ScopeTree) -> bool {
        &&& new.wf()
        &&& new.num_scopes() == old.num_scopes()
        &&& new.num_tasks() == old.num_tasks()
        &&& forall|t: int| 0 <= t < old.num_tasks() ==> #[trigger] new.task_scope(t) == old.task_scope(t)
        &&& forall|x: int| 0 <= x < old.num_scopes() ==> #[trigger] new.parent_spec(x) == old.parent_spec(x)
        &&& forall|x: int, a: int| #[trigger] new.descends(x, a) == old.descends(x, a)
        &&& forall|x: int| 0 <= x < old.num_scopes() ==>
            (#[trigger] new.is_aborted_spec(x) == (old.is_aborted_spec(x) || old.descends(x, s)))
    }

    /// A tree with only the root scope, which is running.
    pub fn new() -> (r: ScopeTree)
        ensures
            r.wf(),
            r.num_scopes() == 1,
            r.num_tasks() == 0,
            !r.is_aborted_spec(0),
    {
        let r = ScopeTree { parents: vec![0], aborted: vec![false], task_scopes: Vec::new() };
        assert(r.parents@[0] == 0);
        r
    }

    /// The index of the root scope.
    pub fn root(&self) -> (r: usize)
        requires
            self.wf(),
        ensures
            r == 0,
            r < self.num_scopes(),
    {
        0
    }

    /// Whether the scope, or one above it, was aborted.
    pub fn is_aborted(&self, s: usize) -> (r: bool)
        requires
            self.wf(),
            s < self.num_scopes(),
        ensures
            r == self.is_aborted_spec(s as int),
    {
        let mut cur: usize = s;
        while cur > 0
            invariant
                self.wf(),
                cur < self.parents@.len(),
                self.is_aborted_spec(s as int) == self.is_aborted_spec(cur as int),
            decreases cur,
        {
            if self.aborted[cur] {
                return true;
            }
            cur = self.parents[cur];
        }
        self.aborted[0]
    }

    /// Whether a task is still running.
    pub fn is_task_running(&self, t: usize) -> (r: bool)
        requires
            self.wf(),
            t < self.num_tasks(),
        ensures
            r == self.task_running(t as int),
    {
        !self.is_aborted(self.task_scopes[t])
    }

    /// A new scope below `parent`, unless `parent` was aborted.
    pub fn create_subsystem(&mut self, parent: usize) -> (r: Result<usize, AbortedError>)
        requires
            old(self).wf(),
            parent < old(self).num_scopes(),
        ensures
            final(self).wf(),
            r is Err <==> old(self).is_aborted_spec(parent as int),
            r is Err ==> *final(self) == *old(self),
            r matches Ok(s) ==> Self::child_created(*old(self), parent as int, s as int, *final(self)),
    {
        if self.is_aborted(parent) {
            return Err(AbortedError);
        }
        let s = self.parents.len();
        self.parents.push(parent);
        self.aborted.push(false);
        proof {
            assert forall|x: int| 0 <= x < old(self).num_scopes() implies
                #[trigger] self.is_aborted_spec(x) == old(self).is_aborted_spec(x) by {
                self.lemma_prefix_aborted(*old(self), x);
            }
            assert forall|x: int, a: int| 0 <= x < old(self).num_scopes() implies
                #[trigger] self.descends(x, a) == old(self).descends(x, a) by {
                self.lemma_prefix_descends(*old(self), x, a);
            }
            assert(self.parents@[s as int] == parent);
            assert(self.descends(parent as int, parent as int));
            assert(self.descends(s as int, parent as int));
            assert(!self.is_aborted_spec(parent as int));
            assert(!self.aborted@[s as int]);
            assert(!self.is_aborted_spec(s as int));
            assert(self.wf());
            assert(self.parent_spec(s as int) == parent);
        }
        Ok(s)
    }

    /// Registers a background task under a scope that is running.
    pub fn spawn(&mut self, scope: usize) -> (r: Result<usize, AbortedError>)
        requires
            old(self).wf(),
            scope < old(self).num_scopes(),
        ensures
            final(self).wf(),
            r is Err <==> old(self).is_aborted_spec(scope as int),
            r is Err ==> *final(self) == *old(self),
            r matches Ok(t) ==> t == old(self).num_tasks() && final(self).num_tasks() == t + 1
                && final(self).task_scope(t as int) == scope
                && final(self).num_scopes() == old(self).num_scopes()
                && (forall|x: int| #[trigger] final(self).is_aborted_spec(x) == old(self).is_aborted_spec(x))
                && (forall|x: int, a: int| #[trigger] final(self).descends(x, a) == old(self).descends(x, a))
                && (forall|u: int| 0 <= u < old(self).num_tasks() ==>
                    #[trigger] final(self).task_scope(u) == old(self).task_scope(u)),
    {
        if self.is_aborted(scope) {
            return Err(AbortedError);
        }
        let t = self.task_scopes.len();
        self.task_scopes.push(scope);
        proof {
            assert forall|x: int| #[trigger] self.is_aborted_spec(x) == old(self).is_aborted_spec(x) by {
                self.lemma_same_tree_aborted(*old(self), x);
            }
            assert forall|x: int, a: int| #[trigger] self.descends(x, a) == old(self).descends(x, a) by {
                self.lemma_same_tree_descends(*old(self), x, a);
            }
        }
        Ok(t)
    }

    /// Aborts a scope, and with it every scope below it and their tasks.
    pub fn abort(&mut self, s: usize)
        requires
            old(self).wf(),
            s < old(self).num_scopes(),
        ensures
            Self::aborted_from(*old(self), s as int, *final(self)),
    {
        self.aborted.set(s, true);
        proof {
            assert forall|x: int, a: int| #[trigger] self.descends(x, a) == old(self).descends(x, a) by {
                self.lemma_same_tree_descends(*old(self), x, a);
            }
            assert forall|x: int| 0 <= x < old(self).num_scopes() implies
                (#[trigger] self.is_aborted_spec(x) == (old(self).is_aborted_spec(x) || old(self).descends(x, s as int))) by {
                self.lemma_abort_effect(*old(self), s as int, x);
            }
        }
    }

    proof fn lemma_prefix_aborted(&self, old_tree: ScopeTree, x: int)
        requires
            old_tree.wf(),
            self.parents@.len() >= old_tree.parents@.len(),
            self.aborted@.len() >= old_tree.aborted@.len(),
            forall|i: int| 0 <= i < old_tree.parents@.len() ==> self.parents@[i] == old_tree.parents@[i],
            forall|i: int| 0 <= i < old_tree.aborted@.len() ==> self.aborted@[i] == old_tree.aborted@[i],
            0 <= x < old_tree.parents@.len(),
        ensures
            self.is_aborted_spec(x) == old_tree.is_aborted_spec(x),
        decreases x,
    {
        if x > 0 {
            self.lemma_prefix_aborted(old_tree, old_tree.parents@[x] as int);
        }
    }

    proof fn lemma_prefix_descends(&self, old_tree: ScopeTree, x: int, a: int)
        requires
            old_tree.wf(),
            self.parents@.len() >= old_tree.parents@.len(),
            forall|i: int| 0 <= i < old_tree.parents@.len() ==> self.parents@[i] == old_tree.parents@[i],
            0 <= x < old_tree.parents@.len(),
        ensures
            self.descends(x, a) == old_tree.descends(x, a),
        decreases x,
    {
        if x > 0 && x != a {
            self.lemma_prefix_descends(old_tree, old_tree.parents@[x] as int, a);
        }
    }

    proof fn lemma_same_tree_aborted(&self, old_tree: ScopeTree, x: int)
        requires
            self.parents@ == old_tree.parents@,
            self.aborted@ == old_tree.aborted@,
        ensures
            self.is_aborted_spec(x) == old_tree.is_aborted_spec(x),
        decreases x,
    {
        if 0 < x < self.parents@.len() && self.parents@[x] < x {
            self.lemma_same_tree_aborted(old_tree, self.parents@[x] as int);
        }
    }

    proof fn lemma_same_tree_descends(&self, old_tree: ScopeTree, x: int, a: int)
        requires
            self.parents@ == old_tree.parents@,
        ensures
            self.descends(x, a) == old_tree.descends(x, a),
        decreases x,
    {
        if x != a && 0 < x < self.parents@.len() && self.parents@[x] < x {
            self.lemma_same_tree_descends(old_tree, self.parents@[x] as int, a);
        }
    }

    proof fn lemma_abort_effect(&self, old_tree: ScopeTree, s: int, x: int)
        requires
            old_tree.wf(),
            self.parents@ == old_tree.parents@,
            self.aborted@ == old_tree.aborted@.update(s, true),
            0 <= s < old_tree.parents@.len(),
            0 <= x < old_tree.parents@.len(),
        ensures
            self.is_aborted_spec(x) == (old_tree.is_aborted_spec(x) || old_tree.descends(x, s)),
        decreases x,
    {
        if x > 0 {
            self.lemma_abort_effect(old_tree, s, old_tree.parents@[x] as int);
        }
    }
}


/// Scopes made directly below the root are independent: aborting one of them leaves the
/// tasks of the other running.
pub proof fn lemma_sibling_abort_keeps_tasks(before: ScopeTree, t: int, after: ScopeTree, task: int)
    requires
        before.wf(),
        0 < t < before.num_scopes(),
        before.parent_spec(t) == 0,
        0 <= task < before.num_tasks(),
        before.task_scope(task) != t,
        0 < before.task_scope(task),
        before.parent_spec(before.task_scope(task)) == 0,
        ScopeTree::aborted_from(before, t, after),
    ensures
        after.task_running(task) == before.task_running(task),
{
    let p = before.task_scope(task);
    before.lemma_root_child_not_below(p, t);
}

/// Aborting the root, as a shutdown of the daemon does, stops every task.
pub proof fn lemma_root_abort_stops_all(before: ScopeTree, after: ScopeTree, task: int)
    requires
        before.wf(),
        0 <= task < before.num_tasks(),
        ScopeTree::aborted_from(before, 0, after),
    ensures
        !after.task_running(task),
{
    before.lemma_descends_root(before.task_scope(task));
}

impl ScopeTree {
    proof fn lemma_root_child_not_below(&self, p: int, t: int)
        requires
            self.wf(),
            0 < p < self.num_scopes(),
            0 < t < self.num_scopes(),
            p != t,
            self.parent_spec(p) == 0,
        ensures
            !self.descends(p, t),
    {
        assert(!self.descends(0, t));
    }

    proof fn lemma_descends_root(&self, x: int)
        requires
            self.wf(),
            0 <= x < self.num_scopes(),
        ensures
            self.descends(x, 0),
        decreases x,
    {
        if x > 0 {
            self.lemma_descends_root(self.parents@[x] as int);
        }
    }
}

} // verus!
