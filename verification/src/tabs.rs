//! Circular tab selector over a fixed, ordered list of named views.

use vstd::prelude::*;
use vstd::arithmetic::div_mod::{
    lemma_add_mod_noop, lemma_mod_add_multiples_vanish, lemma_mod_multiples_vanish,
    lemma_small_mod,
};
use vstd::arithmetic::mul::lemma_mul_is_distributive_sub_other_way;

verus! {

/// Index reached from `i` by one forward step among `n` tabs: wraps to 0
/// after the last tab.
pub open spec fn next_index(i: int, n: int) -> int {
    (i + 1) % n
}

/// Index reached from `i` by one backward step among `n` tabs: wraps to
/// `n - 1` from the first tab.
pub open spec fn prev_index(i: int, n: int) -> int {
    if i == 0 {
        n - 1
    } else {
        i - 1
    }
}

/// Index reached from `i` by `k` forward steps.
pub open spec fn next_iter(i: int, n: int, k: nat) -> int
    decreases k,
{
    if k == 0 {
        i
    } else {
        next_index(next_iter(i, n, (k - 1) as nat), n)
    }
}

/// Index reached from `i` by `k` backward steps.
pub open spec fn prev_iter(i: int, n: int, k: nat) -> int
    decreases k,
{
    if k == 0 {
        i
    } else {
        prev_index(prev_iter(i, n, (k - 1) as nat), n)
    }
}

/// One of the named views the selector ranges over.
pub struct Tab {
    pub title: String,
    pub content: String,
}

/// Ordered, fixed list of view names together with the selected position.
pub struct TabsState {
    pub titles: Vec<String>,
    pub index: usize,
}

impl TabsState {
    /// There is at least one view and the selected position points at one.
    pub open spec fn wf(&self) -> bool {
        0 < self.titles@.len() && (self.index as int) < self.titles@.len()
    }

    pub fn new(titles: Vec<String>) -> (r: TabsState)
        requires
            titles@.len() > 0,
        ensures
            r.wf(),
            r.titles@ == titles@,
            r.index == 0,
    {
        TabsState { titles, index: 0 }
    }

    /// Advances to the following view, wrapping past the last one.
    pub fn next(&mut self)
        requires
            old(self).wf(),
        ensures
            final(self).wf(),
            final(self).titles@ == old(self).titles@,
            final(self).index == next_index(old(self).index as int, old(self).titles@.len() as int),
    {
        let n: usize = self.titles.len();
        self.index = (self.index + 1) % n;
    }

    /// Moves to the preceding view, wrapping to the last one from the first.
    pub fn previous(&mut self)
        requires
            old(self).wf(),
        ensures
            final(self).wf(),
            final(self).titles@ == old(self).titles@,
            final(self).index == prev_index(old(self).index as int, old(self).titles@.len() as int),
    {
        if self.index > 0 {
            self.index = self.index - 1;
        } else {
            self.index = self.titles.len() - 1;
        }
    }

    /// Selects the view at ordinal `i` when it exists; an out-of-range
    /// ordinal leaves the selection unchanged.
    pub fn select(&mut self, i: usize)
        requires
            old(self).wf(),
        ensures
            final(self).wf(),
            final(self).titles@ == old(self).titles@,
            final(self).index == if (i as int) < old(self).titles@.len() {
                i as int
            } else {
                old(self).index as int
            },
    {
        if i < self.titles.len() {
            self.index = i;
        }
    }
}

/// `k` forward steps from `i` land on `(i + k) % n`.
proof fn lemma_next_iter_mod(i: int, n: int, k: nat)
    requires
        0 <= i < n,
    ensures
        next_iter(i, n, k) == (i + k) % n,
    decreases k,
{
    if k == 0 {
        lemma_small_mod(i as nat, n as nat);
    } else {
        lemma_next_iter_mod(i, n, (k - 1) as nat);
        lemma_add_mod_noop(i + k - 1, 1, n);
        if n == 1 {
            lemma_small_mod(0, 1);
        } else {
            lemma_small_mod(1, n as nat);
        }
        lemma_small_mod(((i + k - 1) % n) as nat, n as nat);
    }
}

/// One backward step is the same as adding `n - 1` modulo `n`.
proof fn lemma_prev_index_mod(i: int, n: int)
    requires
        0 <= i < n,
    ensures
        prev_index(i, n) == (i + n - 1) % n,
{
    if i == 0 {
        lemma_small_mod((n - 1) as nat, n as nat);
    } else {
        lemma_mod_add_multiples_vanish(i - 1, n);
        lemma_small_mod((i - 1) as nat, n as nat);
    }
}

/// `k` backward steps from `i` land on `(i + k * (n - 1)) % n`.
proof fn lemma_prev_iter_mod(i: int, n: int, k: nat)
    requires
        0 <= i < n,
    ensures
        prev_iter(i, n, k) == (i + k * (n - 1)) % n,
        0 <= prev_iter(i, n, k) < n,
    decreases k,
{
    if k == 0 {
        lemma_small_mod(i as nat, n as nat);
    } else {
        lemma_prev_iter_mod(i, n, (k - 1) as nat);
        let p = prev_iter(i, n, (k - 1) as nat);
        lemma_prev_index_mod(p, n);
        lemma_add_mod_noop(i + (k - 1) * (n - 1), n - 1, n);
        lemma_small_mod(p as nat, n as nat);
        lemma_small_mod((n - 1) as nat, n as nat);
        assert(k * (n - 1) == (k - 1) * (n - 1) + (n - 1)) by {
            lemma_mul_is_distributive_sub_other_way(n - 1, k as int, 1);
        }
    }
}

/// Taking one forward step per view returns the selector to where it began:
/// `next` applied `n` times over `n` tabs is the identity on the index.
pub proof fn lemma_next_full_cycle(i: int, n: int)
    requires
        0 <= i < n,
    ensures
        next_iter(i, n, n as nat) == i,
{
    lemma_next_iter_mod(i, n, n as nat);
    lemma_mod_add_multiples_vanish(i, n);
    lemma_small_mod(i as nat, n as nat);
}

/// Taking one backward step per view returns the selector to where it began:
/// `previous` applied `n` times over `n` tabs is the identity on the index.
pub proof fn lemma_prev_full_cycle(i: int, n: int)
    requires
        0 <= i < n,
    ensures
        prev_iter(i, n, n as nat) == i,
{
    lemma_prev_iter_mod(i, n, n as nat);
    lemma_mod_multiples_vanish(n - 1, i, n);
    lemma_small_mod(i as nat, n as nat);
}

} // verus!
