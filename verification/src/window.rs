//! Windows of up to five neighbouring positions in a list, visited in
//! order: each window holds the current position, the one before it (where
//! there is one) and up to three after it.

use vstd::prelude::*;

verus! {

/// A window of positions around a current one.
#[derive(Clone, Copy, Debug)]
pub enum Quintuple<T> {
    /// The only item of a one-item list.
    Single(T),
    /// The first of two items: current, next.
    Double(T, T),
    /// The first of three items: current, then two more.
    Triple(T, T, T),
    /// The first of four or more items: current, then three more.
    First(T, T, T, T),
    /// previous, current, then three more.
    Full(T, T, T, T, T),
    /// previous, current, then two more (the last ones).
    ThreeLeft(T, T, T, T),
    /// previous, current, then the last one.
    TwoLeft(T, T, T),
    /// previous, and the current one, which is the last.
    Last(T, T),
}

/// The window at position `t` of a list of `n` items, as
/// (previous, current, next, next but one, next but two).
pub open spec fn window_at(n: nat, t: nat) -> Option<Quintuple<usize>> {
    if t >= n {
        None
    } else if t == 0 {
        if n == 1 {
            Some(Quintuple::Single(0))
        } else if n == 2 {
            Some(Quintuple::Double(0, 1))
        } else if n == 3 {
            Some(Quintuple::Triple(0, 1, 2))
        } else {
            Some(Quintuple::First(0, 1, 2, 3))
        }
    } else {
        let p = (t - 1) as usize;
        if t + 3 < n {
            Some(Quintuple::Full(p, t as usize, (t + 1) as usize, (t + 2) as usize, (t + 3) as usize))
        } else if t + 3 == n {
            Some(Quintuple::ThreeLeft(p, t as usize, (t + 1) as usize, (t + 2) as usize))
        } else if t + 2 == n {
            Some(Quintuple::TwoLeft(p, t as usize, (t + 1) as usize))
        } else {
            Some(Quintuple::Last(p, t as usize))
        }
    }
}

/// A walk over the windows of a list of `len` items.
pub struct IterQuintMut {
    pub len: usize,
    pub target: usize,
}

impl IterQuintMut {
    /// A walk over a list of `len` items, from its first item.
    pub fn new(len: usize) -> (r: IterQuintMut)
        ensures
            r.len == len,
            r.target == 0,
    {
        IterQuintMut { len, target: 0 }
    }

    /// The next window, or `None` once every item has been current.
    pub fn next(&mut self) -> (r: Option<Quintuple<usize>>)
        requires
            old(self).target <= old(self).len,
        ensures
            r == window_at(old(self).len as nat, old(self).target as nat),
            final(self).len == old(self).len,
            final(self).target == if old(self).target < old(self).len {
                old(self).target + 1
            } else {
                old(self).target as int
            },
    {
        let n = self.len;
        let t = self.target;
        if t >= n {
            return None;
        }
        self.target = t + 1;
        if t == 0 {
            if n == 1 {
                Some(Quintuple::Single(0))
            } else if n == 2 {
                Some(Quintuple::Double(0, 1))
            } else if n == 3 {
                Some(Quintuple::Triple(0, 1, 2))
            } else {
                Some(Quintuple::First(0, 1, 2, 3))
            }
        } else if n - t > 3 {
            Some(Quintuple::Full(t - 1, t, t + 1, t + 2, t + 3))
        } else if n - t == 3 {
            Some(Quintuple::ThreeLeft(t - 1, t, t + 1, t + 2))
        } else if n - t == 2 {
            Some(Quintuple::TwoLeft(t - 1, t, t + 1))
        } else {
            Some(Quintuple::Last(t - 1, t))
        }
    }
}

} // verus!

verus! {

/// The current position of a window.
pub open spec fn current_of(q: Quintuple<usize>) -> usize {
    match q {
        Quintuple::Single(c) => c,
        Quintuple::Double(c, _) => c,
        Quintuple::Triple(c, _, _) => c,
        Quintuple::First(c, _, _, _) => c,
        Quintuple::Full(_, c, _, _, _) => c,
        Quintuple::ThreeLeft(_, c, _, _) => c,
        Quintuple::TwoLeft(_, c, _) => c,
        Quintuple::Last(_, c) => c,
    }
}

/// A walk makes every position current once, in order, and then ends:
/// the window at step `t` has current position `t` while `t` is below the
/// length, and there is none after.
pub proof fn lemma_window_visits_in_order(n: nat, t: nat)
    requires
        n <= usize::MAX,
    ensures
        t < n ==> window_at(n, t) is Some && current_of(window_at(n, t).unwrap()) == t,
        t >= n ==> window_at(n, t) is None,
{
}

} // verus!

verus! {

/// Lists that can be walked window by window.
pub trait IterQuintMutTrait {
    /// The number of items.
    spec fn item_count(&self) -> nat;

    /// A walk over all items.
    fn iter_quint_mut(&mut self) -> (r: IterQuintMut)
        ensures
            r.len == old(self).item_count(),
            r.target == 0,
            final(self).item_count() == old(self).item_count(),
    ;

    /// A walk over the items from `start` to `end`, numbered from 0.
    fn iter_quint_mut_range(&mut self, start: usize, end: usize) -> (r: IterQuintMut)
        requires
            start <= end <= old(self).item_count(),
        ensures
            r.len == end - start,
            r.target == 0,
            final(self).item_count() == old(self).item_count(),
    ;
}

impl IterQuintMutTrait for crate::njd::NJD {
    open spec fn item_count(&self) -> nat {
        self.nodes@.len()
    }

    fn iter_quint_mut(&mut self) -> (r: IterQuintMut) {
        IterQuintMut::new(self.nodes.len())
    }

    fn iter_quint_mut_range(&mut self, start: usize, end: usize) -> (r: IterQuintMut) {
        IterQuintMut::new(end - start)
    }
}

} // verus!
