//! Iterators over an item list with one position left out or substituted.
//!
//! The generators walk the list of per-slot generic parameters many times:
//! once leaving out the slot an implementation is about (its parameter gets
//! its own, stronger bound), and once substituting a marker for it (the
//! transformed shape an operation produces).  These two iterators perform
//! those walks.

use vstd::prelude::*;

verus! {

/// `s` with position `i` left out; `s` unchanged when `i` is out of range.
pub open spec fn seq_without<T>(s: Seq<T>, i: int) -> Seq<T> {
    if 0 <= i < s.len() {
        s.remove(i)
    } else {
        s
    }
}

/// `s` with position `i` replaced by `x`; `s` unchanged when `i` is out of
/// range.
pub open spec fn seq_replaced<T>(s: Seq<T>, i: int, x: T) -> Seq<T> {
    if 0 <= i < s.len() {
        s.update(i, x)
    } else {
        s
    }
}

/// Yields the items of a list in order, leaving out the item at one position.
pub struct IgnoreIter<'a, T> {
    items: &'a Vec<T>,
    pos: usize,
    ignore: usize,
}

impl<'a, T> IgnoreIter<'a, T> {
    /// The underlying list.
    pub closed spec fn spec_items(self) -> Seq<T> {
        self.items@
    }

    /// The position being left out.
    pub closed spec fn spec_ignore(self) -> int {
        self.ignore as int
    }

    /// What the iterator yields from start to finish.
    pub open spec fn spec_yield(self) -> Seq<T> {
        seq_without(self.spec_items(), self.spec_ignore())
    }

    /// How many items have been yielded so far.
    pub closed spec fn done(self) -> int {
        if self.pos <= self.ignore {
            self.pos as int
        } else {
            self.pos - 1
        }
    }

    /// The iterator's bookkeeping is consistent.
    pub closed spec fn wf(self) -> bool {
        self.pos <= self.items@.len()
    }

    /// An iterator over `items` that will leave out position `idx`.
    pub fn new(items: &'a Vec<T>, idx: usize) -> (r: Self)
        ensures
            r.wf(),
            r.spec_items() == items@,
            r.spec_ignore() == idx as int,
            r.done() == 0,
    {
        IgnoreIter { items, pos: 0, ignore: idx }
    }

    /// The next item not left out, in order.
    pub fn next(&mut self) -> (r: Option<&'a T>)
        requires
            old(self).wf(),
        ensures
            final(self).wf(),
            final(self).spec_items() == old(self).spec_items(),
            final(self).spec_ignore() == old(self).spec_ignore(),
            ({
                let ys = old(self).spec_yield();
                let k = old(self).done();
                if k < ys.len() {
                    r matches Some(x) && *x == ys[k] && final(self).done() == k + 1
                } else {
                    r is None && final(self).done() == k
                }
            }),
    {
        if self.pos == self.ignore && self.pos < self.items.len() {
            self.pos = self.pos + 1;
        }
        if self.pos < self.items.len() {
            let r = &self.items[self.pos];
            self.pos = self.pos + 1;
            Some(r)
        } else {
            None
        }
    }
}

/// Yields the items of a list in order, substituting a given item at one
/// position.
pub struct ReplaceIter<'a, T> {
    items: &'a Vec<T>,
    pos: usize,
    replace: usize,
    item: &'a T,
}

impl<'a, T> ReplaceIter<'a, T> {
    /// The underlying list.
    pub closed spec fn spec_items(self) -> Seq<T> {
        self.items@
    }

    /// The position being substituted.
    pub closed spec fn spec_replace(self) -> int {
        self.replace as int
    }

    /// The substitute item.
    pub closed spec fn spec_item(self) -> T {
        *self.item
    }

    /// What the iterator yields from start to finish.
    pub open spec fn spec_yield(self) -> Seq<T> {
        seq_replaced(self.spec_items(), self.spec_replace(), self.spec_item())
    }

    /// How many items have been yielded so far.
    pub closed spec fn done(self) -> int {
        self.pos as int
    }

    /// The iterator's bookkeeping is consistent.
    pub closed spec fn wf(self) -> bool {
        self.pos <= self.items@.len()
    }

    /// An iterator over `items` that will substitute `item` at position
    /// `idx`.
    pub fn new(items: &'a Vec<T>, idx: usize, item: &'a T) -> (r: Self)
        ensures
            r.wf(),
            r.spec_items() == items@,
            r.spec_replace() == idx as int,
            r.spec_item() == *item,
            r.done() == 0,
    {
        ReplaceIter { items, pos: 0, replace: idx, item }
    }

    /// The next item, with the substitute in place of the item at the chosen
    /// position.
    pub fn next(&mut self) -> (r: Option<&'a T>)
        requires
            old(self).wf(),
        ensures
            final(self).wf(),
            final(self).spec_items() == old(self).spec_items(),
            final(self).spec_replace() == old(self).spec_replace(),
            final(self).spec_item() == old(self).spec_item(),
            ({
                let ys = old(self).spec_yield();
                let k = old(self).done();
                if k < ys.len() {
                    r matches Some(x) && *x == ys[k] && final(self).done() == k + 1
                } else {
                    r is None && final(self).done() == k
                }
            }),
    {
        if self.pos < self.items.len() {
            let r = if self.pos == self.replace {
                self.item
            } else {
                &self.items[self.pos]
            };
            self.pos = self.pos + 1;
            Some(r)
        } else {
            None
        }
    }
}

} // verus!
