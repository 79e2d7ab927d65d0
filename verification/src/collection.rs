use vstd::prelude::*;
use vstd::arithmetic::div_mod::lemma_mod_self_0;
use vstd::arithmetic::div_mod::lemma_small_mod;
use vstd::arithmetic::div_mod::lemma_mod_bound;
use vstd::arithmetic::div_mod::lemma_add_mod_noop;

verus! {

/// An ordered sequence of items with at most one "selected" index.
///
/// The selection invariant ([`SelectableCollection::inv`]) says that
/// `selected` is `None` exactly when the collection is empty, and otherwise
/// names a valid index. Every mutating operation except [`Self::insert`]
/// (whose caller re-selects explicitly) re-establishes the invariant before
/// returning.
pub struct SelectableCollection<T> {
    pub items: Vec<T>,
    pub selected: Option<usize>,
}

/// The index that cyclic forward motion moves the selection to.
pub open spec fn next_index(sel: int, len: int) -> int {
    if sel + 1 >= len {
        0
    } else {
        sel + 1
    }
}

/// The index that cyclic backward motion moves the selection to.
pub open spec fn prev_index(sel: int, len: int) -> int {
    if sel == 0 {
        len - 1
    } else {
        sel - 1
    }
}

/// `next_index` applied `k` times, starting from `sel`.
pub open spec fn iterated_next(sel: int, len: int, k: nat) -> int
    decreases k,
{
    if k == 0 {
        sel
    } else {
        next_index(iterated_next(sel, len, (k - 1) as nat), len)
    }
}

proof fn lemma_iterated_next_is_mod(sel: int, len: int, k: nat)
    requires
        0 <= sel < len,
    ensures
        iterated_next(sel, len, k) == (sel + k) % len,
    decreases k,
{
    if k == 0 {
        lemma_small_mod(sel as nat, len as nat);
    } else {
        lemma_iterated_next_is_mod(sel, len, (k - 1) as nat);
        lemma_mod_bound(sel + k - 1, len);
        let prev = (sel + k - 1) % len;
        lemma_add_mod_noop(sel + k - 1, 1, len);
        lemma_small_mod(prev as nat, len as nat);
        assert((sel + k) % len == (prev + 1int % len) % len);
        if len == 1 {
            lemma_mod_self_0(len);
            lemma_small_mod(0nat, 1nat);
        } else {
            lemma_small_mod(1nat, len as nat);
            if prev + 1 == len {
                lemma_mod_self_0(len);
            } else {
                lemma_small_mod((prev + 1) as nat, len as nat);
            }
        }
    }
}

/// Cyclic navigation returns to its starting point: advancing the selection
/// as many times as the collection has items lands on the original index.
pub proof fn lemma_cyclic_next_returns(sel: int, len: int)
    requires
        0 <= sel < len,
    ensures
        iterated_next(sel, len, len as nat) == sel,
{
    lemma_iterated_next_is_mod(sel, len, len as nat);
    lemma_add_mod_noop(sel, len, len);
    lemma_mod_self_0(len);
    lemma_small_mod(sel as nat, len as nat);
}

/// The selection left behind when one item leaves a collection of length
/// `len` selected at `sel`: cleared when the collection empties, pulled back
/// by one when it would point past the new end, untouched otherwise.
pub open spec fn sel_after_remove(sel: Option<usize>, len: int) -> Option<usize> {
    if len <= 1 {
        Option::None
    } else if sel == Option::Some((len - 1) as usize) {
        Option::Some((len - 2) as usize)
    } else {
        sel
    }
}

impl<T> SelectableCollection<T> {
    /// The selection invariant: `selected` is `None` iff there are no items,
    /// and otherwise lies strictly below the length.
    pub open spec fn inv(self) -> bool {
        match self.selected {
            None => self.items@.len() == 0,
            Some(i) => i < self.items@.len(),
        }
    }

    pub fn new() -> (c: Self)
        ensures
            c.items@.len() == 0,
            c.selected is None,
            c.inv(),
    {
        SelectableCollection { items: Vec::new(), selected: None }
    }

    /// Builds a collection from a loaded sequence; the selection starts at
    /// the first item when there is one.
    pub fn from_items(items: Vec<T>) -> (c: Self)
        ensures
            c.items@ == items@,
            c.selected == (if items@.len() == 0 {
                Option::<usize>::None
            } else {
                Option::Some(0usize)
            }),
            c.inv(),
    {
        let selected: Option<usize> = if items.len() == 0 { None } else { Some(0) };
        SelectableCollection { items, selected }
    }

    pub fn len(&self) -> (n: usize)
        ensures
            n == self.items@.len(),
    {
        self.items.len()
    }

    pub fn is_empty(&self) -> (b: bool)
        ensures
            b == (self.items@.len() == 0),
    {
        self.items.len() == 0
    }

    pub fn get_selected_index(&self) -> (s: Option<usize>)
        ensures
            s == self.selected,
    {
        self.selected
    }

    /// Sets the selection verbatim. The caller must pass a value that keeps
    /// the selection invariant; this is used only with indices already known
    /// to be valid.
    pub fn select(&mut self, index: Option<usize>)
        requires
            match index {
                None => old(self).items@.len() == 0,
                Some(i) => i < old(self).items@.len(),
            },
        ensures
            final(self).items@ == old(self).items@,
            final(self).selected == index,
            final(self).inv(),
    {
        self.selected = index;
    }

    /// Appends an item; the first item ever pushed becomes selected.
    pub fn push(&mut self, item: T)
        requires
            old(self).inv(),
        ensures
            final(self).items@ == old(self).items@.push(item),
            final(self).selected == (if old(self).items@.len() == 0 {
                Option::Some(0usize)
            } else {
                old(self).selected
            }),
            final(self).inv(),
    {
        let was_empty = self.items.len() == 0;
        self.items.push(item);
        if was_empty {
            self.selected = Some(0);
        }
    }

    /// Inserts an item at `index` without touching the selection; callers
    /// re-select explicitly (this is the "replace in place" primitive:
    /// remove at `i`, insert at `i`, select `i`). Inserting into a non-empty
    /// collection keeps the selection invariant on its own.
    pub fn insert(&mut self, index: usize, item: T)
        requires
            index <= old(self).items@.len(),
        ensures
            final(self).items@ == old(self).items@.insert(index as int, item),
            final(self).selected == old(self).selected,
            old(self).inv() && old(self).items@.len() > 0 ==> final(self).inv(),
    {
        self.items.insert(index, item);
    }

    /// Removes and returns the item at `index`. The selection tracks a
    /// screen position, not item identity: it is cleared when the collection
    /// becomes empty, pulled back by one when it would now point one past
    /// the end, and left alone otherwise.
    pub fn remove(&mut self, index: usize) -> (item: T)
        requires
            old(self).inv(),
            index < old(self).items@.len(),
        ensures
            item == old(self).items@[index as int],
            final(self).items@ == old(self).items@.remove(index as int),
            final(self).selected == sel_after_remove(
                old(self).selected,
                old(self).items@.len() as int,
            ),
            final(self).inv(),
    {
        let item = self.items.remove(index);
        if self.items.len() == 0 {
            self.selected = None;
        } else {
            match self.selected {
                Some(s) => {
                    if s >= self.items.len() {
                        self.selected = Some(s - 1);
                    }
                },
                None => {},
            }
        }
        item
    }

    /// Exchanges the items at `i` and `j` in place, leaving the selection
    /// where it was; the selection follows a moved item only when its slot
    /// was the selected one.
    pub fn swap(&mut self, i: usize, j: usize)
        requires
            old(self).inv(),
            i < old(self).items@.len(),
            j < old(self).items@.len(),
        ensures
            final(self).items@ == old(self).items@.update(i as int, old(self).items@[j as int]).update(
                j as int,
                old(self).items@[i as int],
            ),
            final(self).selected == old(self).selected,
            final(self).inv(),
    {
        let ghost s0 = self.items@;
        if i != j {
            let (lo, hi) = if i < j { (i, j) } else { (j, i) };
            let hi_item = self.items.remove(hi);
            let lo_item = self.items.remove(lo);
            self.items.insert(lo, hi_item);
            self.items.insert(hi, lo_item);
            proof {
                let target = s0.update(i as int, s0[j as int]).update(j as int, s0[i as int]);
                assert(self.items@ =~= target);
            }
        } else {
            proof {
                let target = s0.update(i as int, s0[j as int]).update(j as int, s0[i as int]);
                assert(self.items@ =~= target);
            }
        }
    }

    /// Cyclic forward motion: a no-op on an empty collection, otherwise the
    /// selection advances by one and wraps to the first index past the end.
    pub fn move_next(&mut self)
        requires
            old(self).inv(),
        ensures
            final(self).items@ == old(self).items@,
            final(self).inv(),
            old(self).items@.len() == 0 ==> final(self).selected == old(self).selected,
            old(self).items@.len() > 0 ==> final(self).selected == Option::Some(
                next_index(old(self).selected->Some_0 as int, old(self).items@.len() as int) as usize,
            ),
    {
        if self.items.len() > 0 {
            let i = match self.selected {
                Some(i) => {
                    if i >= self.items.len() - 1 {
                        0
                    } else {
                        i + 1
                    }
                },
                None => 0,
            };
            self.selected = Some(i);
        }
    }

    /// Cyclic backward motion: a no-op on an empty collection, otherwise the
    /// selection steps back by one and wraps to the last index at the front.
    pub fn move_prev(&mut self)
        requires
            old(self).inv(),
        ensures
            final(self).items@ == old(self).items@,
            final(self).inv(),
            old(self).items@.len() == 0 ==> final(self).selected == old(self).selected,
            old(self).items@.len() > 0 ==> final(self).selected == Option::Some(
                prev_index(old(self).selected->Some_0 as int, old(self).items@.len() as int) as usize,
            ),
    {
        if self.items.len() > 0 {
            let i = match self.selected {
                Some(i) => {
                    if i == 0 {
                        self.items.len() - 1
                    } else {
                        i - 1
                    }
                },
                None => self.items.len() - 1,
            };
            self.selected = Some(i);
        }
    }

    /// Moves the selection to the first item; takes effect only when
    /// something is selected (so it is a no-op on an empty collection).
    pub fn jump_to_top(&mut self)
        requires
            old(self).inv(),
        ensures
            final(self).items@ == old(self).items@,
            final(self).inv(),
            final(self).selected == (if old(self).selected is Some {
                Option::Some(0usize)
            } else {
                old(self).selected
            }),
    {
        if self.selected.is_some() {
            self.selected = Some(0);
        }
    }

    /// Moves the selection to the last item; takes effect only when
    /// something is selected (so it is a no-op on an empty collection).
    pub fn jump_to_bottom(&mut self)
        requires
            old(self).inv(),
        ensures
            final(self).items@ == old(self).items@,
            final(self).inv(),
            final(self).selected == (if old(self).selected is Some {
                Option::Some((old(self).items@.len() - 1) as usize)
            } else {
                old(self).selected
            }),
    {
        if self.selected.is_some() {
            self.selected = Some(self.items.len() - 1);
        }
    }
}

} // verus!
