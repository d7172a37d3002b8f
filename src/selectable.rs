//! A list of entries with an optional cursor that wraps around at both ends.

use vstd::arithmetic::div_mod::{
    lemma_add_mod_noop_right, lemma_mod_add_multiples_vanish, lemma_mod_bound, lemma_mod_self_0, lemma_small_mod,
};
use vstd::prelude::*;

verus! {

/// A cursor fits a list of `n` entries: it is absent exactly when the list is
/// empty, and otherwise points at an entry.
pub open spec fn cursor_fits(c: Option<nat>, n: nat) -> bool {
    match c {
        None => n == 0,
        Some(i) => i < n,
    }
}

/// The cursor after one step forward in a list of `n` entries.
pub open spec fn advanced(c: Option<nat>, n: nat) -> Option<nat> {
    match c {
        None => None,
        Some(i) => Some((((i + 1) as int) % (n as int)) as nat),
    }
}

/// The cursor after one step backward in a list of `n` entries.
pub open spec fn retreated(c: Option<nat>, n: nat) -> Option<nat> {
    match c {
        None => None,
        Some(i) => Some(((i + n - 1) % (n as int)) as nat),
    }
}

/// The cursor that a freshly filled list of `n` entries starts with.
pub open spec fn default_cursor(n: nat) -> Option<nat> {
    if n == 0 {
        None
    } else {
        Some(0)
    }
}

/// The cursor after `k` steps forward.
pub open spec fn advanced_times(c: Option<nat>, n: nat, k: nat) -> Option<nat>
    decreases k,
{
    if k == 0 {
        c
    } else {
        advanced(advanced_times(c, n, (k - 1) as nat), n)
    }
}

/// The cursor after `k` steps backward.
pub open spec fn retreated_times(c: Option<nat>, n: nat, k: nat) -> Option<nat>
    decreases k,
{
    if k == 0 {
        c
    } else {
        retreated(retreated_times(c, n, (k - 1) as nat), n)
    }
}

proof fn lemma_advanced_times_mod(i: nat, n: nat, k: nat)
    requires
        i < n,
    ensures
        advanced_times(Some(i), n, k) == Some((((i + k) as int) % (n as int)) as nat),
    decreases k,
{
    if k == 0 {
        lemma_small_mod(i, n);
    } else {
        lemma_advanced_times_mod(i, n, (k - 1) as nat);
        let x = i + k - 1;
        lemma_mod_bound(x, n as int);
        lemma_mod_bound(x + 1, n as int);
        lemma_add_mod_noop_right(1, x, n as int);
        assert(((x % (n as int)) + 1) % (n as int) == (x + 1) % (n as int));
    }
}

proof fn lemma_retreated_times_mod(i: nat, n: nat, k: nat)
    requires
        i < n,
    ensures
        retreated_times(Some(i), n, k) == Some(((i - k) % (n as int)) as nat),
    decreases k,
{
    if k == 0 {
        lemma_small_mod(i, n);
    } else {
        lemma_retreated_times_mod(i, n, (k - 1) as nat);
        let y = i - k + 1;
        lemma_mod_bound(y, n as int);
        lemma_mod_bound(y - 1, n as int);
        lemma_add_mod_noop_right(n - 1, y, n as int);
        lemma_mod_add_multiples_vanish(y - 1, n as int);
        assert(((y % (n as int)) + n - 1) % (n as int) == (y - 1) % (n as int));
    }
}

/// Stepping forward as many times as the list has entries brings the cursor
/// back to where it started.
pub proof fn lemma_advance_wraps_around(c: Option<nat>, n: nat)
    requires
        n > 0,
        cursor_fits(c, n),
    ensures
        advanced_times(c, n, n) == c,
{
    let i = c->Some_0;
    lemma_advanced_times_mod(i, n, n);
    lemma_mod_add_multiples_vanish(i as int, n as int);
    lemma_small_mod(i, n);
}

/// Stepping backward as many times as the list has entries brings the cursor
/// back to where it started.
pub proof fn lemma_retreat_wraps_around(c: Option<nat>, n: nat)
    requires
        n > 0,
        cursor_fits(c, n),
    ensures
        retreated_times(c, n, n) == c,
{
    let i = c->Some_0;
    lemma_retreated_times_mod(i, n, n);
    lemma_mod_add_multiples_vanish(i - n, n as int);
    lemma_small_mod(i, n);
}

/// An ordered sequence of entries and a cursor on one of them.
pub struct SelectableList<T> {
    items: Vec<T>,
    cursor: Option<usize>,
}

impl<T> SelectableList<T> {
    /// The entries, in order.
    pub closed spec fn entries(&self) -> Seq<T> {
        self.items@
    }

    /// The position of the selected entry, if any.
    pub closed spec fn cursor(&self) -> Option<nat> {
        match self.cursor {
            None => None,
            Some(i) => Some(i as nat),
        }
    }

    /// The cursor fits the entries.
    pub open spec fn wf(&self) -> bool {
        cursor_fits(self.cursor(), self.entries().len())
    }

    /// The selected entry, if any.
    pub open spec fn current_entry(&self) -> Option<T> {
        match self.cursor() {
            None => None,
            Some(i) => Some(self.entries()[i as int]),
        }
    }

    /// This list holds the entries of `before`, with the cursor one step on.
    pub open spec fn is_advanced_from(&self, before: Self) -> bool {
        &&& self.entries() == before.entries()
        &&& self.cursor() == advanced(before.cursor(), before.entries().len())
    }

    /// This list holds the entries of `before`, with the cursor one step back.
    pub open spec fn is_retreated_from(&self, before: Self) -> bool {
        &&& self.entries() == before.entries()
        &&& self.cursor() == retreated(before.cursor(), before.entries().len())
    }

    /// This list holds the given entries, with the first one selected.
    pub open spec fn holds_fresh(&self, items: Seq<T>) -> bool {
        &&& self.entries() == items
        &&& self.cursor() == default_cursor(items.len())
    }

    /// A list of the given entries with the first one selected.
    pub fn new(items: Vec<T>) -> (r: Self)
        ensures
            r.wf(),
            r.entries() == items@,
            r.cursor() == default_cursor(items@.len()),
    {
        let mut r = SelectableList { items, cursor: None };
        r.select_default();
        r
    }

    /// An empty list, with no cursor.
    pub fn empty() -> (r: Self)
        ensures
            r.wf(),
            r.entries().len() == 0,
            r.cursor() is None,
    {
        SelectableList { items: Vec::new(), cursor: None }
    }

    /// Puts the cursor on the first entry, or removes it from an empty list.
    pub fn select_default(&mut self)
        ensures
            final(self).wf(),
            final(self).entries() == old(self).entries(),
            final(self).cursor() == default_cursor(old(self).entries().len()),
    {
        if self.items.len() == 0 {
            self.cursor = None;
        } else {
            self.cursor = Some(0);
        }
    }

    /// Replaces the entries and selects the first of the new ones.
    pub fn replace(&mut self, items: Vec<T>)
        ensures
            final(self).wf(),
            final(self).entries() == items@,
            final(self).cursor() == default_cursor(items@.len()),
    {
        self.items = items;
        self.select_default();
    }

    /// Moves the cursor one entry on, from the last entry to the first.
    pub fn advance(&mut self)
        requires
            old(self).wf(),
        ensures
            final(self).wf(),
            final(self).entries() == old(self).entries(),
            final(self).cursor() == advanced(old(self).cursor(), old(self).entries().len()),
            old(self).entries().len() == 0 ==> final(self).cursor() is None,
    {
        match self.cursor {
            None => {},
            Some(i) => {
                let n = self.items.len();
                let next: usize = if i + 1 >= n {
                    0
                } else {
                    i + 1
                };
                proof {
                    if i + 1 < n {
                        lemma_small_mod((i + 1) as nat, n as nat);
                    } else {
                        lemma_mod_self_0(n as int);
                    }
                }
                self.cursor = Some(next);
            },
        }
    }

    /// Moves the cursor one entry back, from the first entry to the last.
    pub fn retreat(&mut self)
        requires
            old(self).wf(),
        ensures
            final(self).wf(),
            final(self).entries() == old(self).entries(),
            final(self).cursor() == retreated(old(self).cursor(), old(self).entries().len()),
            old(self).entries().len() == 0 ==> final(self).cursor() is None,
    {
        match self.cursor {
            None => {},
            Some(i) => {
                let n = self.items.len();
                let prev: usize = if i == 0 {
                    n - 1
                } else {
                    i - 1
                };
                proof {
                    if i == 0 {
                        lemma_small_mod((n - 1) as nat, n as nat);
                    } else {
                        lemma_mod_add_multiples_vanish(i - 1, n as int);
                        lemma_small_mod((i - 1) as nat, n as nat);
                    }
                }
                self.cursor = Some(prev);
            },
        }
    }

    /// The selected entry, if any.
    pub fn current(&self) -> (r: Option<&T>)
        requires
            self.wf(),
        ensures
            r is Some <==> self.cursor() is Some,
            r is Some ==> *r->Some_0 == self.entries()[self.cursor()->Some_0 as int],
            self.entries().len() == 0 ==> r is None,
    {
        match self.cursor {
            None => None,
            Some(i) => Some(&self.items[i]),
        }
    }

    /// The position of the selected entry, if any.
    pub fn selected(&self) -> (r: Option<usize>)
        ensures
            r is Some <==> self.cursor() is Some,
            r is Some ==> r->Some_0 as nat == self.cursor()->Some_0,
    {
        self.cursor
    }

    /// The entries, in order.
    pub fn items(&self) -> (r: &Vec<T>)
        ensures
            r@ == self.entries(),
    {
        &self.items
    }

    /// The number of entries.
    pub fn len(&self) -> (r: usize)
        ensures
            r == self.entries().len(),
    {
        self.items.len()
    }

    /// Whether the list has no entries.
    pub fn is_empty(&self) -> (r: bool)
        ensures
            r == (self.entries().len() == 0),
    {
        self.items.len() == 0
    }
}

} // verus!
