//! Cursor-addressed list with wraparound navigation, used for the device menu.

use vstd::prelude::*;
use vstd::arithmetic::div_mod::lemma_add_mod_noop_right;
use vstd::arithmetic::div_mod::lemma_mod_add_multiples_vanish;
use vstd::arithmetic::div_mod::lemma_mod_division_less_than_divisor;
use vstd::arithmetic::div_mod::lemma_mod_self_0;
use vstd::arithmetic::div_mod::lemma_small_mod;

verus! {

/// Where the cursor lands after one forward step. On a non-empty list an
/// unset cursor selects index 0, and stepping past the last index wraps to 0.
/// On an empty list the cursor is left as it is: wraparound absorbs every
/// out-of-range move, so navigation never fails.
pub open spec fn next_cursor(c: Option<usize>, len: int) -> Option<usize> {
    if len <= 0 {
        c
    } else {
        match c {
            Option::None => Option::Some(0usize),
            Option::Some(i) => if i + 1 >= len {
                Option::Some(0usize)
            } else {
                Option::Some((i + 1) as usize)
            },
        }
    }
}

/// Where the cursor lands after one backward step. On a non-empty list an
/// unset cursor selects index 0, and stepping back from index 0 wraps to the
/// last index. On an empty list the cursor is left as it is.
pub open spec fn prev_cursor(c: Option<usize>, len: int) -> Option<usize> {
    if len <= 0 {
        c
    } else {
        match c {
            Option::None => Option::Some(0usize),
            Option::Some(i) => if i == 0 {
                Option::Some((len - 1) as usize)
            } else {
                Option::Some((i - 1) as usize)
            },
        }
    }
}

/// The cursor after `n` forward steps.
pub open spec fn next_cursor_n(c: Option<usize>, len: int, n: nat) -> Option<usize>
    decreases n,
{
    if n == 0 {
        c
    } else {
        next_cursor(next_cursor_n(c, len, (n - 1) as nat), len)
    }
}

/// An ordered collection with a single optional selection. Navigation wraps
/// modulo the length, so no move ever leaves the valid range.
pub struct StatefulList<T> {
    pub items: Vec<T>,
    pub cursor: Option<usize>,
}

impl<T> StatefulList<T> {
    /// The cursor, when set, is a valid index.
    pub open spec fn wf(&self) -> bool {
        match self.cursor {
            Option::Some(i) => i < self.items@.len(),
            Option::None => true,
        }
    }

    /// Creates a list with no selection.
    pub fn with_items(items: Vec<T>) -> (r: StatefulList<T>)
        ensures
            r.items@ == items@,
            r.cursor == Option::<usize>::None,
            r.wf(),
    {
        StatefulList { items, cursor: None }
    }

    /// Sets the cursor to the first item; does nothing on an empty list.
    pub fn select_first(&mut self)
        requires
            old(self).wf(),
        ensures
            final(self).wf(),
            final(self).items@ == old(self).items@,
            final(self).cursor == (if old(self).items@.len() > 0 {
                Option::Some(0usize)
            } else {
                old(self).cursor
            }),
    {
        if self.items.len() > 0 {
            self.cursor = Some(0);
        }
    }

    /// The current selection, if any.
    pub fn selected(&self) -> (r: Option<usize>)
        ensures
            r == self.cursor,
    {
        self.cursor
    }

    /// Moves the selection one step forward, wrapping past the last index.
    pub fn next(&mut self)
        requires
            old(self).wf(),
        ensures
            final(self).wf(),
            final(self).items@ == old(self).items@,
            final(self).cursor == next_cursor(old(self).cursor, old(self).items@.len() as int),
    {
        let len = self.items.len();
        if len > 0 {
            let i: usize = match self.cursor {
                Some(i) => if i + 1 >= len {
                    0
                } else {
                    i + 1
                },
                None => 0,
            };
            self.cursor = Some(i);
        }
    }

    /// Moves the selection one step backward, wrapping below index 0.
    pub fn previous(&mut self)
        requires
            old(self).wf(),
        ensures
            final(self).wf(),
            final(self).items@ == old(self).items@,
            final(self).cursor == prev_cursor(old(self).cursor, old(self).items@.len() as int),
    {
        let len = self.items.len();
        if len > 0 {
            let i: usize = match self.cursor {
                Some(i) => if i == 0 {
                    len - 1
                } else {
                    i - 1
                },
                None => 0,
            };
            self.cursor = Some(i);
        }
    }
}

/// One forward step from the cursor standing at `j % len` lands on
/// `(j + 1) % len`.
proof fn lemma_next_cursor_step(j: int, len: int)
    requires
        0 <= j,
        1 <= len <= usize::MAX,
    ensures
        next_cursor(Option::Some(((j % len) as usize)), len) == Option::Some(
            (((j + 1) % len) as usize),
        ),
{
    lemma_mod_division_less_than_divisor(j, len);
    lemma_add_mod_noop_right(1, j, len);
    if j % len + 1 == len {
        lemma_mod_self_0(len);
    } else {
        lemma_small_mod((j % len + 1) as nat, len as nat);
    }
}

/// Law: starting from a selected index `i`, `n` forward steps land on
/// `(i + n)` modulo the length: navigation is cyclic with period `len`.
pub proof fn lemma_next_cursor_n_mod(i: usize, len: int, n: nat)
    requires
        i < len,
        len <= usize::MAX,
    ensures
        next_cursor_n(Option::Some(i), len, n) == Option::Some((((i + n) % len) as usize)),
    decreases n,
{
    if n == 0 {
        lemma_small_mod(i as nat, len as nat);
    } else {
        lemma_next_cursor_n_mod(i, len, (n - 1) as nat);
        lemma_next_cursor_step(i + n - 1, len);
    }
}

/// Law: a full cycle of as many forward steps as the list has items returns
/// the cursor to where it started, and from an unselected state the first
/// forward step selects index 0.
pub proof fn lemma_next_full_cycle(i: usize, len: int)
    requires
        i < len,
        len <= usize::MAX,
    ensures
        next_cursor_n(Option::Some(i), len, len as nat) == Option::Some(i),
        next_cursor_n(Option::None, len, 1) == Option::Some(0usize),
{
    lemma_next_cursor_n_mod(i, len, len as nat);
    lemma_mod_add_multiples_vanish(i as int, len);
    lemma_small_mod(i as nat, len as nat);
    assert(next_cursor_n(Option::<usize>::None, len, 0) == Option::<usize>::None);
}

/// Law: from an unselected state, `n` forward steps (`n >= 1`) land on index
/// `(n - 1)` modulo the length: the first step selects index 0 and each
/// further step advances by one with wraparound.
pub proof fn lemma_next_n_from_unselected(len: int, n: nat)
    requires
        1 <= len <= usize::MAX,
        n >= 1,
    ensures
        next_cursor_n(Option::None, len, n) == Option::Some(((((n - 1) as int) % len) as usize)),
    decreases n,
{
    if n == 1 {
        assert(next_cursor_n(Option::<usize>::None, len, 0) == Option::<usize>::None);
        lemma_small_mod(0, len as nat);
    } else {
        lemma_next_n_from_unselected(len, (n - 1) as nat);
        lemma_next_cursor_step((n - 2) as int, len);
    }
}

/// Law: one backward step from index 0 wraps to the last index, and a
/// backward step undoes a forward step from any selected index.
pub proof fn lemma_prev_wraps_and_cancels_next(i: usize, len: int)
    requires
        i < len,
        len <= usize::MAX,
    ensures
        prev_cursor(Option::Some(0usize), len) == Option::Some(((len - 1) as usize)),
        prev_cursor(next_cursor(Option::Some(i), len), len) == Option::Some(i),
{
}

} // verus!
