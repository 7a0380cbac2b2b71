//! An ordered list of note labels with a cyclic cursor.

use vstd::prelude::*;

verus! {

/// Position of the cursor after one step forward in a cyclic list of
/// length `len`: the next index, wrapping from the last entry to the first.
pub open spec fn next_index(cursor: nat, len: nat) -> nat
    recommends
        cursor < len,
{
    if cursor + 1 == len {
        0
    } else {
        cursor + 1
    }
}

/// Position of the cursor after one step backward in a cyclic list of
/// length `len`: the previous index, wrapping from the first entry to the last.
pub open spec fn prev_index(cursor: nat, len: nat) -> nat
    recommends
        cursor < len,
{
    if cursor == 0 {
        (len - 1) as nat
    } else {
        (cursor - 1) as nat
    }
}

/// The cursor after `k` forward steps in a cyclic list of length `len`.
pub open spec fn iter_next(cursor: nat, len: nat, k: nat) -> nat
    decreases k,
{
    if k == 0 {
        cursor
    } else {
        next_index(iter_next(cursor, len, (k - 1) as nat), len)
    }
}

/// The cursor after `k` backward steps in a cyclic list of length `len`.
pub open spec fn iter_prev(cursor: nat, len: nat, k: nat) -> nat
    decreases k,
{
    if k == 0 {
        cursor
    } else {
        prev_index(iter_prev(cursor, len, (k - 1) as nat), len)
    }
}

/// An ordered, indexable sequence of note labels together with the cursor
/// that marks the current selection. The labels are fixed for the session;
/// only the cursor moves, and only through `next` and `previous`.
pub struct SelectionList {
    items: Vec<String>,
    cursor: usize,
}

impl View for SelectionList {
    type V = Seq<String>;

    closed spec fn view(&self) -> Seq<String> {
        self.items@
    }
}

impl SelectionList {
    /// The current cursor position.
    pub closed spec fn sel(&self) -> nat {
        self.cursor as nat
    }

    /// The cursor stays within the list whenever the list is non-empty,
    /// and rests at zero when the list is empty.
    pub open spec fn wf(&self) -> bool {
        if self@.len() == 0 {
            self.sel() == 0
        } else {
            self.sel() < self@.len()
        }
    }

    /// A fresh list with the cursor on the first entry.
    pub fn new(items: Vec<String>) -> (r: SelectionList)
        ensures
            r.wf(),
            r@ == items@,
            r.sel() == 0,
    {
        SelectionList { items, cursor: 0 }
    }

    /// How many labels the list holds.
    pub fn len(&self) -> (n: usize)
        ensures
            n == self@.len(),
    {
        self.items.len()
    }

    /// Read-only view of the ordered label sequence.
    pub fn get_items(&self) -> (r: &Vec<String>)
        ensures
            r@ == self@,
    {
        &self.items
    }

    /// The index of the current selection, or nothing when the list is empty.
    pub fn selected_index(&self) -> (r: Option<usize>)
        requires
            self.wf(),
        ensures
            self@.len() == 0 ==> r is None,
            self@.len() > 0 ==> (r matches Some(i) && i == self.sel()),
    {
        if self.items.len() == 0 {
            None
        } else {
            Some(self.cursor)
        }
    }

    /// The label under the cursor, or nothing when the list is empty.
    pub fn selected_item(&self) -> (r: Option<String>)
        requires
            self.wf(),
        ensures
            self@.len() == 0 ==> r is None,
            self@.len() > 0 ==> (r matches Some(s) && s == self@[self.sel() as int]),
    {
        if self.items.len() == 0 {
            None
        } else {
            Some(self.items[self.cursor].clone())
        }
    }

    /// Advance the cursor by one with wraparound; a no-op on an empty list.
    pub fn next(&mut self)
        requires
            old(self).wf(),
        ensures
            final(self).wf(),
            final(self)@ == old(self)@,
            old(self)@.len() == 0 ==> final(self).sel() == old(self).sel(),
            old(self)@.len() > 0 ==> final(self).sel() == next_index(
                old(self).sel(),
                old(self)@.len(),
            ),
    {
        let len = self.items.len();
        if len > 0 {
            if self.cursor + 1 == len {
                self.cursor = 0;
            } else {
                self.cursor = self.cursor + 1;
            }
        }
    }

    /// Move the cursor back by one with wraparound; a no-op on an empty list.
    pub fn previous(&mut self)
        requires
            old(self).wf(),
        ensures
            final(self).wf(),
            final(self)@ == old(self)@,
            old(self)@.len() == 0 ==> final(self).sel() == old(self).sel(),
            old(self)@.len() > 0 ==> final(self).sel() == prev_index(
                old(self).sel(),
                old(self)@.len(),
            ),
    {
        let len = self.items.len();
        if len > 0 {
            if self.cursor == 0 {
                self.cursor = len - 1;
            } else {
                self.cursor = self.cursor - 1;
            }
        }
    }
}

/// After `k <= len` forward steps the cursor stands `k` places further,
/// reduced once modulo the length.
proof fn lemma_iter_next_shift(cursor: nat, len: nat, k: nat)
    requires
        0 < len,
        cursor < len,
        k <= len,
    ensures
        iter_next(cursor, len, k) == if cursor + k < len {
            cursor + k
        } else {
            (cursor + k - len) as nat
        },
    decreases k,
{
    if k > 0 {
        lemma_iter_next_shift(cursor, len, (k - 1) as nat);
    }
}

/// After `k <= len` backward steps the cursor stands `k` places earlier,
/// reduced once modulo the length.
proof fn lemma_iter_prev_shift(cursor: nat, len: nat, k: nat)
    requires
        0 < len,
        cursor < len,
        k <= len,
    ensures
        iter_prev(cursor, len, k) == if cursor >= k {
            (cursor - k) as nat
        } else {
            (cursor + len - k) as nat
        },
    decreases k,
{
    if k > 0 {
        lemma_iter_prev_shift(cursor, len, (k - 1) as nat);
    }
}

/// Cyclic closure: in a non-empty list of length `len`, stepping forward
/// `len` times returns the cursor to where it started, and so does stepping
/// backward `len` times.
pub proof fn lemma_full_cycle(cursor: nat, len: nat)
    requires
        0 < len,
        cursor < len,
    ensures
        iter_next(cursor, len, len) == cursor,
        iter_prev(cursor, len, len) == cursor,
{
    lemma_iter_next_shift(cursor, len, len);
    lemma_iter_prev_shift(cursor, len, len);
}

/// A forward step followed by a backward step is the identity on the
/// cursor of a non-empty list, and so is a backward step followed by a
/// forward step.
pub proof fn lemma_next_prev_identity(cursor: nat, len: nat)
    requires
        0 < len,
        cursor < len,
    ensures
        prev_index(next_index(cursor, len), len) == cursor,
        next_index(prev_index(cursor, len), len) == cursor,
{
}

} // verus!
