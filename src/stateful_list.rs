use vstd::prelude::*;

verus! {

/// Cursor after moving forward: an absent cursor lands on the first item (if
/// any), a present one advances and wraps past the last item.
pub open spec fn next_cursor(sel: Option<usize>, len: nat) -> Option<usize> {
    match sel {
        None => if len == 0 { None } else { Some(0usize) },
        Some(i) => Some(((i + 1) % (len as int)) as usize),
    }
}

/// Cursor after moving backward: an absent cursor lands on the first item (if
/// any), a present one steps back and wraps from the first item to the last.
pub open spec fn previous_cursor(sel: Option<usize>, len: nat) -> Option<usize> {
    match sel {
        None => if len == 0 { None } else { Some(0usize) },
        Some(i) => if i == 0 { Some((len - 1) as usize) } else { Some((i - 1) as usize) },
    }
}

/// Cursor after the item under cursor `i` has been removed, leaving `new_len` items.
pub open spec fn cursor_after_delete(i: usize, new_len: nat) -> Option<usize> {
    if i == 0 {
        if new_len == 0 { None } else { Some(0usize) }
    } else {
        previous_cursor(Some(i), new_len)
    }
}

/// An ordered sequence of items with an optional single cursor.
pub struct StatefulList<T> {
    pub items: Vec<T>,
    pub selected: Option<usize>,
}

impl<T> StatefulList<T> {
    /// A present cursor always points at an item.
    pub open spec fn wf(&self) -> bool {
        match self.selected {
            Some(i) => i < self.items@.len(),
            None => true,
        }
    }

    /// A list holding `items`, with no cursor.
    pub fn with_items(items: Vec<T>) -> (r: StatefulList<T>)
        ensures
            r.wf(),
            r.items@ == items@,
            r.selected is None,
    {
        StatefulList { items, selected: None }
    }

    /// The cursor, if any.
    pub fn selected(&self) -> (r: Option<usize>)
        ensures
            r == self.selected,
    {
        self.selected
    }

    /// Moves the cursor forward, wrapping to the first item.
    pub fn next(&mut self)
        requires
            old(self).wf(),
        ensures
            final(self).wf(),
            final(self).items@ == old(self).items@,
            final(self).selected == next_cursor(old(self).selected, old(self).items@.len()),
    {
        let len = self.items.len();
        match self.selected {
            Some(idx) => {
                if idx + 1 >= len {
                    proof {
                        vstd::arithmetic::div_mod::lemma_mod_self_0(len as int);
                    }
                    self.selected = Some(0);
                } else {
                    proof {
                        vstd::arithmetic::div_mod::lemma_small_mod((idx + 1) as nat, len as nat);
                    }
                    self.selected = Some(idx + 1);
                }
            },
            None => {
                if len > 0 {
                    self.selected = Some(0);
                }
            },
        }
    }

    /// Moves the cursor backward, wrapping to the last item.
    pub fn previous(&mut self)
        requires
            old(self).wf(),
        ensures
            final(self).wf(),
            final(self).items@ == old(self).items@,
            final(self).selected == previous_cursor(old(self).selected, old(self).items@.len()),
    {
        let len = self.items.len();
        match self.selected {
            Some(idx) => {
                if idx == 0 {
                    self.selected = Some(len - 1);
                } else {
                    self.selected = Some(idx - 1);
                }
            },
            None => {
                if len > 0 {
                    self.selected = Some(0);
                }
            },
        }
    }

    /// Appends `item` at the tail; the cursor stays where it was.
    pub fn push(&mut self, item: T)
        requires
            old(self).wf(),
        ensures
            final(self).wf(),
            final(self).items@ == old(self).items@.push(item),
            final(self).selected == old(self).selected,
    {
        self.items.push(item);
    }

    /// Removes the item under the cursor, if any. Removing the first item
    /// selects the new first item; removing a later one selects its
    /// predecessor; a list left empty has no cursor. A cursor at or past the
    /// end points at no item, and then nothing changes.
    pub fn delete_current(&mut self)
        ensures
            old(self).wf() ==> final(self).wf(),
            match old(self).selected {
                Some(i) if i < old(self).items@.len() => {
                    &&& final(self).items@ == old(self).items@.remove(i as int)
                    &&& final(self).selected == cursor_after_delete(i, final(self).items@.len())
                },
                _ => *final(self) == *old(self),
            },
            old(self).wf() && old(self).selected is Some ==> final(self).items@.len()
                == old(self).items@.len() - 1,
            old(self).wf() && old(self).selected is Some ==> (final(self).selected is None
                <==> final(self).items@.len() == 0),
    {
        if let Some(idx) = self.selected {
            if idx < self.items.len() {
                self.items.remove(idx);
                if idx == 0 {
                    if self.items.len() == 0 {
                        self.selected = None;
                    } else {
                        self.selected = Some(0);
                    }
                } else {
                    self.selected = Some(idx - 1);
                }
            }
        }
    }
}

/// Cursor after a run of moves, `true` standing for a forward move and
/// `false` for a backward one.
pub open spec fn cursor_after_moves(sel: Option<usize>, len: nat, moves: Seq<bool>) -> Option<
    usize,
>
    decreases moves.len(),
{
    if moves.len() == 0 {
        sel
    } else {
        let step = if moves[0] {
            next_cursor(sel, len)
        } else {
            previous_cursor(sel, len)
        };
        cursor_after_moves(step, len, moves.drop_first())
    }
}

/// On a non-empty list, any run of forward and backward moves keeps the
/// cursor on an item, and once at least one move has been made the cursor
/// is never absent.
pub proof fn lemma_moves_stay_in_range(sel: Option<usize>, len: nat, moves: Seq<bool>)
    requires
        0 < len <= usize::MAX,
        sel matches Some(i) ==> i < len,
    ensures
        cursor_after_moves(sel, len, moves) matches Some(i) ==> i < len,
        moves.len() > 0 ==> cursor_after_moves(sel, len, moves) is Some,
    decreases moves.len(),
{
    if moves.len() > 0 {
        let step = if moves[0] {
            next_cursor(sel, len)
        } else {
            previous_cursor(sel, len)
        };
        if let Some(i) = sel {
            assert((i + 1) % (len as int) < len) by {
                vstd::arithmetic::div_mod::lemma_mod_bound((i + 1) as int, len as int);
            }
        }
        lemma_moves_stay_in_range(step, len, moves.drop_first());
    }
}

} // verus!
