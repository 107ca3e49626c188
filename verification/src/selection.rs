//! The selection: a cursor over a list, which stays on the list.

use vstd::prelude::*;

verus! {

/// The selection that a list of `len` items starts with: its first item,
/// or none where it has no item.
pub open spec fn first_selection(len: nat) -> Option<usize> {
    if len == 0 {
        None
    } else {
        Some(0)
    }
}

/// The selection after a step towards the end of a list of `len` items: one
/// further, and the last item where that would leave the list. A list with
/// no selection yet gets its first item selected, an empty list none.
pub open spec fn next_selection(selected: Option<usize>, len: nat) -> Option<usize> {
    if len == 0 {
        None
    } else {
        match selected {
            None => Some(0),
            Some(i) => if i + 1 < len {
                Some((i + 1) as usize)
            } else {
                Some((len - 1) as usize)
            },
        }
    }
}

/// The selection after a step towards the start of a list of `len` items:
/// one back, the first item staying where it is, and the last item where
/// the selection had left the list. A list with no selection yet gets its
/// last item selected, an empty list none.
pub open spec fn previous_selection(selected: Option<usize>, len: nat) -> Option<usize> {
    if len == 0 {
        None
    } else {
        match selected {
            None => Some((len - 1) as usize),
            Some(i) => if i == 0 {
                Some(0)
            } else if i - 1 < len {
                Some((i - 1) as usize)
            } else {
                Some((len - 1) as usize)
            },
        }
    }
}

/// The selection lies on a list of `len` items: it names one of the items,
/// and is absent exactly when there is none to name.
pub open spec fn on_list(selected: Option<usize>, len: nat) -> bool {
    match selected {
        None => len == 0,
        Some(i) => i < len,
    }
}

/// A step of the selection.
#[derive(Clone, Copy, Debug, PartialEq, Eq, Structural)]
pub enum Move {
    Next,
    Previous,
}

/// The selection after one step.
pub open spec fn moved(selected: Option<usize>, len: nat, step: Move) -> Option<usize> {
    match step {
        Move::Next => next_selection(selected, len),
        Move::Previous => previous_selection(selected, len),
    }
}

/// The selection after a run of steps, first to last.
pub open spec fn moved_all(selected: Option<usize>, len: nat, steps: Seq<Move>) -> Option<usize>
    decreases steps.len(),
{
    if steps.len() == 0 {
        selected
    } else {
        moved(moved_all(selected, len, steps.drop_last()), len, steps.last())
    }
}

/// A cursor over a list whose length its user knows.
#[derive(Clone, Copy, Debug, PartialEq, Eq)]
pub struct SelectionState {
    selected: Option<usize>,
}

impl View for SelectionState {
    type V = Option<usize>;

    closed spec fn view(&self) -> Option<usize> {
        self.selected
    }
}

impl SelectionState {
    /// The selection that a list of `len` items starts with.
    pub fn new(len: usize) -> (r: SelectionState)
        ensures
            r@ == first_selection(len as nat),
            on_list(r@, len as nat),
    {
        SelectionState { selected: if len == 0 { None } else { Some(0) } }
    }

    /// A selection as it was found, on the list or not.
    pub fn at(selected: Option<usize>) -> (r: SelectionState)
        ensures
            r@ == selected,
    {
        SelectionState { selected }
    }

    /// The index that is selected.
    pub fn selected(&self) -> (r: Option<usize>)
        ensures
            r == self@,
    {
        self.selected
    }

    /// Moves one item towards the end of a list of `len` items.
    pub fn select_next(&mut self, len: usize)
        ensures
            final(self)@ == next_selection(old(self)@, len as nat),
            on_list(final(self)@, len as nat),
    {
        if len == 0 {
            self.selected = None;
        } else {
            self.selected = match self.selected {
                None => Some(0),
                Some(i) => if i < len - 1 {
                    Some(i + 1)
                } else {
                    Some(len - 1)
                },
            };
        }
    }

    /// Moves one item towards the start of a list of `len` items.
    pub fn select_previous(&mut self, len: usize)
        ensures
            final(self)@ == previous_selection(old(self)@, len as nat),
            on_list(final(self)@, len as nat),
    {
        if len == 0 {
            self.selected = None;
        } else {
            self.selected = match self.selected {
                None => Some(len - 1),
                Some(i) => if i == 0 {
                    Some(0)
                } else if i - 1 < len {
                    Some(i - 1)
                } else {
                    Some(len - 1)
                },
            };
        }
    }
}

/// Whatever the selection was, one step puts it on the list: on one of the
/// items where there are any, and absent where there are none.
pub proof fn lemma_step_lands_on_list(selected: Option<usize>, len: nat, step: Move)
    requires
        len <= usize::MAX,
    ensures
        on_list(moved(selected, len, step), len),
{
}

/// From its start, and through any run of steps, the selection stays on
/// the list: it never names an index outside the list, and it is absent
/// exactly when the list is empty.
pub proof fn lemma_selection_stays_on_list(len: nat, steps: Seq<Move>)
    requires
        len <= usize::MAX,
    ensures
        on_list(moved_all(first_selection(len), len, steps), len),
        moved_all(first_selection(len), len, steps) is None <==> len == 0,
    decreases steps.len(),
{
    if steps.len() > 0 {
        lemma_selection_stays_on_list(len, steps.drop_last());
        lemma_step_lands_on_list(
            moved_all(first_selection(len), len, steps.drop_last()),
            len,
            steps.last(),
        );
    }
}

/// At the ends of the list a step changes nothing: the last item stays
/// selected on a step towards the end, the first on a step towards the
/// start.
pub proof fn lemma_selection_clamps(len: nat)
    requires
        0 < len <= usize::MAX,
    ensures
        next_selection(Some((len - 1) as usize), len) == Some((len - 1) as usize),
        previous_selection(Some(0), len) == Some(0usize),
{
}

} // verus!
