//! The list of the session: the records in the order of their discovery,
//! and the selection over them.

use crate::selection::first_selection;
use crate::selection::next_selection;
use crate::selection::on_list;
use crate::selection::previous_selection;
use crate::selection::SelectionState;
use crate::x509::records_view;
use crate::x509::X509View;
use crate::x509::X509;
use vstd::prelude::*;

verus! {

/// The records of a session and the selection over them. The records never
/// change; the selection moves over them and never leaves them.
pub struct X509TUIList {
    items: Vec<X509>,
    state: SelectionState,
}

/// The list as a mathematical value.
pub struct X509TUIListView {
    pub items: Seq<X509View>,
    pub selected: Option<usize>,
}

impl X509TUIListView {
    /// The selection names one of the records, and is absent exactly when
    /// there is none.
    pub open spec fn wf(self) -> bool {
        on_list(self.selected, self.items.len())
    }
}

impl View for X509TUIList {
    type V = X509TUIListView;

    closed spec fn view(&self) -> X509TUIListView {
        X509TUIListView { items: records_view(self.items@), selected: self.state@ }
    }
}

impl X509TUIList {
    /// The selection lies on the list, in every list there is.
    #[verifier::type_invariant]
    pub closed spec fn selection_on_list(self) -> bool {
        on_list(self.state@, self.items@.len())
    }

    /// What the invariant of the list says of its view.
    pub proof fn lemma_selection_on_list(self)
        requires
            self.selection_on_list(),
        ensures
            self@.wf(),
    {
    }

    /// Makes the list of the records given, in their order, with the first
    /// of them selected.
    pub fn new(x509s: Vec<X509>) -> (r: Self)
        ensures
            r@.items == records_view(x509s@),
            r@.selected == first_selection(x509s@.len()),
            r@.wf(),
    {
        let state = SelectionState::new(x509s.len());
        X509TUIList { items: x509s, state }
    }

    /// The records, in the order of their discovery.
    pub fn items(&self) -> (r: &Vec<X509>)
        ensures
            records_view(r@) == self@.items,
    {
        &self.items
    }

    /// The number of records.
    pub fn len(&self) -> (r: usize)
        ensures
            r == self@.items.len(),
    {
        self.items.len()
    }

    /// The index of the record that is selected: the index of one of the
    /// records, and none exactly when there is no record.
    pub fn selected(&self) -> (r: Option<usize>)
        ensures
            r == self@.selected,
            self@.wf(),
    {
        proof {
            use_type_invariant(self);
        }
        self.state.selected()
    }

    /// Moves the selection one record towards the end of the list.
    pub fn select_next(&mut self)
        ensures
            final(self)@.items == old(self)@.items,
            final(self)@.selected == next_selection(old(self)@.selected, old(self)@.items.len()),
            final(self)@.wf(),
    {
        let len = self.items.len();
        let mut state = self.state;
        state.select_next(len);
        self.state = state;
    }

    /// Moves the selection one record towards the start of the list.
    pub fn select_previous(&mut self)
        ensures
            final(self)@.items == old(self)@.items,
            final(self)@.selected == previous_selection(
                old(self)@.selected,
                old(self)@.items.len(),
            ),
            final(self)@.wf(),
    {
        let len = self.items.len();
        let mut state = self.state;
        state.select_previous(len);
        self.state = state;
    }
}

} // verus!
