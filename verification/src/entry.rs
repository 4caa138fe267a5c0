//! Which file a compilation unit compiles.

use vstd::prelude::*;

verus! {

/// The compilation root of a unit: a file, or nothing.
#[derive(Debug)]
pub enum EntryState {
    /// No root is set. The unit compiles nothing and shows no diagnostics.
    Inactive,
    /// The file `main` is the root.
    Active { main: String },
}

/// What an [`EntryState`] holds, as mathematical values.
pub enum EntryStateView {
    Inactive,
    Active { main: Seq<char> },
}

impl View for EntryState {
    type V = EntryStateView;

    open spec fn view(&self) -> EntryStateView {
        match self {
            EntryState::Inactive => EntryStateView::Inactive,
            EntryState::Active { main } => EntryStateView::Active { main: main@ },
        }
    }
}

impl DeepView for EntryState {
    type V = EntryStateView;

    open spec fn deep_view(&self) -> EntryStateView {
        self@
    }
}

impl Clone for EntryState {
    fn clone(&self) -> (copy: Self)
        ensures
            copy@ == self@,
    {
        match self {
            EntryState::Inactive => EntryState::Inactive,
            EntryState::Active { main } => EntryState::Active { main: main.clone() },
        }
    }
}

impl EntryState {
    /// Whether no root is set.
    pub fn is_inactive(&self) -> (inactive: bool)
        ensures
            inactive == (self@ is Inactive),
    {
        match self {
            EntryState::Inactive => true,
            EntryState::Active { .. } => false,
        }
    }
}

} // verus!
