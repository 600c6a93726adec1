//! Which tab is selected.
use vstd::prelude::*;

verus! {

/// The state of one mounted component: the position of the selected tab.
///
/// The position is kept as it was last set, whatever the tabs are now. It
/// may lie past the end of a sequence that has shrunk since; the selection is
/// then bound to no tab.
#[derive(Clone, Copy, Debug, PartialEq, Eq, Structural)]
pub struct Selection {
    pub selected: usize,
}

impl View for Selection {
    type V = nat;

    open spec fn view(&self) -> nat {
        self.selected as nat
    }
}

impl Selection {
    /// The selection of a freshly mounted component: the first tab.
    pub open spec fn mounted() -> Selection {
        Selection { selected: 0 }
    }

    /// The selection after the button at `idx` was activated.
    pub open spec fn activated(self, idx: usize) -> Selection {
        Selection { selected: idx }
    }

    /// Whether the selection points at one of `count` tabs.
    pub open spec fn bound(self, count: nat) -> bool {
        self.selected < count
    }

    /// Selects the first tab.
    pub fn new() -> (s: Selection)
        ensures
            s == Selection::mounted(),
    {
        Selection { selected: 0 }
    }

    /// Handles the activation of the button at `idx`: that tab is selected
    /// from now on, whichever was before.
    pub fn select(&mut self, idx: usize)
        ensures
            *final(self) == old(self).activated(idx),
    {
        self.selected = idx;
    }

    /// The position of the selected tab.
    pub fn index(&self) -> (idx: usize)
        ensures
            idx == self.selected,
    {
        self.selected
    }

    /// Tells whether the selection points at one of `count` tabs.
    pub fn is_bound(&self, count: usize) -> (b: bool)
        ensures
            b == self.bound(count as nat),
    {
        self.selected < count
    }
}

} // verus!
