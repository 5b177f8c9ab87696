//! Cyclic main menu: a fixed list of labels and a selection index that
//! wraps around in both directions.

use vstd::prelude::*;
use vstd::arithmetic::div_mod::{lemma_mod_self_0, lemma_small_mod};

verus! {

/// Mathematical successor of a cyclic selection over `n` items.
pub open spec fn next_sel(sel: nat, n: nat) -> nat {
    if sel + 1 == n {
        0
    } else {
        sel + 1
    }
}

/// Mathematical predecessor of a cyclic selection over `n` items.
pub open spec fn prev_sel(sel: nat, n: nat) -> nat {
    if sel > 0 {
        (sel - 1) as nat
    } else {
        (n - 1) as nat
    }
}

/// Moving forward and then backward (or backward and then forward) over a
/// non-empty cyclic list returns to the original selection.
pub proof fn lemma_menu_cycle_symmetry(sel: nat, n: nat)
    requires
        n > 0,
        sel < n,
    ensures
        prev_sel(next_sel(sel, n), n) == sel,
        next_sel(prev_sel(sel, n), n) == sel,
{
}

/// The three fixed menu entries, in order.
pub open spec fn standard_labels(m: MainMenu) -> bool {
    &&& m.items@.len() == 3
    &&& m.items@[0]@ == "Create new branch"@
    &&& m.items@[1]@ == "Delete a branch"@
    &&& m.items@[2]@ == "Exit"@
}

/// The main menu: three fixed entries and a cyclic selection.
pub struct MainMenu {
    pub selected: usize,
    pub items: Vec<&'static str>,
}

impl MainMenu {
    /// The selection always points at one of the three entries.
    pub open spec fn wf(&self) -> bool {
        &&& self.items@.len() == 3
        &&& self.selected < 3
    }

    pub fn new() -> (m: MainMenu)
        ensures
            m.wf(),
            m.selected == 0,
            standard_labels(m),
    {
        MainMenu { selected: 0, items: vec!["Create new branch", "Delete a branch", "Exit"] }
    }

    pub fn next(&mut self)
        requires
            old(self).wf(),
        ensures
            final(self).wf(),
            final(self).selected == next_sel(old(self).selected as nat, old(self).items@.len() as nat),
            final(self).items == old(self).items,
    {
        proof {
            if self.selected + 1 < self.items@.len() {
                lemma_small_mod((self.selected + 1) as nat, self.items@.len() as nat);
            } else {
                lemma_mod_self_0(self.items@.len() as int);
            }
        }
        self.selected = (self.selected + 1) % self.items.len();
    }

    pub fn previous(&mut self)
        requires
            old(self).wf(),
        ensures
            final(self).wf(),
            final(self).selected == prev_sel(old(self).selected as nat, old(self).items@.len() as nat),
            final(self).items == old(self).items,
    {
        if self.selected > 0 {
            self.selected = self.selected - 1;
        } else {
            self.selected = self.items.len() - 1;
        }
    }
}

} // verus!
