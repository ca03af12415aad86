use vstd::prelude::*;

use crate::tabular::{Modal, Tabular};

verus! {

/// The open tables, which of them is shown, and the tab list panel.
pub struct TabState {
    tabs: Vec<Tabular>,
    idx: usize,
    side_panel: Option<usize>,
}

impl TabState {
    pub closed spec fn tabs_spec(&self) -> Seq<Tabular> {
        self.tabs@
    }

    /// Index of the shown table.
    pub closed spec fn idx_spec(&self) -> nat {
        self.idx as nat
    }

    pub closed spec fn side_panel_spec(&self) -> Option<usize> {
        self.side_panel
    }

    /// Every table is well formed and the index names one of them, when there is one.
    pub open spec fn wf(&self) -> bool {
        &&& (self.tabs_spec().len() == 0 ==> self.idx_spec() == 0)
        &&& (self.tabs_spec().len() > 0 ==> self.idx_spec() < self.tabs_spec().len())
        &&& forall|i: int|
            0 <= i < self.tabs_spec().len() ==> (#[trigger] self.tabs_spec()[i]).wf()
    }

    /// The shown table, if any.
    pub open spec fn current(&self) -> Option<Tabular> {
        if self.tabs_spec().len() > 0 {
            Some(self.tabs_spec()[self.idx_spec() as int])
        } else {
            None
        }
    }

    pub fn new() -> (r: TabState)
        ensures
            r.wf(),
            r.tabs_spec().len() == 0,
            r.side_panel_spec() is None,
    {
        TabState { tabs: Vec::new(), idx: 0, side_panel: None }
    }

    /// Opens a table in a new tab and shows it.
    pub fn add(&mut self, tab: Tabular)
        requires
            old(self).wf(),
            tab.wf(),
        ensures
            final(self).wf(),
            final(self).tabs_spec() == old(self).tabs_spec().push(tab),
            final(self).idx_spec() == old(self).tabs_spec().len(),
            final(self).side_panel_spec() == old(self).side_panel_spec(),
    {
        self.tabs.push(tab);
        self.idx = self.tabs.len() - 1;
    }

    pub fn len(&self) -> (r: usize)
        ensures
            r == self.tabs_spec().len(),
    {
        self.tabs.len()
    }

    pub fn idx(&self) -> (r: usize)
        ensures
            r == self.idx_spec(),
    {
        self.idx
    }

    pub fn is_empty(&self) -> (r: bool)
        ensures
            r == (self.tabs_spec().len() == 0),
    {
        self.tabs.len() == 0
    }

    pub fn selected(&self) -> (r: Option<&Tabular>)
        requires
            self.wf(),
        ensures
            r is Some <==> self.current() is Some,
            r is Some ==> *r->0 == self.current()->0,
    {
        if self.idx < self.tabs.len() {
            Some(&self.tabs[self.idx])
        } else {
            None
        }
    }

    /// The overlay of the shown table; `None` when no table is open.
    pub fn selected_modal(&self) -> (r: Option<&Modal>)
        requires
            self.wf(),
        ensures
            r is Some <==> self.current() is Some,
            r is Some ==> *r->0 == self.current()->0.modal_spec(),
    {
        if self.idx < self.tabs.len() {
            Some(self.tabs[self.idx].modal())
        } else {
            None
        }
    }

    /// The shown table, to change in place.
    pub fn current_mut(&mut self) -> (r: &mut Tabular)
        requires
            old(self).wf(),
            old(self).tabs_spec().len() > 0,
        ensures
            *r == old(self).current()->0,
            final(self).tabs_spec() == old(self).tabs_spec().update(
                old(self).idx_spec() as int,
                *final(r),
            ),
            final(self).idx_spec() == old(self).idx_spec(),
            final(self).side_panel_spec() == old(self).side_panel_spec(),
    {
        let idx = self.idx;
        &mut self.tabs[idx]
    }

    /// Shows tab `idx`, or the last one if there are fewer.
    pub fn select(&mut self, idx: usize)
        requires
            old(self).wf(),
        ensures
            final(self).wf(),
            final(self).tabs_spec() == old(self).tabs_spec(),
            final(self).side_panel_spec() == old(self).side_panel_spec(),
            final(self).idx_spec() == if old(self).tabs_spec().len() == 0 {
                0
            } else if idx < old(self).tabs_spec().len() {
                idx as nat
            } else {
                (old(self).tabs_spec().len() - 1) as nat
            },
    {
        let len = self.tabs.len();
        self.idx = if len == 0 {
            0
        } else if idx < len {
            idx
        } else {
            len - 1
        };
    }

    /// Shows the next tab, staying on the last.
    pub fn select_next(&mut self)
        requires
            old(self).wf(),
        ensures
            final(self).wf(),
            final(self).tabs_spec() == old(self).tabs_spec(),
            final(self).idx_spec() == if old(self).idx_spec() + 1 < old(
                self,
            ).tabs_spec().len() {
                old(self).idx_spec() + 1
            } else {
                old(self).idx_spec()
            },
    {
        if self.tabs.len() > 0 && self.idx < self.tabs.len() - 1 {
            self.idx = self.idx + 1;
        }
    }

    /// Shows the previous tab, staying on the first.
    pub fn select_prev(&mut self)
        requires
            old(self).wf(),
        ensures
            final(self).wf(),
            final(self).tabs_spec() == old(self).tabs_spec(),
            final(self).idx_spec() == if old(self).idx_spec() > 0 {
                (old(self).idx_spec() - 1) as nat
            } else {
                0
            },
    {
        if self.idx > 0 {
            self.idx = self.idx - 1;
        }
    }

    /// Closes the shown tab; the one before it, if any, is shown next.
    pub fn remove_selected(&mut self)
        requires
            old(self).wf(),
        ensures
            final(self).wf(),
            old(self).tabs_spec().len() == 0 ==> final(self).tabs_spec() == old(self).tabs_spec(),
            old(self).tabs_spec().len() > 0 ==> final(self).tabs_spec() == old(
                self,
            ).tabs_spec().remove(old(self).idx_spec() as int),
    {
        if self.idx < self.tabs.len() {
            self.tabs.remove(self.idx);
            if self.idx > 0 {
                self.idx = self.idx - 1;
            }
        }
        assert(forall|i: int|
            0 <= i < self.tabs@.len() ==> #[trigger] self.tabs@[i] == old(self).tabs@[if i < old(
                self,
            ).idx {
                i
            } else {
                i + 1
            }]);
    }

    pub fn side_panel(&self) -> (r: Option<usize>)
        ensures
            r == self.side_panel_spec(),
    {
        self.side_panel
    }

    /// Opens the tab list with the shown tab highlighted, or closes it.
    pub fn toggle_side_panel(&mut self)
        requires
            old(self).wf(),
        ensures
            final(self).wf(),
            final(self).tabs_spec() == old(self).tabs_spec(),
            final(self).idx_spec() == old(self).idx_spec(),
            final(self).side_panel_spec() == if old(self).side_panel_spec() is Some {
                None
            } else {
                Some(old(self).idx_spec() as usize)
            },
    {
        self.side_panel = match self.side_panel {
            Some(_) => None,
            None => Some(self.idx),
        };
    }
}

} // verus!
