//! What the domains view shows for a listing and a selection. Drawing is
//! left to the terminal; which panes there are to draw is decided here.

use crate::domain::{Domain, DomainView};
use crate::listing::views;
use vstd::prelude::*;

verus! {

/// The panes of the domains view.
#[derive(Copy, Clone, Debug, PartialEq, Eq, Structural)]
pub enum DomainPane {
    /// The listing is empty: a notice in place of the list, nothing else,
    /// and no detail is fetched.
    EmptyCatalog,
    /// The list, and a notice in place of the details: nothing is selected,
    /// and no detail is fetched.
    ListOnly,
    /// The list, and the details and interactions of the selected domain.
    Details,
}

/// The panes for a listing of `entries` domains, with or without a
/// selection.
pub open spec fn pane_of(entries: nat, selected: bool) -> DomainPane {
    if entries == 0 {
        DomainPane::EmptyCatalog
    } else if selected {
        DomainPane::Details
    } else {
        DomainPane::ListOnly
    }
}

/// A listing and the selected domain, ready to be shown.
pub struct DomainRenderer<'d> {
    list: &'d Vec<Domain>,
    selected: Option<&'d Domain>,
}

impl<'d> DomainRenderer<'d> {
    /// The contents of the listing.
    pub closed spec fn entries(&self) -> Seq<DomainView> {
        views(self.list@)
    }

    /// The content of the selected domain, where there is one.
    pub closed spec fn chosen(&self) -> Option<DomainView> {
        match self.selected {
            Some(domain) => Some(domain@),
            None => None,
        }
    }

    pub fn new(list: &'d Vec<Domain>, selected: Option<&'d Domain>) -> (renderer: Self)
        ensures
            renderer.entries() == views(list@),
            renderer.chosen() == match selected {
                Some(domain) => Some(domain@),
                None => None,
            },
    {
        Self { list, selected }
    }

    /// The listing to draw.
    pub fn list(&self) -> (list: &'d Vec<Domain>)
        ensures
            views(list@) == self.entries(),
    {
        self.list
    }

    /// The domain whose details to fetch and draw: none over an empty
    /// listing, whatever was selected.
    pub fn selected(&self) -> (selected: Option<&'d Domain>)
        ensures
            match selected {
                Some(domain) => self.pane_spec() == DomainPane::Details && self.chosen() == Some(
                    domain@,
                ),
                None => self.pane_spec() != DomainPane::Details,
            },
    {
        if self.list.len() == 0 {
            None
        } else {
            self.selected
        }
    }

    /// The panes that this listing and selection call for.
    pub open spec fn pane_spec(&self) -> DomainPane {
        pane_of(self.entries().len(), self.chosen() is Some)
    }

    /// Decides the panes of the domains view.
    pub fn pane(&self) -> (pane: DomainPane)
        ensures
            pane == self.pane_spec(),
    {
        if self.list.len() == 0 {
            DomainPane::EmptyCatalog
        } else if self.selected.is_some() {
            DomainPane::Details
        } else {
            DomainPane::ListOnly
        }
    }
}

} // verus!
