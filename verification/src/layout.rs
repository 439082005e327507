//! The arrangement of the workspace: views, their tabs, and the panes in
//! them, as the layout engine last reported it.
use vstd::prelude::*;
use crate::list::{first_item, first_place, first_place_at};
use crate::text::{copy_option, is_text};

verus! {

#[derive(Debug, Clone, Copy, PartialEq, Eq, Structural)]
pub struct PaneId(pub u64);

#[derive(Debug, Clone, Copy, PartialEq, Eq, Structural)]
pub struct TabId(pub u64);

#[derive(Debug, Clone, Copy, PartialEq, Eq, Structural)]
pub struct ViewId(pub u64);

/// What a pane renders.
#[derive(Debug, Clone, Copy, PartialEq, Eq, Structural)]
pub enum PaneMode {
    Chat,
    Terminal,
}

#[derive(Debug, Clone, Copy, PartialEq, Eq, Structural)]
pub enum Direction {
    Left,
    Right,
    Up,
    Down,
}

/// Where a view shows its tabs.
#[derive(Debug, Clone, Copy, PartialEq, Eq, Structural)]
pub enum TabPlacement {
    Top,
    Left,
}

/// A pane, and the tab and view it lies in.
#[derive(Debug)]
pub struct PaneEntry {
    pub view: ViewId,
    pub tab: TabId,
    pub pane: PaneId,
    pub mode: PaneMode,
    pub session: Option<String>,
    pub provider: Option<String>,
    pub label: Option<String>,
}

/// A tab, and the view it lies in.
#[derive(Debug, Clone, Copy, PartialEq, Eq, Structural)]
pub struct TabEntry {
    pub view: ViewId,
    pub tab: TabId,
    pub active_pane: PaneId,
    /// The pane at the top left.
    pub first_pane: PaneId,
}

/// A view and the order of its tabs.
#[derive(Debug)]
pub struct ViewEntry {
    pub view: ViewId,
    pub active_tab: TabId,
    pub placement: TabPlacement,
    pub order: Vec<TabId>,
}

/// The arrangement, in the order of its walk: views, tabs and panes each by
/// their ids.
#[derive(Debug)]
pub struct Layout {
    pub views: Vec<ViewEntry>,
    pub tabs: Vec<TabEntry>,
    pub panes: Vec<PaneEntry>,
    pub active_view: ViewId,
    /// The view at the top left.
    pub first_view: ViewId,
}

/// What a pane is.
#[verifier::ext_equal]
pub struct Pane {
    pub view: ViewId,
    pub tab: TabId,
    pub pane: PaneId,
    pub mode: PaneMode,
    pub session: Option<Seq<char>>,
    pub provider: Option<Seq<char>>,
    pub label: Option<Seq<char>>,
}

impl DeepView for PaneEntry {
    type V = Pane;

    open spec fn deep_view(&self) -> Pane {
        Pane {
            view: self.view,
            tab: self.tab,
            pane: self.pane,
            mode: self.mode,
            session: self.session.deep_view(),
            provider: self.provider.deep_view(),
            label: self.label.deep_view(),
        }
    }
}

/// What a view is.
#[verifier::ext_equal]
pub struct Region {
    pub view: ViewId,
    pub active_tab: TabId,
    pub placement: TabPlacement,
    pub order: Seq<TabId>,
}

impl DeepView for ViewEntry {
    type V = Region;

    open spec fn deep_view(&self) -> Region {
        Region {
            view: self.view,
            active_tab: self.active_tab,
            placement: self.placement,
            order: self.order@,
        }
    }
}

/// What an arrangement is.
#[verifier::ext_equal]
pub struct Arrangement {
    pub views: Seq<Region>,
    pub tabs: Seq<TabEntry>,
    pub panes: Seq<Pane>,
    pub active_view: ViewId,
    pub first_view: ViewId,
}

impl View for Layout {
    type V = Arrangement;

    open spec fn view(&self) -> Arrangement {
        Arrangement {
            views: self.views.deep_view(),
            tabs: self.tabs@,
            panes: self.panes.deep_view(),
            active_view: self.active_view,
            first_view: self.first_view,
        }
    }
}

/// It is that pane.
pub open spec fn is_pane(pane: PaneId) -> spec_fn(Pane) -> bool {
    |entry: Pane| entry.pane == pane
}

/// A session is bound to it.
pub open spec fn holds_session(session: Seq<char>) -> spec_fn(Pane) -> bool {
    |entry: Pane| entry.session == Some(session)
}

/// It is that view.
pub open spec fn is_view(view: ViewId) -> spec_fn(Region) -> bool {
    |entry: Region| entry.view == view
}

/// It is that tab of that view.
pub open spec fn is_tab(view: ViewId, tab: TabId) -> spec_fn(TabEntry) -> bool {
    |entry: TabEntry| entry.view == view && entry.tab == tab
}

impl Arrangement {
    /// A pane by its id.
    pub open spec fn pane(self, pane: PaneId) -> Option<Pane> {
        first_item(self.panes, is_pane(pane))
    }

    /// A view by its id.
    pub open spec fn region(self, view: ViewId) -> Option<Region> {
        first_item(self.views, is_view(view))
    }

    /// A tab by its view and id.
    pub open spec fn tab(self, view: ViewId, tab: TabId) -> Option<TabEntry> {
        first_item(self.tabs, is_tab(view, tab))
    }

    /// The focused pane: the active one of the active view's active tab.
    pub open spec fn active_pane(self) -> Option<PaneId> {
        match self.region(self.active_view) {
            Some(region) => match self.tab(region.view, region.active_tab) {
                Some(tab) => Some(tab.active_pane),
                None => None,
            },
            None => None,
        }
    }

    /// The session of the focused pane.
    pub open spec fn focused_session(self) -> Option<Seq<char>> {
        match self.active_pane() {
            Some(pane) => match self.pane(pane) {
                Some(pane) => pane.session,
                None => None,
            },
            None => None,
        }
    }

    /// The first pane a session is bound to.
    pub open spec fn home_of(self, session: Seq<char>) -> Option<PaneId> {
        match first_item(self.panes, holds_session(session)) {
            Some(pane) => Some(pane.pane),
            None => None,
        }
    }

    /// A single view with a single tab with a single pane.
    pub open spec fn trivial(self) -> bool {
        self.views.len() <= 1 && self.tabs.len() <= 1 && self.panes.len() <= 1
    }

    /// The arrangement with another session bound to a pane.
    pub open spec fn with_session(self, pane: PaneId, session: Option<Seq<char>>) -> Arrangement {
        let at = first_place(self.panes, is_pane(pane));
        if at < self.panes.len() {
            Arrangement {
                panes: self.panes.update(at, Pane { session, ..self.panes[at] }),
                ..self
            }
        } else {
            self
        }
    }

    /// The arrangement with the focus on a pane: its view and its tab become
    /// the active ones, and it the active pane of its tab.
    pub open spec fn focused(self, pane: PaneId) -> Arrangement {
        match self.pane(pane) {
            None => self,
            Some(entry) => {
                let region = first_place(self.views, is_view(entry.view));
                let tab = first_place(self.tabs, is_tab(entry.view, entry.tab));
                Arrangement {
                    active_view: entry.view,
                    views: if region < self.views.len() {
                        self.views.update(
                            region,
                            Region { active_tab: entry.tab, ..self.views[region] },
                        )
                    } else {
                        self.views
                    },
                    tabs: if tab < self.tabs.len() {
                        self.tabs.update(
                            tab,
                            TabEntry { active_pane: pane, ..self.tabs[tab] },
                        )
                    } else {
                        self.tabs
                    },
                    ..self
                }
            },
        }
    }

    /// Pane ids are not shared.
    pub open spec fn ids_distinct(self) -> bool {
        forall|i: int, j: int|
            0 <= i < j < self.panes.len() ==> (#[trigger] self.panes[i]).pane != (
            #[trigger] self.panes[j]).pane
    }
}

impl Layout {
    /// The place of a pane.
    pub fn find_pane(&self, pane: PaneId) -> (r: Option<usize>)
        ensures
            (match r {
                Some(at) => {
                    &&& at < self.panes@.len()
                    &&& at == first_place(self@.panes, is_pane(pane))
                    &&& self@.pane(pane) == Some(self.panes@[at as int].deep_view())
                },
                None => {
                    &&& first_place(self@.panes, is_pane(pane)) == self.panes@.len()
                    &&& self@.pane(pane) is None
                },
            }),
    {
        let mut at: usize = 0;
        while at < self.panes.len()
            invariant
                at <= self.panes@.len(),
                forall|i: int| 0 <= i < at ==> !is_pane(pane)(#[trigger] self@.panes[i]),
            decreases self.panes@.len() - at,
        {
            proof {
                assert(self@.panes[at as int] == self.panes@[at as int].deep_view());
            }
            if self.panes[at].pane == pane {
                proof {
                    first_place_at(self@.panes, is_pane(pane), at as int);
                }
                return Some(at);
            }
            at += 1;
        }
        proof {
            first_place_at(self@.panes, is_pane(pane), at as int);
        }
        None
    }

    /// The place of a view.
    pub fn find_view(&self, view: ViewId) -> (r: Option<usize>)
        ensures
            (match r {
                Some(at) => {
                    &&& at < self.views@.len()
                    &&& at == first_place(self@.views, is_view(view))
                    &&& self@.region(view) == Some(self.views@[at as int].deep_view())
                },
                None => self@.region(view) is None,
            }),
    {
        let mut at: usize = 0;
        while at < self.views.len()
            invariant
                at <= self.views@.len(),
                forall|i: int| 0 <= i < at ==> !is_view(view)(#[trigger] self@.views[i]),
            decreases self.views@.len() - at,
        {
            proof {
                assert(self@.views[at as int] == self.views@[at as int].deep_view());
            }
            if self.views[at].view == view {
                proof {
                    first_place_at(self@.views, is_view(view), at as int);
                }
                return Some(at);
            }
            at += 1;
        }
        proof {
            first_place_at(self@.views, is_view(view), at as int);
        }
        None
    }

    /// A tab by its view and id.
    pub fn find_tab(&self, view: ViewId, tab: TabId) -> (r: Option<TabEntry>)
        ensures
            r == self@.tab(view, tab),
    {
        let mut at: usize = 0;
        while at < self.tabs.len()
            invariant
                at <= self.tabs@.len(),
                forall|i: int| 0 <= i < at ==> !is_tab(view, tab)(#[trigger] self@.tabs[i]),
            decreases self.tabs@.len() - at,
        {
            if self.tabs[at].view == view && self.tabs[at].tab == tab {
                proof {
                    first_place_at(self@.tabs, is_tab(view, tab), at as int);
                }
                return Some(self.tabs[at]);
            }
            at += 1;
        }
        proof {
            first_place_at(self@.tabs, is_tab(view, tab), at as int);
        }
        None
    }

    /// The focused pane.
    pub fn active_pane_id(&self) -> (r: Option<PaneId>)
        ensures
            r == self@.active_pane(),
    {
        match self.find_view(self.active_view) {
            Some(at) => match self.find_tab(self.views[at].view, self.views[at].active_tab) {
                Some(tab) => Some(tab.active_pane),
                None => None,
            },
            None => None,
        }
    }

    /// The session of a pane.
    pub fn session_of(&self, pane: PaneId) -> (r: Option<String>)
        ensures
            r.deep_view() == (match self@.pane(pane) {
                Some(pane) => pane.session,
                None => None,
            }),
    {
        match self.find_pane(pane) {
            Some(at) => copy_option(&self.panes[at].session),
            None => None,
        }
    }

    /// The session of the focused pane.
    pub fn focused_session(&self) -> (r: Option<String>)
        ensures
            r.deep_view() == self@.focused_session(),
    {
        match self.active_pane_id() {
            Some(pane) => self.session_of(pane),
            None => None,
        }
    }

    /// The view and tab of a pane.
    pub fn pane_location(&self, pane: PaneId) -> (r: Option<(ViewId, TabId)>)
        ensures
            r == (match self@.pane(pane) {
                Some(pane) => Some((pane.view, pane.tab)),
                None => None,
            }),
    {
        match self.find_pane(pane) {
            Some(at) => Some((self.panes[at].view, self.panes[at].tab)),
            None => None,
        }
    }

    /// The first pane a session is bound to.
    pub fn find_pane_with_session(&self, session_id: &str) -> (r: Option<PaneId>)
        ensures
            r == self@.home_of(session_id@),
    {
        let mut at: usize = 0;
        while at < self.panes.len()
            invariant
                at <= self.panes@.len(),
                forall|i: int|
                    0 <= i < at ==> !holds_session(session_id@)(#[trigger] self@.panes[i]),
            decreases self.panes@.len() - at,
        {
            proof {
                assert(self@.panes[at as int] == self.panes@[at as int].deep_view());
            }
            if is_text(&self.panes[at].session, session_id) {
                proof {
                    first_place_at(self@.panes, holds_session(session_id@), at as int);
                }
                return Some(self.panes[at].pane);
            }
            at += 1;
        }
        proof {
            first_place_at(self@.panes, holds_session(session_id@), at as int);
        }
        None
    }

    /// Nothing was split, and no tab or pane was added.
    pub fn is_trivial(&self) -> (r: bool)
        ensures
            r == self@.trivial(),
    {
        self.views.len() <= 1 && self.tabs.len() <= 1 && self.panes.len() <= 1
    }

    /// Binds another session to a pane. Returns whether there is such a pane.
    pub fn set_pane_session(&mut self, pane: PaneId, session: Option<String>) -> (r: bool)
        ensures
            final(self)@ == old(self)@.with_session(pane, session.deep_view()),
            r == old(self)@.pane(pane) is Some,
    {
        match self.find_pane(pane) {
            Some(at) => {
                let ghost before = self@;
                let mut entry: PaneEntry = self.panes.remove(at);
                entry.session = session;
                self.panes.insert(at, entry);
                proof {
                    assert(self@.panes =~= before.panes.update(
                        at as int,
                        Pane { session: session.deep_view(), ..before.panes[at as int] },
                    ));
                }
                true
            },
            None => false,
        }
    }
}

impl Layout {
    /// The place of a tab, or the number of tabs.
    fn place_of_tab(&self, view: ViewId, tab: TabId) -> (r: usize)
        ensures
            r == first_place(self@.tabs, is_tab(view, tab)),
            r <= self.tabs@.len(),
    {
        let mut at: usize = 0;
        while at < self.tabs.len()
            invariant
                at <= self.tabs@.len(),
                forall|i: int| 0 <= i < at ==> !is_tab(view, tab)(#[trigger] self@.tabs[i]),
            decreases self.tabs@.len() - at,
        {
            if self.tabs[at].view == view && self.tabs[at].tab == tab {
                proof {
                    first_place_at(self@.tabs, is_tab(view, tab), at as int);
                }
                return at;
            }
            at += 1;
        }
        proof {
            first_place_at(self@.tabs, is_tab(view, tab), at as int);
        }
        at
    }

    /// Puts the focus on a pane. Returns whether there is such a pane.
    pub fn focus_pane(&mut self, pane: PaneId) -> (r: bool)
        ensures
            final(self)@ == old(self)@.focused(pane),
            r == old(self)@.pane(pane) is Some,
    {
        let ghost before = self@;
        let (view, tab): (ViewId, TabId) = match self.pane_location(pane) {
            Some(place) => place,
            None => return false,
        };
        match self.find_view(view) {
            Some(at) => {
                let mut entry: ViewEntry = self.views.remove(at);
                entry.active_tab = tab;
                self.views.insert(at, entry);
                proof {
                    assert(self@.views =~= before.views.update(
                        at as int,
                        Region { active_tab: tab, ..before.views[at as int] },
                    ));
                }
            },
            None => {},
        }
        let at: usize = self.place_of_tab(view, tab);
        if at < self.tabs.len() {
            let entry: TabEntry = self.tabs[at];
            self.tabs.set(at, TabEntry { active_pane: pane, ..entry });
        }
        self.active_view = view;
        proof {
            assert(self@ =~= before.focused(pane));
        }
        true
    }
}

/// A pane that gets the focus is the focused one, where its view and its tab
/// are there.
pub proof fn a_focused_pane_is_active(layout: Arrangement, pane: PaneId)
    requires
        layout.pane(pane) is Some,
        layout.region(layout.pane(pane)->0.view) is Some,
        layout.tab(layout.pane(pane)->0.view, layout.pane(pane)->0.tab) is Some,
    ensures
        layout.focused(pane).active_pane() == Some(pane),
        layout.focused(pane).panes == layout.panes,
{
    let entry = layout.pane(pane)->0;
    let after = layout.focused(pane);
    let holds = is_view(entry.view);
    crate::list::first_place_bounds(layout.views, holds);
    let region = first_place(layout.views, holds);
    assert forall|i: int| 0 <= i < region implies !holds(#[trigger] after.views[i]) by {
        assert(!holds(layout.views[i]));
    }
    first_place_at(after.views, holds, region);
    let owns = is_tab(entry.view, entry.tab);
    crate::list::first_place_bounds(layout.tabs, owns);
    let tab = first_place(layout.tabs, owns);
    assert forall|i: int| 0 <= i < tab implies !owns(#[trigger] after.tabs[i]) by {
        assert(!owns(layout.tabs[i]));
    }
    first_place_at(after.tabs, owns, tab);
}

/// Binding a session to a pane is seen there, and nowhere else.
pub proof fn a_binding_touches_one_pane(
    layout: Arrangement,
    pane: PaneId,
    session: Option<Seq<char>>,
    other: PaneId,
)
    requires
        layout.ids_distinct(),
        layout.pane(pane) is Some,
    ensures
        layout.with_session(pane, session).pane(pane) is Some,
        layout.with_session(pane, session).pane(pane)->0.session == session,
        other != pane ==> layout.with_session(pane, session).pane(other) == layout.pane(other),
        layout.with_session(pane, session).active_pane() == layout.active_pane(),
        layout.with_session(pane, session).ids_distinct(),
{
    crate::list::first_place_bounds(layout.panes, is_pane(pane));
    let at = first_place(layout.panes, is_pane(pane));
    let after = layout.with_session(pane, session);
    assert forall|i: int| 0 <= i < at implies !is_pane(pane)(#[trigger] after.panes[i]) by {
        assert(!is_pane(pane)(layout.panes[i]));
    }
    first_place_at(after.panes, is_pane(pane), at);
    if other != pane {
        crate::list::first_place_bounds(layout.panes, is_pane(other));
        let there = first_place(layout.panes, is_pane(other));
        assert forall|i: int| 0 <= i < there implies !is_pane(other)(
            #[trigger] after.panes[i],
        ) by {
            assert(!is_pane(other)(layout.panes[i]));
        }
        first_place_at(after.panes, is_pane(other), there);
    }
    assert forall|i: int, j: int| 0 <= i < j < after.panes.len() implies (
    #[trigger] after.panes[i]).pane != (#[trigger] after.panes[j]).pane by {
        assert(layout.panes[i].pane != layout.panes[j].pane);
    }
}

} // verus!
