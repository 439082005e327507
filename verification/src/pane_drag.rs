//! Dragging tabs, panes and sessions over the workspace: what a sample
//! resolves to, and what a drop commits.
use vstd::prelude::*;
use crate::layout::{Arrangement, Direction, Layout, Pane, PaneEntry, PaneId, TabId, ViewId};
use crate::list::{first_item, first_place_at};
use crate::text::{copy_option, is_text, same_option};

verus! {

/// What is dragged.
#[derive(Debug, Clone, Copy, PartialEq, Eq, Structural)]
pub enum DragSource {
    TabChip(TabId, ViewId),
    PaneHeader(PaneId),
    SidebarSession,
}

/// Where a drop would land.
#[derive(Debug, Clone, Copy, PartialEq, Eq, Structural)]
pub enum DropPlan {
    Nowhere,
    SplitPane { pane: PaneId, direction: Direction },
    SplitView { view: ViewId, direction: Direction },
    /// Into a view's tabs, before another where one is named.
    MoveIntoPane { view: ViewId, tab_before: Option<TabId> },
    ReorderStrip { view: ViewId, before: Option<TabId> },
    /// The session already has a pane.
    FocusPane { pane: PaneId },
}

/// What the layout engine is asked to do.
#[derive(Debug, Clone, Copy, PartialEq, Eq, Structural)]
pub enum LayoutOp {
    FocusPane { pane: PaneId },
    FocusTab { view: ViewId, tab: TabId },
    ClosePane { pane: PaneId },
    CloseTab { view: ViewId, tab: TabId },
    CloseFocusedView,
    SplitFocusedPane { direction: Direction },
    SplitFocusedView { direction: Direction },
    /// A chat pane beside a pane.
    SplitPane { pane: PaneId, direction: Direction },
    /// A view with a chat pane beside a view.
    SplitView { view: ViewId, direction: Direction },
    /// A tab with a pane of a tool.
    AddTab { view: ViewId, terminal: bool },
    ReorderTab { tab: TabId, view: ViewId, before: Option<TabId> },
    PaneToTab { pane: PaneId, view: ViewId },
    MergeTab { tab: TabId, pane: PaneId, direction: Direction },
    MovePane { pane: PaneId, target: PaneId, direction: Direction },
    TabToView { tab: TabId, view: ViewId, direction: Direction },
    PaneToView { pane: PaneId, view: ViewId, direction: Direction },
}

/// A measured rectangle. Its four numbers are fractional and stand here by
/// their bit patterns, so that two rectangles are equal where their numbers
/// are.
#[derive(Debug, Clone, Copy, PartialEq, Eq, Structural)]
pub struct Rect {
    pub x: u32,
    pub y: u32,
    pub w: u32,
    pub h: u32,
}

/// How a preview is washed.
#[derive(Debug, Clone, Copy, PartialEq, Eq, Structural)]
pub enum PreviewKind {
    /// All of the target.
    FullTarget,
    /// A part of it, by the number of the wash.
    Part(u8),
}

/// What is washed while a drop would land.
#[derive(Debug, Clone, Copy, PartialEq, Eq, Structural)]
pub struct Preview {
    pub rect: Rect,
    pub kind: PreviewKind,
}

/// A drag and what its last sample resolved to.
#[derive(Debug)]
pub struct DragSplit {
    pub source: DragSource,
    pub session_id: Option<String>,
    /// The outlet the sample was taken over.
    pub root: Rect,
    pub plan: DropPlan,
    pub preview: Option<Preview>,
    /// The pane the sample was over, which steadies the next one.
    pub anchor: Option<PaneId>,
}

/// What a drag is.
#[verifier::ext_equal]
pub struct Drag {
    pub source: DragSource,
    pub session: Option<Seq<char>>,
    pub root: Rect,
    pub plan: DropPlan,
    pub preview: Option<Preview>,
    pub anchor: Option<PaneId>,
}

impl DeepView for DragSplit {
    type V = Drag;

    open spec fn deep_view(&self) -> Drag {
        Drag {
            source: self.source,
            session: self.session_id.deep_view(),
            root: self.root,
            plan: self.plan,
            preview: self.preview,
            anchor: self.anchor,
        }
    }
}

/// The dropped payload.
#[derive(Debug)]
pub struct DragPayload {
    pub source: DragSource,
    pub session_id: Option<String>,
}

impl Drag {
    /// The drag still belongs to a payload.
    pub open spec fn belongs_to(self, source: DragSource, session: Option<Seq<char>>) -> bool {
        self.source == source && self.session == session
    }

    /// The plan a released sidebar session commits: none outside, and none
    /// for a drag of anything else.
    pub open spec fn sidebar_plan(self, session: Seq<char>) -> Option<DropPlan> {
        if self.source is SidebarSession && self.session == Some(session) && !(
        self.plan is Nowhere) {
            Some(self.plan)
        } else {
            None
        }
    }
}

/// The plan a released sidebar session commits. Stale samples and drops
/// outside commit nothing, even where the session is already open.
pub fn sidebar_commit_plan(state: &DragSplit, session_id: &str) -> (r: Option<DropPlan>)
    ensures
        r == state.deep_view().sidebar_plan(session_id@),
{
    match (&state.source, &state.plan) {
        (DragSource::SidebarSession, DropPlan::Nowhere) => None,
        (DragSource::SidebarSession, _) => {
            if is_text(&state.session_id, session_id) {
                Some(state.plan)
            } else {
                None
            }
        },
        _ => None,
    }
}

/// Whether the stored drag still belongs to the payload being committed.
pub fn split_drag_matches_payload(state: &DragSplit, payload: &DragPayload) -> (r: bool)
    ensures
        r == state.deep_view().belongs_to(payload.source, payload.session_id.deep_view()),
{
    state.source == payload.source && same_option(&state.session_id, &payload.session_id)
}

/// The operation that carries a dropped tab or pane to its plan.
pub open spec fn op_of(source: DragSource, plan: DropPlan) -> Option<LayoutOp> {
    match (source, plan) {
        (_, DropPlan::Nowhere) => None,
        (DragSource::SidebarSession, _) => None,
        (_, DropPlan::FocusPane { .. }) => None,
        (DragSource::TabChip(tab, from), DropPlan::MoveIntoPane { view, tab_before }) => Some(
            if from == view && tab_before is None {
                LayoutOp::FocusTab { view, tab }
            } else {
                LayoutOp::ReorderTab { tab, view, before: tab_before }
            },
        ),
        (DragSource::PaneHeader(pane), DropPlan::MoveIntoPane { view, .. }) => Some(
            LayoutOp::PaneToTab { pane, view },
        ),
        (DragSource::TabChip(tab, _), DropPlan::SplitPane { pane, direction }) => Some(
            LayoutOp::MergeTab { tab, pane, direction },
        ),
        (DragSource::PaneHeader(from), DropPlan::SplitPane { pane, direction }) => Some(
            LayoutOp::MovePane { pane: from, target: pane, direction },
        ),
        (DragSource::TabChip(tab, _), DropPlan::SplitView { view, direction }) => Some(
            LayoutOp::TabToView { tab, view, direction },
        ),
        (DragSource::PaneHeader(pane), DropPlan::SplitView { view, direction }) => Some(
            LayoutOp::PaneToView { pane, view, direction },
        ),
        (DragSource::TabChip(tab, _), DropPlan::ReorderStrip { view, before }) => Some(
            LayoutOp::ReorderTab { tab, view, before },
        ),
        (DragSource::PaneHeader(pane), DropPlan::ReorderStrip { view, .. }) => Some(
            LayoutOp::PaneToTab { pane, view },
        ),
    }
}

/// The operation that carries a dropped tab or pane to its plan, if any.
pub fn apply_drop_plan(plan: DropPlan, source: DragSource) -> (r: Option<LayoutOp>)
    ensures
        r == op_of(source, plan),
{
    match (source, plan) {
        (_, DropPlan::Nowhere) => None,
        (DragSource::SidebarSession, _) => None,
        (_, DropPlan::FocusPane { .. }) => None,
        (DragSource::TabChip(tab, from), DropPlan::MoveIntoPane { view, tab_before }) => {
            if from == view && tab_before.is_none() {
                Some(LayoutOp::FocusTab { view, tab })
            } else {
                Some(LayoutOp::ReorderTab { tab, view, before: tab_before })
            }
        },
        (DragSource::PaneHeader(pane), DropPlan::MoveIntoPane { view, .. }) => {
            Some(LayoutOp::PaneToTab { pane, view })
        },
        (DragSource::TabChip(tab, _), DropPlan::SplitPane { pane, direction }) => {
            Some(LayoutOp::MergeTab { tab, pane, direction })
        },
        (DragSource::PaneHeader(from), DropPlan::SplitPane { pane, direction }) => {
            Some(LayoutOp::MovePane { pane: from, target: pane, direction })
        },
        (DragSource::TabChip(tab, _), DropPlan::SplitView { view, direction }) => {
            Some(LayoutOp::TabToView { tab, view, direction })
        },
        (DragSource::PaneHeader(pane), DropPlan::SplitView { view, direction }) => {
            Some(LayoutOp::PaneToView { pane, view, direction })
        },
        (DragSource::TabChip(tab, _), DropPlan::ReorderStrip { view, before }) => {
            Some(LayoutOp::ReorderTab { tab, view, before })
        },
        (DragSource::PaneHeader(pane), DropPlan::ReorderStrip { view, .. }) => {
            Some(LayoutOp::PaneToTab { pane, view })
        },
    }
}

/// How a dropped sidebar session enters the workspace.
#[derive(Debug, Clone, Copy, PartialEq, Eq, Structural)]
pub enum SidebarDrop {
    /// Nothing happens but a redraw.
    Redraw,
    /// The pane it already has is focused.
    Focus { pane: PaneId },
    /// A new pane beside a pane is bound to it.
    SplitPane { pane: PaneId, direction: Direction },
    /// The pane of a new view is bound to it.
    SplitView { view: ViewId, direction: Direction },
    /// The pane of a new tab is bound to it, before another tab where one is
    /// named.
    AddTab { view: ViewId, before: Option<TabId> },
}

/// How a sidebar session enters: a session that is already open only gets the
/// focus; else a new pane is made where the plan says.
pub open spec fn sidebar_drop(
    plan: DropPlan,
    session: Option<Seq<char>>,
    layout: Arrangement,
) -> SidebarDrop {
    let home = match session {
        Some(session) => layout.home_of(session),
        None => None,
    };
    if plan is Nowhere {
        SidebarDrop::Redraw
    } else if home is Some {
        SidebarDrop::Focus { pane: home->0 }
    } else {
        match plan {
            DropPlan::Nowhere => SidebarDrop::Redraw,
            DropPlan::FocusPane { pane } => SidebarDrop::Focus { pane },
            DropPlan::SplitPane { pane, direction } => SidebarDrop::SplitPane { pane, direction },
            DropPlan::SplitView { view, direction } => SidebarDrop::SplitView { view, direction },
            DropPlan::MoveIntoPane { view, tab_before } => SidebarDrop::AddTab {
                view,
                before: tab_before,
            },
            DropPlan::ReorderStrip { view, .. } => SidebarDrop::AddTab { view, before: None },
        }
    }
}

/// How a dropped sidebar session enters the workspace. `solo` is left where a
/// valid target was hit, so that the destination shows.
pub fn commit_sidebar_split(
    plan: DropPlan,
    session_id: &Option<String>,
    layout: &Layout,
    solo: bool,
) -> (r: (SidebarDrop, bool))
    ensures
        r.0 == sidebar_drop(plan, session_id.deep_view(), layout@),
        r.1 == (solo && plan is Nowhere),
{
    match plan {
        DropPlan::Nowhere => return (SidebarDrop::Redraw, solo),
        _ => {},
    }
    match session_id {
        Some(session) => match layout.find_pane_with_session(session.as_str()) {
            Some(pane) => return (SidebarDrop::Focus { pane }, false),
            None => {},
        },
        None => {},
    }
    let entry: SidebarDrop = match plan {
        DropPlan::Nowhere => SidebarDrop::Redraw,
        DropPlan::FocusPane { pane } => SidebarDrop::Focus { pane },
        DropPlan::SplitPane { pane, direction } => SidebarDrop::SplitPane { pane, direction },
        DropPlan::SplitView { view, direction } => SidebarDrop::SplitView { view, direction },
        DropPlan::MoveIntoPane { view, tab_before } => {
            SidebarDrop::AddTab { view, before: tab_before }
        },
        DropPlan::ReorderStrip { view, .. } => SidebarDrop::AddTab { view, before: None },
    };
    (entry, false)
}

/// What the engine made for a sidebar session.
#[derive(Debug, Clone, Copy, PartialEq, Eq, Structural)]
pub enum Made {
    Refused,
    Pane(PaneId),
    View(ViewId),
    Tab(ViewId, TabId),
}

/// It lies in that view.
pub open spec fn in_view(view: ViewId) -> spec_fn(Pane) -> bool {
    |entry: Pane| entry.view == view
}

/// It lies in that tab.
pub open spec fn in_tab(view: ViewId, tab: TabId) -> spec_fn(Pane) -> bool {
    |entry: Pane| entry.view == view && entry.tab == tab
}

/// The pane a session is bound to: the one that was made, or the first of the
/// view or tab that was made.
pub open spec fn made_pane(made: Made, layout: Arrangement) -> Option<PaneId> {
    match made {
        Made::Refused => None,
        Made::Pane(pane) => Some(pane),
        Made::View(view) => id_of(first_item(layout.panes, in_view(view))),
        Made::Tab(view, tab) => id_of(first_item(layout.panes, in_tab(view, tab))),
    }
}

/// The id of a pane that was found.
pub open spec fn id_of(entry: Option<Pane>) -> Option<PaneId> {
    match entry {
        Some(entry) => Some(entry.pane),
        None => None,
    }
}

/// The pane to bind a dropped session to, once the engine has answered.
pub fn bind_sidebar_session(made: Made, layout: &Layout) -> (r: Option<PaneId>)
    ensures
        r == made_pane(made, layout@),
{
    match made {
        Made::Refused => None,
        Made::Pane(pane) => Some(pane),
        Made::View(view) => {
            let mut at: usize = 0;
            while at < layout.panes.len()
                invariant
                    at <= layout.panes@.len(),
                    made == Made::View(view),
                    forall|i: int| 0 <= i < at ==> !in_view(view)(#[trigger] layout@.panes[i]),
                decreases layout.panes@.len() - at,
            {
                proof {
                    assert(layout@.panes[at as int] == layout.panes@[at as int].deep_view());
                }
                if layout.panes[at].view == view {
                    proof {
                        first_place_at(layout@.panes, in_view(view), at as int);
                    }
                    return Some(layout.panes[at].pane);
                }
                at += 1;
            }
            proof {
                first_place_at(layout@.panes, in_view(view), at as int);
            }
            None
        },
        Made::Tab(view, tab) => {
            let mut at: usize = 0;
            while at < layout.panes.len()
                invariant
                    at <= layout.panes@.len(),
                    made == Made::Tab(view, tab),
                    forall|i: int|
                        0 <= i < at ==> !in_tab(view, tab)(#[trigger] layout@.panes[i]),
                decreases layout.panes@.len() - at,
            {
                proof {
                    assert(layout@.panes[at as int] == layout.panes@[at as int].deep_view());
                }
                let entry: &PaneEntry = &layout.panes[at];
                if entry.view == view && entry.tab == tab {
                    proof {
                        first_place_at(layout@.panes, in_tab(view, tab), at as int);
                    }
                    return Some(entry.pane);
                }
                at += 1;
            }
            proof {
                first_place_at(layout@.panes, in_tab(view, tab), at as int);
            }
            None
        },
    }
}

/// What a drop leads to.
#[derive(Debug, Clone, Copy, PartialEq, Eq, Structural)]
pub enum DropCommit {
    Nothing,
    Redraw,
    /// A sidebar session enters by the plan.
    Sidebar { plan: DropPlan },
    /// The engine carries the drop out; nothing but a redraw where it refuses.
    Op { op: LayoutOp },
}

/// What a drop over the outlet leads to.
pub open spec fn commit_of(
    drag: Option<Drag>,
    source: DragSource,
    session: Option<Seq<char>>,
) -> DropCommit {
    match drag {
        None => DropCommit::Nothing,
        Some(drag) => if !drag.belongs_to(source, session) {
            DropCommit::Redraw
        } else if source is SidebarSession {
            DropCommit::Sidebar { plan: drag.plan }
        } else {
            match op_of(source, drag.plan) {
                Some(op) => DropCommit::Op { op },
                None => DropCommit::Redraw,
            }
        },
    }
}

/// A release over the outlet. The drag ends; one that belongs to another
/// payload commits nothing.
pub fn commit_split_drop(drag: &mut Option<DragSplit>, payload: &DragPayload) -> (r: DropCommit)
    ensures
        *final(drag) is None,
        r == commit_of(
            old(drag).deep_view(),
            payload.source,
            payload.session_id.deep_view(),
        ),
{
    let state: DragSplit = match drag.take() {
        Some(state) => state,
        None => return DropCommit::Nothing,
    };
    if !split_drag_matches_payload(&state, payload) {
        return DropCommit::Redraw;
    }
    match payload.source {
        DragSource::SidebarSession => DropCommit::Sidebar { plan: state.plan },
        _ => match apply_drop_plan(state.plan, payload.source) {
            Some(op) => DropCommit::Op { op },
            None => DropCommit::Redraw,
        },
    }
}

/// A sidebar session dropped on the only pane. Without a drag, or with one of
/// another payload, only a redraw follows.
pub fn accept_sidebar_session_drop(drag: &mut Option<DragSplit>, payload: &DragPayload) -> (r:
    Option<DropPlan>)
    ensures
        *final(drag) is None,
        r == (match old(drag).deep_view() {
            Some(drag) if drag.belongs_to(
                payload.source,
                payload.session_id.deep_view(),
            ) => Some(drag.plan),
            _ => None,
        }),
{
    match drag.take() {
        Some(state) => {
            if split_drag_matches_payload(&state, payload) {
                Some(state.plan)
            } else {
                None
            }
        },
        None => None,
    }
}

/// Ends a drag without a commit. Returns whether there was one.
pub fn cancel_split_drag(drag: &mut Option<DragSplit>) -> (r: bool)
    ensures
        *final(drag) is None,
        r == *old(drag) is Some,
{
    drag.take().is_some()
}

/// What a sample resolved to.
#[derive(Debug, Clone, Copy, PartialEq, Eq, Structural)]
pub struct Resolution {
    pub plan: DropPlan,
    pub preview: Option<Preview>,
    pub anchor: Option<PaneId>,
}

impl Resolution {
    /// A sample that is over nothing.
    pub open spec fn none() -> Resolution {
        Resolution { plan: DropPlan::Nowhere, preview: None, anchor: None }
    }

    /// What a drag of a payload is once a sample over an outlet resolved to
    /// this.
    pub open spec fn stored(self, source: DragSource, session: Option<Seq<char>>, root: Rect) -> Drag {
        Drag {
            source,
            session,
            root,
            plan: self.plan,
            preview: self.preview,
            anchor: self.anchor,
        }
    }
}

/// It is painted for that pane.
pub open spec fn paints(pane: PaneId) -> spec_fn(PanePlace) -> bool {
    |place: PanePlace| place.pane == pane
}

/// The wash over a whole pane, where it is painted.
pub open spec fn full_preview(painted: Seq<PanePlace>, pane: PaneId) -> Option<Preview> {
    match first_item(painted, paints(pane)) {
        Some(place) => Some(Preview { rect: place.rect, kind: PreviewKind::FullTarget }),
        None => None,
    }
}

fn preview_of_pane(painted: &Vec<PanePlace>, pane: PaneId) -> (r: Option<Preview>)
    ensures
        r == full_preview(painted@, pane),
{
    let mut at: usize = 0;
    while at < painted.len()
        invariant
            at <= painted@.len(),
            forall|i: int| 0 <= i < at ==> !paints(pane)(#[trigger] painted@[i]),
        decreases painted@.len() - at,
    {
        if painted[at].pane == pane {
            proof {
                first_place_at(painted@, paints(pane), at as int);
            }
            return Some(Preview { rect: painted[at].rect, kind: PreviewKind::FullTarget });
        }
        at += 1;
    }
    proof {
        first_place_at(painted@, paints(pane), at as int);
    }
    None
}

/// A sample of a session that is already open, inside the outlet, resolves to
/// its pane, which is washed where it is painted; any other to what the
/// geometry says.
pub open spec fn resolution_of(
    layout: Arrangement,
    session: Option<Seq<char>>,
    inside: bool,
    painted: Seq<PanePlace>,
    geometric: Resolution,
) -> Resolution {
    let home = match session {
        Some(session) => layout.home_of(session),
        None => None,
    };
    if inside && home is Some {
        Resolution {
            plan: DropPlan::FocusPane { pane: home->0 },
            preview: full_preview(painted, home->0),
            anchor: home,
        }
    } else {
        geometric
    }
}

/// Where a sample of a session that is already open leads: to its pane. A pane
/// of a hidden tab is not painted and gets no preview.
pub fn existing_sidebar_session_resolution(
    layout: &Layout,
    session_id: &Option<String>,
    inside: bool,
    painted: &Vec<PanePlace>,
) -> (r: Option<Resolution>)
    ensures
        ({
            let home = match session_id.deep_view() {
                Some(session) => layout@.home_of(session),
                None => None,
            };
            r == (if inside && home is Some {
                Some(
                    Resolution {
                        plan: DropPlan::FocusPane { pane: home->0 },
                        preview: full_preview(painted@, home->0),
                        anchor: home,
                    },
                )
            } else {
                None
            })
        }),
{
    if !inside {
        return None;
    }
    match session_id {
        Some(session) => match layout.find_pane_with_session(session.as_str()) {
            Some(pane) => Some(
                Resolution {
                    plan: DropPlan::FocusPane { pane },
                    preview: preview_of_pane(painted, pane),
                    anchor: Some(pane),
                },
            ),
            None => None,
        },
        None => None,
    }
}

/// Stores a sample's resolution. Returns whether anything changed, so that
/// only then a frame is drawn.
fn store_sample(drag: &mut Option<DragSplit>, next: DragSplit) -> (r: bool)
    ensures
        final(drag).deep_view() == Some(next.deep_view()),
        r == (old(drag).deep_view() != Some(next.deep_view())),
{
    let same: bool = match drag {
        Some(state) => state.source == next.source && same_option(
            &state.session_id,
            &next.session_id,
        ) && state.root == next.root && state.plan == next.plan && state.preview == next.preview
            && state.anchor == next.anchor,
        None => false,
    };
    *drag = Some(next);
    !same
}

/// A sample over the outlet, which lies at `root`. `painted` are the panes
/// that take part, and `geometric` is what their geometry says of the sample.
pub fn apply_split_drag_move(
    drag: &mut Option<DragSplit>,
    payload: &DragPayload,
    layout: &Layout,
    root: Rect,
    inside: bool,
    painted: &Vec<PanePlace>,
    geometric: Resolution,
) -> (r: bool)
    ensures
        ({
            let session = payload.session_id.deep_view();
            let next = resolution_of(layout@, session, inside, painted@, geometric).stored(
                payload.source,
                session,
                root,
            );
            &&& final(drag).deep_view() == Some(next)
            &&& r == (old(drag).deep_view() != Some(next))
        }),
{
    let resolution: Resolution = match existing_sidebar_session_resolution(
        layout,
        &payload.session_id,
        inside,
        painted,
    ) {
        Some(resolution) => resolution,
        None => geometric,
    };
    store_sample(
        drag,
        DragSplit {
            source: payload.source,
            session_id: copy_option(&payload.session_id),
            root,
            plan: resolution.plan,
            preview: resolution.preview,
            anchor: resolution.anchor,
        },
    )
}

/// A sample over the only pane, in an outlet at `root`. Only sidebar sessions
/// are dragged there, and the workspace's outlet wins where it shows. A
/// focused pane that is not in the arrangement takes no drop.
pub fn apply_single_pane_drag_move(
    drag: &mut Option<DragSplit>,
    payload: &DragPayload,
    layout: &Layout,
    workspace_mode: bool,
    root: Rect,
    inside: bool,
    painted: &Vec<PanePlace>,
    geometric: Resolution,
) -> (r: bool)
    ensures
        ({
            let session = payload.session_id.deep_view();
            let located = layout@.active_pane() is Some && layout@.pane(
                layout@.active_pane()->0,
            ) is Some;
            let resolution = if located {
                resolution_of(layout@, session, inside, painted@, geometric)
            } else {
                Resolution::none()
            };
            let next = resolution.stored(payload.source, session, root);
            if workspace_mode || !(payload.source is SidebarSession) {
                &&& !r
                &&& *final(drag) == *old(drag)
            } else {
                &&& final(drag).deep_view() == Some(next)
                &&& r == (old(drag).deep_view() != Some(next))
            }
        }),
{
    if workspace_mode {
        return false;
    }
    match payload.source {
        DragSource::SidebarSession => {},
        _ => return false,
    }
    let located: bool = match layout.active_pane_id() {
        Some(pane) => layout.find_pane(pane).is_some(),
        None => false,
    };
    if located {
        return apply_split_drag_move(drag, payload, layout, root, inside, painted, geometric);
    }
    store_sample(
        drag,
        DragSplit {
            source: payload.source,
            session_id: copy_option(&payload.session_id),
            root,
            plan: DropPlan::Nowhere,
            preview: None,
            anchor: None,
        },
    )
}

/// A sample of a pressed sidebar session, wherever the pointer is. With no
/// outlet on the screen the drag ends. `painted` and `geometric` are the
/// geometry of the workspace, or of the only pane, and what it says of the
/// sample. Returns whether anything changed.
pub fn resolve_sidebar_pointer(
    drag: &mut Option<DragSplit>,
    session_id: &str,
    outlet: Option<Rect>,
    layout: &Layout,
    workspace_mode: bool,
    inside: bool,
    painted: &Vec<PanePlace>,
    geometric: Resolution,
) -> (r: bool)
    ensures
        ({
            let located = layout@.active_pane() is Some && layout@.pane(
                layout@.active_pane()->0,
            ) is Some;
            let resolution = if workspace_mode || located {
                resolution_of(layout@, Some(session_id@), inside, painted@, geometric)
            } else {
                Resolution::none()
            };
            match outlet {
                None => {
                    &&& *final(drag) is None
                    &&& r == (*old(drag) is Some)
                },
                Some(root) => {
                    let next = resolution.stored(
                        DragSource::SidebarSession,
                        Some(session_id@),
                        root,
                    );
                    &&& final(drag).deep_view() == Some(next)
                    &&& r == (old(drag).deep_view() != Some(next))
                },
            }
        }),
{
    let root: Rect = match outlet {
        Some(root) => root,
        None => return cancel_split_drag(drag),
    };
    let payload: DragPayload = DragPayload {
        source: DragSource::SidebarSession,
        session_id: Some(session_id.to_owned()),
    };
    if workspace_mode {
        apply_split_drag_move(drag, &payload, layout, root, inside, painted, geometric)
    } else {
        apply_single_pane_drag_move(
            drag,
            &payload,
            layout,
            false,
            root,
            inside,
            painted,
            geometric,
        )
    }
}

/// A pressed sidebar session.
#[derive(Debug)]
pub struct SidebarPointer {
    pub session_id: String,
    /// The pointer has traveled far enough to drag.
    pub dragging: bool,
}

/// What a move of the pointer asks for.
#[derive(Debug)]
pub enum PointerMove {
    Nothing,
    /// The press is forgotten and its preview goes.
    Cancel,
    /// The sample is resolved; the cursor changes where the drag begins.
    Resolve { session_id: String, began: bool },
}

/// Follows the pointer of a pressed sidebar session. A button that was let go
/// elsewhere, or another drag, ends it. `far` says that the pointer has
/// traveled past the drag threshold.
pub fn move_sidebar_session_pointer(
    pointer: &mut Option<SidebarPointer>,
    left_pressed: bool,
    other_drag: bool,
    far: bool,
) -> (r: PointerMove)
    ensures
        ({
            let before = *old(pointer);
            if !left_pressed || other_drag {
                &&& *final(pointer) is None
                &&& r == (if before is Some {
                    PointerMove::Cancel
                } else {
                    PointerMove::Nothing
                })
            } else {
                match before {
                    None => *final(pointer) is None && r is Nothing,
                    Some(press) => {
                        &&& *final(pointer) is Some
                        &&& final(pointer)->0.session_id@ == press.session_id@
                        &&& final(pointer)->0.dragging == (press.dragging || far)
                        &&& r is Resolve <==> press.dragging || far
                        &&& !(r is Resolve) ==> r is Nothing
                        &&& r is Resolve ==> {
                            &&& r->session_id@ == press.session_id@
                            &&& r->began == !press.dragging
                        }
                    },
                }
            }
        }),
{
    if !left_pressed || other_drag {
        return match pointer.take() {
            Some(_) => PointerMove::Cancel,
            None => PointerMove::Nothing,
        };
    }
    match pointer.take() {
        None => PointerMove::Nothing,
        Some(press) => {
            let was: bool = press.dragging;
            let dragging: bool = was || far;
            let id: String = press.session_id.clone();
            *pointer = Some(SidebarPointer { session_id: press.session_id, dragging });
            if dragging {
                PointerMove::Resolve { session_id: id, began: !was }
            } else {
                PointerMove::Nothing
            }
        },
    }
}

/// Ends a press on a sidebar session. Returns the session where it was
/// dragged: its click is suppressed and its drop is resolved once more.
pub fn release_sidebar_session_pointer(pointer: &mut Option<SidebarPointer>) -> (r: Option<String>)
    ensures
        *final(pointer) is None,
        r.deep_view() == (match *old(pointer) {
            Some(press) if press.dragging => Some(press.session_id@),
            _ => None,
        }),
{
    match pointer.take() {
        Some(press) => {
            if press.dragging {
                Some(press.session_id)
            } else {
                None
            }
        },
        None => None,
    }
}

/// What a released sidebar session does: it is accepted over a valid target,
/// and the drag is cancelled otherwise.
pub fn finish_sidebar_drag(drag: &mut Option<DragSplit>, session_id: &str) -> (r: Option<DropPlan>)
    ensures
        *final(drag) is None,
        r == (match old(drag).deep_view() {
            Some(drag) => drag.sidebar_plan(session_id@),
            None => None,
        }),
{
    match drag.take() {
        Some(state) => sidebar_commit_plan(&state, session_id),
        None => None,
    }
}

/// Where a painted pane lies, if it shows: only panes of a view's active tab
/// take part in a drag.
pub fn pane_on_screen(layout: &Layout, pane: PaneId) -> (r: Option<(ViewId, TabId)>)
    ensures
        r == (match layout@.pane(pane) {
            Some(entry) => match layout@.region(entry.view) {
                Some(region) if region.active_tab == entry.tab => Some((entry.view, entry.tab)),
                _ => None,
            },
            None => None,
        }),
{
    match layout.pane_location(pane) {
        Some((view, tab)) => match layout.find_view(view) {
            Some(at) => {
                if layout.views[at].active_tab == tab {
                    Some((view, tab))
                } else {
                    None
                }
            },
            None => None,
        },
        None => None,
    }
}

/// How many tabs a view has.
pub open spec fn tab_count(tabs: Seq<crate::layout::TabEntry>, view: ViewId) -> nat
    decreases tabs.len(),
{
    if tabs.len() == 0 {
        0
    } else {
        tab_count(tabs.drop_last(), view) + (if tabs.last().view == view {
            1nat
        } else {
            0nat
        })
    }
}

/// How many tabs a painted view has, if it is still there.
pub fn view_on_screen(layout: &Layout, view: ViewId) -> (r: Option<usize>)
    ensures
        (match r {
            Some(n) => layout@.region(view) is Some && n == tab_count(layout@.tabs, view),
            None => layout@.region(view) is None,
        }),
{
    if layout.find_view(view).is_none() {
        return None;
    }
    let mut n: usize = 0;
    let mut i: usize = 0;
    proof {
        assert(layout@.tabs.take(0) =~= Seq::<crate::layout::TabEntry>::empty());
    }
    while i < layout.tabs.len()
        invariant
            i <= layout.tabs@.len(),
            n <= i,
            n == tab_count(layout@.tabs.take(i as int), view),
        decreases layout.tabs@.len() - i,
    {
        proof {
            let front = layout@.tabs.take(i + 1);
            assert(front.drop_last() =~= layout@.tabs.take(i as int));
            assert(front.last() == layout@.tabs[i as int]);
        }
        if layout.tabs[i].view == view {
            n += 1;
        }
        i += 1;
    }
    proof {
        assert(layout@.tabs.take(layout@.tabs.len() as int) =~= layout@.tabs);
    }
    Some(n)
}

/// A painted chip. `place` is a key that orders chips from left to right.
#[derive(Debug, Clone, Copy, PartialEq, Eq, Structural)]
pub struct ChipPlace {
    pub tab: TabId,
    pub place: i64,
}

/// One chip stands before another: further left, and by its id at one place.
pub open spec fn chip_before(a: ChipPlace, b: ChipPlace) -> bool {
    a.place < b.place || (a.place == b.place && a.tab.0 <= b.tab.0)
}

/// Chips from left to right.
pub open spec fn chips_sorted(chips: Seq<ChipPlace>) -> bool {
    forall|i: int, j: int|
        0 <= i < j < chips.len() ==> chip_before(#[trigger] chips[i], #[trigger] chips[j])
}

/// Puts the chips of a strip in their display order.
pub fn sort_chips(chips: Vec<ChipPlace>) -> (r: Vec<ChipPlace>)
    ensures
        chips_sorted(r@),
        r@.to_multiset() == chips@.to_multiset(),
{
    let mut out: Vec<ChipPlace> = Vec::new();
    let mut i: usize = 0;
    proof {
        assert(chips@.take(0) =~= Seq::<ChipPlace>::empty());
    }
    while i < chips.len()
        invariant
            i <= chips@.len(),
            out@.len() == i,
            chips_sorted(out@),
            out@.to_multiset() == chips@.take(i as int).to_multiset(),
        decreases chips@.len() - i,
    {
        let chip: ChipPlace = chips[i];
        let mut at: usize = out.len();
        while at > 0 && (chip.place < out[at - 1].place || (chip.place == out[at - 1].place
            && chip.tab.0 < out[at - 1].tab.0))
            invariant
                at <= out@.len(),
                chips_sorted(out@),
                forall|k: int| at <= k < out@.len() ==> chip_before(chip, #[trigger] out@[k]),
            decreases at,
        {
            at -= 1;
        }
        let ghost before = out@;
        out.insert(at, chip);
        proof {
            broadcast use vstd::seq_lib::group_to_multiset_ensures;

            let front = chips@.take(i + 1);
            assert(front =~= chips@.take(i as int).push(chip));
            assert(out@.to_multiset() =~= before.to_multiset().insert(chip));
            assert(front.to_multiset() =~= chips@.take(i as int).to_multiset().insert(chip));
            assert forall|a: int, b: int| 0 <= a < b < out@.len() implies chip_before(
                #[trigger] out@[a],
                #[trigger] out@[b],
            ) by {
                if b == at {
                    assert(out@[a] == before[a]);
                    if at > 0 && a < at - 1 {
                        assert(chip_before(before[a], before[at - 1]));
                    }
                } else if a == at {
                    assert(out@[b] == before[b - 1]);
                } else {
                    let pa = if a < at {
                        a
                    } else {
                        a - 1
                    };
                    let pb = if b < at {
                        b
                    } else {
                        b - 1
                    };
                    assert(out@[a] == before[pa]);
                    assert(out@[b] == before[pb]);
                }
            }
        }
        i += 1;
    }
    proof {
        assert(chips@.take(chips@.len() as int) =~= chips@);
    }
    out
}

/// A pane that was painted.
#[derive(Debug, Clone, Copy, PartialEq, Eq, Structural)]
pub struct PaneBound {
    pub pane: PaneId,
    pub rect: Rect,
}

/// A painted pane that takes part in a drag.
#[derive(Debug, Clone, Copy, PartialEq, Eq, Structural)]
pub struct PanePlace {
    pub pane: PaneId,
    pub view: ViewId,
    pub tab: TabId,
    pub rect: Rect,
}

/// A painted view that takes part in a drag.
#[derive(Debug, Clone, Copy, PartialEq, Eq, Structural)]
pub struct ViewPlace {
    pub view: ViewId,
    pub tab_count: usize,
}

/// A chip that was painted, with a key that orders chips from left to right.
#[derive(Debug, Clone, Copy, PartialEq, Eq, Structural)]
pub struct ChipBound {
    pub view: ViewId,
    pub tab: TabId,
    pub place: i64,
}

/// The chips of a view's strip.
#[derive(Debug)]
pub struct Strip {
    pub view: ViewId,
    pub chips: Vec<ChipPlace>,
}

/// What takes part in a drag over the workspace.
#[derive(Debug)]
pub struct Geometry {
    pub panes: Vec<PanePlace>,
    pub views: Vec<ViewPlace>,
    pub strips: Vec<Strip>,
}

/// The painted panes that lie in the active tab of their view, in order.
pub open spec fn panes_shown(layout: Arrangement, painted: Seq<PaneBound>) -> Seq<PanePlace>
    decreases painted.len(),
{
    if painted.len() == 0 {
        Seq::empty()
    } else {
        let before = panes_shown(layout, painted.drop_last());
        match layout.pane(painted.last().pane) {
            Some(entry) => match layout.region(entry.view) {
                Some(region) if region.active_tab == entry.tab => before.push(
                    PanePlace {
                        pane: painted.last().pane,
                        view: entry.view,
                        tab: entry.tab,
                        rect: painted.last().rect,
                    },
                ),
                _ => before,
            },
            None => before,
        }
    }
}

/// The painted views that are still there, in order, with their tab counts.
pub open spec fn views_shown(layout: Arrangement, painted: Seq<ViewId>) -> Seq<ViewPlace>
    decreases painted.len(),
{
    if painted.len() == 0 {
        Seq::empty()
    } else {
        let before = views_shown(layout, painted.drop_last());
        if layout.region(painted.last()) is Some {
            before.push(
                ViewPlace {
                    view: painted.last(),
                    tab_count: tab_count(layout.tabs, painted.last()) as usize,
                },
            )
        } else {
            before
        }
    }
}

/// A painted chip whose tab is still there.
pub open spec fn chip_shown(layout: Arrangement, chip: ChipBound) -> bool {
    layout.region(chip.view) is Some && layout.tab(chip.view, chip.tab) is Some
}

/// The painted chips of a view whose tabs are still there, in painting order.
pub open spec fn strip_of(layout: Arrangement, painted: Seq<ChipBound>, view: ViewId) -> Seq<
    ChipPlace,
>
    decreases painted.len(),
{
    if painted.len() == 0 {
        Seq::empty()
    } else {
        let before = strip_of(layout, painted.drop_last(), view);
        let chip = painted.last();
        if chip.view == view && chip_shown(layout, chip) {
            before.push(ChipPlace { tab: chip.tab, place: chip.place })
        } else {
            before
        }
    }
}

/// Views by their ids, none twice.
pub open spec fn views_ascend(views: Seq<ViewId>) -> bool {
    forall|i: int, j: int| 0 <= i < j < views.len() ==> (#[trigger] views[i]).0 < (
    #[trigger] views[j]).0
}

/// The views of strips.
pub open spec fn strip_ids(strips: Seq<Strip>) -> Seq<ViewId> {
    strips.map_values(|strip: Strip| strip.view)
}

/// One strip for each view with a chip, by the views' ids, each from left to
/// right.
pub open spec fn are_strips(strips: Seq<Strip>, layout: Arrangement, painted: Seq<ChipBound>) -> bool {
    &&& views_ascend(strip_ids(strips))
    &&& forall|view: ViewId|
        strip_of(layout, painted, view).len() > 0 <==> #[trigger] strip_ids(strips).contains(view)
    &&& forall|i: int|
        0 <= i < strips.len() ==> {
            &&& chips_sorted((#[trigger] strips[i]).chips@)
            &&& strips[i].chips@.to_multiset() == strip_of(
                layout,
                painted,
                strips[i].view,
            ).to_multiset()
        }
}

fn insert_view(views: &mut Vec<ViewId>, view: ViewId)
    requires
        views_ascend(old(views)@),
    ensures
        views_ascend(final(views)@),
        forall|other: ViewId| #[trigger]
            final(views)@.contains(other) <==> other == view || old(views)@.contains(other),
{
    let mut at: usize = 0;
    while at < views.len() && views[at].0 < view.0
        invariant
            at <= views@.len(),
            views@ == old(views)@,
            forall|k: int| 0 <= k < at ==> (#[trigger] views@[k]).0 < view.0,
        decreases views@.len() - at,
    {
        at += 1;
    }
    let ghost before = views@;
    if at < views.len() && views[at] == view {
        proof {
            assert(before.contains(view));
        }
        return;
    }
    views.insert(at, view);
    proof {
        assert(views@ =~= before.insert(at as int, view));
        assert forall|k: int| at <= k < before.len() implies view.0 < (#[trigger] before[k]).0 by {
            if k > at {
                assert(before[at as int].0 < before[k].0);
            }
        }
        assert forall|i: int, j: int| 0 <= i < j < views@.len() implies (#[trigger] views@[i]).0 < (
        #[trigger] views@[j]).0 by {
            let a = if i < at {
                i
            } else {
                i - 1
            };
            let b = if j < at {
                j
            } else {
                j - 1
            };
            if i != at {
                assert(views@[i] == before[a]);
            }
            if j != at {
                assert(views@[j] == before[b]);
            }
        }
        assert forall|other: ViewId| #[trigger] views@.contains(other) <==> other == view
            || before.contains(other) by {
            if before.contains(other) {
                let k = choose|k: int| 0 <= k < before.len() && #[trigger] before[k] == other;
                assert(views@[if k < at {
                    k
                } else {
                    k + 1
                }] == other);
            }
            if other == view {
                assert(views@[at as int] == view);
            }
            if views@.contains(other) && other != view {
                let k = choose|k: int| 0 <= k < views@.len() && #[trigger] views@[k] == other;
                assert(before[if k < at {
                    k
                } else {
                    k - 1
                }] == other);
            }
        }
    }
}

fn is_chip_shown(layout: &Layout, chip: ChipBound) -> (r: bool)
    ensures
        r == chip_shown(layout@, chip),
{
    layout.find_view(chip.view).is_some() && layout.find_tab(chip.view, chip.tab).is_some()
}

fn make_strip(layout: &Layout, painted: &Vec<ChipBound>, view: ViewId) -> (r: Strip)
    ensures
        r.view == view,
        chips_sorted(r.chips@),
        r.chips@.to_multiset() == strip_of(layout@, painted@, view).to_multiset(),
{
    let mut chips: Vec<ChipPlace> = Vec::new();
    let mut i: usize = 0;
    proof {
        assert(painted@.take(0) =~= Seq::<ChipBound>::empty());
    }
    while i < painted.len()
        invariant
            i <= painted@.len(),
            chips@ == strip_of(layout@, painted@.take(i as int), view),
        decreases painted@.len() - i,
    {
        let chip: ChipBound = painted[i];
        proof {
            let front = painted@.take(i + 1);
            assert(front.drop_last() =~= painted@.take(i as int));
            assert(front.last() == chip);
        }
        if chip.view == view && is_chip_shown(layout, chip) {
            chips.push(ChipPlace { tab: chip.tab, place: chip.place });
        }
        i += 1;
    }
    proof {
        assert(painted@.take(painted@.len() as int) =~= painted@);
    }
    Strip { view, chips: sort_chips(chips) }
}

fn strip_views(layout: &Layout, painted: &Vec<ChipBound>) -> (r: Vec<ViewId>)
    ensures
        views_ascend(r@),
        forall|view: ViewId| #[trigger]
            r@.contains(view) <==> strip_of(layout@, painted@, view).len() > 0,
{
    let mut views: Vec<ViewId> = Vec::new();
    let mut i: usize = 0;
    proof {
        assert(painted@.take(0) =~= Seq::<ChipBound>::empty());
    }
    while i < painted.len()
        invariant
            i <= painted@.len(),
            views_ascend(views@),
            forall|view: ViewId| #[trigger]
                views@.contains(view) <==> strip_of(
                    layout@,
                    painted@.take(i as int),
                    view,
                ).len() > 0,
        decreases painted@.len() - i,
    {
        let chip: ChipBound = painted[i];
        proof {
            let front = painted@.take(i + 1);
            assert(front.drop_last() =~= painted@.take(i as int));
            assert(front.last() == chip);
        }
        if is_chip_shown(layout, chip) {
            insert_view(&mut views, chip.view);
        }
        i += 1;
    }
    proof {
        assert(painted@.take(painted@.len() as int) =~= painted@);
    }
    views
}

fn make_strips(layout: &Layout, painted: &Vec<ChipBound>) -> (r: Vec<Strip>)
    ensures
        are_strips(r@, layout@, painted@),
{
    let views: Vec<ViewId> = strip_views(layout, painted);
    let mut out: Vec<Strip> = Vec::new();
    let mut i: usize = 0;
    while i < views.len()
        invariant
            i <= views@.len(),
            out@.len() == i,
            forall|k: int| 0 <= k < i ==> (#[trigger] out@[k]).view == views@[k],
            forall|k: int|
                0 <= k < i ==> {
                    &&& chips_sorted((#[trigger] out@[k]).chips@)
                    &&& out@[k].chips@.to_multiset() == strip_of(
                        layout@,
                        painted@,
                        out@[k].view,
                    ).to_multiset()
                },
        decreases views@.len() - i,
    {
        out.push(make_strip(layout, painted, views[i]));
        i += 1;
    }
    proof {
        assert(strip_ids(out@) =~= views@);
    }
    out
}

/// What takes part in a drag, of the panes, views and chips that were painted.
/// Bounds left over from tabs that are hidden or gone do not.
pub fn workspace_geometry(
    layout: &Layout,
    panes: &Vec<PaneBound>,
    views: &Vec<ViewId>,
    chips: &Vec<ChipBound>,
) -> (r: Geometry)
    ensures
        r.panes@ == panes_shown(layout@, panes@),
        r.views@ == views_shown(layout@, views@),
        are_strips(r.strips@, layout@, chips@),
{
    let mut shown: Vec<PanePlace> = Vec::new();
    let mut i: usize = 0;
    proof {
        assert(panes@.take(0) =~= Seq::<PaneBound>::empty());
        assert(views@.take(0) =~= Seq::<ViewId>::empty());
    }
    while i < panes.len()
        invariant
            i <= panes@.len(),
            shown@ == panes_shown(layout@, panes@.take(i as int)),
        decreases panes@.len() - i,
    {
        let pane: PaneId = panes[i].pane;
        let rect: Rect = panes[i].rect;
        proof {
            let front = panes@.take(i + 1);
            assert(front.drop_last() =~= panes@.take(i as int));
            assert(front.last() == panes@[i as int]);
        }
        match pane_on_screen(layout, pane) {
            Some((view, tab)) => {
                shown.push(PanePlace { pane, view, tab, rect });
            },
            None => {},
        }
        i += 1;
    }
    let mut counted: Vec<ViewPlace> = Vec::new();
    let mut k: usize = 0;
    while k < views.len()
        invariant
            k <= views@.len(),
            counted@ == views_shown(layout@, views@.take(k as int)),
        decreases views@.len() - k,
    {
        let view: ViewId = views[k];
        proof {
            let front = views@.take(k + 1);
            assert(front.drop_last() =~= views@.take(k as int));
            assert(front.last() == view);
        }
        match view_on_screen(layout, view) {
            Some(tab_count) => {
                counted.push(ViewPlace { view, tab_count });
            },
            None => {},
        }
        k += 1;
    }
    proof {
        assert(panes@.take(panes@.len() as int) =~= panes@);
        assert(views@.take(views@.len() as int) =~= views@);
    }
    Geometry { panes: shown, views: counted, strips: make_strips(layout, chips) }
}

/// Only panes on the screen take part in a drag: no pane of a hidden tab is
/// ever a target.
pub proof fn hidden_panes_are_no_targets(layout: Arrangement, painted: Seq<PaneBound>, at: int)
    requires
        0 <= at < panes_shown(layout, painted).len(),
    ensures
        ({
            let place = panes_shown(layout, painted)[at];
            &&& layout.pane(place.pane) is Some
            &&& layout.region(place.view) is Some
            &&& layout.region(place.view)->0.active_tab == place.tab
        }),
    decreases painted.len(),
{
    if painted.len() > 0 && at < panes_shown(layout, painted.drop_last()).len() {
        hidden_panes_are_no_targets(layout, painted.drop_last(), at);
    }
}

/// A session never gets a second pane: where it has one, a drop of it only
/// focuses that pane.
pub proof fn a_session_is_never_docked_twice(
    plan: DropPlan,
    session: Seq<char>,
    layout: Arrangement,
)
    requires
        layout.home_of(session) is Some,
    ensures
        sidebar_drop(plan, Some(session), layout) is Redraw || sidebar_drop(
            plan,
            Some(session),
            layout,
        ) == (SidebarDrop::Focus { pane: layout.home_of(session)->0 }),
{
}

/// A release outside changes nothing, even for a session that is already
/// open.
pub proof fn a_release_outside_changes_nothing(
    session: Option<Seq<char>>,
    layout: Arrangement,
    source: DragSource,
    drag: Drag,
)
    requires
        drag.plan is Nowhere,
    ensures
        sidebar_drop(drag.plan, session, layout) is Redraw,
        op_of(source, drag.plan) is None,
        session is Some ==> drag.sidebar_plan(session->0) is None,
{
}

/// A drag resolved for one payload never commits another.
pub proof fn a_stale_drag_commits_nothing(
    drag: Drag,
    source: DragSource,
    session: Option<Seq<char>>,
)
    requires
        drag.source != source || drag.session != session,
    ensures
        commit_of(Some(drag), source, session) is Redraw,
{
}

} // verus!
