//! What holds of arrangements of panes, and of what is dragged over them.
use vstd::prelude::*;
use crate::layout::{
    holds_session, is_pane, is_tab, is_view, Arrangement, Direction, Pane, PaneId, Region, TabEntry,
    TabId, ViewId,
};
use crate::list::{first_item, first_place, first_place_bounds};
use crate::pane_drag::{
    chip_before, commit_of, full_preview, in_tab, in_view, made_pane, op_of, paints, panes_shown,
    resolution_of, sidebar_drop, strip_of, tab_count, views_shown, ChipBound, ChipPlace, DragSource,
    DropCommit, DropPlan, LayoutOp, Made, PaneBound, PanePlace, Rect, Resolution, SidebarDrop,
};

verus! {

/// The first item with a property has it, and there is none exactly where no
/// item has it.
pub proof fn the_first_item_is_the_first<T>(items: Seq<T>, holds: spec_fn(T) -> bool)
    ensures
        first_item(items, holds) is None <==> (forall|i: int|
            0 <= i < items.len() ==> !holds(#[trigger] items[i])),
        first_item(items, holds) matches Some(item) ==> {
            let at = first_place(items, holds);
            &&& 0 <= at < items.len()
            &&& items[at] == item
            &&& holds(item)
            &&& forall|i: int| 0 <= i < at ==> !holds(#[trigger] items[i])
        },
{
    first_place_bounds(items, holds);
    let at = first_place(items, holds);
    if at < items.len() {
        assert(holds(items[at]));
    }
}

/// A pane, a view or a tab is found by its id exactly where there is one, and
/// what is found has that id.
pub proof fn ids_name_what_they_find(layout: Arrangement, pane: PaneId, view: ViewId, tab: TabId)
    ensures
        layout.pane(pane) is Some <==> (exists|i: int|
            0 <= i < layout.panes.len() && (#[trigger] layout.panes[i]).pane == pane),
        layout.pane(pane) is Some ==> layout.pane(pane)->0.pane == pane && layout.panes.contains(
            layout.pane(pane)->0,
        ),
        layout.region(view) is Some <==> (exists|i: int|
            0 <= i < layout.views.len() && (#[trigger] layout.views[i]).view == view),
        layout.region(view) is Some ==> layout.region(view)->0.view == view
            && layout.views.contains(layout.region(view)->0),
        layout.tab(view, tab) is Some <==> (exists|i: int|
            0 <= i < layout.tabs.len() && (#[trigger] layout.tabs[i]).view == view
                && layout.tabs[i].tab == tab),
        layout.tab(view, tab) is Some ==> layout.tab(view, tab)->0.view == view && layout.tab(
            view,
            tab,
        )->0.tab == tab && layout.tabs.contains(layout.tab(view, tab)->0),
{
    the_first_item_is_the_first(layout.panes, is_pane(pane));
    the_first_item_is_the_first(layout.views, is_view(view));
    the_first_item_is_the_first(layout.tabs, is_tab(view, tab));
    if layout.pane(pane) is None {
        assert forall|i: int| 0 <= i < layout.panes.len() implies (
        #[trigger] layout.panes[i]).pane != pane by {
            assert(!is_pane(pane)(layout.panes[i]));
        }
    }
    if layout.region(view) is None {
        assert forall|i: int| 0 <= i < layout.views.len() implies (
        #[trigger] layout.views[i]).view != view by {
            assert(!is_view(view)(layout.views[i]));
        }
    }
    if layout.tab(view, tab) is None {
        assert forall|i: int| 0 <= i < layout.tabs.len() implies !((
        #[trigger] layout.tabs[i]).view == view && layout.tabs[i].tab == tab) by {
            assert(!is_tab(view, tab)(layout.tabs[i]));
        }
    }
}

/// A session's pane is one it is bound to, and the first; it has none exactly
/// where no pane is bound to it.
pub proof fn a_session_is_at_home_where_it_is_bound(layout: Arrangement, session: Seq<char>)
    ensures
        layout.home_of(session) is Some <==> (exists|i: int|
            0 <= i < layout.panes.len() && (#[trigger] layout.panes[i]).session == Some(session)),
        layout.home_of(session) matches Some(pane) ==> exists|i: int|
            {
                &&& 0 <= i < layout.panes.len()
                &&& (#[trigger] layout.panes[i]).pane == pane
                &&& layout.panes[i].session == Some(session)
                &&& forall|j: int| 0 <= j < i ==> (#[trigger] layout.panes[j]).session != Some(session)
            },
{
    let bound = holds_session(session);
    the_first_item_is_the_first(layout.panes, bound);
    let at = first_place(layout.panes, bound);
    if layout.home_of(session) is Some {
        assert(layout.panes[at].session == Some(session));
        assert forall|j: int| 0 <= j < at implies (#[trigger] layout.panes[j]).session != Some(
            session,
        ) by {
            assert(!bound(layout.panes[j]));
        }
    } else {
        assert forall|i: int| 0 <= i < layout.panes.len() implies (
        #[trigger] layout.panes[i]).session != Some(session) by {
            assert(!bound(layout.panes[i]));
        }
    }
}

/// The focused pane is the active one of the active view's active tab, and the
/// focused session the one bound to it.
pub proof fn the_focus_is_in_the_active_view(
    layout: Arrangement,
    region: Region,
    tab: TabEntry,
    pane: Pane,
)
    requires
        layout.region(layout.active_view) == Some(region),
        layout.tab(layout.active_view, region.active_tab) == Some(tab),
        layout.pane(tab.active_pane) == Some(pane),
    ensures
        layout.active_pane() == Some(tab.active_pane),
        layout.focused_session() == pane.session,
{
    ids_name_what_they_find(layout, pane.pane, layout.active_view, region.active_tab);
}

/// Focusing a pane or binding its session touches nothing else: ids, orders
/// and the other views' active tabs stay.
pub proof fn a_focus_moves_nothing(layout: Arrangement, pane: PaneId, view: ViewId)
    requires
        layout.pane(pane) is Some,
    ensures
        ({
            let after = layout.focused(pane);
            &&& after.panes == layout.panes
            &&& after.views.len() == layout.views.len()
            &&& after.tabs.len() == layout.tabs.len()
            &&& after.first_view == layout.first_view
            &&& after.active_view == layout.pane(pane)->0.view
            &&& forall|i: int|
                0 <= i < layout.views.len() ==> {
                    &&& (#[trigger] after.views[i]).view == layout.views[i].view
                    &&& after.views[i].order == layout.views[i].order
                    &&& after.views[i].placement == layout.views[i].placement
                    &&& layout.views[i].view != layout.pane(pane)->0.view ==> after.views[i]
                        == layout.views[i]
                }
            &&& forall|i: int|
                0 <= i < layout.tabs.len() ==> {
                    &&& (#[trigger] after.tabs[i]).view == layout.tabs[i].view
                    &&& after.tabs[i].tab == layout.tabs[i].tab
                    &&& after.tabs[i].first_pane == layout.tabs[i].first_pane
                    &&& layout.tabs[i].tab != layout.pane(pane)->0.tab ==> after.tabs[i]
                        == layout.tabs[i]
                }
        }),
{
    let entry = layout.pane(pane)->0;
    first_place_bounds(layout.views, is_view(entry.view));
    first_place_bounds(layout.tabs, is_tab(entry.view, entry.tab));
}

/// Binding a session keeps everything of the arrangement but the session of
/// that one pane.
pub proof fn a_binding_changes_one_session(
    layout: Arrangement,
    pane: PaneId,
    session: Option<Seq<char>>,
    i: int,
)
    requires
        0 <= i < layout.panes.len(),
    ensures
        ({
            let after = layout.with_session(pane, session);
            let was = layout.panes[i];
            &&& after.panes.len() == layout.panes.len()
            &&& (Pane { session: was.session, ..after.panes[i] }) == was
            &&& was.pane != pane ==> after.panes[i] == was
            &&& after.views == layout.views && after.tabs == layout.tabs
            &&& after.active_view == layout.active_view && after.first_view == layout.first_view
        }),
{
    first_place_bounds(layout.panes, is_pane(pane));
}

/// An arrangement is trivial until something was split or added.
pub proof fn a_second_pane_is_not_trivial(layout: Arrangement)
    ensures
        layout.panes.len() > 1 || layout.tabs.len() > 1 || layout.views.len() > 1
            ==> !layout.trivial(),
        layout.panes.len() == 1 && layout.tabs.len() == 1 && layout.views.len() == 1
            ==> layout.trivial(),
{
}

/// What an operation carries from one place to another.
pub enum Cargo {
    Tab(TabId),
    Pane(PaneId),
}

/// What an operation carries.
pub open spec fn cargo(op: LayoutOp) -> Option<Cargo> {
    match op {
        LayoutOp::ReorderTab { tab, .. } => Some(Cargo::Tab(tab)),
        LayoutOp::MergeTab { tab, .. } => Some(Cargo::Tab(tab)),
        LayoutOp::TabToView { tab, .. } => Some(Cargo::Tab(tab)),
        LayoutOp::FocusTab { tab, .. } => Some(Cargo::Tab(tab)),
        LayoutOp::PaneToTab { pane, .. } => Some(Cargo::Pane(pane)),
        LayoutOp::MovePane { pane, .. } => Some(Cargo::Pane(pane)),
        LayoutOp::PaneToView { pane, .. } => Some(Cargo::Pane(pane)),
        _ => None,
    }
}

/// Where an operation brings what it carries.
pub enum Berth {
    /// Beside a pane.
    BesidePane(PaneId, Direction),
    /// Into a new view beside another.
    BesideView(ViewId, Direction),
    /// Among the tabs of a view.
    Strip(ViewId),
}

/// Where an operation brings what it carries.
pub open spec fn berth(op: LayoutOp) -> Option<Berth> {
    match op {
        LayoutOp::ReorderTab { view, .. } => Some(Berth::Strip(view)),
        LayoutOp::FocusTab { view, .. } => Some(Berth::Strip(view)),
        LayoutOp::PaneToTab { view, .. } => Some(Berth::Strip(view)),
        LayoutOp::MergeTab { pane, direction, .. } => Some(Berth::BesidePane(pane, direction)),
        LayoutOp::MovePane { target, direction, .. } => Some(Berth::BesidePane(target, direction)),
        LayoutOp::TabToView { view, direction, .. } => Some(Berth::BesideView(view, direction)),
        LayoutOp::PaneToView { view, direction, .. } => Some(Berth::BesideView(view, direction)),
        _ => None,
    }
}

/// A dropped tab or pane is what is carried, and a drop that names a place
/// brings it there and nowhere else. Dropped sidebar sessions, and drops that
/// name no place, carry nothing.
pub proof fn a_drop_brings_what_was_dragged_where_it_was_dropped(
    source: DragSource,
    plan: DropPlan,
)
    ensures
        op_of(source, plan) is None <==> (plan is Nowhere || plan is FocusPane || source
            is SidebarSession),
        op_of(source, plan) matches Some(op) ==> {
            &&& source matches DragSource::TabChip(tab, _) ==> cargo(op) == Some(Cargo::Tab(tab))
            &&& source matches DragSource::PaneHeader(pane) ==> cargo(op) == Some(
                Cargo::Pane(pane),
            )
            &&& plan matches DropPlan::SplitPane { pane, direction } ==> berth(op) == Some(
                Berth::BesidePane(pane, direction),
            )
            &&& plan matches DropPlan::SplitView { view, direction } ==> berth(op) == Some(
                Berth::BesideView(view, direction),
            )
            &&& plan matches DropPlan::MoveIntoPane { view, .. } ==> berth(op) == Some(
                Berth::Strip(view),
            )
            &&& plan matches DropPlan::ReorderStrip { view, .. } ==> berth(op) == Some(
                Berth::Strip(view),
            )
        },
{
}

/// The tabs of a view once an operation has brought a tab there: before the
/// tab it names, where that one is there, and last otherwise. An operation of
/// another view leaves them.
pub open spec fn strip_after(order: Seq<TabId>, view: ViewId, op: LayoutOp) -> Seq<TabId> {
    match op {
        LayoutOp::ReorderTab { tab, view: over, before } => if over == view {
            let rest = order.remove_value(tab);
            match before {
                Some(next) if rest.contains(next) => rest.insert(rest.index_of(next), tab),
                _ => rest.push(tab),
            }
        } else {
            order
        },
        _ => order,
    }
}

/// The tab a plan over a strip names to insert before.
pub open spec fn named_before(plan: DropPlan) -> Option<TabId> {
    match plan {
        DropPlan::ReorderStrip { before, .. } => before,
        DropPlan::MoveIntoPane { tab_before, .. } => tab_before,
        _ => None,
    }
}

/// A tab dropped on a strip comes to stand directly before the tab the drop
/// names, and last where it names none; a drop in its own view that names none
/// onto a pane only shows the tab again.
pub proof fn a_dropped_tab_stands_before_the_one_it_was_dropped_at(
    order: Seq<TabId>,
    tab: TabId,
    from: ViewId,
    plan: DropPlan,
    view: ViewId,
)
    requires
        (plan matches DropPlan::ReorderStrip { view: over, .. } && over == view) || (plan matches
            DropPlan::MoveIntoPane { view: over, .. } && over == view),
        order.no_duplicates(),
        named_before(plan) matches Some(next) ==> next != tab && order.contains(next),
    ensures
        op_of(DragSource::TabChip(tab, from), plan) is Some,
        ({
            let op = op_of(DragSource::TabChip(tab, from), plan)->0;
            let after = strip_after(order, view, op);
            &&& named_before(plan) matches Some(next) ==> exists|i: int|
                0 <= i < after.len() - 1 && #[trigger] after[i] == tab && after[i + 1] == next
            &&& named_before(plan) is None && !(plan is MoveIntoPane && from == view)
                ==> after.len() > 0 && after.last() == tab
            &&& named_before(plan) is None && plan is MoveIntoPane && from == view ==> op == (
            LayoutOp::FocusTab { view, tab }) && after == order
        }),
{
    let op = op_of(DragSource::TabChip(tab, from), plan)->0;
    let after = strip_after(order, view, op);
    if let Some(next) = named_before(plan) {
        let rest = order.remove_value(tab);
        let at = order.index_of(next);
        assert(order[at] == next);
        assert(rest.contains(next)) by {
            let gone = order.index_of_first(tab);
            order.index_of_first_ensures(tab);
            match gone {
                Some(gone) => {
                    if at < gone {
                        assert(rest[at] == next);
                    } else {
                        assert(rest[at - 1] == next);
                    }
                },
                None => {
                    assert(rest[at] == next);
                },
            }
        }
        let place = rest.index_of(next);
        assert(rest[place] == next);
        assert(after[place] == tab);
        assert(after[place + 1] == next);
    }
}

/// Where a pane made for a sidebar session will stand.
pub open spec fn stand(entry: SidebarDrop) -> Option<Berth> {
    match entry {
        SidebarDrop::SplitPane { pane, direction } => Some(Berth::BesidePane(pane, direction)),
        SidebarDrop::SplitView { view, direction } => Some(Berth::BesideView(view, direction)),
        SidebarDrop::AddTab { view, .. } => Some(Berth::Strip(view)),
        _ => None,
    }
}

/// A sidebar session that no pane is bound to enters where it was dropped:
/// beside the pane or view, on that side, or among the tabs of the view,
/// before the tab that is named over a pane, and last on a strip.
pub proof fn a_session_enters_where_it_was_dropped(
    plan: DropPlan,
    session: Option<Seq<char>>,
    layout: Arrangement,
)
    requires
        session matches Some(id) ==> forall|i: int|
            0 <= i < layout.panes.len() ==> (#[trigger] layout.panes[i]).session != Some(id),
    ensures
        ({
            let entry = sidebar_drop(plan, session, layout);
            &&& entry is Redraw <==> plan is Nowhere
            &&& plan matches DropPlan::FocusPane { pane } ==> entry == (SidebarDrop::Focus { pane })
            &&& plan matches DropPlan::SplitPane { pane, direction } ==> stand(entry) == Some(
                Berth::BesidePane(pane, direction),
            )
            &&& plan matches DropPlan::SplitView { view, direction } ==> stand(entry) == Some(
                Berth::BesideView(view, direction),
            )
            &&& plan matches DropPlan::MoveIntoPane { view, tab_before } ==> stand(entry) == Some(
                Berth::Strip(view),
            ) && entry->before == tab_before
            &&& plan matches DropPlan::ReorderStrip { view, .. } ==> stand(entry) == Some(
                Berth::Strip(view),
            ) && entry->before is None
        }),
{
    if let Some(id) = session {
        a_session_is_at_home_where_it_is_bound(layout, id);
    }
}

/// A dropped session that some pane is bound to gets no second one: the drop
/// focuses a pane it is bound to.
pub proof fn an_open_session_gets_the_focus(
    plan: DropPlan,
    session: Seq<char>,
    layout: Arrangement,
    i: int,
)
    requires
        !(plan is Nowhere),
        0 <= i < layout.panes.len(),
        layout.panes[i].session == Some(session),
    ensures
        sidebar_drop(plan, Some(session), layout) matches SidebarDrop::Focus { pane } && exists|
            j: int,
        |
            0 <= j < layout.panes.len() && (#[trigger] layout.panes[j]).pane == pane
                && layout.panes[j].session == Some(session),
{
    a_session_is_at_home_where_it_is_bound(layout, session);
}

/// The pane a session is bound to lies where the engine made it.
pub proof fn a_session_is_bound_where_it_was_made(made: Made, layout: Arrangement)
    ensures
        made is Refused ==> made_pane(made, layout) is None,
        made matches Made::Pane(pane) ==> made_pane(made, layout) == Some(pane),
        made matches Made::View(view) ==> {
            &&& made_pane(made, layout) is None <==> (forall|i: int|
                0 <= i < layout.panes.len() ==> (#[trigger] layout.panes[i]).view != view)
            &&& made_pane(made, layout) matches Some(pane) ==> exists|i: int|
                0 <= i < layout.panes.len() && (#[trigger] layout.panes[i]).pane == pane
                    && layout.panes[i].view == view
        },
        made matches Made::Tab(view, tab) ==> {
            &&& made_pane(made, layout) is None <==> (forall|i: int|
                0 <= i < layout.panes.len() ==> !((#[trigger] layout.panes[i]).view == view
                    && layout.panes[i].tab == tab))
            &&& made_pane(made, layout) matches Some(pane) ==> exists|i: int|
                0 <= i < layout.panes.len() && (#[trigger] layout.panes[i]).pane == pane
                    && layout.panes[i].view == view && layout.panes[i].tab == tab
        },
{
    if let Made::View(view) = made {
        the_first_item_is_the_first(layout.panes, in_view(view));
        if made_pane(made, layout) is None {
            assert forall|i: int| 0 <= i < layout.panes.len() implies (
            #[trigger] layout.panes[i]).view != view by {
                assert(!in_view(view)(layout.panes[i]));
            }
        } else {
            let at = first_place(layout.panes, in_view(view));
            assert(layout.panes[at].view == view);
        }
    }
    if let Made::Tab(view, tab) = made {
        the_first_item_is_the_first(layout.panes, in_tab(view, tab));
        if made_pane(made, layout) is None {
            assert forall|i: int| 0 <= i < layout.panes.len() implies !((
            #[trigger] layout.panes[i]).view == view && layout.panes[i].tab == tab) by {
                assert(!in_tab(view, tab)(layout.panes[i]));
            }
        } else {
            let at = first_place(layout.panes, in_tab(view, tab));
            assert(layout.panes[at].view == view);
        }
    }
}

/// A release carries out what the last sample showed: what was dragged goes
/// where the preview lay, a sidebar session enters by that plan, and a drag of
/// anything else, or of another session, carries out nothing.
pub proof fn a_release_carries_out_the_last_sample(
    sampled: Resolution,
    source: DragSource,
    session: Option<Seq<char>>,
    root: Rect,
    other: DragSource,
    other_session: Option<Seq<char>>,
)
    ensures
        ({
            let drag = sampled.stored(source, session, root);
            let commit = commit_of(Some(drag), source, session);
            &&& drag.plan == sampled.plan && drag.preview == sampled.preview && drag.anchor
                == sampled.anchor && drag.root == root
            &&& source is SidebarSession ==> commit == (DropCommit::Sidebar { plan: sampled.plan })
            &&& !(source is SidebarSession) && (sampled.plan is Nowhere || sampled.plan
                is FocusPane) ==> commit is Redraw
            &&& !(source is SidebarSession) && !(sampled.plan is Nowhere || sampled.plan
                is FocusPane) ==> commit is Op && Some(commit->op) == op_of(source, sampled.plan)
            &&& other != source || other_session != session ==> commit_of(
                Some(drag),
                other,
                other_session,
            ) is Redraw
        }),
        commit_of(None, source, session) is Nothing,
{
}

/// A released sidebar session commits the plan of its own last sample, where
/// that lay over a target.
pub proof fn a_released_session_commits_its_own_plan(
    sampled: Resolution,
    session: Seq<char>,
    other: Seq<char>,
    root: Rect,
)
    ensures
        ({
            let drag = sampled.stored(DragSource::SidebarSession, Some(session), root);
            &&& drag.sidebar_plan(session) == (if sampled.plan is Nowhere {
                None
            } else {
                Some(sampled.plan)
            })
            &&& other != session ==> drag.sidebar_plan(other) is None
        }),
        sampled.stored(DragSource::PaneHeader(PaneId(0)), Some(session), root).sidebar_plan(
            session,
        ) is None,
{
}

/// A sample of an open session inside the outlet leads to a pane it is bound
/// to, washed whole where that pane is painted; every other sample leads where
/// the geometry says.
pub proof fn a_sample_of_an_open_session_leads_home(
    layout: Arrangement,
    session: Option<Seq<char>>,
    inside: bool,
    painted: Seq<PanePlace>,
    geometric: Resolution,
)
    ensures
        ({
            let open = session is Some && exists|i: int|
                0 <= i < layout.panes.len() && (#[trigger] layout.panes[i]).session == session;
            let r = resolution_of(layout, session, inside, painted, geometric);
            &&& !(inside && open) ==> r == geometric
            &&& inside && open ==> {
                &&& r.plan is FocusPane
                &&& r.anchor == Some(r.plan->FocusPane_pane)
                &&& exists|i: int|
                    0 <= i < layout.panes.len() && (#[trigger] layout.panes[i]).session == session
                        && layout.panes[i].pane == r.plan->FocusPane_pane
                &&& r.preview is None <==> (forall|i: int|
                    0 <= i < painted.len() ==> (#[trigger] painted[i]).pane
                        != r.plan->FocusPane_pane)
                &&& r.preview matches Some(preview) ==> preview.kind is FullTarget && exists|
                    i: int,
                |
                    0 <= i < painted.len() && (#[trigger] painted[i]).pane
                        == r.plan->FocusPane_pane && painted[i].rect == preview.rect
            }
        }),
{
    if let Some(id) = session {
        a_session_is_at_home_where_it_is_bound(layout, id);
        if inside && layout.home_of(id) is Some {
            let home = layout.home_of(id)->0;
            the_first_item_is_the_first(painted, paints(home));
            let at = first_place(painted, paints(home));
            if full_preview(painted, home) is Some {
                assert(painted[at].pane == home);
            } else {
                assert forall|i: int| 0 <= i < painted.len() implies (
                #[trigger] painted[i]).pane != home by {
                    assert(!paints(home)(painted[i]));
                }
            }
        }
    }
}

/// A painted pane takes part in a drag exactly where it lies in the active tab
/// of its view, at the place it was painted.
pub proof fn shown_panes_take_part(layout: Arrangement, painted: Seq<PaneBound>, place: PanePlace)
    ensures
        panes_shown(layout, painted).contains(place) <==> {
            &&& exists|i: int|
                0 <= i < painted.len() && (#[trigger] painted[i]).pane == place.pane
                    && painted[i].rect == place.rect
            &&& layout.pane(place.pane) matches Some(entry) && entry.view == place.view
                && entry.tab == place.tab
            &&& layout.region(place.view) matches Some(region) && region.active_tab == place.tab
        },
    decreases painted.len(),
{
    if painted.len() > 0 {
        let front = painted.drop_last();
        shown_panes_take_part(layout, front, place);
        let shown = panes_shown(layout, painted);
        let before = panes_shown(layout, front);
        let last = painted.last();
        if panes_shown(layout, front).contains(place) {
            let i = choose|i: int|
                0 <= i < front.len() && (#[trigger] front[i]).pane == place.pane
                    && front[i].rect == place.rect;
            assert(painted[i].pane == place.pane);
            let k = before.index_of(place);
            assert(shown[k] == place);
        }
        if shown.contains(place) && !before.contains(place) {
            let k = shown.index_of(place);
            assert(shown.len() == before.len() + 1);
            assert(k == before.len()) by {
                if k < before.len() {
                    assert(before[k] == place);
                }
            }
            assert(painted[painted.len() - 1].pane == place.pane);
        }
        if exists|i: int|
            0 <= i < painted.len() && (#[trigger] painted[i]).pane == place.pane
                && painted[i].rect == place.rect {
            let i = choose|i: int|
                0 <= i < painted.len() && (#[trigger] painted[i]).pane == place.pane
                    && painted[i].rect == place.rect;
            if i < front.len() {
                assert(front[i] == painted[i]);
            } else {
                let here = (layout.pane(place.pane) matches Some(entry) && entry.view == place.view
                    && entry.tab == place.tab) && (layout.region(place.view) matches Some(region)
                    && region.active_tab == place.tab);
                if here {
                    assert(shown == before.push(place));
                    assert(shown[before.len() as int] == place);
                }
            }
        }
    } else {
        assert(!panes_shown(layout, painted).contains(place));
    }
}

/// The tabs of a view are counted one by one.
pub proof fn tabs_are_counted(tabs: Seq<TabEntry>, view: ViewId)
    ensures
        tab_count(tabs, view) == tabs.filter(|tab: TabEntry| tab.view == view).len(),
        tab_count(tabs, view) <= tabs.len(),
    decreases tabs.len(),
{
    reveal(Seq::filter);
    if tabs.len() > 0 {
        tabs_are_counted(tabs.drop_last(), view);
    }
}

/// A painted view takes part in a drag exactly while it is there, with the
/// number of its tabs.
pub proof fn shown_views_take_part(layout: Arrangement, painted: Seq<ViewId>, k: int)
    requires
        0 <= k < views_shown(layout, painted).len(),
    ensures
        ({
            let place = views_shown(layout, painted)[k];
            &&& painted.contains(place.view)
            &&& layout.region(place.view) is Some
            &&& place.tab_count == layout.tabs.filter(
                |tab: TabEntry| tab.view == place.view,
            ).len() as usize
        }),
    decreases painted.len(),
{
    let front = painted.drop_last();
    let before = views_shown(layout, front);
    if k < before.len() {
        shown_views_take_part(layout, front, k);
        let view = before[k].view;
        assert(painted[front.index_of(view)] == view);
        assert(views_shown(layout, painted)[k] == before[k]);
    } else {
        tabs_are_counted(layout.tabs, painted.last());
        assert(painted[painted.len() - 1] == painted.last());
    }
}

/// No view that is there is left out of a drag it was painted for.
pub proof fn no_view_is_left_out(layout: Arrangement, painted: Seq<ViewId>, i: int)
    requires
        0 <= i < painted.len(),
        layout.region(painted[i]) is Some,
    ensures
        exists|k: int|
            0 <= k < views_shown(layout, painted).len() && (#[trigger] views_shown(
                layout,
                painted,
            )[k]).view == painted[i],
    decreases painted.len(),
{
    let front = painted.drop_last();
    let before = views_shown(layout, front);
    let shown = views_shown(layout, painted);
    if i < front.len() {
        no_view_is_left_out(layout, front, i);
        let k = choose|k: int| 0 <= k < before.len() && (#[trigger] before[k]).view == front[i];
        assert(shown[k].view == painted[i]);
    } else {
        assert(shown[before.len() as int].view == painted[i]);
    }
}

/// A chip is on a view's strip exactly where it was painted there and its tab
/// is still there.
pub proof fn shown_chips_take_part(
    layout: Arrangement,
    painted: Seq<ChipBound>,
    view: ViewId,
    chip: ChipPlace,
)
    ensures
        strip_of(layout, painted, view).contains(chip) <==> {
            &&& painted.contains(ChipBound { view, tab: chip.tab, place: chip.place })
            &&& layout.region(view) is Some
            &&& layout.tab(view, chip.tab) is Some
        },
    decreases painted.len(),
{
    let bound = ChipBound { view, tab: chip.tab, place: chip.place };
    if painted.len() > 0 {
        let front = painted.drop_last();
        shown_chips_take_part(layout, front, view, chip);
        let strip = strip_of(layout, painted, view);
        let before = strip_of(layout, front, view);
        if before.contains(chip) {
            assert(strip[before.index_of(chip)] == chip);
            assert(painted[front.index_of(bound)] == bound);
        }
        if strip.contains(chip) && !before.contains(chip) {
            let k = strip.index_of(chip);
            if k < before.len() {
                assert(before[k] == chip);
            }
            assert(painted[painted.len() - 1] == bound);
        }
        if painted.contains(bound) && layout.region(view) is Some && layout.tab(
            view,
            chip.tab,
        ) is Some {
            let k = painted.index_of(bound);
            if k < front.len() {
                assert(front[k] == bound);
            } else {
                assert(strip[before.len() as int] == chip);
            }
        }
    }
}

/// Chips stand from left to right, and by their ids at one place.
pub proof fn chips_stand_from_left_to_right(a: ChipPlace, b: ChipPlace)
    ensures
        a.place < b.place ==> chip_before(a, b) && !chip_before(b, a),
        a.place == b.place && a.tab.0 < b.tab.0 ==> chip_before(a, b) && !chip_before(b, a),
{
}

} // verus!
