//! What holds of the workspace's operations: what each asks of the layout
//! engine, and what it leaves behind.
use vstd::prelude::*;
use crate::desk_laws::{a_binding_takes, shown_in};
use crate::layout::{Direction, Layout, Pane, PaneId, Region, TabId, ViewId};
use crate::pane_header::ChatRow;
use crate::terminal_panel::{SessionViewStatus, ViewStatus};
use crate::workspace::{
    bind_keys, button_caption, command_action, equalizes, needs_reorder, preview_label, resizes,
    Command, DragTarget, FramePlan, PaneAction, PaneDrop, PaneView, RuntimePlan, SelectPlan,
    SplitResize, ToggleFacts, TogglePlan, ViewModel, Workspace, WorkspaceOp,
};

verus! {

/// A workspace opens on its stored arrangement; where none is stored, the fresh
/// one shows the selected session; and where it cannot be read, that is said.
pub proof fn a_workspace_opens_on_what_was_stored(
    stored: Option<Result<Layout, String>>,
    fresh: Layout,
    selected: Option<String>,
    r: Workspace,
    pane: PaneId,
)
    requires
        call_ensures(Workspace::new, (stored, fresh, selected), r),
    ensures
        stored matches Some(Ok(layout)) ==> r@.layout == layout@ && r@.error is None,
        stored matches Some(Err(error)) ==> r@.layout == fresh@ && r@.error == Some(
            "Could not restore layout: "@ + error@,
        ),
        stored is None && fresh@.active_pane() == Some(pane) && fresh@.pane(pane) is Some
            ==> shown_in(r@.layout, pane) == selected.deep_view() && r@.error is None,
        r@.source_selected == selected.deep_view(),
        r@.publish_active && r@.focus_pending && !r@.save_due,
        r@.drop_preview is None && r@.outer_preview is None && r@.tab_preview is None,
        forall|p: PaneId| !r@.panes.dom().contains(p),
        forall|p: PaneId| !r@.pending_close.contains(p),
{
    if fresh@.active_pane() == Some(pane) && fresh@.pane(pane) is Some {
        a_binding_takes(fresh@, pane, selected.deep_view(), pane);
    }
}

/// A frame publishes the focused pane once after a change, gives the keyboard
/// once where it was asked for, and forgets panes that are gone.
pub proof fn a_frame_publishes_a_change_once(
    workspace: &mut Workspace,
    dragging: bool,
    r: FramePlan,
    pane: PaneId,
)
    requires
        call_ensures(Workspace::frame, (workspace, dragging), r),
    ensures
        !final(workspace)@.publish_active && !final(workspace)@.focus_pending,
        r.publish is Some ==> old(workspace)@.publish_active && r.publish == old(workspace)@.layout.active_pane(),
        old(workspace)@.publish_active ==> r.publish == old(workspace)@.layout.active_pane(),
        r.focus is Some ==> old(workspace)@.focus_pending && Some((r.focus->0).0) == old(workspace)@.layout.active_pane(),
        old(workspace)@.focus_pending && old(workspace)@.layout.active_pane() == Some(pane) && old(workspace)@.panes.dom().contains(pane) ==> r.focus == Some(
            (pane, old(workspace)@.panes[pane].shows_terminal),
        ),
        old(workspace)@.layout.pane(pane) is None ==> !final(workspace)@.panes.dom().contains(pane),
        old(workspace)@.layout.pane(pane) is Some && old(workspace)@.panes.dom().contains(pane)
            ==> final(workspace)@.panes.dom().contains(pane) && final(workspace)@.panes[pane]
            == old(workspace)@.panes[pane],
        final(workspace)@.layout == old(workspace)@.layout,
        final(workspace)@.save_due == old(workspace)@.save_due,
{
}

/// Previews of a drop last as long as the drag.
pub proof fn previews_end_with_the_drag(workspace: &mut Workspace, dragging: bool, r: FramePlan)
    requires
        call_ensures(Workspace::frame, (workspace, dragging), r),
    ensures
        !dragging ==> final(workspace)@.tab_preview is None && final(workspace)@.drop_preview
            is None && final(workspace)@.outer_preview is None,
        dragging ==> final(workspace)@.tab_preview == old(workspace)@.tab_preview && final(workspace)@.drop_preview == old(workspace)@.drop_preview && final(workspace)@.outer_preview == old(workspace)@.outer_preview,
{
}

/// An action arranges the focused pane or view as it says.
pub proof fn an_action_arranges_as_it_says(
    workspace: &mut Workspace,
    pane: PaneId,
    action: PaneAction,
    r: Option<WorkspaceOp>,
    focused: PaneId,
)
    requires
        call_ensures(Workspace::arrange, (workspace, pane, action), r),
        old(workspace)@.layout.active_pane() == Some(focused),
    ensures
        ({
            let view = old(workspace)@.layout.active_view;
            &&& action matches PaneAction::Split { direction, view: whole } ==> {
                &&& whole ==> r == Some(WorkspaceOp::SplitView { view, direction })
                &&& !whole ==> r == Some(WorkspaceOp::SplitPane { pane: focused, direction })
                &&& final(workspace)@.focus_pending
            }
            &&& action is NewTab ==> r == Some(WorkspaceOp::AddTab { view }) && final(workspace)@.focus_pending
            &&& action is MoveToTab ==> r == Some(WorkspaceOp::PaneToTab { pane, view })
            &&& action is Toggle || action is Close ==> r is None
            &&& final(workspace)@.layout == old(workspace)@.layout
        }),
{
}

/// Moving a rail takes it to the side where it is not.
pub proof fn a_rail_moves_to_its_other_side(
    workspace: &mut Workspace,
    pane: PaneId,
    r: Option<WorkspaceOp>,
    region: Region,
)
    requires
        call_ensures(Workspace::arrange, (workspace, pane, PaneAction::MoveRail), r),
        old(workspace)@.layout.region(old(workspace)@.layout.active_view) == Some(region),
    ensures
        r matches Some(WorkspaceOp::PlaceTabs { view, placement }) && view == old(workspace)@.layout.active_view && placement != region.placement && (placement is Left || placement
            is Top),
{
}

/// Dragging over a rail previews where the tab would stand, and that alone.
pub proof fn a_rail_previews_the_place(
    workspace: &mut Workspace,
    view: ViewId,
    at: usize,
    first: bool,
    r: bool,
    region: Region,
)
    requires
        call_ensures(Workspace::drag_over_rail, (workspace, view, Some((at, first))), r),
        old(workspace)@.layout.region(view) == Some(region),
        at < region.order.len(),
    ensures
        first ==> final(workspace)@.tab_preview == Some((view, Some(region.order[at as int]))),
        !first && at + 1 < region.order.len() ==> final(workspace)@.tab_preview == Some(
            (view, Some(region.order[at + 1])),
        ),
        !first && at + 1 == region.order.len() ==> final(workspace)@.tab_preview == Some(
            (view, None::<TabId>),
        ),
        r <==> old(workspace)@.tab_preview != final(workspace)@.tab_preview,
        r ==> final(workspace)@.drop_preview is None && final(workspace)@.outer_preview is None,
        !r ==> final(workspace)@ == old(workspace)@,
{
}

/// Dragging over a view's outer ring previews that edge, but not over its rail;
/// a view takes back only its own preview.
pub proof fn a_view_previews_its_own_edge(
    workspace: &mut Workspace,
    view: ViewId,
    in_rail: bool,
    ring: Option<Direction>,
    r: bool,
)
    requires
        call_ensures(Workspace::drag_over_view, (workspace, view, in_rail, ring), r),
    ensures
        ({
            let before = old(workspace)@.outer_preview;
            let after = final(workspace)@.outer_preview;
            &&& ring matches Some(direction) ==> (!in_rail ==> after == Some((view, direction)))
            &&& (in_rail || ring is None) && before is Some && (before->0).0 == view ==> after
                is None
            &&& (in_rail || ring is None) && (before is None || (before->0).0 != view) ==> after
                == before
            &&& r <==> after != before
            &&& final(workspace)@.drop_preview == old(workspace)@.drop_preview
            &&& final(workspace)@.tab_preview == old(workspace)@.tab_preview
        }),
{
}

/// A drop on a pane ends its preview, and gives the keyboard to what was
/// dropped.
pub proof fn a_drop_on_a_pane_ends_its_preview(
    workspace: &mut Workspace,
    pane: PaneId,
    target: DragTarget,
    r: PaneDrop,
)
    requires
        call_ensures(Workspace::drop_on_pane, (workspace, pane, target), r),
    ensures
        final(workspace)@.drop_preview is None,
        old(workspace)@.outer_preview is Some ==> final(workspace)@.outer_preview is None && final(workspace)@.tab_preview is None && final(workspace)@.focus_pending,
        !(r is Nothing) ==> final(workspace)@.focus_pending,
        r is Nothing && old(workspace)@.outer_preview is None ==> final(workspace)@.focus_pending
            == old(workspace)@.focus_pending,
        final(workspace)@.layout == old(workspace)@.layout,
{
}

/// A drop on a rail ends every preview and gives the keyboard; where nothing
/// has to be asked, the arrangement is published and stored as it is.
pub proof fn a_drop_on_a_rail_ends_previews(
    workspace: &mut Workspace,
    view: ViewId,
    target: DragTarget,
    r: Option<WorkspaceOp>,
)
    requires
        call_ensures(Workspace::drop_on_rail, (workspace, view, target), r),
    ensures
        final(workspace)@.tab_preview is None && final(workspace)@.drop_preview is None && final(workspace)@.outer_preview is None,
        final(workspace)@.focus_pending,
        r is None ==> final(workspace)@.publish_active && final(workspace)@.save_due && final(workspace)@.error is None,
        r is Some ==> final(workspace)@.save_due == old(workspace)@.save_due,
        final(workspace)@.layout == old(workspace)@.layout,
{
}

/// A drop on the outer ring ends every preview exactly where it asks for
/// something.
pub proof fn a_drop_on_the_ring_ends_previews(
    workspace: &mut Workspace,
    target: DragTarget,
    r: Option<WorkspaceOp>,
)
    requires
        call_ensures(Workspace::drop_outer, (workspace, target), r),
    ensures
        r is None ==> final(workspace)@ == old(workspace)@,
        r is Some ==> final(workspace)@.tab_preview is None && final(workspace)@.drop_preview
            is None && final(workspace)@.outer_preview is None && final(workspace)@.focus_pending,
{
}

/// A press on a view's plus adds a tab there, and the view becomes the active
/// one; a view that is gone leaves the active one.
pub proof fn a_plus_adds_a_tab_to_its_view(
    workspace: &mut Workspace,
    view: ViewId,
    r: WorkspaceOp,
)
    requires
        call_ensures(Workspace::new_tab_in_view, (workspace, view), r),
    ensures
        old(workspace)@.layout.region(view) is Some ==> r == (WorkspaceOp::AddTab { view })
            && final(workspace)@.layout.active_view == view,
        old(workspace)@.layout.region(view) is None ==> r == (WorkspaceOp::AddTab {
            view: old(workspace)@.layout.active_view,
        }) && final(workspace)@.layout == old(workspace)@.layout,
        final(workspace)@.focus_pending,
        final(workspace)@.layout.panes == old(workspace)@.layout.panes,
        final(workspace)@.layout.views == old(workspace)@.layout.views,
{
}

/// A chord adds its tab to the active view, and a chip focuses its own tab.
pub proof fn a_tab_is_added_or_focused(
    added: &mut Workspace,
    focused: &mut Workspace,
    view: ViewId,
    tab: TabId,
    a: WorkspaceOp,
    b: WorkspaceOp,
)
    requires
        call_ensures(Workspace::new_tab, (added,), a),
        call_ensures(Workspace::focus_tab, (focused, view, tab), b),
    ensures
        a == (WorkspaceOp::AddTab { view: old(added)@.layout.active_view }),
        b == (WorkspaceOp::FocusTab { view, tab }),
        final(added)@.focus_pending && final(focused)@.focus_pending,
        final(added)@.layout == old(added)@.layout,
        final(focused)@.layout == old(focused)@.layout,
{
}

/// A pane that has the focus is not focused again.
pub proof fn a_focused_pane_is_left_alone(
    workspace: &mut Workspace,
    pane: PaneId,
    r: Option<WorkspaceOp>,
)
    requires
        call_ensures(Workspace::focus, (workspace, pane), r),
    ensures
        old(workspace)@.layout.active_pane() == Some(pane) ==> r is None && final(workspace)@
            == old(workspace)@,
        old(workspace)@.layout.active_pane() != Some(pane) ==> r == Some(
            WorkspaceOp::FocusPane { pane },
        ) && final(workspace)@.focus_pending,
{
}

/// A split splits the focused pane, or the whole active view.
pub proof fn a_split_splits_the_focus(
    workspace: &mut Workspace,
    direction: Direction,
    view: bool,
    r: Option<WorkspaceOp>,
    pane: PaneId,
)
    requires
        call_ensures(Workspace::split, (workspace, direction, view), r),
    ensures
        old(workspace)@.layout.active_pane() is None ==> r is None,
        old(workspace)@.layout.active_pane() == Some(pane) && view ==> r == Some(
            WorkspaceOp::SplitView { view: old(workspace)@.layout.active_view, direction },
        ),
        old(workspace)@.layout.active_pane() == Some(pane) && !view ==> r == Some(
            WorkspaceOp::SplitPane { pane, direction },
        ),
        final(workspace)@.focus_pending,
{
}

/// What the engine made is published and stored; what it refused is said, and
/// nothing changes.
pub proof fn an_outcome_is_taken_over(
    workspace: &mut Workspace,
    outcome: Result<Layout, String>,
    nothing: (),
)
    requires
        call_ensures(Workspace::applied, (workspace, outcome), nothing),
    ensures
        outcome matches Ok(layout) ==> final(workspace)@.layout == layout@ && final(workspace)@.save_due && final(workspace)@.publish_active && final(workspace)@.error is None,
        outcome matches Err(error) ==> final(workspace)@.error == Some(error@) && final(workspace)@.layout == old(workspace)@.layout && final(workspace)@.save_due == old(workspace)@.save_due,
{
}

/// A change is handed out to be stored once, and a failure is said.
pub proof fn a_change_is_stored_once(
    taken: &mut Workspace,
    failed: &mut Workspace,
    error: &str,
    r: bool,
    nothing: (),
)
    requires
        call_ensures(Workspace::take_save, (taken,), r),
        call_ensures(Workspace::save_failed, (failed, error), nothing),
    ensures
        r <==> old(taken)@.save_due,
        !final(taken)@.save_due,
        final(taken)@.layout == old(taken)@.layout,
        final(failed)@.error == Some("Could not save layout: "@ + error@),
        final(failed)@.layout == old(failed)@.layout,
{
}

/// A selection of the source is followed once: the same one again asks for
/// nothing.
pub proof fn a_selection_is_followed_once(
    workspace: &mut Workspace,
    selected: Option<String>,
    r: SelectPlan,
    home: PaneId,
)
    requires
        call_ensures(Workspace::source_changed, (workspace, selected), r),
    ensures
        final(workspace)@.source_selected == selected.deep_view(),
        old(workspace)@.source_selected == selected.deep_view() ==> r is Nothing,
        old(workspace)@.source_selected != selected.deep_view() && selected is Some && old(workspace)@.layout.home_of(selected->0@) == Some(home) ==> r == (SelectPlan::Focus { pane: home }),
        final(workspace)@.layout == old(workspace)@.layout,
{
}

/// A session picked in a pane binds that pane, where it is another.
pub proof fn a_picked_session_binds_its_pane(
    workspace: &Workspace,
    pane: PaneId,
    selected: Option<String>,
    r: SelectPlan,
)
    requires
        call_ensures(Workspace::chat_selected, (workspace, pane, selected), r),
    ensures
        workspace@.layout.pane(pane) is None ==> r is Nothing,
        workspace@.layout.pane(pane) is Some && shown_in(workspace@.layout, pane)
            == selected.deep_view() ==> r is Nothing,
        workspace@.layout.pane(pane) is Some && shown_in(workspace@.layout, pane)
            != selected.deep_view() ==> (r matches SelectPlan::Bind { pane: p, session } && p
            == pane && session.deep_view() == selected.deep_view()),
{
}

/// A switch goes first to a pane that has not the focus, unless it is refused
/// or undoes a failed one.
pub proof fn a_switch_focuses_its_pane(
    workspace: &mut Workspace,
    pane: PaneId,
    facts: &ToggleFacts,
    r: TogglePlan,
)
    requires
        call_ensures(Workspace::toggle, (workspace, pane, facts), r),
    ensures
        r.deed is Recover || r.deed is Refuse ==> !r.focus,
        !(r.deed is Recover) && !(r.deed is Refuse) ==> (r.focus <==> old(workspace)@.layout.active_pane() != Some(pane)),
{
}

/// Each command does what its name says.
pub proof fn a_command_does_what_it_says(command: Command, r: PaneAction)
    requires
        call_ensures(command_action, (command,), r),
    ensures
        command is ToggleSessionView <==> r is Toggle,
        command is NewTab <==> r is NewTab,
        command is ClosePane <==> r is Close,
        command is SplitRight <==> r == (PaneAction::Split {
            direction: Direction::Right,
            view: false,
        }),
        command is SplitDown <==> r == (PaneAction::Split {
            direction: Direction::Down,
            view: false,
        }),
        command is SplitViewRight <==> r == (PaneAction::Split {
            direction: Direction::Right,
            view: true,
        }),
        command is SplitViewDown <==> r == (PaneAction::Split {
            direction: Direction::Down,
            view: true,
        }),
{
}

/// One command's chords differ in the leading key alone: the command key on
/// one platform, the control key on the others.
pub proof fn a_chord_leads_with_the_platforms_key(command: Command, mac: String, other: String)
    requires
        call_ensures(bind_keys, (command, true), mac),
        call_ensures(bind_keys, (command, false), other),
    ensures
        mac@.len() >= 3 && mac@.subrange(0, 3) == "cmd"@,
        other@.len() >= 4 && other@.subrange(0, 4) == "ctrl"@,
        mac@.skip(3) == other@.skip(4),
{
    reveal_strlit("cmd");
    reveal_strlit("ctrl");
    assert("cmd"@.len() == 3 && "ctrl"@.len() == 4);
    assert(mac@.subrange(0, 3) =~= "cmd"@);
    assert(other@.subrange(0, 4) =~= "ctrl"@);
    assert(mac@.skip(3) =~= other@.skip(4));
}

/// A preview says where the drop goes.
pub proof fn a_preview_says_where_a_drop_goes(direction: Option<Direction>, r: &'static str)
    requires
        call_ensures(preview_label, (direction,), r),
    ensures
        direction is None ==> r@ == "Move into tab rail"@,
        direction == Some(Direction::Left) ==> r@ == "Move left"@,
        direction == Some(Direction::Right) ==> r@ == "Move right"@,
        direction == Some(Direction::Up) ==> r@ == "Move above"@,
        direction == Some(Direction::Down) ==> r@ == "Move below"@,
{
}

/// A button of the toolbar is drawn by its sign, and any other by its label.
pub proof fn a_button_is_drawn_by_its_sign(label: &'static str, r: &'static str)
    requires
        call_ensures(button_caption, (label,), r),
    ensures
        label@ == "Split right"@ ==> r@ == "◫"@,
        label@ == "Split down"@ ==> r@ == "⊟"@,
        label@ == "View right"@ ==> r@ == "View ◫"@,
        label@ == "View down"@ ==> r@ == "View ⊟"@,
        label@ == "Pane actions"@ ==> r@ == "⋯"@,
        r@ == label@ || label@ == "Split right"@ || label@ == "Split down"@ || label@
            == "View right"@ || label@ == "View down"@ || label@ == "Pane actions"@,
{
    reveal_strlit("Split right");
    reveal_strlit("Split down");
    reveal_strlit("View right");
    reveal_strlit("View down");
    reveal_strlit("Pane actions");
    assert("Split right"@.len() == 11 && "Split down"@.len() == 10 && "View right"@.len() == 10);
    assert("View down"@.len() == 9 && "Pane actions"@.len() == 12);
    assert("Split down"@[0] == 'S' && "View right"@[0] == 'V');
}

/// A handle follows only its own drag, and only where it can be dragged; two
/// clicks on it even its sides out.
pub proof fn a_handle_follows_its_own_drag(
    handle: &SplitResize,
    drag: &SplitResize,
    interactive: bool,
    clicks: usize,
    a: bool,
    b: bool,
)
    requires
        call_ensures(resizes, (handle, interactive, drag), a),
        call_ensures(equalizes, (interactive, clicks), b),
    ensures
        a <==> interactive && drag.tier == handle.tier && drag.path@ == handle.path@,
        b <==> interactive && clicks == 2,
{
}

/// A tab that already stands where it is to go is not moved.
pub proof fn a_tab_is_not_moved_before_itself(tab: TabId, before: Option<TabId>, r: bool)
    requires
        call_ensures(needs_reorder, (tab, before), r),
    ensures
        before == Some(tab) ==> !r,
        before != Some(tab) ==> r,
{
}

/// A pane is drawn with what shows in it: active exactly where it has the
/// focus, with its terminal where that shows, and with the way back where its
/// switch failed.
pub proof fn a_pane_is_drawn_as_it_is(
    workspace: &mut Workspace,
    pane: PaneId,
    opened: SessionViewStatus,
    chats: &Vec<ChatRow>,
    dragging: bool,
    r: (RuntimePlan, PaneView),
    entry: Pane,
)
    requires
        call_ensures(Workspace::render_pane, (workspace, pane, opened, chats, dragging), r),
        old(workspace)@.layout.pane(pane) == Some(entry),
    ensures
        r.1.active <==> old(workspace)@.layout.active_pane() == Some(pane),
        entry.label matches Some(label) ==> r.1.title@ == label,
        old(workspace)@.panes.dom().contains(pane) ==> r.1.shows_terminal == old(workspace)@.panes[pane].shows_terminal,
        !old(workspace)@.panes.dom().contains(pane) ==> !r.1.shows_terminal,
        old(workspace)@.panes.dom().contains(pane) ==> (r.1.recover <==> (old(workspace)@.panes[pane].terminal matches Some(ViewStatus::Failed(_)))),
        !dragging ==> r.1.preview is None,
        dragging && old(workspace)@.outer_preview is None ==> (old(workspace)@.drop_preview matches Some(over) ==> (r.1.preview is Some <==> over.0 == pane) && (over.0
            == pane ==> r.1.preview == Some(over.1))),
        old(workspace)@.outer_preview is Some || old(workspace)@.drop_preview is None
            ==> r.1.preview is None,
        final(workspace)@.layout == old(workspace)@.layout,
        final(workspace)@.panes.dom().contains(pane),
{
}

/// A view is drawn with its rail where that stands, and shows a drop behind its
/// last tab, or over its edge, only while something is dragged there.
pub proof fn a_view_is_drawn_as_it_is(
    workspace: &mut Workspace,
    view: ViewId,
    opened: SessionViewStatus,
    chats: &Vec<ChatRow>,
    dragging: bool,
    r: (RuntimePlan, Option<ViewModel>),
    region: Region,
)
    requires
        call_ensures(Workspace::render_view, (workspace, view, opened, chats, dragging), r),
        old(workspace)@.layout.region(view) == Some(region),
        region.view == view,
    ensures
        r.1 matches Some(model) && {
            &&& model.placement == region.placement
            &&& model.insert_last <==> dragging && old(workspace)@.tab_preview == Some(
                (view, None::<TabId>),
            )
            &&& !dragging ==> model.outer is None
            &&& dragging && old(workspace)@.outer_preview is Some && (old(workspace)@.outer_preview->0).0 == view ==> model.outer == Some(
                (old(workspace)@.outer_preview->0).1,
            )
            &&& old(workspace)@.outer_preview is None || (old(workspace)@.outer_preview->0).0
                != view ==> model.outer is None
            &&& model.tools_in_rail ==> region.placement is Top
        },
        final(workspace)@.layout == old(workspace)@.layout,
{
}

/// A view that is gone is not drawn.
pub proof fn a_closed_view_is_not_drawn(
    workspace: &mut Workspace,
    view: ViewId,
    opened: SessionViewStatus,
    chats: &Vec<ChatRow>,
    dragging: bool,
    r: (RuntimePlan, Option<ViewModel>),
)
    requires
        call_ensures(Workspace::render_view, (workspace, view, opened, chats, dragging), r),
    ensures
        r.1 is Some <==> old(workspace)@.layout.region(view) is Some,
{
}

} // verus!
