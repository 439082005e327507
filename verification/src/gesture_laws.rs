//! What holds of gestures: a dragged session's pointer, the samples of a drag,
//! selections and the wheel in a terminal, and requests to terminals.
use vstd::prelude::*;
use crate::drag_laws::{shown_chips_take_part, the_first_item_is_the_first};
use crate::json::Json;
use crate::layout::{Layout, PaneId, Region, TabId, ViewId};
use crate::list::first_place;
use crate::pane_drag::{
    accept_sidebar_session_drop, apply_single_pane_drag_move, apply_split_drag_move,
    cancel_split_drag, commit_sidebar_split, commit_split_drop, existing_sidebar_session_resolution,
    finish_sidebar_drag, move_sidebar_session_pointer, paints, pane_on_screen,
    release_sidebar_session_pointer, resolve_sidebar_pointer, split_drag_matches_payload, strip_ids,
    strip_of, workspace_geometry, ChipBound, ChipPlace, DragPayload, DragSplit, DropCommit,
    DropPlan, Geometry, PaneBound, PanePlace, PointerMove, Rect, Resolution, SidebarDrop,
    SidebarPointer,
};
use crate::terminal_requests::{
    close_request, close_session_request, open_request, resize_request, subscribe_request,
    write_request,
};
use crate::terminal_tabs::{route_wheel, with_target, WheelMode, WheelModifiers, WheelStep};
use crate::terminal_view::{composition_cell, toggle_chord, Cell, Gesture, Hover, Press};

verus! {

/// A press becomes a drag once the pointer has traveled, and stays one; the
/// drag begins once.
pub proof fn a_press_becomes_a_drag_once(
    pointer: &mut Option<SidebarPointer>,
    far: bool,
    r: PointerMove,
    press: SidebarPointer,
)
    requires
        call_ensures(move_sidebar_session_pointer, (pointer, true, false, far), r),
        *old(pointer) == Some(press),
    ensures
        *final(pointer) is Some && final(pointer)->0.session_id@ == press.session_id@,
        final(pointer)->0.dragging <==> press.dragging || far,
        !press.dragging && !far ==> r is Nothing,
        press.dragging || far ==> (r matches PointerMove::Resolve { session_id, began }
            && session_id@ == press.session_id@ && (began <==> !press.dragging)),
{
}

/// A button that was let go elsewhere, or another drag, forgets the press.
pub proof fn a_lost_button_forgets_the_press(
    pointer: &mut Option<SidebarPointer>,
    left_pressed: bool,
    other_drag: bool,
    far: bool,
    r: PointerMove,
)
    requires
        call_ensures(move_sidebar_session_pointer, (pointer, left_pressed, other_drag, far), r),
    ensures
        !left_pressed || other_drag ==> *final(pointer) is None,
        (!left_pressed || other_drag) && *old(pointer) is Some ==> r is Cancel,
        *old(pointer) is None ==> r is Nothing && *final(pointer) is None,
{
}

/// A release ends the press, and drops its session exactly where it was
/// dragged.
pub proof fn only_a_dragged_session_is_dropped(
    pointer: &mut Option<SidebarPointer>,
    r: Option<String>,
)
    requires
        call_ensures(release_sidebar_session_pointer, (pointer,), r),
    ensures
        *final(pointer) is None,
        r is Some <==> *old(pointer) is Some && old(pointer)->0.dragging,
        r matches Some(session) ==> session@ == old(pointer)->0.session_id@,
{
}

/// A released session commits what its last sample showed, and nothing outside
/// or of another drag; the drag is over either way.
pub proof fn a_release_ends_the_drag(
    drag: &mut Option<DragSplit>,
    session: &str,
    r: Option<DropPlan>,
    was: DragSplit,
)
    requires
        call_ensures(finish_sidebar_drag, (drag, session), r),
        *old(drag) == Some(was),
    ensures
        *final(drag) is None,
        r is Some <==> was.source is SidebarSession && was.session_id.deep_view() == Some(session@)
            && !(was.plan is Nowhere),
        r matches Some(plan) ==> plan == was.plan,
{
}

/// A drop is accepted only by the drag it belongs to.
pub proof fn a_drop_belongs_to_its_drag(
    accepted: &mut Option<DragSplit>,
    committed: &mut Option<DragSplit>,
    payload: &DragPayload,
    was: DragSplit,
    a: Option<DropPlan>,
    b: DropCommit,
)
    requires
        call_ensures(accept_sidebar_session_drop, (accepted, payload), a),
        call_ensures(commit_split_drop, (committed, payload), b),
        *old(accepted) == Some(was),
        *old(committed) == Some(was),
    ensures
        ({
            let mine = was.source == payload.source && was.session_id.deep_view()
                == payload.session_id.deep_view();
            &&& *final(accepted) is None && *final(committed) is None
            &&& a is Some <==> mine
            &&& a matches Some(plan) ==> plan == was.plan
            &&& !mine ==> b is Redraw
            &&& mine && payload.source is SidebarSession ==> b == (DropCommit::Sidebar {
                plan: was.plan,
            })
            &&& !(payload.source is SidebarSession) ==> !(b is Sidebar)
        }),
{
}

/// A drag that is given up is over, and tells whether there was one.
pub proof fn a_drag_is_given_up(drag: &mut Option<DragSplit>, r: bool)
    requires
        call_ensures(cancel_split_drag, (drag,), r),
    ensures
        *final(drag) is None,
        r <==> *old(drag) is Some,
{
}

/// A drag's payload is told by its source and its session together.
pub proof fn a_payload_is_told_by_source_and_session(
    state: &DragSplit,
    payload: &DragPayload,
    r: bool,
)
    requires
        call_ensures(split_drag_matches_payload, (state, payload), r),
    ensures
        r <==> state.source == payload.source && state.session_id.deep_view()
            == payload.session_id.deep_view(),
{
}

/// A sample over the outlet is kept with its payload, and redraws only where it
/// differs from the last. An open session leads to the pane it has; any other
/// goes where the pointer is.
pub proof fn a_sample_is_kept_with_its_payload(
    drag: &mut Option<DragSplit>,
    payload: &DragPayload,
    layout: &Layout,
    root: Rect,
    inside: bool,
    painted: &Vec<PanePlace>,
    geometric: Resolution,
    r: bool,
)
    requires
        call_ensures(
            apply_split_drag_move,
            (drag, payload, layout, root, inside, painted, geometric),
            r,
        ),
    ensures
        ({
            let home = match payload.session_id {
                Some(session) => layout@.home_of(session@),
                None => None,
            };
            let kept = final(drag)->0;
            &&& *final(drag) is Some
            &&& kept.source == payload.source
            &&& kept.session_id.deep_view() == payload.session_id.deep_view()
            &&& kept.root == root
            &&& inside && home is Some ==> kept.plan == (DropPlan::FocusPane { pane: home->0 })
                && kept.anchor == home
            &&& !inside || home is None ==> kept.plan == geometric.plan && kept.preview
                == geometric.preview && kept.anchor == geometric.anchor
            &&& r <==> old(drag).deep_view() != final(drag).deep_view()
        }),
{
}

/// Over a single pane only a session of the sidebar is followed, and only while
/// that pane is there.
pub proof fn a_single_pane_follows_sessions(
    drag: &mut Option<DragSplit>,
    payload: &DragPayload,
    layout: &Layout,
    workspace_mode: bool,
    root: Rect,
    inside: bool,
    painted: &Vec<PanePlace>,
    geometric: Resolution,
    r: bool,
)
    requires
        call_ensures(
            apply_single_pane_drag_move,
            (drag, payload, layout, workspace_mode, root, inside, painted, geometric),
            r,
        ),
    ensures
        workspace_mode || !(payload.source is SidebarSession) ==> !r && *final(drag) == *old(drag),
        !workspace_mode && payload.source is SidebarSession ==> {
            &&& *final(drag) is Some
            &&& final(drag)->0.session_id.deep_view() == payload.session_id.deep_view()
            &&& final(drag)->0.root == root
            &&& r <==> old(drag).deep_view() != final(drag).deep_view()
            &&& layout@.active_pane() is None ==> final(drag)->0.plan is Nowhere && final(drag)->0.preview is None
        },
{
}

/// A pointer of the sidebar without an outlet drags nothing; over one it is
/// followed, in the workspace or over the pane that shows.
pub proof fn a_pointer_without_an_outlet_drags_nothing(
    drag: &mut Option<DragSplit>,
    session: &str,
    outlet: Option<Rect>,
    layout: &Layout,
    workspace_mode: bool,
    inside: bool,
    painted: &Vec<PanePlace>,
    geometric: Resolution,
    r: bool,
)
    requires
        call_ensures(
            resolve_sidebar_pointer,
            (drag, session, outlet, layout, workspace_mode, inside, painted, geometric),
            r,
        ),
    ensures
        outlet is None ==> *final(drag) is None && (r <==> *old(drag) is Some),
        outlet matches Some(root) ==> {
            &&& *final(drag) is Some
            &&& final(drag)->0.source is SidebarSession
            &&& final(drag)->0.session_id.deep_view() == Some(session@)
            &&& final(drag)->0.root == root
            &&& r <==> old(drag).deep_view() != final(drag).deep_view()
            &&& workspace_mode && inside && layout@.home_of(session@) is Some ==> final(drag)->0.plan == (DropPlan::FocusPane { pane: layout@.home_of(session@)->0 })
            &&& workspace_mode && !inside ==> final(drag)->0.plan == geometric.plan
            &&& !workspace_mode && layout@.active_pane() is None ==> final(drag)->0.plan is Nowhere
        },
{
}

/// An open session leads to its pane, which is painted whole where it shows;
/// outside the outlet, and for any other, the pointer decides.
pub proof fn an_open_session_leads_to_its_pane(
    layout: &Layout,
    session: &Option<String>,
    inside: bool,
    painted: &Vec<PanePlace>,
    r: Option<Resolution>,
    at: int,
)
    requires
        call_ensures(existing_sidebar_session_resolution, (layout, session, inside, painted), r),
    ensures
        !inside ==> r is None,
        session is None ==> r is None,
        session matches Some(name) ==> (r is Some <==> inside && layout@.home_of(name@) is Some),
        r matches Some(found) ==> found.anchor == layout@.home_of(session->0@) && found.plan == (
        DropPlan::FocusPane { pane: found.anchor->0 }),
        r is Some && (r->0).preview is Some ==> exists|i: int|
            0 <= i < painted@.len() && (#[trigger] painted@[i]).pane == (r->0).anchor->0
                && painted@[i].rect == ((r->0).preview->0).rect,
        r is Some && 0 <= at < painted@.len() && painted@[at].pane == (r->0).anchor->0 ==> (
        r->0).preview is Some,
{
    if let Some(found) = r {
        let pane = found.anchor->0;
        the_first_item_is_the_first(painted@, paints(pane));
        let first = first_place(painted@, paints(pane));
        if first < painted@.len() {
            assert(painted@[first].pane == pane);
        }
        if 0 <= at < painted@.len() && painted@[at].pane == pane {
            assert(paints(pane)(painted@[at]));
        }
    }
}

/// A pane is on the screen exactly where its tab is the one its view shows.
pub proof fn a_pane_of_a_hidden_tab_is_off_the_screen(
    layout: &Layout,
    pane: PaneId,
    r: Option<(ViewId, TabId)>,
    region: Region,
)
    requires
        call_ensures(pane_on_screen, (layout, pane), r),
    ensures
        layout@.pane(pane) is None ==> r is None,
        layout@.pane(pane) is Some && layout@.region(layout@.pane(pane)->0.view) == Some(region)
            ==> (r is Some <==> region.active_tab == layout@.pane(pane)->0.tab),
        r matches Some(place) ==> place == (layout@.pane(pane)->0.view, layout@.pane(pane)->0.tab),
{
}

/// A valid drop ends the single-session view; one outside keeps it.
pub proof fn a_valid_drop_ends_the_single_session(
    plan: DropPlan,
    session: &Option<String>,
    layout: &Layout,
    solo: bool,
    r: (SidebarDrop, bool),
)
    requires
        call_ensures(commit_sidebar_split, (plan, session, layout, solo), r),
    ensures
        !(plan is Nowhere) ==> !r.1,
        plan is Nowhere ==> r.1 == solo,
{
}

/// A press begins a selection, but for one that only clears it or is off the
/// grid.
pub proof fn a_press_begins_a_selection(
    gesture: &mut Gesture,
    on_grid: bool,
    clicks: usize,
    shift: bool,
    selected: bool,
    r: Press,
)
    requires
        call_ensures(Gesture::on_mouse_down, (gesture, on_grid, clicks, shift, selected), r),
    ensures
        !on_grid ==> r is Nothing,
        r is Nothing ==> *final(gesture) == *old(gesture),
        r is Clear ==> final(gesture).selection == Some(false),
        !(r is Nothing) && !(r is Clear) ==> final(gesture).selection == Some(true),
        final(gesture).thumb == old(gesture).thumb,
{
}

/// Edge scrolling is scheduled once at a time, for a drag that selects, and
/// goes on while lines are left.
pub proof fn edge_scrolling_steps_while_selecting(
    scheduled: &mut Gesture,
    stepped: &mut Gesture,
    lines: i32,
    after: i32,
    a: bool,
    b: Option<i32>,
)
    requires
        call_ensures(Gesture::schedule_selection_scroll, (scheduled, lines), a),
        call_ensures(Gesture::step_selection_scroll, (stepped, lines, after), b),
    ensures
        a ==> final(scheduled).scroll_due && !old(scheduled).scroll_due && old(scheduled).selection == Some(true) && lines != 0,
        old(scheduled).selection == Some(true) && lines != 0 ==> final(scheduled).scroll_due,
        !a ==> *final(scheduled) == *old(scheduled),
        b is Some <==> old(stepped).selection == Some(true) && lines != 0,
        b matches Some(n) ==> n == lines,
        final(stepped).scroll_due <==> b is Some && after != 0,
        final(stepped).selection == old(stepped).selection,
{
}

/// The thumb is held from its press until a button goes up, which ends every
/// gesture.
pub proof fn a_release_ends_every_gesture(
    pressed: &mut Gesture,
    released: &mut Gesture,
    nothing: (),
)
    requires
        call_ensures(Gesture::on_scrollbar_mouse_down, (pressed,), nothing),
        call_ensures(Gesture::on_mouse_up, (released,), nothing),
    ensures
        final(pressed).thumb && final(pressed).selection == old(pressed).selection,
        final(released).selection is None && !final(released).scroll_due && !final(released).thumb,
{
}

/// Leaving a terminal leaves its scrollbar too; each change is told once.
pub proof fn leaving_a_terminal_leaves_its_scrollbar(
    over: &mut Hover,
    bar: &mut Hover,
    hovered: bool,
    a: bool,
    b: bool,
)
    requires
        call_ensures(Hover::on_terminal_hover, (over, hovered), a),
        call_ensures(Hover::on_scrollbar_hover, (bar, hovered), b),
    ensures
        final(over).terminal == hovered,
        a <==> old(over).terminal != hovered,
        old(over).terminal && !hovered ==> !final(over).scrollbar,
        hovered ==> final(over).scrollbar == old(over).scrollbar,
        final(bar).scrollbar == hovered,
        b <==> old(bar).scrollbar != hovered,
        final(bar).terminal == old(bar).terminal,
{
}

/// A composition shows at the cursor, else where that was last, and never off
/// the grid.
pub proof fn a_composition_shows_at_the_cursor(
    visible: Option<Cell>,
    last: Cell,
    cols: u16,
    rows: u16,
    r: Cell,
)
    requires
        call_ensures(composition_cell, (visible, last, cols, rows), r),
    ensures
        ({
            let cursor = if visible is Some {
                visible->0
            } else {
                last
            };
            &&& cols > 0 ==> r.col < cols
            &&& rows > 0 ==> r.row < rows
            &&& cursor.row < rows ==> r.row == cursor.row
            &&& cursor.col < cols ==> r.col == cursor.col
            &&& cursor.row >= rows > 0 ==> r.row == rows - 1
            &&& cursor.col >= cols > 0 ==> r.col == cols - 1
        }),
{
}

/// The panel's chord is the platform's own key and a letter.
pub proof fn the_panel_has_its_chord(mac: bool, r: &'static str)
    requires
        call_ensures(toggle_chord, (mac,), r),
    ensures
        mac ==> r@ == "cmd-j"@,
        !mac ==> r@ == "ctrl-j"@,
{
}

/// A program that reports the mouse hears of the wheel, one on the alternate
/// screen gets arrows, and the shift key scrolls the history over both.
pub proof fn shift_scrolls_over_a_program(
    step: i32,
    mode: WheelMode,
    modifiers: WheelModifiers,
    cell: Option<(u16, u16)>,
    r: WheelStep,
)
    requires
        call_ensures(route_wheel, (step, mode, modifiers, cell), r),
    ensures
        modifiers.shift ==> r == WheelStep::Scroll(step),
        !mode.mouse_reporting && !mode.alternate_scroll ==> r == WheelStep::Scroll(step),
        !modifiers.shift && (mode.mouse_reporting || mode.alternate_scroll) ==> !(r is Scroll),
        !modifiers.shift && mode.mouse_reporting && cell is None ==> r is Drop,
        !modifiers.shift && !mode.mouse_reporting && mode.alternate_scroll ==> r is Report,
{
}

/// An addressed request names its device once and keeps every other parameter;
/// one for this device is left as it is.
pub proof fn an_addressed_request_keeps_its_parameters(
    params: Json,
    target: &Option<String>,
    r: Json,
    i: int,
)
    requires
        call_ensures(with_target, (params, target), r),
    ensures
        target is None ==> r == params,
        target is Some && params is Object ==> r is Object,
        target is Some && params is Object && 0 <= i < params->Object_0@.len()
            && params->Object_0@[i].0@ != "targetDeviceId"@ ==> r->Object_0@[i]
            == params->Object_0@[i],
        target is Some && params is Object ==> exists|k: int|
            0 <= k < r->Object_0@.len() && (#[trigger] r->Object_0@[k]).0@ == "targetDeviceId"@
                && r->Object_0@[k].1 is Text && r->Object_0@[k].1->Text_0@ == target->0@,
{
    if target is Some && params is Object {
        let at = crate::terminal_tabs::key_place(params->Object_0@, "targetDeviceId"@);
        assert(r->Object_0@[at].0@ == "targetDeviceId"@);
        if at < params->Object_0@.len() {
            member_is_named(params->Object_0@, "targetDeviceId"@);
        }
    }
}

/// The place of a member's name is where it stands.
proof fn member_is_named(members: Seq<(String, Json)>, name: Seq<char>)
    requires
        crate::terminal_tabs::key_place(members, name) < members.len(),
    ensures
        0 <= crate::terminal_tabs::key_place(members, name),
        members[crate::terminal_tabs::key_place(members, name)].0@ == name,
    decreases members.len(),
{
    if members.len() > 0 && members[0].0@ != name {
        let rest = members.subrange(1, members.len() as int);
        member_is_named(rest, name);
        let at = crate::terminal_tabs::key_place(rest, name);
        assert(rest[at] == members[at + 1]);
    }
}

/// Each request to a terminal goes by its own method.
pub proof fn requests_go_by_their_methods(
    id: &str,
    bytes: &[u8],
    after: u64,
    cols: usize,
    rows: usize,
    size: Option<(u16, u16)>,
    target: &Option<String>,
    opened: (&'static str, Json),
    joined: (&'static str, Json),
    written: (&'static str, Json),
    closed: (&'static str, Json),
    subscribed: (&'static str, Json),
    resized: (&'static str, Json),
    released: (&'static str, Json),
)
    requires
        call_ensures(open_request, (false, id, size, target), opened),
        call_ensures(open_request, (true, id, size, target), joined),
        call_ensures(write_request, (id, bytes, target), written),
        call_ensures(close_request, (id, target), closed),
        call_ensures(subscribe_request, (id, after, target), subscribed),
        call_ensures(resize_request, (id, cols, rows, target), resized),
        call_ensures(close_session_request, (id, target), released),
    ensures
        opened.0@ == "OpenTerminal"@,
        joined.0@ == "OpenSessionTerminal"@,
        written.0@ == "WriteTerminal"@,
        closed.0@ == "CloseTerminal"@,
        subscribed.0@ == "SubscribeTerminal"@,
        resized.0@ == "ResizeTerminal"@,
        released.0@ == "CloseSessionTerminal"@,
{
}

/// The geometry of a drag has one strip for each view that shows a chip, by the
/// views' ids, with its chips from left to right.
pub proof fn strips_stand_in_order(
    layout: &Layout,
    panes: &Vec<PaneBound>,
    views: &Vec<ViewId>,
    chips: &Vec<ChipBound>,
    r: Geometry,
    i: int,
    a: int,
    b: int,
)
    requires
        call_ensures(workspace_geometry, (layout, panes, views, chips), r),
        0 <= i < r.strips@.len(),
    ensures
        i + 1 < r.strips@.len() ==> r.strips@[i].view.0 < r.strips@[i + 1].view.0,
        r.strips@[i].chips@.len() > 0,
        0 <= a < b < r.strips@[i].chips@.len() ==> r.strips@[i].chips@[a].place
            <= r.strips@[i].chips@[b].place,
        0 <= a < b < r.strips@[i].chips@.len() && r.strips@[i].chips@[a].place
            == r.strips@[i].chips@[b].place ==> r.strips@[i].chips@[a].tab.0
            <= r.strips@[i].chips@[b].tab.0,
{
    broadcast use vstd::seq_lib::group_to_multiset_ensures;
    let ids = strip_ids(r.strips@);
    assert(ids[i] == r.strips@[i].view);
    if i + 1 < r.strips@.len() {
        assert(ids[i + 1] == r.strips@[i + 1].view);
    }
    assert(ids.contains(r.strips@[i].view));
    let strip = strip_of(layout@, chips@, r.strips@[i].view);
    assert(r.strips@[i].chips@.to_multiset() == strip.to_multiset());
    assert(r.strips@[i].chips@.to_multiset().len() == r.strips@[i].chips@.len());
    assert(strip.to_multiset().len() == strip.len());
}

/// A strip has exactly the painted chips of its view whose tabs are there.
pub proof fn a_strip_has_the_chips_of_its_view(
    layout: &Layout,
    panes: &Vec<PaneBound>,
    views: &Vec<ViewId>,
    chips: &Vec<ChipBound>,
    r: Geometry,
    i: int,
    chip: ChipPlace,
)
    requires
        call_ensures(workspace_geometry, (layout, panes, views, chips), r),
        0 <= i < r.strips@.len(),
    ensures
        r.strips@[i].chips@.contains(chip) <==> {
            &&& chips@.contains(
                ChipBound { view: r.strips@[i].view, tab: chip.tab, place: chip.place },
            )
            &&& layout@.region(r.strips@[i].view) is Some
            &&& layout@.tab(r.strips@[i].view, chip.tab) is Some
        },
{
    broadcast use vstd::seq_lib::group_to_multiset_ensures;
    let strip = strip_of(layout@, chips@, r.strips@[i].view);
    shown_chips_take_part(layout@, chips@, r.strips@[i].view, chip);
    assert(r.strips@[i].chips@.to_multiset() == strip.to_multiset());
    assert(r.strips@[i].chips@.contains(chip) <==> r.strips@[i].chips@.to_multiset().count(chip)
        > 0);
    assert(strip.contains(chip) <==> strip.to_multiset().count(chip) > 0);
}

} // verus!
