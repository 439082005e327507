//! What holds of the shell around the panes: composers, drafts, the selection,
//! the keyboard, and the arrangement that is stored.
use vstd::prelude::*;
use crate::drag_laws::the_first_item_is_the_first;
use crate::layout::{is_pane, Arrangement, Direction, Layout, Pane, PaneId, ViewId};
use crate::list::{first_place, first_place_bounds};
use crate::pane_drag::{made_pane, DropPlan, LayoutOp, Made, SidebarDrop};
use crate::pane_header::{is_chat, ChatRow};
use crate::pane_shell::{
    alive, has_dead, keeps_space, native_space, pane_menu_rows, without_dead, ComposerDeed,
    ComposerEvent, FlushPlan, MenuDeed, MenuRow, Overlay,
};
use crate::pane_surfaces::{
    chat_panes, key_of_chat, reseat_composer_as_dock, Composing, Desk, PaneShell, QueueEdit, Target,
};

verus! {

/// The conversation a pane shows, if any.
pub open spec fn shown_in(layout: Arrangement, pane: PaneId) -> Option<Seq<char>> {
    match layout.pane(pane) {
        Some(entry) => entry.session,
        None => None,
    }
}

/// Binding a session to a pane binds it there, and leaves every other pane's.
pub proof fn a_binding_takes(
    layout: Arrangement,
    pane: PaneId,
    session: Option<Seq<char>>,
    other: PaneId,
)
    requires
        layout.pane(pane) is Some,
    ensures
        layout.with_session(pane, session).pane(pane) == Some(
            Pane { session, ..layout.pane(pane)->0 },
        ),
        other != pane ==> layout.with_session(pane, session).pane(other) == layout.pane(other),
{
    let after = layout.with_session(pane, session);
    let at = first_place(layout.panes, is_pane(pane));
    first_place_bounds(layout.panes, is_pane(pane));
    first_place_bounds(after.panes, is_pane(pane));
    first_place_bounds(layout.panes, is_pane(other));
    first_place_bounds(after.panes, is_pane(other));
    let now = first_place(after.panes, is_pane(pane));
    assert(is_pane(pane)(after.panes[at]));
    assert(now == at) by {
        if now < at {
            assert(is_pane(pane)(layout.panes[now]));
        }
    }
    if other != pane {
        let was = first_place(layout.panes, is_pane(other));
        let is = first_place(after.panes, is_pane(other));
        if was < layout.panes.len() {
            assert(was != at);
            assert(is_pane(other)(after.panes[was]));
        }
        if is < after.panes.len() {
            assert(is != at);
            assert(is_pane(other)(layout.panes[is]));
        }
        assert(was == is || (was >= layout.panes.len() && is >= after.panes.len()));
    }
}

/// A changed arrangement is written, but never during a gesture; nothing else
/// of the shell changes with it.
pub proof fn a_change_is_written_outside_gestures(desk: Desk)
    ensures
        desk.noted().save_armed <==> desk.save_armed || (desk.dirty && !desk.divider_dragging
            && desk.drag is None),
        desk.scheduled().save_armed <==> desk.save_armed || ((desk.dirty || desk.store_dirty)
            && !desk.divider_dragging && desk.drag is None),
        (Desk { save_armed: desk.save_armed, ..desk.noted() }) == desk,
        (Desk { save_armed: desk.save_armed, ..desk.scheduled() }) == desk,
{
}

/// The workspace tree shows where something was split or added and no single
/// session shows over it.
pub proof fn the_tree_shows_what_was_split(desk: Desk)
    ensures
        desk.solo ==> !desk.workspace_mode(),
        !desk.solo && (desk.layout.panes.len() > 1 || desk.layout.tabs.len() > 1
            || desk.layout.views.len() > 1) ==> desk.workspace_mode(),
{
}

/// A fresh surface shows its pane's session, and so does its composer, which
/// asks for the keyboard exactly in the focused pane.
pub proof fn a_fresh_surface_shows_its_session(desk: Desk, pane: PaneId)
    ensures
        ({
            let after = desk.created(pane);
            let session = shown_in(desk.layout, pane);
            let surface = after.surfaces[pane];
            &&& after.surfaces.dom().contains(pane)
            &&& surface.chat == session && surface.transcript == session
            &&& after.composers[surface.composer].target == Target::Fixed(session)
            &&& after.composers[surface.composer].focus_pending <==> desk.layout.active_pane()
                == Some(pane)
            &&& !desk.parked.dom().contains((desk.space, pane))
                ==> after.composers[surface.composer].draft is None
            &&& after.layout == desk.layout && after.dock == desk.dock
        }),
{
}

/// A fresh surface takes over the dock's composer exactly where that was
/// writing to the same conversation; any other gets a composer of its own.
pub proof fn a_fresh_surface_takes_the_dock_over(desk: Desk, pane: PaneId, id: u64)
    requires
        desk.sound(),
        desk.next_composer < u64::MAX,
    ensures
        ({
            let after = desk.created(pane);
            let session = shown_in(desk.layout, pane);
            let same = match session {
                Some(chat) => desk.dock_key == chat,
                None => desk.dock_key.len() == 0,
            };
            &&& after.surfaces[pane].composer == desk.dock <==> !desk.solo
                && desk.composers[desk.dock].target is Selected && same
            &&& after.surfaces[pane].composer != desk.dock ==> !desk.composers.dom().contains(
                after.surfaces[pane].composer,
            ) && after.next_composer == desk.next_composer + 1
            &&& id != after.surfaces[pane].composer ==> after.composers.dom().contains(id)
                == desk.composers.dom().contains(id)
            &&& id != after.surfaces[pane].composer ==> after.composers[id] == desk.composers[id]
        }),
{
    if desk.dock_key.len() == 0 {
        assert(desk.dock_key =~= Seq::<char>::empty());
    }
}

/// A pane that is gone loses its surface; the others keep theirs.
pub proof fn a_closed_pane_loses_its_surface(desk: Desk, pane: PaneId)
    ensures
        desk.pruned().surfaces.dom().contains(pane) <==> desk.surfaces.dom().contains(pane)
            && desk.layout.pane(pane) is Some,
        desk.pruned().surfaces.dom().contains(pane) ==> desk.pruned().surfaces[pane]
            == desk.surfaces[pane],
        (Desk { surfaces: desk.surfaces, ..desk.pruned() }) == desk,
{
}

/// A composer that moves takes its draft along; a composer that follows the
/// selection has no conversation to move.
pub proof fn a_moved_composer_keeps_its_draft(
    desk: Desk,
    id: u64,
    chat: Option<Seq<char>>,
    other: u64,
)
    requires
        desk.composers.dom().contains(id),
    ensures
        ({
            let after = desk.composer_moved(id, chat);
            &&& after.composers[id].draft == desk.composers[id].draft
            &&& after.composers[id].focus_pending == desk.composers[id].focus_pending
            &&& desk.composers[id].target is Fixed ==> after.composers[id].target == Target::Fixed(
                chat,
            )
            &&& desk.composers[id].target is Selected ==> after == desk
            &&& other != id ==> after.composers[other] == desk.composers[other]
            &&& after.composers.dom() =~= desk.composers.dom()
            &&& after.layout == desk.layout && after.surfaces == desk.surfaces
        }),
{
}

/// A newer navigation of a pane is not overwritten by where its composer went.
pub proof fn a_newer_navigation_is_kept(desk: Desk, pane: PaneId, chat: Option<Seq<char>>)
    requires
        desk.surfaces.dom().contains(pane),
        desk.composers[desk.surfaces[pane].composer].target == Target::Fixed(chat),
        shown_in(desk.layout, pane) != desk.surfaces[pane].chat,
        shown_in(desk.layout, pane) != chat,
    ensures
        desk.synced(pane) == desk,
{
}

/// A pane that follows its composer is bound to where that went, and the
/// change is written; a terminal never follows one.
pub proof fn a_pane_is_bound_to_where_its_composer_went(
    desk: Desk,
    pane: PaneId,
    chat: Option<Seq<char>>,
)
    requires
        desk.surfaces.dom().contains(pane),
        desk.composers[desk.surfaces[pane].composer].target == Target::Fixed(chat),
        chat != desk.surfaces[pane].chat,
        desk.layout.pane(pane) is Some,
        shown_in(desk.layout, pane) == desk.surfaces[pane].chat,
    ensures
        desk.layout.pane(pane)->0.mode is Chat ==> {
            let after = desk.synced(pane);
            &&& shown_in(after.layout, pane) == chat
            &&& after.surfaces[pane].chat == chat
            &&& after.surfaces[pane].composer == desk.surfaces[pane].composer
            &&& after.dirty
            &&& !desk.divider_dragging && desk.drag is None ==> after.save_armed
            &&& after.composers == desk.composers
        },
        !(desk.layout.pane(pane)->0.mode is Chat) ==> desk.synced(pane) == desk,
{
    a_binding_takes(desk.layout, pane, chat, pane);
}

/// A surface follows its pane to another session with the composer it has; a
/// surface that is right already keeps its transcript.
pub proof fn a_surface_follows_its_pane(desk: Desk, pane: PaneId, id: u64)
    requires
        desk.surfaces.dom().contains(pane),
    ensures
        ({
            let after = desk.rebound(pane);
            let session = shown_in(desk.layout, pane);
            let surface = desk.surfaces[pane];
            &&& after.surfaces[pane].chat == session
            &&& after.surfaces[pane].composer == surface.composer
            &&& surface.chat != session ==> after.surfaces[pane].transcript == session
                && after.composers[surface.composer].target == Target::Fixed(session)
                && after.composers[surface.composer].draft
                == desk.composers[surface.composer].draft
            &&& surface.chat == session ==> after.composers == desk.composers
            &&& surface.chat == session && surface.transcript is Some
                ==> after.surfaces[pane].transcript == surface.transcript
            &&& surface.chat == session && surface.transcript is None
                ==> after.surfaces[pane].transcript == session
            &&& id != surface.composer ==> after.composers[id] == desk.composers[id]
        }),
{
}

/// The panes that get surfaces are the chat panes, in order.
pub proof fn chat_panes_get_surfaces(panes: Seq<Pane>)
    ensures
        chat_panes(panes) == panes.filter(|pane: Pane| pane.mode is Chat).map_values(
            |pane: Pane| pane.pane,
        ),
    decreases panes.len(),
{
    reveal(Seq::filter);
    let is_chat_pane = |pane: Pane| pane.mode is Chat;
    let id = |pane: Pane| pane.pane;
    if panes.len() > 0 {
        let front = panes.drop_last();
        chat_panes_get_surfaces(front);
        if is_chat_pane(panes.last()) {
            assert(front.filter(is_chat_pane).push(panes.last()).map_values(id) =~= front.filter(
                is_chat_pane,
            ).map_values(id).push(panes.last().pane));
        }
    }
    assert(chat_panes(panes) =~= panes.filter(is_chat_pane).map_values(id));
}

/// Giving panes their surfaces leaves the shell around them: what shows, what
/// is selected, and that a change waits to be stored.
proof fn surfaces_leave_the_shell(desk: Desk, panes: Seq<PaneId>)
    ensures
        ({
            let after = desk.ensured_over(panes);
            &&& after.solo == desk.solo && after.solo_chats == desk.solo_chats
            &&& after.space == desk.space && after.selected_chat == desk.selected_chat
            &&& after.selected_space == desk.selected_space
            &&& after.drag == desk.drag && after.divider_dragging == desk.divider_dragging
            &&& after.picker == desk.picker && after.dock == desk.dock
            &&& after.store_dirty == desk.store_dirty
            &&& desk.dirty ==> after.dirty
            &&& desk.save_armed ==> after.save_armed
            &&& after.layout.views == desk.layout.views && after.layout.tabs == desk.layout.tabs
            &&& after.layout.active_view == desk.layout.active_view
            &&& after.layout.panes.len() == desk.layout.panes.len()
        }),
    decreases panes.len(),
{
    if panes.len() > 0 {
        surfaces_leave_the_shell(desk, panes.drop_last());
        first_place_bounds(
            desk.ensured_over(panes.drop_last()).layout.panes,
            is_pane(panes.last()),
        );
    }
}

/// The selection is the focused pane's session.
pub proof fn the_selection_is_the_focused_session(desk: Desk, pane: PaneId)
    requires
        desk.layout.active_pane() == Some(pane),
    ensures
        desk.selection_synced().selected_chat == shown_in(desk.layout, pane),
        desk.selection_synced().layout == desk.layout,
{
}

/// A collapse to one pane that has no surface leaves the dock as it is; one
/// that has hands its composer over, draft and all.
pub proof fn a_collapse_hands_the_composer_over(desk: Desk, pane: PaneId)
    requires
        desk.layout.trivial(),
        desk.layout.active_pane() == Some(pane),
    ensures
        ({
            let after = desk.promoted();
            let owned = desk.surfaces.dom().contains(pane) && desk.layout.pane(pane) is Some;
            &&& forall|p: PaneId| !after.surfaces.dom().contains(p)
            &&& !owned ==> after.dock == desk.dock && after.dock_key == desk.dock_key
                && after.composers == desk.composers
            &&& owned ==> {
                let composer = desk.surfaces[pane].composer;
                &&& after.dock == composer
                &&& after.composers[composer].target is Selected
                &&& after.composers[composer].draft == desk.composers[composer].draft
                &&& desk.selected_chat matches Some(chat) ==> after.dock_key == chat
                &&& desk.selected_chat is None ==> after.dock_key.len() == 0
            }
            &&& after.layout == desk.layout && after.selected_chat == desk.selected_chat
        }),
{
}

/// While something is split, a collapse does nothing.
pub proof fn a_split_workspace_does_not_collapse(desk: Desk)
    requires
        desk.layout.panes.len() > 1 || desk.layout.tabs.len() > 1 || desk.layout.views.len() > 1,
    ensures
        desk.promoted() == desk,
{
}

/// What is typed goes to the focused pane's composer where the workspace tree
/// shows, and to the dock's where a single session shows.
pub proof fn typing_goes_to_the_focused_composer(desk: Desk, pane: PaneId)
    requires
        desk.layout.active_pane() == Some(pane),
    ensures
        desk.solo || desk.layout.trivial() ==> desk.active_composer() == desk.dock,
        !desk.solo && !desk.layout.trivial() && desk.surfaces.dom().contains(pane)
            ==> desk.active_composer() == desk.surfaces[pane].composer,
        !desk.solo && !desk.layout.trivial() && !desk.surfaces.dom().contains(pane)
            ==> desk.active_composer() == desk.dock,
{
}

/// Once everything follows the focused pane, the selection is its session, the
/// composer that is typed into is the only one that asks for the keyboard, and
/// a change waits to be written.
pub proof fn everything_follows_the_focus(desk: Desk, id: u64)
    ensures
        ({
            let after = desk.retargeted();
            &&& after.selected_chat == after.layout.focused_session()
            &&& after.composers.dom().contains(id) ==> (after.composers[id].focus_pending <==> id
                == after.active_composer())
            &&& desk.dirty ==> after.dirty
            &&& desk.dirty && !desk.divider_dragging && desk.drag is None ==> after.save_armed
            &&& after.solo == desk.solo && after.solo_chats == desk.solo_chats
            &&& after.space == desk.space
            &&& !desk.workspace_mode() ==> after.layout == desk.layout
        }),
{
    surfaces_leave_the_shell(desk.pruned(), chat_panes(desk.layout.panes));
}

/// A docked session is no longer one that shows alone, and its arrangement
/// waits to be written. Other sessions that show alone stay so.
pub proof fn a_docked_session_shows_no_longer_alone(
    desk: Desk,
    made: Made,
    layout: Arrangement,
    session: Seq<char>,
    other: Seq<char>,
)
    requires
        made_pane(made, layout) is Some,
    ensures
        ({
            let after = desk.docked(made, layout, Some(session));
            &&& !after.solo_chats.contains(session)
            &&& other != session ==> (after.solo_chats.contains(other)
                <==> desk.solo_chats.contains(other))
            &&& after.dirty
            &&& !desk.divider_dragging && desk.drag is None ==> after.save_armed
            &&& after.selected_chat == after.layout.focused_session()
        }),
{
    let pane = made_pane(made, layout)->0;
    let placed = Desk {
        layout: layout.with_session(pane, Some(session)).focused(pane),
        dirty: true,
        solo_chats: desk.without_solo(Some(session)),
        ..desk
    };
    everything_follows_the_focus(placed, 0);
    one_is_left_out(desk.solo_chats, |chat: Seq<char>| chat != session, session, other);
}

/// Leaving one out of a list leaves the others in.
proof fn one_is_left_out(
    chats: Seq<Seq<char>>,
    stays: spec_fn(Seq<char>) -> bool,
    gone: Seq<char>,
    other: Seq<char>,
)
    requires
        forall|chat: Seq<char>| #[trigger] stays(chat) <==> chat != gone,
    ensures
        !chats.filter(stays).contains(gone),
        other != gone ==> (chats.filter(stays).contains(other) <==> chats.contains(other)),
    decreases chats.len(),
{
    reveal(Seq::filter);
    if chats.len() > 0 {
        let front = chats.drop_last();
        let before = front.filter(stays);
        let left = chats.filter(stays);
        one_is_left_out(front, stays, gone, other);
        assert forall|chat: Seq<char>| left.contains(chat) implies before.contains(chat) || (chat
            == chats.last() && stays(chat)) by {
            let i = left.index_of(chat);
            if i < before.len() {
                assert(before[i] == chat);
            }
        }
        if before.contains(other) {
            assert(left[before.index_of(other)] == other);
        }
        if front.contains(other) {
            assert(chats[front.index_of(other)] == other);
        }
        if chats.contains(other) && !front.contains(other) {
            let i = chats.index_of(other);
            if i < front.len() {
                assert(front[i] == other);
            }
        }
        if other == chats.last() && other != gone {
            assert(left[before.len() as int] == other);
            assert(chats[chats.len() - 1] == other);
        }
    }
}

/// A press takes every pane's request for the keyboard back, and no other; what
/// was drafted stays.
pub proof fn a_press_takes_focus_requests_back(desk: Desk, pane: PaneId, id: u64)
    ensures
        desk.surfaces.dom().contains(pane) && desk.composers.dom().contains(
            desk.surfaces[pane].composer,
        ) ==> !desk.unfocused().composers[desk.surfaces[pane].composer].focus_pending,
        desk.composers.dom().contains(id) ==> desk.unfocused().composers[id].draft
            == desk.composers[id].draft && desk.unfocused().composers[id].target
            == desk.composers[id].target,
        desk.composers.dom().contains(id) && (forall|p: PaneId| #[trigger]
            desk.surfaces.dom().contains(p) ==> desk.surfaces[p].composer != id)
            ==> desk.unfocused().composers[id] == desk.composers[id],
        desk.unfocused().composers.dom() =~= desk.composers.dom(),
{
}

/// Drafts parked earlier stay parked, but for those of the very panes that are
/// left.
pub proof fn earlier_drafts_stay_parked(desk: Desk, space: Option<Seq<char>>, pane: PaneId)
    requires
        desk.parked.dom().contains((space, pane)),
    ensures
        desk.with_parked().parked.dom().contains((space, pane)),
        space != desk.space || !desk.surfaces.dom().contains(pane)
            ==> desk.with_parked().parked[(space, pane)] == desk.parked[(space, pane)],
{
}

/// The focused pane takes a session over, and a change waits to be stored only
/// where there was one.
pub proof fn the_focused_pane_takes_a_session(
    desk: Desk,
    pane: PaneId,
    session: Option<Seq<char>>,
    other: PaneId,
)
    requires
        desk.layout.active_pane() == Some(pane),
        desk.layout.pane(pane) is Some,
    ensures
        ({
            let after = desk.focus_bound(session);
            &&& shown_in(after.layout, pane) == session
            &&& after.dirty <==> desk.dirty || shown_in(desk.layout, pane) != session
            &&& other != pane ==> shown_in(after.layout, other) == shown_in(desk.layout, other)
            &&& after.layout.active_pane() == Some(pane)
            &&& after.layout.panes.len() == desk.layout.panes.len()
            &&& after.surfaces == desk.surfaces && after.selected_chat == desk.selected_chat
        }),
{
    a_binding_takes(desk.layout, pane, session, other);
    first_place_bounds(desk.layout.panes, is_pane(pane));
}

/// A navigation selects its target, puts it in the focused pane, and gives the
/// keyboard to the composer that is typed into, alone.
pub proof fn a_navigation_shows_its_target(
    desk: Desk,
    pane: PaneId,
    target: Option<Seq<char>>,
    id: u64,
)
    requires
        desk.layout.active_pane() == Some(pane),
        desk.layout.pane(pane) is Some,
    ensures
        ({
            let after = desk.navigated(target);
            &&& after.selected_chat == target
            &&& after.composers.dom().contains(id) ==> (after.composers[id].focus_pending <==> id
                == after.active_composer())
            &&& !desk.workspace_mode() ==> shown_in(after.layout, pane) == target
            &&& shown_in(desk.layout, pane) != target ==> after.dirty
            &&& shown_in(desk.layout, pane) != target && !desk.divider_dragging && desk.drag
                is None ==> after.save_armed
            &&& after.solo == desk.solo
        }),
{
    the_focused_pane_takes_a_session(desk, pane, target, pane);
    let moved = Desk { selected_chat: target, ..desk.focus_bound(target) };
    surfaces_leave_the_shell(moved.pruned(), chat_panes(moved.layout.panes));
}

/// Another space brings its own arrangement and keeps what was not written;
/// the selection is then the focused session's.
pub proof fn another_space_brings_its_arrangement(
    desk: Desk,
    space: Option<Seq<char>>,
    saved: bool,
    layout: Arrangement,
    initial: Option<Seq<char>>,
)
    ensures
        ({
            let after = desk.restored(space, saved, layout, initial);
            &&& after.space == space
            &&& after.store_dirty <==> desk.store_dirty || desk.dirty
            &&& after.selected_chat == after.layout.focused_session()
            &&& after.layout.views == layout.views && after.layout.tabs == layout.tabs
            &&& after.layout.panes.len() == layout.panes.len()
            &&& after.solo == desk.solo
            &&& (desk.store_dirty || desk.dirty) && !desk.divider_dragging && desk.drag is None
                ==> after.save_armed
            &&& layout.trivial() && (saved || initial is None) ==> after.layout == layout
        }),
{
    let installed = installed_desk(desk, space, layout);
    let seeded = if !saved && initial is Some {
        installed.focus_bound(initial)
    } else {
        installed
    };
    if let Some(pane) = layout.active_pane() {
        first_place_bounds(layout.panes, is_pane(pane));
    }
    let due = seeded.scheduled();
    everything_follows_the_focus(due, 0);
    surfaces_leave_the_shell(due.pruned(), chat_panes(due.layout.panes));
}

/// The shell right after another arrangement came in.
spec fn installed_desk(desk: Desk, space: Option<Seq<char>>, layout: Arrangement) -> Desk {
    Desk {
        layout,
        surfaces: Map::empty(),
        composers: desk.composers.insert(
            desk.dock,
            Composing { target: Target::Selected, ..desk.composers[desk.dock] },
        ),
        dock_key: key_of_chat(desk.selected_chat),
        space,
        store_dirty: desk.store_dirty || desk.dirty,
        dirty: false,
        ..desk.with_parked()
    }
}

/// A space with nothing stored opens on the selected session.
pub proof fn a_new_space_opens_on_the_selected_session(
    desk: Desk,
    space: Option<Seq<char>>,
    layout: Arrangement,
    initial: Seq<char>,
    pane: PaneId,
)
    requires
        layout.trivial(),
        layout.active_pane() == Some(pane),
        layout.pane(pane) is Some,
    ensures
        desk.restored(space, false, layout, Some(initial)).selected_chat == Some(initial),
        shown_in(desk.restored(space, false, layout, Some(initial)).layout, pane) == Some(initial),
{
    let installed = installed_desk(desk, space, layout);
    the_focused_pane_takes_a_session(installed, pane, Some(initial), pane);
}

/// Drafts that are parked under another space survive giving panes their
/// surfaces.
proof fn drafts_of_other_spaces_stay(
    desk: Desk,
    panes: Seq<PaneId>,
    place: (Option<Seq<char>>, PaneId),
)
    requires
        desk.parked.dom().contains(place),
        place.0 != desk.space,
    ensures
        desk.ensured_over(panes).parked.dom().contains(place),
        desk.ensured_over(panes).parked[place] == desk.parked[place],
    decreases panes.len(),
{
    if panes.len() > 0 {
        drafts_of_other_spaces_stay(desk, panes.drop_last(), place);
        surfaces_leave_the_shell(desk, panes.drop_last());
    }
}

/// What was unsent in the space that is left waits there, pane by pane, until
/// it shows again.
pub proof fn a_swap_keeps_what_was_unsent(
    desk: Desk,
    space: Option<Seq<char>>,
    saved: bool,
    layout: Arrangement,
    initial: Option<Seq<char>>,
    pane: PaneId,
)
    requires
        desk.surfaces.dom().contains(pane),
        space != desk.space,
    ensures
        ({
            let after = desk.restored(space, saved, layout, initial);
            &&& after.parked.dom().contains((desk.space, pane))
            &&& after.parked[(desk.space, pane)] == desk.surfaces[pane].composer
        }),
{
    let installed = installed_desk(desk, space, layout);
    let seeded = if !saved && initial is Some {
        installed.focus_bound(initial)
    } else {
        installed
    };
    let due = seeded.scheduled();
    drafts_of_other_spaces_stay(
        due.pruned(),
        chat_panes(due.layout.panes),
        (desk.space, pane),
    );
}

/// Exactly the sessions that are gone leave their panes; everything else of
/// every pane stays.
pub proof fn only_dead_sessions_leave(layout: Arrangement, chats: Seq<ChatRow>, i: int)
    requires
        0 <= i < layout.panes.len(),
    ensures
        ({
            let was = layout.panes[i];
            let is = without_dead(layout, chats).panes[i];
            let lives = was.session is Some && exists|k: int|
                0 <= k < chats.len() && (#[trigger] chats[k]).id@ == was.session->0;
            &&& (Pane { session: was.session, ..is }) == was
            &&& lives ==> is == was
            &&& !lives ==> is.session is None
            &&& was.session is Some && !lives ==> has_dead(layout, chats)
        }),
{
    let was = layout.panes[i];
    if was.session is Some {
        the_first_item_is_the_first(chats, is_chat(was.session->0));
        let at = first_place(chats, is_chat(was.session->0));
        if exists|k: int| 0 <= k < chats.len() && (#[trigger] chats[k]).id@ == was.session->0 {
            let k = choose|k: int|
                0 <= k < chats.len() && (#[trigger] chats[k]).id@ == was.session->0;
            assert(is_chat(was.session->0)(chats[k]));
        }
        if at < chats.len() {
            assert(chats[at].id@ == was.session->0);
        }
        assert(alive(layout.panes[i], chats) == without_dead(layout, chats).panes[i]);
    }
}

/// A row of a pane's menu does what it says.
pub proof fn a_menu_row_does_what_it_says(rows: Vec<MenuRow>, i: int)
    requires
        call_ensures(pane_menu_rows, (), rows),
        0 <= i < rows@.len(),
    ensures
        ({
            let row = rows@[i];
            match row.deed {
                MenuDeed::SplitPane(direction) => {
                    &&& direction is Right || direction is Down
                    &&& row.label@ == (if direction is Right {
                        "Split pane right"@
                    } else {
                        "Split pane down"@
                    })
                    &&& row.chord@ == (if direction is Right {
                        "⌘D"@
                    } else {
                        "⇧⌘D"@
                    })
                },
                MenuDeed::SplitView(direction) => {
                    &&& direction is Right || direction is Down
                    &&& row.label@ == (if direction is Right {
                        "Split view right"@
                    } else {
                        "Split view down"@
                    })
                    &&& row.chord@ == (if direction is Right {
                        "⌥⌘D"@
                    } else {
                        "⌥⌘⇧D"@
                    })
                },
                MenuDeed::ClosePane => i == rows@.len() - 1 && row.label@ == "Close pane"@,
            }
        }),
{
    assert(i == 0 || i == 1 || i == 2 || i == 3 || i == 4);
}

/// The stored arrangement outside any space is kept, and another exactly while
/// its space lives.
pub proof fn a_living_space_keeps_its_arrangement(
    space: &Option<String>,
    live: &Vec<String>,
    r: bool,
)
    requires
        call_ensures(keeps_space, (space, live), r),
    ensures
        space is None ==> r,
        space matches Some(id) ==> (r <==> exists|i: int|
            0 <= i < live@.len() && (#[trigger] live@[i])@ == id@),
{
    if let Some(id) = space {
        let names = live.deep_view();
        if names.contains(id@) {
            let i = names.index_of(id@);
            assert(live@[i]@ == id@);
        }
        if exists|i: int| 0 <= i < live@.len() && (#[trigger] live@[i])@ == id@ {
            let i = choose|i: int| 0 <= i < live@.len() && (#[trigger] live@[i])@ == id@;
            assert(names[i] == id@);
        }
    }
}

/// A conversation's space is the one of its first row, and none where it has no
/// row.
pub proof fn a_conversation_is_in_its_space(
    chats: &Vec<ChatRow>,
    id: &str,
    r: Option<String>,
    at: int,
)
    requires
        call_ensures(native_space, (chats, id), r),
    ensures
        0 <= at < chats@.len() && chats@[at].id@ == id@ && (forall|i: int|
            0 <= i < at ==> (#[trigger] chats@[i]).id@ != id@) ==> r.deep_view()
            == chats@[at].space_id.deep_view(),
        (forall|i: int| 0 <= i < chats@.len() ==> (#[trigger] chats@[i]).id@ != id@) ==> r is None,
{
    let is = is_chat(id@);
    the_first_item_is_the_first(chats@, is);
    first_place_bounds(chats@, is);
    let first = first_place(chats@, is);
    if 0 <= at < chats@.len() && chats@[at].id@ == id@ && (forall|i: int|
        0 <= i < at ==> (#[trigger] chats@[i]).id@ != id@) {
        assert(is(chats@[at]));
        assert(first == at) by {
            if first < at {
                assert(is(chats@[first]));
            }
        }
    }
    if first < chats@.len() {
        assert(chats@[first].id@ == id@);
    }
}

/// The underlay fades at its top, and the titlebar lets go of its hits, by
/// whether the workspace tree shows.
pub proof fn the_tree_brings_its_own_chrome(shell: &PaneShell, chat_route: bool, a: bool, b: bool)
    requires
        call_ensures(PaneShell::transcript_underlay_fades_top, (shell,), a),
        call_ensures(PaneShell::pane_chrome_wins_titlebar_band, (shell, chat_route), b),
    ensures
        a <==> shell@.solo || shell@.layout.trivial(),
        b <==> chat_route && !a,
{
}

/// A session is revealed in this workspace where it has a pane here, else in
/// the stored one it has a pane in; the single-session dock then gives way.
pub proof fn a_session_is_revealed_where_it_lives(
    shell: &mut PaneShell,
    chat: &str,
    stored: Option<Option<String>>,
    r: (bool, bool),
)
    requires
        call_ensures(PaneShell::reveal_workspace_session, (shell, chat, stored), r),
    ensures
        ({
            let before = old(shell)@;
            let after = final(shell)@;
            let here = before.layout.home_of(chat@) is Some;
            &&& r.0 <==> here || stored is Some
            &&& !r.0 ==> after == before && !r.1
            &&& here ==> after.selected_space == before.space
            &&& !here && stored is Some ==> after.selected_space == stored->0.deep_view()
            &&& r.0 ==> !after.solo && !after.solo_chats.contains(chat@)
            &&& r.1 <==> after.selected_space != before.selected_space
            &&& after.layout == before.layout
        }),
{
    one_is_left_out(old(shell)@.solo_chats, |id: Seq<char>| id != chat@, chat@, chat@);
}

/// A session that is forgotten no longer counts as shown alone; the others do.
pub proof fn a_forgotten_session_is_not_shown_alone(
    shell: &mut PaneShell,
    chat: &str,
    other: Seq<char>,
    nothing: (),
)
    requires
        call_ensures(PaneShell::remove_solo_chat, (shell, chat), nothing),
    ensures
        !final(shell)@.solo_chats.contains(chat@),
        other != chat@ ==> (final(shell)@.solo_chats.contains(other) <==> old(shell)@.solo_chats.contains(other)),
        final(shell)@.layout == old(shell)@.layout && final(shell)@.solo == old(shell)@.solo,
{
    one_is_left_out(old(shell)@.solo_chats, |id: Seq<char>| id != chat@, chat@, other);
}

/// The dock shows over a workspace that stays as it was split. A pane that has
/// the dock's composer keeps it, and the dock gets a fresh one.
pub proof fn a_single_session_shows_over_the_workspace(
    shell: &mut PaneShell,
    key: &str,
    nothing: (),
)
    requires
        call_ensures(PaneShell::enter_solo_session, (shell, key), nothing),
    ensures
        ({
            let before = old(shell)@;
            let after = final(shell)@;
            &&& after.solo
            &&& before.solo ==> after == before
            &&& after.layout.views == before.layout.views && after.layout.tabs
                == before.layout.tabs
            &&& after.solo_chats == before.solo_chats && after.selected_chat
                == before.selected_chat
            &&& after.dock != before.dock ==> after.dock_key == key@
                && after.composers[after.dock].target is Selected
                && after.composers[after.dock].draft is None
            &&& !before.solo && before.layout.trivial() && (forall|p: PaneId| #[trigger]
                before.surfaces.dom().contains(p) ==> before.surfaces[p].composer != before.dock)
                ==> after == (Desk { solo: true, ..before })
            &&& !before.solo && before.layout.trivial() && (exists|p: PaneId| #[trigger]
                before.surfaces.dom().contains(p) && before.surfaces[p].composer == before.dock)
                ==> after.dock == before.next_composer && after.surfaces == before.surfaces
        }),
{
    let before = old(shell)@;
    surfaces_leave_the_shell(before.pruned(), chat_panes(before.layout.panes));
}

/// A session that has a pane only gets its focus; any other is shown in the
/// focused pane.
pub proof fn an_open_session_is_focused_not_moved(
    shell: &mut PaneShell,
    target: Option<String>,
    r: Option<LayoutOp>,
)
    requires
        call_ensures(PaneShell::apply_explicit_workspace_navigation, (shell, target), r),
    ensures
        ({
            let before = old(shell)@;
            let home = match target {
                Some(chat) => before.layout.home_of(chat@),
                None => None,
            };
            &&& home matches Some(pane) ==> r == Some(LayoutOp::FocusPane { pane })
                && final(shell)@ == before
            &&& home is None ==> r is None && final(shell)@.selected_chat == target.deep_view()
        }),
{
    let before = old(shell)@;
    let moved = Desk {
        selected_chat: target.deep_view(),
        ..before.focus_bound(target.deep_view())
    };
    surfaces_leave_the_shell(moved.pruned(), chat_panes(moved.layout.panes));
}

/// An operation takes effect exactly where the engine agreed, and is then
/// stored.
pub proof fn only_an_agreed_operation_takes_effect(
    shell: &mut PaneShell,
    layout: Layout,
    agreed: bool,
    nothing: (),
)
    requires
        call_ensures(PaneShell::op_applied, (shell, layout, agreed), nothing),
    ensures
        !agreed ==> final(shell)@ == old(shell)@,
        agreed ==> final(shell)@.dirty && final(shell)@.layout.views == layout@.views && final(shell)@.layout.tabs == layout@.tabs && final(shell)@.layout.active_view == layout@.active_view
            && final(shell)@.selected_chat == final(shell)@.layout.focused_session(),
        agreed && !old(shell)@.divider_dragging && old(shell)@.drag is None ==> final(shell)@.save_armed,
{
    let taken = Desk { layout: layout@, dirty: true, ..old(shell)@ };
    everything_follows_the_focus(taken, 0);
    surfaces_leave_the_shell(taken.pruned(), chat_panes(taken.layout.panes));
}

/// Over a valid target the dock gives way to the workspace; over none it
/// stays.
pub proof fn a_valid_drop_shows_its_destination(
    shell: &mut PaneShell,
    plan: DropPlan,
    session: &Option<String>,
    r: SidebarDrop,
)
    requires
        call_ensures(PaneShell::drop_sidebar_session, (shell, plan, session), r),
    ensures
        !(plan is Nowhere) ==> !final(shell)@.solo,
        plan is Nowhere ==> final(shell)@ == old(shell)@,
        final(shell)@.layout == old(shell)@.layout,
{
}

/// A press on another pane asks for its focus; a press on the focused one takes
/// the panes' requests for the keyboard back.
pub proof fn a_press_focuses_its_pane(shell: &mut PaneShell, pane: PaneId, r: Option<LayoutOp>)
    requires
        call_ensures(PaneShell::pointer_focus_workspace_pane, (shell, pane), r),
    ensures
        r is None <==> old(shell)@.layout.active_pane() == Some(pane),
        r matches Some(op) ==> op == (LayoutOp::FocusPane { pane }) && final(shell)@ == old(shell)@,
        r is None ==> final(shell)@ == old(shell)@.unfocused(),
{
}

/// A press that focused a pane selects its session and leaves the keyboard with
/// what was pressed.
pub proof fn a_focusing_press_keeps_the_keyboard(
    shell: &mut PaneShell,
    layout: Layout,
    agreed: bool,
    pane: PaneId,
    nothing: (),
)
    requires
        call_ensures(PaneShell::pointer_focus_applied, (shell, layout, agreed), nothing),
    ensures
        !agreed ==> final(shell)@ == old(shell)@,
        agreed ==> {
            let after = final(shell)@;
            &&& after.layout == layout@ && after.dirty
            &&& after.selected_chat == layout@.focused_session()
            &&& !old(shell)@.divider_dragging && old(shell)@.drag is None ==> after.save_armed
            &&& after.surfaces.dom().contains(pane) && after.composers.dom().contains(
                after.surfaces[pane].composer,
            ) ==> !after.composers[after.surfaces[pane].composer].focus_pending
        },
{
    let taken = (Desk { layout: layout@, dirty: true, ..old(shell)@ }).selection_synced().noted();
    a_press_takes_focus_requests_back(taken, pane, 0);
}

/// A divider is dragged from its press to its release. While it is, nothing is
/// written and no divider fades; the release arms what was held back.
pub proof fn a_dragged_divider_is_stored_on_release(
    pressed: &mut PaneShell,
    sampled: &mut PaneShell,
    released: &mut PaneShell,
    agreed: bool,
    hover: bool,
    r: bool,
    nothing: (),
)
    requires
        call_ensures(PaneShell::begin_divider_drag, (pressed,), nothing),
        final(pressed)@ == old(sampled)@,
        call_ensures(PaneShell::apply_divider_ratio, (sampled, agreed), nothing),
        final(sampled)@ == old(released)@,
        call_ensures(PaneShell::note_divider_hover, (&*released,), hover),
        call_ensures(PaneShell::end_divider_drag, (released,), r),
    ensures
        !hover && r,
        final(sampled)@.save_armed == old(pressed)@.save_armed,
        agreed && old(pressed)@.drag is None ==> final(released)@.save_armed && final(released)@.dirty,
        !final(released)@.divider_dragging,
        final(released)@.layout == old(pressed)@.layout,
{
}

/// A release without a drag changes nothing, and a ratio the engine refused is
/// not stored.
pub proof fn a_stray_release_changes_nothing(
    shell: &mut PaneShell,
    other: &mut PaneShell,
    r: bool,
    nothing: (),
)
    requires
        call_ensures(PaneShell::end_divider_drag, (shell,), r),
        call_ensures(PaneShell::apply_divider_ratio, (other, false), nothing),
    ensures
        r <==> old(shell)@.divider_dragging,
        !r ==> final(shell)@ == old(shell)@,
        final(other)@ == old(other)@,
{
}

/// Divider samples outside a drag are stored at once.
pub proof fn a_ratio_outside_a_drag_is_stored(shell: &mut PaneShell, nothing: ())
    requires
        call_ensures(PaneShell::apply_divider_ratio, (shell, true), nothing),
        !old(shell)@.divider_dragging,
        old(shell)@.drag is None,
    ensures
        final(shell)@.dirty && final(shell)@.save_armed,
{
}

/// A row of the tool picker asks for a tab with that tool, in the picker's
/// view, and closes it.
pub proof fn a_picked_tool_opens_a_tab(
    shell: &mut PaneShell,
    view: ViewId,
    terminal: bool,
    r: LayoutOp,
)
    requires
        call_ensures(PaneShell::commit_tool_picker, (shell, view, terminal), r),
    ensures
        r matches LayoutOp::AddTab { view: v, terminal: t } && v == view && t == terminal,
        final(shell)@.picker is None,
        final(shell)@.layout == old(shell)@.layout,
{
}

/// Chords split and close only on the chat route and under no overlay; a split
/// brings the workspace back over a single session.
pub proof fn chords_wait_for_overlays(
    panes: &mut PaneShell,
    views: &mut PaneShell,
    still: &PaneShell,
    direction: Direction,
    chat_route: bool,
    overlay: bool,
    a: Option<LayoutOp>,
    b: Option<LayoutOp>,
    c: Option<LayoutOp>,
)
    requires
        call_ensures(PaneShell::split_workspace_pane, (panes, direction, chat_route, overlay), a),
        call_ensures(PaneShell::split_workspace_view, (views, direction, chat_route, overlay), b),
        call_ensures(PaneShell::close_workspace_view, (still, chat_route, overlay), c),
    ensures
        a is Some <==> chat_route && !overlay,
        b is Some <==> chat_route && !overlay,
        c is Some <==> chat_route && !overlay,
        a matches Some(op) ==> op == (LayoutOp::SplitFocusedPane { direction }) && !final(panes)@.solo,
        b matches Some(op) ==> op == (LayoutOp::SplitFocusedView { direction }) && !final(views)@.solo,
        c matches Some(op) ==> op is CloseFocusedView,
        a is None ==> final(panes)@ == old(panes)@,
        b is None ==> final(views)@ == old(views)@,
{
}

/// A view's trigger opens its tool picker, and closes it when pressed again;
/// under an overlay nothing opens.
pub proof fn a_trigger_opens_and_closes_its_picker(
    shell: &mut PaneShell,
    view: ViewId,
    chat_route: bool,
    overlay: bool,
    nothing: (),
)
    requires
        call_ensures(
            PaneShell::open_workspace_tool_picker_for_tab,
            (shell, view, chat_route, overlay),
            nothing,
        ),
    ensures
        old(shell)@.picker == Some(view) ==> final(shell)@.picker is None,
        old(shell)@.picker != Some(view) && chat_route && !overlay ==> final(shell)@.picker
            == Some(view),
        old(shell)@.picker != Some(view) && !(chat_route && !overlay) ==> final(shell)@.picker
            == old(shell)@.picker,
        final(shell)@.layout == old(shell)@.layout,
{
}

/// A picker that is closed tells whether it was open.
pub proof fn a_closed_picker_was_open(shell: &mut PaneShell, r: bool)
    requires
        call_ensures(PaneShell::close_tool_picker, (shell,), r),
    ensures
        r <==> old(shell)@.picker is Some,
        final(shell)@.picker is None,
{
}

/// The overlays are the open picker below the open menu.
pub proof fn overlays_show_what_is_open(shell: &PaneShell, menu: Option<PaneId>, r: Vec<Overlay>)
    requires
        call_ensures(PaneShell::render_workspace_overlays, (shell, menu), r),
    ensures
        r@.len() == (if shell@.picker is Some {
            1int
        } else {
            0
        }) + (if menu is Some {
            1int
        } else {
            0
        }),
        shell@.picker matches Some(view) ==> r@[0] == (Overlay::ToolPicker { view }),
        menu matches Some(pane) ==> r@.last() == (Overlay::PaneMenu { pane }),
{
}

/// The selection binds the focused pane, unless a single session shows over
/// the workspace.
pub proof fn the_selection_binds_the_focused_pane(
    shell: &mut PaneShell,
    pane: PaneId,
    nothing: (),
)
    requires
        call_ensures(PaneShell::sync_workspace_selection, (shell,), nothing),
        old(shell)@.layout.active_pane() == Some(pane),
        old(shell)@.layout.pane(pane) is Some,
    ensures
        old(shell)@.solo ==> final(shell)@ == old(shell)@,
        !old(shell)@.solo ==> shown_in(final(shell)@.layout, pane) == old(shell)@.selected_chat,
        !old(shell)@.solo && shown_in(old(shell)@.layout, pane) != old(shell)@.selected_chat
            ==> final(shell)@.dirty && (old(shell)@.divider_dragging || old(shell)@.drag is Some
            || final(shell)@.save_armed),
{
    the_focused_pane_takes_a_session(old(shell)@, pane, old(shell)@.selected_chat, pane);
}

/// A flush puts a changed arrangement into the store, which then waits to be
/// written; spaces are pruned only where they are known.
pub proof fn a_flush_loses_no_change(shell: &mut PaneShell, spaces_known: bool, r: FlushPlan)
    requires
        call_ensures(PaneShell::flush_workspace_layout, (shell, spaces_known), r),
    ensures
        r.put <==> old(shell)@.dirty,
        r.prune <==> spaces_known,
        !final(shell)@.dirty && !final(shell)@.save_armed,
        final(shell)@.store_dirty <==> old(shell)@.store_dirty || r.put,
        final(shell)@.layout == old(shell)@.layout,
{
}

/// A write that failed stays pending; one that succeeded leaves nothing to
/// write.
pub proof fn a_failed_write_stays_pending(
    shell: &mut PaneShell,
    dropped: usize,
    written: bool,
    nothing: (),
)
    requires
        call_ensures(PaneShell::store_written, (shell, dropped, written), nothing),
    ensures
        written ==> !final(shell)@.store_dirty,
        !written ==> (final(shell)@.store_dirty <==> old(shell)@.store_dirty || dropped > 0),
        final(shell)@.dirty == old(shell)@.dirty,
{
}

/// A swap of spaces takes the stored arrangement where there is one, else the
/// default one, and stores what was changed in the one that is left.
pub proof fn a_swap_takes_the_stored_arrangement(
    shell: &mut PaneShell,
    space: Option<String>,
    saved: Option<Layout>,
    fallback: Layout,
    selected: Option<(String, Option<String>)>,
    r: bool,
)
    requires
        call_ensures(
            PaneShell::restore_workspace_layout,
            (shell, space, saved, fallback, selected),
            r,
        ),
    ensures
        r <==> old(shell)@.dirty,
        final(shell)@.space == space.deep_view(),
        saved matches Some(layout) ==> final(shell)@.layout.views == layout@.views && final(shell)@.layout.tabs == layout@.tabs,
        saved is None ==> final(shell)@.layout.views == fallback@.views && final(shell)@.layout.tabs == fallback@.tabs,
        final(shell)@.selected_chat == final(shell)@.layout.focused_session(),
{
    let initial = match selected {
        Some(row) => if row.1.deep_view() == space.deep_view() {
            Some(row.0@)
        } else {
            None
        },
        None => None,
    };
    let layout = match saved {
        Some(layout) => layout@,
        None => fallback@,
    };
    another_space_brings_its_arrangement(
        old(shell)@,
        space.deep_view(),
        saved is Some,
        layout,
        initial,
    );
}

/// A space with nothing stored opens on the selected session where that is one
/// of its own.
pub proof fn a_swap_opens_on_a_session_of_the_space(
    shell: &mut PaneShell,
    space: Option<String>,
    fallback: Layout,
    chat: String,
    chat_space: Option<String>,
    pane: PaneId,
    r: bool,
)
    requires
        call_ensures(
            PaneShell::restore_workspace_layout,
            (shell, space, None, fallback, Some((chat, chat_space))),
            r,
        ),
        fallback@.trivial(),
        fallback@.active_pane() == Some(pane),
        fallback@.pane(pane) is Some,
    ensures
        chat_space.deep_view() == space.deep_view() ==> final(shell)@.selected_chat == Some(chat@),
        chat_space.deep_view() != space.deep_view() ==> final(shell)@.layout == fallback@,
{
    if chat_space.deep_view() == space.deep_view() {
        a_new_space_opens_on_the_selected_session(
            old(shell)@,
            space.deep_view(),
            fallback@,
            chat@,
            pane,
        );
    } else {
        another_space_brings_its_arrangement(
            old(shell)@,
            space.deep_view(),
            false,
            fallback@,
            None,
        );
    }
}

/// Sessions that are gone leave their panes, the change is stored, and the
/// selection follows the focused pane unless a single session shows.
pub proof fn a_dead_session_is_cleared(
    shell: &mut PaneShell,
    chats: &Vec<ChatRow>,
    r: bool,
    i: int,
)
    requires
        call_ensures(PaneShell::prune_dead_workspace_sessions, (shell, chats), r),
        0 <= i < old(shell)@.layout.panes.len(),
    ensures
        !r ==> final(shell)@ == old(shell)@,
        ({
            let was = old(shell)@.layout.panes[i];
            let is = final(shell)@.layout.panes[i];
            let lives = was.session is Some && exists|k: int|
                0 <= k < chats@.len() && (#[trigger] chats@[k]).id@ == was.session->0;
            &&& lives ==> is == was
            &&& !lives ==> is.session is None
            &&& was.session is Some && !lives ==> r
        }),
        r ==> final(shell)@.dirty,
        r && !old(shell)@.divider_dragging && old(shell)@.drag is None ==> final(shell)@.save_armed,
        r && !old(shell)@.solo ==> final(shell)@.selected_chat == final(shell)@.layout.focused_session(),
        r && old(shell)@.solo ==> final(shell)@.selected_chat == old(shell)@.selected_chat,
{
    only_dead_sessions_leave(old(shell)@.layout, chats@, i);
}

/// A sent message marks its own turn in the pane that shows its conversation,
/// and only there; a queued one is marked as queued.
pub proof fn an_own_message_marks_its_turn(
    shell: &mut PaneShell,
    pane: PaneId,
    event: ComposerEvent,
    chat: String,
    message: String,
    queued: bool,
    r: ComposerDeed,
)
    requires
        call_ensures(PaneShell::on_pane_composer_event, (shell, pane, event), r),
        event == (if queued {
            ComposerEvent::Queued { chat_id: chat, message_id: message }
        } else {
            ComposerEvent::Sent { chat_id: chat, message_id: message }
        }),
    ensures
        ({
            let before = old(shell)@;
            let after = final(shell)@;
            let shows = shown_in(before.layout, pane) == Some(chat@)
                && before.surfaces.dom().contains(pane) && before.surfaces[pane].chat == Some(
                chat@,
            );
            &&& !shows ==> r is Nothing && after == before
            &&& shows ==> {
                &&& r matches ComposerDeed::MarkOwnTurn { chat_id, message_id, queued: q }
                    && chat_id@ == chat@ && message_id@ == message@ && q == queued
                &&& after.surfaces[pane].transcript == Some(chat@)
                &&& after.surfaces[pane].composer == before.surfaces[pane].composer
                &&& after.dirty
                &&& !before.divider_dragging && before.drag is None ==> after.save_armed
            }
        }),
{
}

/// A first message redraws, and a worktree's setup is attached to its
/// conversation.
pub proof fn a_report_is_passed_on(
    shell: &mut PaneShell,
    pane: PaneId,
    event: ComposerEvent,
    r: ComposerDeed,
)
    requires
        call_ensures(PaneShell::on_pane_composer_event, (shell, pane, event), r),
    ensures
        event is TransitionStarted ==> r is Redraw && final(shell)@ == old(shell)@,
        event matches ComposerEvent::WorktreeSetup { chat_id: chat } ==> (
        r matches ComposerDeed::AttachSetup { chat_id } && chat_id@ == chat@) && final(shell)@
            == old(shell)@,
{
}

/// A composer that is handed to the dock changes its conversation exactly where
/// it wrote to another than the selected one.
pub proof fn a_handed_composer_follows_the_selection(
    shell: &mut PaneShell,
    pane: PaneId,
    r: Option<(u64, bool)>,
)
    requires
        call_ensures(PaneShell::promote_trivial_chat_surface_to_dock, (shell,), r),
        old(shell)@.layout.active_pane() == Some(pane),
    ensures
        ({
            let before = old(shell)@;
            let survives = before.layout.trivial() && before.surfaces.dom().contains(pane)
                && before.layout.pane(pane) is Some;
            &&& r is Some <==> survives
            &&& r matches Some(handed) ==> {
                let composer = before.surfaces[pane].composer;
                &&& handed.0 == composer && final(shell)@.dock == composer
                &&& before.composers[composer].target is Selected ==> !handed.1
                &&& before.composers[composer].target == Target::Fixed(before.selected_chat)
                    ==> !handed.1
                &&& (before.composers[composer].target matches Target::Fixed(Some(chat))
                    && before.selected_chat is Some && chat != before.selected_chat->0)
                    ==> handed.1
            }
        }),
{
}

/// The selection is reported as changed exactly where it was another session
/// than the focused pane's.
pub proof fn a_changed_selection_is_reported(shell: &mut PaneShell, r: bool)
    requires
        call_ensures(PaneShell::sync_selection_to_focused_pane, (shell,), r),
    ensures
        r <==> old(shell)@.selected_chat != final(shell)@.selected_chat,
        final(shell)@.selected_chat == old(shell)@.layout.focused_session(),
{
}

/// The edit of a queued message survives the move of its composer.
pub proof fn an_edit_survives_the_move(parked: QueueEdit, after: QueueEdit, r: QueueEdit)
    requires
        call_ensures(reseat_composer_as_dock, (parked, after), r),
    ensures
        after.queued is None ==> r == parked,
        after.queued is Some ==> r == after,
{
}

/// A fresh shell shows its arrangement with the dock on the selection, and has
/// nothing to write.
pub proof fn a_fresh_shell_has_nothing_to_write(
    layout: Layout,
    selected: Option<String>,
    space: Option<String>,
    r: PaneShell,
)
    requires
        call_ensures(PaneShell::new, (layout, selected, space), r),
    ensures
        r@.layout == layout@,
        !r@.solo && !r@.dirty && !r@.store_dirty && !r@.save_armed,
        !r@.divider_dragging && r@.drag is None && r@.picker is None,
        r@.selected_chat == selected.deep_view(),
        r@.space == space.deep_view() && r@.selected_space == space.deep_view(),
        r@.composers[r@.dock].target is Selected && r@.composers[r@.dock].draft is None,
        selected matches Some(chat) ==> r@.dock_key == chat@,
        forall|pane: PaneId| !r@.surfaces.dom().contains(pane),
{
}

/// A surface also follows where its pane is bound already to where its composer
/// went; nothing has to be stored for that.
pub proof fn a_surface_catches_up_with_its_pane(
    desk: Desk,
    pane: PaneId,
    chat: Option<Seq<char>>,
)
    requires
        desk.surfaces.dom().contains(pane),
        desk.composers[desk.surfaces[pane].composer].target == Target::Fixed(chat),
        chat != desk.surfaces[pane].chat,
        desk.layout.pane(pane) is Some,
        desk.layout.pane(pane)->0.mode is Chat,
        shown_in(desk.layout, pane) == chat,
    ensures
        ({
            let after = desk.synced(pane);
            &&& after.surfaces[pane].chat == chat
            &&& after.surfaces[pane].composer == desk.surfaces[pane].composer
            &&& after.dirty == desk.dirty
            &&& shown_in(after.layout, pane) == chat
        }),
{
    a_binding_takes(desk.layout, pane, chat, pane);
}

/// A composer that did not move leaves its pane alone.
pub proof fn a_settled_composer_changes_nothing(desk: Desk, pane: PaneId)
    requires
        desk.surfaces.dom().contains(pane),
        desk.composers[desk.surfaces[pane].composer].target == Target::Fixed(
            desk.surfaces[pane].chat,
        ) || desk.composers[desk.surfaces[pane].composer].target is Selected,
    ensures
        desk.synced(pane) == desk,
{
}

/// Something is reported as gone only where a pane was bound to it.
pub proof fn nothing_is_cleared_without_need(layout: Arrangement, chats: Seq<ChatRow>)
    requires
        has_dead(layout, chats),
    ensures
        exists|i: int|
            0 <= i < layout.panes.len() && (#[trigger] layout.panes[i]).session is Some
                && without_dead(layout, chats).panes[i].session is None,
{
    let i = choose|i: int|
        0 <= i < layout.panes.len() && alive(#[trigger] layout.panes[i], chats)
            != layout.panes[i];
    assert(layout.panes[i].session is Some && without_dead(layout, chats).panes[i].session is None);
}

/// A focus on a pane that is gone binds nothing.
pub proof fn a_lost_focus_binds_nothing(desk: Desk, session: Option<Seq<char>>)
    requires
        desk.layout.active_pane() is None || desk.layout.pane(desk.layout.active_pane()->0) is None,
    ensures
        desk.focus_bound(session) == desk,
{
}

} // verus!
