//! What holds of the workspace: where sessions go, how a pane switches between
//! its chat and its terminal, what closes, and where drags land.
use vstd::prelude::*;
use crate::drag_laws::{a_session_is_at_home_where_it_is_bound, the_first_item_is_the_first};
use crate::layout::{Arrangement, Direction, Pane, PaneId, PaneMode, Region, TabId, ViewId};
use crate::list::first_place;
use crate::pane_header::{chat_of, is_chat, ChatRow};
use crate::terminal_panel::ViewStatus;
use crate::workspace::{
    drawn, handle_of, is_menu, keys_of, mode_button, pane_name, panes_in, refusal, Branch,
    ClosePlan, Command, DragTarget, MenuEntry, ModeButton, PaneAction, PaneDrop, Part, SelectPlan,
    Station, StatusPlan, ToggleFacts, VisualNode, WorkspaceOp,
};

verus! {

/// A session that no pane is bound to goes to the focused pane, unless that is
/// a terminal or is switching: then it gets a tab of its own in the active
/// view. Without a focused pane it goes nowhere.
pub proof fn a_new_session_finds_its_pane(
    station: Station,
    chat: Seq<char>,
    focus: PaneId,
    plan: SelectPlan,
)
    requires
        station.selects(Some(chat), plan),
        forall|i: int|
            0 <= i < station.layout.panes.len() ==> (#[trigger] station.layout.panes[i]).session
                != Some(chat),
    ensures
        station.layout.active_pane() is None ==> plan is Nothing,
        station.layout.active_pane() == Some(focus) ==> {
            let at_rest = !(station.panes.dom().contains(focus) && station.panes[focus].terminal
                is Some && !(station.panes[focus].terminal->0 is Idle));
            let is_chat = !(station.layout.pane(focus) is Some && station.layout.pane(
                focus,
            )->0.mode is Terminal);
            &&& at_rest && is_chat ==> plan is Bind && plan->Bind_pane == focus
                && plan->Bind_session.deep_view() == Some(chat)
            &&& !(at_rest && is_chat) ==> plan is AddTab && plan->AddTab_session.deep_view()
                == Some(chat) && plan->view == station.layout.active_view
        },
{
    a_session_is_at_home_where_it_is_bound(station.layout, chat);
}

/// A session that some pane is bound to is focused there.
pub proof fn a_bound_session_is_focused(
    station: Station,
    chat: Seq<char>,
    i: int,
    plan: SelectPlan,
)
    requires
        station.selects(Some(chat), plan),
        0 <= i < station.layout.panes.len(),
        station.layout.panes[i].session == Some(chat),
    ensures
        plan is Focus,
        exists|j: int|
            0 <= j < station.layout.panes.len() && (#[trigger] station.layout.panes[j]).pane
                == plan->Focus_pane && station.layout.panes[j].session == Some(chat),
{
    a_session_is_at_home_where_it_is_bound(station.layout, chat);
}

/// What a pane that comes onto the screen needs: nothing where it is rendered,
/// a chat for a chat, the terminal of its session for a terminal, and a session
/// first where that has none. Once it is on the screen it needs nothing more.
pub proof fn a_pane_is_rendered_once(
    station: Station,
    pane: PaneId,
    entry: Pane,
    opened: ViewStatus,
)
    requires
        station.layout.pane(pane) == Some(entry),
    ensures
        station.panes.dom().contains(pane) ==> station.render_plan(pane, true) is Nothing
            && station.mounted(pane, opened) == station,
        !station.panes.dom().contains(pane) ==> {
            let plan = station.render_plan(pane, true);
            let after = station.mounted(pane, opened);
            &&& plan is Chat <==> entry.mode is Chat
            &&& plan is OpenTerminal <==> entry.mode is Terminal && entry.session is Some
            &&& plan is StartCli <==> entry.mode is Terminal && entry.session is None
            &&& after.panes.dom().contains(pane)
            &&& !after.panes[pane].shows_terminal
            &&& after.panes[pane].terminal == (if entry.mode is Terminal && entry.session is Some {
                Some(opened)
            } else {
                None
            })
            &&& after.render_plan(pane, true) is Nothing
            &&& after.layout == station.layout
            &&& forall|other: PaneId|
                other != pane ==> (#[trigger] after.panes.dom().contains(other)
                    <==> station.panes.dom().contains(other))
        },
{
}

/// A terminal shows from the moment it opens until it is released, and its
/// status is what was last heard of it.
pub proof fn a_terminal_shows_until_it_is_released(
    station: Station,
    pane: PaneId,
    status: ViewStatus,
)
    requires
        station.panes.dom().contains(pane),
        !station.pending_close.contains(pane),
    ensures
        ({
            let after = station.after_status(pane, status);
            &&& after.panes.dom().contains(pane)
            &&& after.panes[pane].terminal == Some(status)
            &&& status is Opening || status is Ready ==> after.panes[pane].shows_terminal
            &&& status is Idle ==> !after.panes[pane].shows_terminal
            &&& status is Closing || status is Failed ==> after.panes[pane].shows_terminal
                == station.panes[pane].shows_terminal
            &&& status matches ViewStatus::Failed(error) ==> after.error == Some(error)
            &&& !(status is Failed) ==> after.error == station.error
            &&& after.layout == station.layout
        }),
{
}

/// A pane's mode follows its terminal: it becomes a terminal once that is
/// ready, and a chat again once it is released; nothing else changes it.
pub proof fn the_mode_follows_the_terminal(
    station: Station,
    pane: PaneId,
    entry: Pane,
    status: ViewStatus,
)
    requires
        station.layout.pane(pane) == Some(entry),
        !station.pending_close.contains(pane),
    ensures
        ({
            let plan = station.status_plan(pane, status);
            &&& plan == (StatusPlan::SetMode { pane, mode: PaneMode::Terminal }) <==> status
                is Ready && entry.mode is Chat
            &&& plan == (StatusPlan::SetMode { pane, mode: PaneMode::Chat }) <==> status is Idle
                && entry.mode is Terminal
            &&& plan is Close <==> false
        }),
{
}

/// A pane that waits to close goes once its terminal is released, and is kept
/// where the terminal became ready or failed instead.
pub proof fn a_pending_close_ends(station: Station, pane: PaneId, status: ViewStatus)
    requires
        station.pending_close.contains(pane),
    ensures
        ({
            let after = station.after_status(pane, status);
            &&& status is Idle ==> station.status_plan(pane, status) == (StatusPlan::Close { pane })
                && !after.panes.dom().contains(pane) && !after.pending_close.contains(pane)
            &&& status is Ready || status is Failed ==> !after.pending_close.contains(pane)
                && !(station.status_plan(pane, status) is Close) && (
            after.panes.dom().contains(pane) == station.panes.dom().contains(pane))
            &&& status is Opening || status is Closing ==> after.pending_close.contains(pane)
        }),
{
}

/// The keyboard goes to a terminal that opens, is ready or is released exactly
/// where its pane is focused.
pub proof fn the_keyboard_follows_the_focused_terminal(
    station: Station,
    pane: PaneId,
    status: ViewStatus,
)
    requires
        status is Opening || status is Ready || (status is Idle && !station.pending_close.contains(
            pane,
        )),
    ensures
        station.after_status(pane, status).focus_pending <==> station.layout.active_pane() == Some(
            pane,
        ),
{
}

/// A pane without a terminal closes at once; one with a terminal, rendered or
/// not, has it released first and stays until then.
pub proof fn a_pane_closes_without_a_terminal(station: Station, pane: PaneId, entry: Pane)
    requires
        station.layout.pane(pane) == Some(entry),
    ensures
        ({
            let has_terminal = if station.panes.dom().contains(pane) {
                station.panes[pane].terminal is Some
            } else {
                entry.mode is Terminal
            };
            let after = station.closing(pane);
            &&& has_terminal ==> station.close_plan(pane) is ReleaseTerminal
                && after.pending_close.contains(pane) && after.panes.dom().contains(pane)
            &&& !has_terminal ==> station.close_plan(pane) == (ClosePlan::CloseNow { pane })
                && !after.panes.dom().contains(pane) && after.pending_close
                == station.pending_close
            &&& after.focus_pending
            &&& after.layout == station.layout
        }),
{
}

/// Nothing stands against switching an idle Pi session to its terminal.
pub proof fn an_idle_pi_session_may_switch(
    station: Station,
    facts: ToggleFacts,
    pane: PaneId,
    entry: Pane,
    session: Seq<char>,
    chat: ChatRow,
)
    requires
        station.layout.pane(pane) == Some(entry),
        entry.mode is Chat,
        entry.session == Some(session),
        !station.starting_cli.contains(pane),
        station.panes.dom().contains(pane) && station.panes[pane].terminal is Some ==> !(
        station.panes[pane].terminal->0 is Opening) && !(station.panes[pane].terminal->0
            is Closing),
    ensures
        facts.busy.deep_view().contains(session) ==> refusal(station, facts, pane) == Some(
            "Wait for the agent to become idle before switching views"@,
        ),
        !facts.busy.deep_view().contains(session) && chat_of(facts.chats@, Some(session)) is None
            ==> refusal(station, facts, pane) == Some("Session is unavailable"@),
        !facts.busy.deep_view().contains(session) && chat_of(facts.chats@, Some(session)) == Some(
            chat,
        ) ==> {
            &&& chat.harness.deep_view() == Some("pi"@) ==> refusal(station, facts, pane) is None
            &&& chat.harness.deep_view() != Some("pi"@) ==> refusal(station, facts, pane) == Some(
                "CLI switching is available for Pi sessions"@,
            )
        },
{
}

/// A switch that is under way has to finish first, whatever else stands for or
/// against it; a session that is being made too.
pub proof fn a_running_switch_stands_against_another(
    station: Station,
    facts: ToggleFacts,
    pane: PaneId,
)
    requires
        station.layout.pane(pane) is Some,
    ensures
        station.starting_cli.contains(pane) ==> refusal(station, facts, pane) == Some(
            "Preparing CLI session"@,
        ),
        !station.starting_cli.contains(pane) && station.panes.dom().contains(pane) && (
        station.panes[pane].terminal == Some(ViewStatus::Opening) || station.panes[pane].terminal
            == Some(ViewStatus::Closing)) ==> refusal(station, facts, pane) == Some(
            "Wait for the current view switch to finish"@,
        ),
{
}

/// A terminal is handed back unless the native side stands against it; one
/// that was never rendered is not verified. An unbound chat asks the native
/// side as well.
pub proof fn the_native_side_has_its_say(
    station: Station,
    facts: ToggleFacts,
    pane: PaneId,
    entry: Pane,
)
    requires
        station.layout.pane(pane) == Some(entry),
        !station.starting_cli.contains(pane),
        station.panes.dom().contains(pane) && station.panes[pane].terminal is Some ==> !(
        station.panes[pane].terminal->0 is Opening) && !(station.panes[pane].terminal->0
            is Closing),
    ensures
        entry.mode is Terminal && station.panes.dom().contains(pane)
            && station.panes[pane].terminal is Some ==> refusal(station, facts, pane)
            == facts.handoff.deep_view(),
        entry.mode is Terminal && !station.panes.dom().contains(pane) ==> refusal(
            station,
            facts,
            pane,
        ) == Some("Native session state is not verified"@),
        entry.mode is Chat && entry.session is None ==> refusal(station, facts, pane)
            == facts.empty_cli.deep_view(),
{
}

/// A switch that is refused changes nothing but what is said.
pub proof fn a_refused_switch_only_says_why(
    station: Station,
    pane: PaneId,
    reason: Seq<char>,
)
    requires
        !(station.panes.dom().contains(pane) && station.panes[pane].shows_terminal && (
        station.panes[pane].terminal matches Some(ViewStatus::Failed(_)))),
    ensures
        station.toggle_deed(pane, Some(reason)) is Refuse,
        station.toggled(pane, Some(reason)).error == Some(reason),
        station.toggled(pane, Some(reason)).panes == station.panes,
        station.toggled(pane, Some(reason)).layout == station.layout,
        station.toggled(pane, Some(reason)).focus_pending == station.focus_pending,
{
}

/// A switch goes to the other view: a terminal is closed, a chat with a session
/// opens its terminal, and one without gets a session first. The pane is
/// rendered by then.
pub proof fn a_switch_goes_to_the_other_view(station: Station, pane: PaneId, entry: Pane)
    requires
        station.layout.pane(pane) == Some(entry),
        !(station.panes.dom().contains(pane) && station.panes[pane].shows_terminal && (
        station.panes[pane].terminal matches Some(ViewStatus::Failed(_)))),
    ensures
        entry.mode is Terminal ==> station.toggle_deed(pane, None) is CloseTerminal,
        entry.mode is Chat && entry.session is Some ==> station.toggle_deed(pane, None)
            is OpenTerminal,
        entry.mode is Chat && entry.session is None ==> station.toggle_deed(pane, None)
            is StartCli,
        station.toggled(pane, None).panes.dom().contains(pane),
        entry.mode is Chat && entry.session is Some ==> station.toggled(
            pane,
            None,
        ).panes[pane].terminal is Some,
        station.layout.active_pane() != Some(pane) ==> station.toggled(pane, None).focus_pending,
        station.toggled(pane, None).error == station.error,
{
}

/// An operation that was carried out is taken over, and with it the workspace
/// is published and stored; what was said before is forgotten.
pub proof fn a_change_is_published_and_stored(station: Station, layout: Arrangement)
    ensures
        station.changed(layout).layout == layout,
        station.changed(layout).error is None,
        station.changed(layout).publish_active,
        station.changed(layout).save_due,
        station.changed(layout).panes == station.panes,
        station.changed(layout).pending_close == station.pending_close,
{
}

/// A pane is titled by its label, else by its session, else as a new one.
pub proof fn a_pane_is_titled(
    layout: Arrangement,
    pane: PaneId,
    entry: Pane,
    chats: Seq<ChatRow>,
    chat: ChatRow,
)
    requires
        layout.pane(pane) == Some(entry),
    ensures
        entry.label matches Some(label) ==> pane_name(layout, pane, chats) == label,
        entry.label is None && chat_of(chats, entry.session) == Some(chat) && chat.title is Some
            ==> pane_name(layout, pane, chats) == chat.title->0@,
        entry.label is None && (entry.session is None || chat_of(chats, entry.session) is None)
            ==> pane_name(layout, pane, chats) == "New session"@,
{
}

/// A session's conversation is the first under its id.
pub proof fn a_conversation_is_found_by_its_id(chats: Seq<ChatRow>, id: Seq<char>)
    ensures
        chat_of(chats, Some(id)) is None <==> (forall|i: int|
            0 <= i < chats.len() ==> (#[trigger] chats[i]).id@ != id),
        chat_of(chats, Some(id)) matches Some(chat) ==> chat.id@ == id && chats.contains(chat),
        chat_of(chats, None) is None,
{
    the_first_item_is_the_first(chats, is_chat(id));
    if chat_of(chats, Some(id)) is None {
        assert forall|i: int| 0 <= i < chats.len() implies (#[trigger] chats[i]).id@ != id by {
            assert(!is_chat(id)(chats[i]));
        }
    } else {
        let at = first_place(chats, is_chat(id));
        assert(chats[at].id@ == id);
    }
}

/// What is dragged over a pane and let go there goes to that pane: beside it
/// on the side it was near, or into the tabs of its view in the middle.
pub proof fn a_drop_goes_where_it_was_previewed(
    station: Station,
    pane: PaneId,
    entry: Pane,
    target: DragTarget,
    direction: Option<Direction>,
)
    requires
        station.layout.pane(pane) == Some(entry),
        station.outer_preview is None,
        target matches DragTarget::Pane(source) ==> source != pane,
        target matches DragTarget::Tab(source) ==> source != entry.tab,
    ensures
        ({
            let dropped = station.dragged_over(pane, target, true, direction).pane_drop(
                pane,
                target,
            );
            &&& dropped is Op
            &&& (target, direction) matches (DragTarget::Pane(source), Some(side)) ==> dropped->0
                == (WorkspaceOp::MovePane { pane: source, target: pane, direction: side })
            &&& (target, direction) matches (DragTarget::Tab(source), Some(side)) ==> dropped->0
                == (WorkspaceOp::MergeTab { tab: source, target: pane, direction: side })
            &&& (target, direction) matches (DragTarget::Pane(source), None) ==> dropped->0 == (
            WorkspaceOp::PaneToTab { pane: source, view: entry.view })
            &&& (target, direction) matches (DragTarget::Tab(source), None) ==> dropped->0 == (
            WorkspaceOp::MoveTab { tab: source, view: entry.view })
        }),
        station.dragged_over(pane, target, false, direction).pane_drop(pane, target) is Nothing,
        station.dragged_over(pane, target, true, direction).preview(pane, true) == Some(direction),
        station.dragged_over(pane, target, true, direction).preview(pane, false) is None,
{
}

/// An outer edge that was previewed wins over the pane under it: what is
/// dropped becomes a view of its own there.
pub proof fn an_outer_edge_wins(
    station: Station,
    pane: PaneId,
    target: DragTarget,
    view: ViewId,
    direction: Direction,
)
    requires
        station.outer_preview == Some((view, direction)),
    ensures
        target matches DragTarget::Pane(source) ==> station.pane_drop(pane, target)
            == PaneDrop::Op(WorkspaceOp::PaneToView { pane: source, view, direction }),
        target matches DragTarget::Tab(source) ==> station.pane_drop(pane, target) == PaneDrop::Op(
            WorkspaceOp::TabToView { tab: source, view, direction },
        ),
        PaneDrop::Op(station.outer_op(target)->0) == station.pane_drop(pane, target),
        station.preview(pane, true) is None,
{
}

/// The tabs of a view with one brought before another, or last.
pub open spec fn brought(order: Seq<TabId>, tab: TabId, before: Option<TabId>) -> Seq<TabId> {
    let rest = order.remove_value(tab);
    match before {
        Some(next) if rest.contains(next) => rest.insert(rest.index_of(next), tab),
        _ => rest.push(tab),
    }
}

/// The tabs of a view once a drop on its rail was carried out.
pub open spec fn rail_after(order: Seq<TabId>, op: Option<WorkspaceOp>) -> Seq<TabId> {
    match op {
        Some(WorkspaceOp::InsertTab { tab, before, .. }) => brought(order, tab, before),
        _ => order,
    }
}

/// A tab dropped on the first half of another comes to stand directly before
/// it, and on the second half directly behind it.
pub proof fn a_tab_stands_where_it_was_dropped_on_the_rail(
    station: Station,
    view: ViewId,
    order: Seq<TabId>,
    at: int,
    first_half: bool,
    tab: TabId,
)
    requires
        order.no_duplicates(),
        0 <= at < order.len(),
        order[at] != tab,
        station.tab_preview == Some((view, Station::insertion(order, Some((at, first_half))))),
    ensures
        ({
            let op = station.rail_op(view, DragTarget::Tab(tab));
            let after = rail_after(order, op);
            &&& op is Some ==> op == Some(
                WorkspaceOp::InsertTab { tab, view, before: station.rail_before(view) },
            )
            &&& first_half ==> exists|i: int|
                0 <= i < after.len() - 1 && #[trigger] after[i] == tab && after[i + 1] == order[at]
            &&& !first_half ==> exists|i: int|
                0 <= i < after.len() - 1 && #[trigger] after[i] == order[at] && after[i + 1] == tab
        }),
{
    let before = Station::insertion(order, Some((at, first_half)));
    let hovered = order[at];
    let rest = order.remove_value(tab);
    order.index_of_first_ensures(tab);
    let gone = order.index_of_first(tab);
    if before == Some(tab) {
        assert(!first_half && order[at + 1] == tab);
        assert(order[at] == hovered);
        assert(rail_after(order, station.rail_op(view, DragTarget::Tab(tab))) == order);
    } else {
        let after = brought(order, tab, before);
        assert(rail_after(order, station.rail_op(view, DragTarget::Tab(tab))) == after);
        let place = match gone {
            Some(gone) => if at < gone {
                at
            } else {
                at - 1
            },
            None => at,
        };
        assert(rest[place] == hovered);
        assert(rest.no_duplicates()) by {
            match gone {
                Some(gone) => {
                    assert forall|i: int, j: int|
                        0 <= i < rest.len() && 0 <= j < rest.len() && i != j implies rest[i]
                        != rest[j] by {
                        let a = if i < gone {
                            i
                        } else {
                            i + 1
                        };
                        let b = if j < gone {
                            j
                        } else {
                            j + 1
                        };
                        assert(rest[i] == order[a] && rest[j] == order[b]);
                    }
                },
                None => {
                    assert(rest == order);
                },
            }
        }
        if first_half {
            assert(rest.contains(hovered));
            let spot = rest.index_of(hovered);
            assert(spot == place);
            assert(after[spot] == tab && after[spot + 1] == hovered);
        } else if at + 1 < order.len() {
            let next = order[at + 1];
            assert(rest[place + 1] == next);
            assert(rest.contains(next));
            let spot = rest.index_of(next);
            assert(spot == place + 1);
            assert(after[spot - 1] == hovered && after[spot] == tab);
        } else {
            assert(place == rest.len() - 1);
            assert(after[place] == hovered && after[place + 1] == tab);
        }
    }
}

/// A pane dropped on a rail becomes a tab there, before the tab that was
/// previewed; past the last tab nothing is named.
pub proof fn a_pane_dropped_on_a_rail_becomes_a_tab(
    station: Station,
    view: ViewId,
    pane: PaneId,
    before: Option<TabId>,
)
    requires
        station.tab_preview == Some((view, before)),
    ensures
        station.rail_op(view, DragTarget::Pane(pane)) == Some(
            WorkspaceOp::InsertPane { pane, view, before },
        ),
{
}

/// A place of a rail that is hovered names the tab before which a drop goes.
pub proof fn a_hovered_half_names_the_next_tab(order: Seq<TabId>, at: int)
    requires
        0 <= at < order.len(),
    ensures
        Station::insertion(order, Some((at, true))) == Some(order[at]),
        at + 1 < order.len() ==> Station::insertion(order, Some((at, false))) == Some(
            order[at + 1],
        ),
        at + 1 == order.len() ==> Station::insertion(order, Some((at, false))) is None,
        Station::insertion(order, None) is None,
{
}

/// The panes of a tab are all of those that lie in it, in order.
pub proof fn a_tab_has_the_panes_that_lie_in_it(panes: Seq<Pane>, view: ViewId, tab: TabId)
    ensures
        panes_in(panes, view, tab) == panes.filter(
            |entry: Pane| entry.view == view && entry.tab == tab,
        ).map_values(|entry: Pane| entry.pane),
    decreases panes.len(),
{
    reveal(Seq::filter);
    let lies = |entry: Pane| entry.view == view && entry.tab == tab;
    let id = |entry: Pane| entry.pane;
    if panes.len() == 0 {
        assert(panes_in(panes, view, tab) =~= panes.filter(lies).map_values(id));
    } else {
        a_tab_has_the_panes_that_lie_in_it(panes.drop_last(), view, tab);
        let front = panes.drop_last().filter(lies);
        if lies(panes.last()) {
            assert(front.push(panes.last()).map_values(id) =~= front.map_values(id).push(
                panes.last().pane,
            ));
        }
        assert(panes_in(panes, view, tab) =~= panes.filter(lies).map_values(id));
    }
}

/// What is said over a pane while its view switches.
pub proof fn a_switching_pane_says_so(station: Station, pane: PaneId)
    ensures
        station.panes.dom().contains(pane) ==> {
            let terminal = station.panes[pane].terminal;
            &&& terminal == Some(ViewStatus::Opening) ==> station.message(pane) == Some(
                "Opening CLI session…"@,
            )
            &&& terminal == Some(ViewStatus::Closing) ==> station.message(pane) == Some(
                "Restoring chat history…"@,
            )
            &&& terminal == Some(ViewStatus::Ready) && !station.starting_cli.contains(pane)
                ==> station.message(pane) is None
            &&& terminal is None && station.starting_cli.contains(pane) ==> station.message(pane)
                == Some("Preparing CLI session…"@)
        },
        !station.panes.dom().contains(pane) && !station.starting_cli.contains(pane)
            ==> station.message(pane) is None,
{
}

/// A pane's header shows exactly where it has a sibling in its tab, or the
/// rail of its view stands at the left.
pub proof fn a_header_shows_beside_siblings(station: Station, entry: Pane, region: Region)
    requires
        station.layout.region(entry.view) == Some(region),
    ensures
        station.shows_header(entry) <==> region.placement is Left || panes_in(
            station.layout.panes,
            entry.view,
            entry.tab,
        ).len() > 1,
{
}

/// The rail of a view shows each of its tabs that is there, in order, selected
/// where it is the active one, and marked where a drop would go before it.
pub proof fn a_rail_shows_its_tabs(
    station: Station,
    region: Region,
    order: Seq<TabId>,
    chats: Seq<ChatRow>,
    dragging: bool,
)
    requires
        forall|i: int|
            0 <= i < order.len() ==> station.layout.tab(region.view, #[trigger] order[i]) is Some,
    ensures
        ({
            let rail = station.rail(region, order, chats, dragging);
            &&& rail.len() == order.len()
            &&& forall|i: int|
                0 <= i < order.len() ==> {
                    &&& (#[trigger] rail[i]).tab == order[i]
                    &&& rail[i].selected == (order[i] == region.active_tab)
                    &&& rail[i].pane == station.layout.tab(region.view, order[i])->0.active_pane
                    &&& rail[i].title == pane_name(station.layout, rail[i].pane, chats)
                    &&& rail[i].insert_before == (dragging && station.tab_preview == Some(
                        (region.view, Some(order[i])),
                    ))
                    &&& rail[i].grouped == (panes_in(
                        station.layout.panes,
                        region.view,
                        order[i],
                    ).len() > 1)
                }
        }),
    decreases order.len(),
{
    if order.len() > 0 {
        let front = order.drop_last();
        assert forall|i: int| 0 <= i < front.len() implies station.layout.tab(
            region.view,
            #[trigger] front[i],
        ) is Some by {
            assert(front[i] == order[i]);
        }
        a_rail_shows_its_tabs(station, region, front, chats, dragging);
        assert(station.layout.tab(region.view, order[order.len() - 1]) is Some);
    }
}

/// The pane a view shows is the active one of its active tab.
pub proof fn a_view_shows_its_active_pane(station: Station, view: ViewId, region: Region)
    requires
        station.layout.region(view) == Some(region),
        region.view == view,
        station.layout.tab(view, region.active_tab) is Some,
    ensures
        station.pane_of_view(view) == Some(
            station.layout.tab(view, region.active_tab)->0.active_pane,
        ),
{
}

/// What a menu entry says it does.
pub open spec fn says(
    action: PaneAction,
    terminal: bool,
    allowed: bool,
    orchestrating: bool,
) -> Seq<char> {
    match action {
        PaneAction::Toggle => if terminal {
            "Switch to Chat view"@
        } else {
            "Switch to CLI view"@
        },
        PaneAction::Split { direction, view } => match (direction, view) {
            (Direction::Right, false) => "Split pane right"@,
            (Direction::Down, false) => "Split pane below"@,
            (Direction::Right, true) => "Split view right"@,
            (Direction::Down, true) => "Split view below"@,
            _ => Seq::empty(),
        },
        PaneAction::MoveToTab => "Move pane to a tab"@,
        PaneAction::Close => "Close pane"@,
        PaneAction::MoveRail => "Move tab rail"@,
        PaneAction::NewTab => Seq::empty(),
        PaneAction::ToggleAgentAccess => if allowed {
            "Revoke API agent access"@
        } else {
            "Allow API agent access"@
        },
        PaneAction::ToggleOrchestration => if orchestrating {
            "Revoke API orchestration in this workspace"@
        } else {
            "Allow API orchestration in this workspace"@
        },
    }
}

/// Each entry of a pane's menu does what it says, no two do the same, and only
/// switching views can be disabled.
pub proof fn a_menu_entry_does_what_it_says(
    entries: Seq<MenuEntry>,
    terminal: bool,
    switchable: bool,
    allowed: bool,
    orchestrating: bool,
    i: int,
    j: int,
)
    requires
        is_menu(entries, terminal, switchable, allowed, orchestrating),
        0 <= i < entries.len(),
        0 <= j < entries.len(),
    ensures
        entries[i].label@ == says(entries[i].action, terminal, allowed, orchestrating),
        entries[i].enabled == (switchable || !(entries[i].action is Toggle)),
        i != j ==> entries[i].action != entries[j].action,
        entries.len() == 10,
{
}

/// A button of a view is selected where that view shows, and can be pressed
/// where the other shows and nothing stands against a switch, which it says.
pub proof fn a_mode_button_leads_to_its_view(
    button: ModeButton,
    cli: bool,
    terminal: bool,
    reason: Option<Seq<char>>,
)
    requires
        mode_button(button, cli, terminal, reason),
    ensures
        button.selected <==> (cli && terminal) || (!cli && !terminal),
        button.clickable ==> !button.selected && reason is None && button.enabled,
        !button.selected && reason is None ==> button.clickable,
        !button.selected && reason is Some ==> !button.enabled && Some(button.tooltip@) == reason,
        button.label@ == (if cli {
            "CLI"@
        } else {
            "Chat"@
        }),
{
}

/// No two commands share a chord.
pub proof fn chords_are_told_apart(a: Command, b: Command)
    requires
        a != b,
    ensures
        keys_of(a) != keys_of(b),
        keys_of(Command::ToggleSessionView) == "-e"@,
        keys_of(Command::NewTab) == "-alt-t"@,
        keys_of(Command::ClosePane) == "-alt-w"@,
        keys_of(Command::SplitRight) == "-alt-right"@,
        keys_of(Command::SplitDown) == "-alt-down"@,
        keys_of(Command::SplitViewRight) == "-alt-shift-right"@,
        keys_of(Command::SplitViewDown) == "-alt-shift-down"@,
{
    reveal_strlit("-e");
    reveal_strlit("-alt-right");
    reveal_strlit("-alt-down");
    reveal_strlit("-alt-shift-right");
    reveal_strlit("-alt-shift-down");
    reveal_strlit("-alt-t");
    reveal_strlit("-alt-w");
    assert("-e"@.len() == 2);
    assert("-alt-t"@.len() == 6);
    assert("-alt-w"@.len() == 6);
    assert("-alt-t"@[5] != "-alt-w"@[5]);
    assert("-alt-down"@.len() == 9);
    assert("-alt-right"@.len() == 10);
    assert("-alt-shift-down"@.len() == 15);
    assert("-alt-shift-right"@.len() == 16);
}

/// The leaves of a tree, from its first side to its second.
pub open spec fn leaves(node: VisualNode) -> Seq<u64>
    decreases node,
{
    match node {
        VisualNode::Leaf(content) => seq![content],
        VisualNode::Empty => Seq::empty(),
        VisualNode::Split { first, second, .. } => leaves(*first) + leaves(*second),
    }
}

/// The leaves among some pieces.
pub open spec fn leaves_of(parts: Seq<Part>) -> Seq<u64>
    decreases parts.len(),
{
    if parts.len() == 0 {
        Seq::empty()
    } else {
        match parts.last() {
            Part::Leaf(content) => leaves_of(parts.drop_last()).push(content),
            _ => leaves_of(parts.drop_last()),
        }
    }
}

proof fn leaves_join(a: Seq<Part>, b: Seq<Part>)
    ensures
        leaves_of(a + b) == leaves_of(a) + leaves_of(b),
    decreases b.len(),
{
    if b.len() == 0 {
        assert(a + b =~= a);
        assert(leaves_of(a) + leaves_of(b) =~= leaves_of(a));
    } else {
        assert((a + b).drop_last() =~= a + b.drop_last());
        leaves_join(a, b.drop_last());
        assert(leaves_of(a + b) =~= leaves_of(a) + leaves_of(b));
    }
}

/// A drawn tree shows every pane once, in its order.
pub proof fn a_drawn_tree_shows_its_leaves(node: VisualNode)
    ensures
        leaves_of(drawn(node)) == leaves(node),
    decreases node,
{
    match node {
        VisualNode::Leaf(content) => {
            assert(seq![Part::Leaf(content)].drop_last() =~= Seq::<Part>::empty());
            reveal_with_fuel(leaves_of, 2);
            assert(leaves_of(drawn(node)) =~= leaves(node));
        },
        VisualNode::Empty => {},
        VisualNode::Split { horizontal, path, first, second } => {
            a_drawn_tree_shows_its_leaves(*first);
            a_drawn_tree_shows_its_leaves(*second);
            let bar = seq![handle_of(horizontal, path)];
            leaves_join(drawn(*first) + bar, drawn(*second));
            leaves_join(drawn(*first), bar);
            assert(bar.drop_last() =~= Seq::<Part>::empty());
            reveal_with_fuel(leaves_of, 2);
            assert(leaves_of(bar) =~= Seq::<u64>::empty());
            assert(leaves_of(drawn(node)) =~= leaves(node));
        },
    }
}

/// A split is drawn as its first side, its handle and its second side. The
/// handle of one that is there can be dragged; one on its way out takes no
/// room.
pub proof fn a_split_is_drawn_around_its_handle(
    horizontal: bool,
    path: Option<Vec<Branch>>,
    first: Box<VisualNode>,
    second: Box<VisualNode>,
)
    ensures
        ({
            let parts = drawn(VisualNode::Split { horizontal, path, first, second });
            let at = drawn(*first).len() as int;
            &&& parts.len() == at + 1 + drawn(*second).len()
            &&& parts.take(at) == drawn(*first)
            &&& parts.skip(at + 1) == drawn(*second)
            &&& path matches Some(place) ==> parts[at] == (Part::Handle {
                horizontal,
                interactive: true,
                thickness: 6,
                path: place@,
            })
            &&& path is None ==> (parts[at] matches Part::Handle {
                horizontal: across,
                interactive,
                thickness,
                ..
            } && across == horizontal && !interactive && thickness == 0)
        }),
{
    let parts = drawn(VisualNode::Split { horizontal, path, first, second });
    let at = drawn(*first).len() as int;
    assert(parts.take(at) =~= drawn(*first));
    assert(parts.skip(at + 1) =~= drawn(*second));
}

/// A pane that is gone is not rendered and needs nothing.
pub proof fn a_lost_pane_is_not_rendered(
    station: Station,
    pane: PaneId,
    reopen: bool,
    opened: ViewStatus,
)
    requires
        station.layout.pane(pane) is None,
    ensures
        station.rendered(pane, reopen) == station,
        station.mounted(pane, opened) == station,
        station.render_plan(pane, reopen) is Nothing,
{
}

} // verus!
