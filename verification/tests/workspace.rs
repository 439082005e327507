//! The workspace of panes: selection, closing, switching views, dragging, and
//! what is drawn.
use noches_ui::layout::{
    Direction, Layout, PaneEntry, PaneId, PaneMode, TabEntry, TabId, TabPlacement, ViewEntry,
    ViewId,
};
use noches_ui::pane_header::ChatRow;
use noches_ui::status_palette::ChatIndicator;
use noches_ui::terminal_panel::SessionViewStatus;
use noches_ui::workspace::{
    bind_keys, button_caption, command_action, equalizes, needs_reorder, panes_of_tab,
    preview_label, render_tree, resizes, Branch, ClosePlan, Command, DragTarget, PaneAction,
    PaneDrop, RuntimePlan, SelectPlan, SplitResize, StatusPlan, ToggleDeed, ToggleFacts, TreePart,
    VisualNode, Workspace, WorkspaceOp,
};

fn pane(view: u64, tab: u64, id: u64, mode: PaneMode, session: Option<&str>) -> PaneEntry {
    PaneEntry {
        view: ViewId(view),
        tab: TabId(tab),
        pane: PaneId(id),
        mode,
        session: session.map(str::to_owned),
        provider: None,
        label: None,
    }
}

/// View 1 with tabs 2 (panes 3 and 4) and 5 (pane 6); the first pane focused.
fn layout(mode: PaneMode) -> Layout {
    Layout {
        views: vec![ViewEntry {
            view: ViewId(1),
            active_tab: TabId(2),
            placement: TabPlacement::Top,
            order: vec![TabId(2), TabId(5)],
        }],
        tabs: vec![
            TabEntry {
                view: ViewId(1),
                tab: TabId(2),
                active_pane: PaneId(3),
                first_pane: PaneId(3),
            },
            TabEntry {
                view: ViewId(1),
                tab: TabId(5),
                active_pane: PaneId(6),
                first_pane: PaneId(6),
            },
        ],
        panes: vec![
            pane(1, 2, 3, mode, Some("chat-a")),
            pane(1, 2, 4, PaneMode::Chat, None),
            pane(1, 5, 6, PaneMode::Chat, Some("chat-b")),
        ],
        active_view: ViewId(1),
        first_view: ViewId(1),
    }
}

fn workspace(mode: PaneMode) -> Workspace {
    Workspace::new(Some(Ok(layout(mode))), layout(mode), Some("chat-a".to_owned()))
}

fn facts() -> ToggleFacts {
    let chat = |id: &str, harness: Option<&str>| ChatRow {
        id: id.to_owned(),
        title: Some(id.to_uppercase()),
        device_id: "local".to_owned(),
        space_id: None,
        branch: None,
        harness: harness.map(str::to_owned),
        status: ChatIndicator::Idle,
        queued: false,
        undelivered: false,
    };
    ToggleFacts {
        handoff: None,
        empty_cli: None,
        busy: vec![],
        chats: vec![chat("chat-a", Some("pi")), chat("chat-b", None)],
    }
}

/// What a terminal's status is once it was asked to open.
const OPENED: SessionViewStatus = SessionViewStatus::Opening;

fn failed() -> SessionViewStatus {
    SessionViewStatus::Failed("no".to_owned())
}

#[test]
fn a_fresh_workspace_opens_on_the_selection() {
    let fresh = Workspace::new(None, layout(PaneMode::Chat), Some("chat-z".to_owned()));
    assert_eq!(fresh.layout.session_of(PaneId(3)).as_deref(), Some("chat-z"));
    assert!(fresh.publish_active && fresh.focus_pending);
    let stored = workspace(PaneMode::Chat);
    assert_eq!(stored.layout.session_of(PaneId(3)).as_deref(), Some("chat-a"));
    let broken =
        Workspace::new(Some(Err("bad json".to_owned())), layout(PaneMode::Chat), None);
    assert_eq!(broken.error.as_deref(), Some("Could not restore layout: bad json"));
    assert_eq!(broken.layout.session_of(PaneId(3)).as_deref(), Some("chat-a"));
}

#[test]
fn an_operation_is_saved_or_reported() {
    let mut workspace = workspace(PaneMode::Chat);
    workspace.applied(Err("no such pane".to_owned()));
    assert_eq!(workspace.error.as_deref(), Some("no such pane"));
    assert!(!workspace.take_save());
    workspace.applied(Ok(layout(PaneMode::Chat)));
    assert_eq!(workspace.error, None);
    assert!(workspace.take_save());
    assert!(!workspace.take_save(), "asking settles it");
    workspace.applied(Ok(layout(PaneMode::Chat)));
    workspace.flush();
    assert!(!workspace.take_save());
    workspace.save_failed("disk full");
    assert_eq!(workspace.error.as_deref(), Some("Could not save layout: disk full"));
}

#[test]
fn a_selection_never_orphans_a_terminal() {
    let chat = workspace(PaneMode::Chat);
    let select = |workspace: &Workspace, chat: &str| workspace.select_session(Some(chat.to_owned()));
    assert!(matches!(select(&chat, "chat-b"), SelectPlan::Focus { pane: PaneId(6) }));
    assert!(matches!(
        select(&chat, "chat-c"),
        SelectPlan::Bind { pane: PaneId(3), session: Some(id) } if id == "chat-c"
    ));
    let terminal = workspace(PaneMode::Terminal);
    assert!(matches!(
        select(&terminal, "chat-c"),
        SelectPlan::AddTab { view: ViewId(1), session: Some(id) } if id == "chat-c"
    ));
    let mut switching = workspace(PaneMode::Chat);
    switching.ensure_pane_runtime(PaneId(3), true);
    switching.terminal_status(PaneId(3), SessionViewStatus::Opening);
    assert!(matches!(select(&switching, "chat-c"), SelectPlan::AddTab { .. }));
}

#[test]
fn an_echo_of_the_published_selection_changes_nothing() {
    let mut workspace = workspace(PaneMode::Chat);
    assert!(matches!(
        workspace.source_changed(Some("chat-a".to_owned())),
        SelectPlan::Nothing
    ));
    workspace.published(Some("chat-b".to_owned()));
    assert!(matches!(
        workspace.source_changed(Some("chat-b".to_owned())),
        SelectPlan::Nothing
    ));
    assert!(matches!(
        workspace.source_changed(Some("chat-a".to_owned())),
        SelectPlan::Focus { pane: PaneId(3) }
    ));
    assert!(matches!(
        workspace.chat_selected(PaneId(4), Some("minted".to_owned())),
        SelectPlan::Bind { pane: PaneId(4), .. }
    ));
    assert!(matches!(
        workspace.chat_selected(PaneId(3), Some("chat-a".to_owned())),
        SelectPlan::Nothing
    ));
}

#[test]
fn a_terminal_acknowledges_closure_before_its_pane_goes() {
    let mut workspace = workspace(PaneMode::Terminal);
    assert_eq!(workspace.close(PaneId(3), None), ClosePlan::ReleaseTerminal);
    assert_eq!(workspace.pending_close, vec![PaneId(3)]);
    assert_eq!(
        workspace.terminal_status(PaneId(3), SessionViewStatus::Closing),
        StatusPlan::Nothing
    );
    assert_eq!(
        workspace.terminal_status(PaneId(3), SessionViewStatus::Idle),
        StatusPlan::Close { pane: PaneId(3) }
    );
    assert!(workspace.pending_close.is_empty() && workspace.panes.is_empty());

    assert_eq!(workspace.close(PaneId(6), None), ClosePlan::CloseNow { pane: PaneId(6) });
    assert_eq!(workspace.close(PaneId(6), Some("last".to_owned())), ClosePlan::Refused);
    assert_eq!(workspace.error.as_deref(), Some("last"));
}

#[test]
fn a_failed_handoff_is_recovered_and_keeps_its_pane() {
    let mut workspace = workspace(PaneMode::Chat);
    workspace.ensure_pane_runtime(PaneId(3), true);
    assert_eq!(workspace.open_terminal(PaneId(3)), RuntimePlan::OpenTerminal);
    workspace.terminal_status(PaneId(3), SessionViewStatus::Opening);
    workspace.close(PaneId(3), None);
    assert_eq!(workspace.terminal_status(PaneId(3), failed()), StatusPlan::Nothing);
    assert!(workspace.pending_close.is_empty());
    assert_eq!(workspace.error.as_deref(), Some("no"));
    assert_eq!(workspace.toggle(PaneId(3), &facts()).deed, ToggleDeed::Recover);
    let shown = workspace.render_pane(PaneId(3), OPENED, &facts().chats, false).1;
    assert!(shown.recover && shown.shows_terminal);
    assert_eq!(shown.message.as_deref(), Some("View switch failed: no"));
}

#[test]
fn a_panes_mode_follows_its_terminal() {
    let mut workspace = workspace(PaneMode::Chat);
    workspace.ensure_pane_runtime(PaneId(3), true);
    workspace.open_terminal(PaneId(3));
    assert_eq!(
        workspace.terminal_status(PaneId(3), SessionViewStatus::Ready),
        StatusPlan::SetMode { pane: PaneId(3), mode: PaneMode::Terminal }
    );
    assert!(workspace.panes[0].shows_terminal && workspace.focus_pending);
    workspace.applied(Ok(layout(PaneMode::Terminal)));
    assert_eq!(
        workspace.terminal_status(PaneId(3), SessionViewStatus::Idle),
        StatusPlan::SetMode { pane: PaneId(3), mode: PaneMode::Chat }
    );
    assert!(!workspace.panes[0].shows_terminal);
}

#[test]
fn panes_are_rendered_with_what_they_need() {
    let mut workspace = workspace(PaneMode::Terminal);
    assert_eq!(workspace.ensure_pane_runtime(PaneId(3), true), RuntimePlan::OpenTerminal);
    assert_eq!(workspace.ensure_pane_runtime(PaneId(3), true), RuntimePlan::Nothing);
    assert_eq!(workspace.ensure_pane_runtime(PaneId(4), true), RuntimePlan::Chat);
    assert_eq!(workspace.ensure_pane_runtime(PaneId(99), true), RuntimePlan::Nothing);
    assert_eq!(workspace.open_terminal(PaneId(4)), RuntimePlan::StartCli);
    let mut parked = workspace_over(PaneMode::Terminal, None);
    assert_eq!(parked.ensure_pane_runtime(PaneId(3), false), RuntimePlan::PrepareTerminal);
    let mut empty = workspace_over(PaneMode::Terminal, None);
    assert_eq!(empty.ensure_pane_runtime(PaneId(3), true), RuntimePlan::StartCli);
}

fn workspace_over(mode: PaneMode, session: Option<&str>) -> Workspace {
    let mut layout = layout(mode);
    layout.panes[0].session = session.map(str::to_owned);
    Workspace::new(Some(Ok(layout)), self::layout(mode), None)
}

#[test]
fn every_reason_against_a_switch_is_told() {
    let mut workspace = workspace(PaneMode::Chat);
    let facts = facts();
    assert_eq!(workspace.toggle_unavailable(PaneId(3), &facts), None);
    assert_eq!(workspace.toggle_unavailable(PaneId(99), &facts), None);
    assert_eq!(
        workspace.toggle_unavailable(PaneId(6), &facts),
        Some("CLI switching is available for Pi sessions")
    );
    let busy = ToggleFacts { busy: vec!["chat-a".to_owned()], ..self::facts() };
    assert_eq!(
        workspace.toggle_unavailable(PaneId(3), &busy),
        Some("Wait for the agent to become idle before switching views")
    );
    let gone = ToggleFacts { chats: vec![], ..self::facts() };
    assert_eq!(workspace.toggle_unavailable(PaneId(3), &gone), Some("Session is unavailable"));
    let offline = ToggleFacts { empty_cli: Some("offline"), ..self::facts() };
    assert_eq!(workspace.toggle_unavailable(PaneId(4), &offline), Some("offline"));
    workspace.starting_cli.push(PaneId(3));
    assert_eq!(workspace.toggle_unavailable(PaneId(3), &facts), Some("Preparing CLI session"));
    workspace.starting_cli.clear();
    workspace.ensure_pane_runtime(PaneId(3), true);
    workspace.open_terminal(PaneId(3));
    workspace.terminal_status(PaneId(3), SessionViewStatus::Closing);
    assert_eq!(
        workspace.toggle_unavailable(PaneId(3), &facts),
        Some("Wait for the current view switch to finish")
    );
    let unverified = self::workspace(PaneMode::Terminal);
    assert_eq!(
        unverified.toggle_unavailable(PaneId(3), &facts),
        Some("Native session state is not verified")
    );
}

#[test]
fn a_toggle_opens_closes_or_refuses() {
    let mut chat = workspace(PaneMode::Chat);
    let plan = chat.toggle(PaneId(3), &facts());
    assert_eq!((plan.focus, plan.deed), (false, ToggleDeed::OpenTerminal));
    let mut other = workspace(PaneMode::Chat);
    let plan = other.toggle(PaneId(4), &facts());
    assert_eq!((plan.focus, plan.deed), (true, ToggleDeed::StartCli));
    assert_eq!(other.toggle(PaneId(6), &facts()).deed, ToggleDeed::Refuse);
    assert_eq!(
        other.error.as_deref(),
        Some("CLI switching is available for Pi sessions")
    );
    assert_eq!(other.toggle(PaneId(99), &facts()).deed, ToggleDeed::Nothing);
    let mut terminal = workspace(PaneMode::Terminal);
    terminal.ensure_pane_runtime(PaneId(3), true);
    assert_eq!(terminal.toggle(PaneId(3), &facts()).deed, ToggleDeed::CloseTerminal);
}

#[test]
fn the_menu_offers_ten_entries() {
    let mut workspace = workspace(PaneMode::Chat);
    let menu = workspace.render_pane_menu(PaneId(6), &facts(), true, false).unwrap();
    let labels: Vec<&str> = menu.entries.iter().map(|entry| entry.label).collect();
    assert_eq!(
        labels,
        [
            "Switch to CLI view",
            "Split pane right",
            "Split pane below",
            "Split view right",
            "Split view below",
            "Move pane to a tab",
            "Close pane",
            "Move tab rail",
            "Revoke API agent access",
            "Allow API orchestration in this workspace",
        ]
    );
    assert!(!menu.entries[0].enabled && menu.entries[1].enabled);
    assert_eq!(menu.reason, Some("CLI switching is available for Pi sessions"));
    assert!(workspace.render_pane_menu(PaneId(99), &facts(), true, false).is_none());
    assert_eq!(
        workspace.arrange(PaneId(6), PaneAction::MoveToTab),
        Some(WorkspaceOp::PaneToTab { pane: PaneId(6), view: ViewId(1) })
    );
    assert_eq!(
        workspace.arrange(PaneId(6), PaneAction::MoveRail),
        Some(WorkspaceOp::PlaceTabs { view: ViewId(1), placement: TabPlacement::Left })
    );
    assert_eq!(
        workspace.arrange(
            PaneId(6),
            PaneAction::Split { direction: Direction::Down, view: true }
        ),
        Some(WorkspaceOp::SplitView { view: ViewId(1), direction: Direction::Down })
    );
    assert_eq!(workspace.arrange(PaneId(6), PaneAction::Close), None);
}

#[test]
fn commands_have_their_chords() {
    assert_eq!(bind_keys(Command::ToggleSessionView, true), "cmd-e");
    assert_eq!(bind_keys(Command::SplitRight, false), "ctrl-alt-right");
    assert_eq!(bind_keys(Command::SplitDown, false), "ctrl-alt-down");
    assert_eq!(bind_keys(Command::SplitViewRight, false), "ctrl-alt-shift-right");
    assert_eq!(bind_keys(Command::SplitViewDown, false), "ctrl-alt-shift-down");
    assert_eq!(bind_keys(Command::NewTab, false), "ctrl-alt-t");
    assert_eq!(bind_keys(Command::ClosePane, true), "cmd-alt-w");
    assert_eq!(command_action(Command::NewTab), PaneAction::NewTab);
    assert_eq!(
        command_action(Command::SplitDown),
        PaneAction::Split { direction: Direction::Down, view: false }
    );
}

#[test]
fn mode_buttons_tell_what_stands_against_them() {
    let workspace = workspace(PaneMode::Chat);
    let tools = workspace.render_pane_tools(PaneId(6), &facts());
    assert!(tools.chat.selected && tools.chat.enabled && !tools.chat.clickable);
    assert_eq!(tools.chat.tooltip, "Open Chat view");
    assert!(!tools.cli.enabled && !tools.cli.clickable);
    assert_eq!(tools.cli.tooltip, "CLI switching is available for Pi sessions");
    let tools = workspace.render_pane_tools(PaneId(3), &facts());
    assert!(tools.cli.clickable);
    assert_eq!(tools.cli.tooltip, "Open CLI view");
    assert_eq!(button_caption("Pane actions"), "⋯");
    assert_eq!(button_caption("Split right"), "◫");
    assert_eq!(button_caption("Cancel"), "Cancel");
}

#[test]
fn drags_preview_where_they_may_land() {
    let mut workspace = workspace(PaneMode::Chat);
    let right = Some(Direction::Right);
    let this = DragTarget::Pane(PaneId(3));
    assert!(!workspace.drag_over_pane(PaneId(3), this, true, right), "not on itself");
    let own = DragTarget::Tab(TabId(2));
    assert!(!workspace.drag_over_pane(PaneId(3), own, true, right), "not on its own pane");
    assert!(workspace.drag_over_pane(PaneId(6), this, true, right));
    assert!(!workspace.drag_over_pane(PaneId(6), this, true, right));
    assert_eq!(workspace.render_pane(PaneId(6), OPENED, &vec![], true).1.preview, Some(right));
    assert_eq!(workspace.render_pane(PaneId(6), OPENED, &vec![], false).1.preview, None);
    assert_eq!(preview_label(None), "Move into tab rail");
    assert_eq!(preview_label(Some(Direction::Up)), "Move above");
    assert_eq!(
        workspace.drop_on_pane(PaneId(6), this),
        PaneDrop::Op(WorkspaceOp::MovePane {
            pane: PaneId(3),
            target: PaneId(6),
            direction: Direction::Right
        })
    );
    assert_eq!(workspace.drop_on_pane(PaneId(6), this), PaneDrop::Nothing);
    workspace.drag_over_pane(PaneId(6), own, true, None);
    assert_eq!(
        workspace.drop_on_pane(PaneId(6), own),
        PaneDrop::Op(WorkspaceOp::MoveTab { tab: TabId(2), view: ViewId(1) })
    );
    workspace.drop_preview = Some((PaneId(99), None));
    assert_eq!(workspace.drop_on_pane(PaneId(99), this), PaneDrop::MissingTarget);
}

#[test]
fn an_outer_edge_makes_a_view() {
    let mut workspace = workspace(PaneMode::Chat);
    let target = DragTarget::Tab(TabId(5));
    assert!(!workspace.drag_over_view(ViewId(1), true, Some(Direction::Left)), "rails insert");
    assert!(workspace.drag_over_view(ViewId(1), false, Some(Direction::Left)));
    assert_eq!(
        workspace.render_view(ViewId(1), OPENED, &vec![], true).1.unwrap().outer,
        Some(Direction::Left)
    );
    assert_eq!(
        workspace.drop_on_pane(PaneId(3), target),
        PaneDrop::Op(WorkspaceOp::TabToView {
            tab: TabId(5),
            view: ViewId(1),
            direction: Direction::Left
        })
    );
    assert_eq!(workspace.drop_outer(target), None);
}

#[test]
fn rails_insert_before_the_hovered_half() {
    let mut workspace = workspace(PaneMode::Chat);
    let five = DragTarget::Tab(TabId(5));
    assert!(workspace.drag_over_rail(ViewId(1), Some((0, true))));
    assert_eq!(workspace.tab_preview, Some((ViewId(1), Some(TabId(2)))));
    assert!(workspace.drag_over_rail(ViewId(1), Some((0, false))));
    assert_eq!(workspace.tab_preview, Some((ViewId(1), Some(TabId(5)))));
    workspace.error = Some("stale".to_owned());
    workspace.publish_active = false;
    workspace.save_due = false;
    assert_eq!(workspace.drop_on_rail(ViewId(1), five), None, "before itself it stays");
    assert_eq!(workspace.error, None, "an empty change counts as carried out");
    assert!(workspace.publish_active && workspace.save_due && workspace.focus_pending);
    workspace.drag_over_rail(ViewId(1), Some((1, false)));
    assert_eq!(workspace.tab_preview, Some((ViewId(1), None)));
    assert!(workspace.render_view(ViewId(1), OPENED, &vec![], true).1.unwrap().insert_last);
    assert_eq!(
        workspace.drop_on_rail(ViewId(1), DragTarget::Pane(PaneId(3))),
        Some(WorkspaceOp::InsertPane { pane: PaneId(3), view: ViewId(1), before: None })
    );
    assert!(needs_reorder(TabId(5), None) && !needs_reorder(TabId(5), Some(TabId(5))));
}

#[test]
fn a_view_shows_its_rail_and_panes() {
    let mut workspace = workspace(PaneMode::Chat);
    let view = workspace.render_view(ViewId(1), OPENED, &facts().chats, false).1.unwrap();
    assert_eq!(view.placement, TabPlacement::Top);
    assert_eq!(view.rail.len(), 2);
    assert!(view.rail[0].selected && view.rail[0].grouped);
    assert!(!view.rail[1].selected && !view.rail[1].grouped);
    assert_eq!(view.rail[1].title, "CHAT-B");
    assert!(!view.tools_in_rail, "a tab of two panes has its tools in their headers");
    assert!(workspace.render_view(ViewId(9), OPENED, &vec![], false).1.is_none());
    let shown = workspace.render_pane(PaneId(3), OPENED, &facts().chats, false).1;
    assert!(shown.active && shown.show_header && !shown.shows_terminal);
    assert_eq!(shown.title, "CHAT-A");
    assert!(!workspace.render_pane(PaneId(6), OPENED, &vec![], false).1.show_header);
    assert_eq!(workspace.title(PaneId(99), &vec![]), "Closed pane");
    assert_eq!(workspace.title(PaneId(4), &vec![]), "New session");
    assert_eq!(
        panes_of_tab(&workspace.layout, ViewId(1), TabId(2)),
        vec![PaneId(3), PaneId(4)]
    );
}

#[test]
fn a_frame_publishes_focuses_and_forgets() {
    let mut workspace = workspace(PaneMode::Chat);
    workspace.ensure_pane_runtime(PaneId(6), true);
    workspace.drop_preview = Some((PaneId(6), None));
    let plan = workspace.frame(false);
    assert_eq!(plan.publish, Some(PaneId(3)));
    assert_eq!(plan.focus, Some((PaneId(3), false)));
    assert_eq!(workspace.drop_preview, None);
    assert_eq!(workspace.panes.len(), 2);
    let mut smaller = layout(PaneMode::Chat);
    smaller.panes.truncate(2);
    workspace.applied(Ok(smaller));
    let plan = workspace.frame(true);
    assert_eq!(plan.publish, Some(PaneId(3)));
    assert_eq!(plan.focus, None);
    assert_eq!(workspace.panes.len(), 1, "panes that are gone are forgotten");
    assert_eq!(workspace.frame(false).publish, None);
}

#[test]
fn a_frame_tells_what_the_active_pane_needs() {
    let plan = workspace(PaneMode::Chat).frame(false);
    assert_eq!(plan.render, RuntimePlan::Chat);
    let mut terminal = workspace(PaneMode::Terminal);
    assert_eq!(terminal.frame(false).render, RuntimePlan::OpenTerminal);
    terminal.publish_active = true;
    assert_eq!(terminal.frame(false).render, RuntimePlan::Nothing, "it is rendered by now");
    let mut empty = workspace_over(PaneMode::Terminal, None);
    assert_eq!(empty.frame(false).render, RuntimePlan::StartCli);
}

#[test]
fn splits_and_tabs_are_asked_for_at_the_focus() {
    let mut workspace = workspace(PaneMode::Chat);
    assert_eq!(workspace.focus(PaneId(3)), None);
    assert_eq!(workspace.focus(PaneId(4)), Some(WorkspaceOp::FocusPane { pane: PaneId(4) }));
    assert_eq!(
        workspace.split(Direction::Right, false),
        Some(WorkspaceOp::SplitPane { pane: PaneId(3), direction: Direction::Right })
    );
    assert_eq!(workspace.new_tab(), WorkspaceOp::AddTab { view: ViewId(1) });
    assert_eq!(
        workspace.focus_tab(ViewId(1), TabId(5)),
        WorkspaceOp::FocusTab { view: ViewId(1), tab: TabId(5) }
    );
}

#[test]
fn a_tree_is_drawn_with_a_handle_between_branches() {
    let tree = VisualNode::Split {
        horizontal: true,
        path: Some(vec![]),
        first: Box::new(VisualNode::Leaf(3)),
        second: Box::new(VisualNode::Split {
            horizontal: false,
            path: None,
            first: Box::new(VisualNode::Empty),
            second: Box::new(VisualNode::Leaf(4)),
        }),
    };
    let parts = render_tree(&tree);
    assert_eq!(parts.len(), 4);
    assert!(matches!(parts[0], TreePart::Leaf(3)));
    assert!(matches!(
        parts[1],
        TreePart::Handle { horizontal: true, interactive: true, thickness: 6, .. }
    ));
    assert!(matches!(
        parts[2],
        TreePart::Handle { horizontal: false, interactive: false, thickness: 0, .. }
    ));
    assert!(matches!(parts[3], TreePart::Leaf(4)));
}

#[test]
fn a_resize_belongs_to_the_handle_it_began_at() {
    let key = |tier, path| SplitResize { tier, path };
    let tier = Some((ViewId(1), TabId(2)));
    let handle = key(tier, vec![Branch::First]);
    assert!(resizes(&handle, true, &key(tier, vec![Branch::First])));
    assert!(!resizes(&handle, false, &key(tier, vec![Branch::First])));
    assert!(!resizes(&handle, true, &key(tier, vec![Branch::Second])));
    assert!(!resizes(&handle, true, &key(tier, vec![])));
    assert!(!resizes(&handle, true, &key(None, vec![Branch::First])));
    assert!(equalizes(true, 2) && !equalizes(true, 1) && !equalizes(false, 2));
}

#[test]
fn a_pane_on_the_screen_opens_its_terminal() {
    let mut terminal = workspace(PaneMode::Terminal);
    let (plan, shown) = terminal.render_pane(PaneId(3), OPENED, &facts().chats, false);
    assert_eq!(plan, RuntimePlan::OpenTerminal);
    assert_eq!(shown.message.as_deref(), Some("Opening CLI session…"));
    assert_eq!(terminal.panes.len(), 1);
    let (plan, _) = terminal.render_pane(PaneId(3), OPENED, &facts().chats, false);
    assert_eq!(plan, RuntimePlan::Nothing, "it is rendered by now");

    let mut offline = workspace(PaneMode::Terminal);
    let (plan, shown) = offline.render_pane(PaneId(3), failed(), &vec![], false);
    assert_eq!(plan, RuntimePlan::OpenTerminal);
    assert!(shown.recover);
    assert_eq!(shown.message.as_deref(), Some("View switch failed: no"));

    let mut empty = workspace_over(PaneMode::Terminal, None);
    assert_eq!(empty.render_pane(PaneId(3), OPENED, &vec![], false).0, RuntimePlan::StartCli);

    let mut view = workspace(PaneMode::Terminal);
    let (plan, model) = view.render_view(ViewId(1), OPENED, &vec![], false);
    assert_eq!(plan, RuntimePlan::OpenTerminal);
    assert!(model.is_some());
    assert_eq!(view.panes[0].pane, PaneId(3));
    let (plan, model) = view.render_view(ViewId(9), OPENED, &vec![], false);
    assert_eq!(plan, RuntimePlan::Nothing);
    assert!(model.is_none());
}

#[test]
fn a_rails_plus_adds_to_its_own_view() {
    let mut layout = layout(PaneMode::Chat);
    layout.views.push(ViewEntry {
        view: ViewId(7),
        active_tab: TabId(8),
        placement: TabPlacement::Top,
        order: vec![TabId(8)],
    });
    let mut workspace = Workspace::new(Some(Ok(layout)), self::layout(PaneMode::Chat), None);
    workspace.focus_pending = false;
    assert_eq!(
        workspace.new_tab_in_view(ViewId(7)),
        WorkspaceOp::AddTab { view: ViewId(7) }
    );
    assert!(workspace.focus_pending);
    assert_eq!(workspace.layout.active_view, ViewId(7));
    assert_eq!(
        workspace.new_tab_in_view(ViewId(99)),
        WorkspaceOp::AddTab { view: ViewId(7) },
        "a view that is gone leaves the active one in charge"
    );
}
