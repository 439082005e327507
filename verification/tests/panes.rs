//! The workspace's panes: headers, drags, surfaces, spaces and native views.
use noches_ui::layout::{
    Direction, Layout, PaneEntry, PaneId, PaneMode, TabEntry, TabId, TabPlacement, ViewEntry,
    ViewId,
};
use noches_ui::pane_drag::{
    accept_sidebar_session_drop, apply_drop_plan, apply_split_drag_move, bind_sidebar_session,
    commit_sidebar_split, commit_split_drop, existing_sidebar_session_resolution,
    finish_sidebar_drag, move_sidebar_session_pointer, release_sidebar_session_pointer,
    resolve_sidebar_pointer, sidebar_commit_plan, sort_chips, split_drag_matches_payload,
    workspace_geometry, ChipBound, ChipPlace, DragPayload, DragSource, DragSplit, DropCommit,
    DropPlan, LayoutOp, Made, PaneBound, PanePlace, PointerMove, Preview, PreviewKind, Rect,
    Resolution, SidebarDrop, SidebarPointer,
    ViewPlace,
};
use noches_ui::pane_header::{
    header_mark, pane_meta, pane_project_badges, pane_title, render_primary_pane_header,
    workspace_snapshot, ChatRow, HeaderMark, Named, Picks, Rows,
};
use noches_ui::pane_shell::{
    keeps_space, native_space, pane_menu_rows, ComposerDeed, ComposerEvent, Overlay,
};
use noches_ui::pane_surfaces::{
    reseat_composer_as_dock, ChatTarget, PaneShell, QueueEdit, SurfaceEntry,
};
use noches_ui::session_surface::{chat_pane_sessions, ensure_session_surfaces, NativeSurfaces};
use noches_ui::status_palette::{ChatIndicator, SessionState};

fn pane(view: u64, tab: u64, id: u64, session: Option<&str>) -> PaneEntry {
    PaneEntry {
        view: ViewId(view),
        tab: TabId(tab),
        pane: PaneId(id),
        mode: PaneMode::Chat,
        session: session.map(str::to_owned),
        provider: None,
        label: None,
    }
}

/// Panes grouped into tabs and views by their ids; the focused one is active
/// in its tab, its tab in its view, its view in the workspace.
fn layout(panes: Vec<PaneEntry>, focused: u64) -> Layout {
    let home = panes.iter().find(|entry| entry.pane == PaneId(focused)).unwrap();
    let (home_view, home_tab) = (home.view, home.tab);
    let mut tabs: Vec<TabEntry> = Vec::new();
    let mut views: Vec<ViewEntry> = Vec::new();
    for entry in &panes {
        if !tabs.iter().any(|tab| tab.view == entry.view && tab.tab == entry.tab) {
            let active = if (entry.view, entry.tab) == (home_view, home_tab) {
                PaneId(focused)
            } else {
                entry.pane
            };
            tabs.push(TabEntry {
                view: entry.view,
                tab: entry.tab,
                active_pane: active,
                first_pane: entry.pane,
            });
        }
        match views.iter_mut().find(|view| view.view == entry.view) {
            Some(view) => {
                if !view.order.contains(&entry.tab) {
                    view.order.push(entry.tab);
                }
            }
            None => views.push(ViewEntry {
                view: entry.view,
                active_tab: if entry.view == home_view { home_tab } else { entry.tab },
                placement: TabPlacement::Top,
                order: vec![entry.tab],
            }),
        }
    }
    let first_view = views[0].view;
    Layout { views, tabs, panes, active_view: home_view, first_view }
}

fn single(session: Option<&str>) -> Layout {
    layout(vec![pane(1, 2, 3, session)], 3)
}

fn pair(first: Option<&str>, second: Option<&str>, focused: u64) -> Layout {
    layout(vec![pane(1, 2, 3, first), pane(4, 5, 6, second)], focused)
}

fn shell() -> PaneShell {
    PaneShell::new(single(Some("chat-a")), Some("chat-a".to_owned()), Some("b".to_owned()))
}

fn surface(shell: &PaneShell, pane: u64) -> &SurfaceEntry {
    shell.surfaces.iter().find(|entry| entry.pane == PaneId(pane)).unwrap()
}

fn pending(shell: &PaneShell, composer: u64) -> bool {
    shell.composers.iter().find(|entry| entry.id == composer).unwrap().focus_pending
}

fn retarget(shell: &mut PaneShell, composer: u64, chat: Option<&str>) {
    let entry = shell.composers.iter_mut().find(|entry| entry.id == composer).unwrap();
    entry.target = ChatTarget::Fixed(chat.map(str::to_owned));
}

fn session(shell: &PaneShell, pane: u64) -> Option<String> {
    shell.layout.session_of(PaneId(pane))
}

fn split(shell: &mut PaneShell) {
    let op = shell.split_workspace_view(Direction::Right, true, false);
    assert_eq!(op, Some(LayoutOp::SplitFocusedView { direction: Direction::Right }));
    let first = session(shell, 3);
    shell.op_applied(pair(first.as_deref(), None, 6), true);
}

fn chat(id: &str, device: &str, branch: Option<&str>) -> ChatRow {
    ChatRow {
        id: id.to_owned(),
        title: Some("Build the Fieldnotes workspace".to_owned()),
        device_id: device.to_owned(),
        space_id: Some("project".to_owned()),
        branch: branch.map(str::to_owned),
        harness: None,
        status: ChatIndicator::Completed,
        queued: false,
        undelivered: false,
    }
}

fn rows(chats: Vec<ChatRow>) -> Rows {
    Rows {
        chats,
        spaces: vec![Named { id: "project".to_owned(), name: "project".to_owned() }],
        devices: vec![Named { id: "studio".to_owned(), name: "Mac Studio".to_owned() }],
        local_device_id: Some("local".to_owned()),
    }
}

#[test]
fn sidebar_release_rejects_outside_and_stale_drag_even_for_existing_session() {
    let mut state = DragSplit {
        source: DragSource::SidebarSession,
        session_id: Some("chat-a".into()),
        root: ROOT,
        plan: DropPlan::FocusPane { pane: PaneId(3) },
        preview: None,
        anchor: Some(PaneId(3)),
    };
    assert_eq!(
        sidebar_commit_plan(&state, "chat-a"),
        Some(DropPlan::FocusPane { pane: PaneId(3) })
    );
    assert_eq!(sidebar_commit_plan(&state, "chat-b"), None);
    state.plan = DropPlan::Nowhere;
    state.anchor = None;
    assert_eq!(sidebar_commit_plan(&state, "chat-a"), None);
    state.source = DragSource::PaneHeader(PaneId(3));
    assert_eq!(sidebar_commit_plan(&state, "chat-a"), None);
}

#[test]
fn unbound_panes_carry_no_header_metadata() {
    let meta = pane_meta(None, &rows(vec![]));
    assert_eq!((meta.context, meta.state), (None, SessionState::Idle));
    let meta = pane_meta(Some("missing-chat"), &rows(vec![]));
    assert_eq!((meta.context, meta.state), (None, SessionState::Idle));
}

#[test]
fn context_is_project_colon_branch_plus_a_remote_device_only() {
    let rows = rows(vec![
        chat("local-chat", "local", Some("feat/auth")),
        chat("remote-chat", "studio", Some("main")),
        chat("branchless", "local", None),
    ]);
    let local = pane_meta(Some("local-chat"), &rows);
    assert_eq!(local.context.as_deref(), Some("project:feat/auth"));
    let remote = pane_meta(Some("remote-chat"), &rows);
    assert_eq!(remote.context.as_deref(), Some("project:main · Mac Studio"));
    let branchless = pane_meta(Some("branchless"), &rows);
    assert_eq!(branchless.context.as_deref(), Some("project"));
}

#[test]
fn a_context_outside_any_project_is_home() {
    let homeless = ChatRow { space_id: None, ..chat("c", "nowhere", Some("  ")) };
    let lost = ChatRow { space_id: Some("gone".to_owned()), ..chat("d", "local", None) };
    let rows = rows(vec![homeless, lost]);
    assert_eq!(pane_meta(Some("c"), &rows).context.as_deref(), Some("~"));
    assert_eq!(pane_meta(Some("d"), &rows).context.as_deref(), Some("?"));
}

#[test]
fn state_resolves_from_the_session_and_send_truth() {
    let with = |id: &str, status: ChatIndicator| ChatRow { status, ..chat(id, "local", None) };
    let live = rows(vec![
        with("working", ChatIndicator::Working),
        with("awaiting", ChatIndicator::AwaitingInput),
        with("errored", ChatIndicator::Errored),
    ]);
    assert_eq!(pane_meta(Some("working"), &live).state, SessionState::Working);
    assert_eq!(pane_meta(Some("awaiting"), &live).state, SessionState::AwaitingInput);
    assert_eq!(pane_meta(Some("errored"), &live).state, SessionState::Failed);
    let settled = pane_meta(Some("working"), &rows(vec![chat("working", "local", None)]));
    assert_eq!(settled.state, SessionState::Completed);
    assert_eq!(settled.state.label(), Some("Completed"));
    let stuck = ChatRow { undelivered: true, ..chat("working", "local", None) };
    let undelivered = pane_meta(Some("working"), &rows(vec![stuck]));
    assert_eq!(undelivered.state, SessionState::Failed);
    assert_eq!(undelivered.context.as_deref(), Some("project"));
}

#[test]
fn header_mark_prefers_the_bound_harness_brand() {
    let bound =
        ChatRow { harness: Some("codex".to_owned()), ..chat("bound-chat", "local", None) };
    let mark = header_mark(Some(&bound), PaneMode::Chat, &None, &None);
    assert!(matches!(mark, HeaderMark::Brand(brand) if brand == "codex"));
    let composer_mark = header_mark(None, PaneMode::Chat, &None, &Some("pi".to_owned()));
    assert!(matches!(composer_mark, HeaderMark::Brand(brand) if brand == "pi"));
    let provider = Some("opencode".to_owned());
    match header_mark(None, PaneMode::Chat, &provider, &None) {
        HeaderMark::Plain(mark) => {
            assert_eq!(mark.mode, PaneMode::Chat);
            assert_eq!(mark.provider, provider);
        }
        HeaderMark::Brand(_) => panic!("an unbound pane has no brand"),
    }
    match header_mark(None, PaneMode::Terminal, &None, &None) {
        HeaderMark::Plain(mark) => assert_eq!(mark.mode, PaneMode::Terminal),
        HeaderMark::Brand(_) => panic!("a terminal has no brand"),
    }
}

#[test]
fn the_only_panes_header_is_that_of_the_selection() {
    let row = chat("c", "local", Some("main"));
    let rows = rows(vec![chat("c", "local", Some("main"))]);
    let header =
        render_primary_pane_header(Some(PaneId(3)), Some(&row), &rows, &None).unwrap();
    assert_eq!(header.title, "Build the Fieldnotes workspace");
    assert_eq!(header.chat_id.as_deref(), Some("c"));
    assert_eq!(header.meta.context.as_deref(), Some("project:main"));
    let header = render_primary_pane_header(Some(PaneId(3)), None, &rows, &None).unwrap();
    assert_eq!(header.title, "New session");
    assert!(header.chat_id.is_none() && header.meta.context.is_none());
    assert!(render_primary_pane_header(None, Some(&row), &rows, &None).is_none());
}

#[test]
fn titles_fall_back_to_what_a_pane_is() {
    let chats = vec![chat("c", "local", None)];
    let title = |session: Option<&str>, mode: PaneMode, label: Option<&str>| {
        pane_title(
            &session.map(str::to_owned),
            mode,
            &label.map(str::to_owned),
            &chats,
        )
    };
    assert_eq!(title(Some("c"), PaneMode::Chat, Some("review")), "review");
    assert_eq!(title(Some("c"), PaneMode::Chat, None), "Build the Fieldnotes workspace");
    assert_eq!(title(Some("gone"), PaneMode::Terminal, None), "Terminal");
    assert_eq!(title(Some("gone"), PaneMode::Chat, None), "Session");
    assert_eq!(title(None, PaneMode::Chat, None), "New session");
}

#[test]
fn the_snapshot_focuses_one_pane() {
    let layout = pair(Some("c"), None, 6);
    let picks = Picks { picks: vec![] };
    let views = workspace_snapshot(&layout, &rows(vec![chat("c", "local", None)]), &picks);
    assert_eq!(views.len(), 2);
    let focused: usize =
        views.iter().flat_map(|view| view.panes.iter()).filter(|pane| pane.focused).count();
    assert_eq!(focused, 1);
    let badges = pane_project_badges(&layout, &vec![]);
    assert_eq!(badges.len(), 1);
    assert!(!badges[0].known, "a chat that has not landed keeps its slot");
}

fn sidebar_drop(session: &str, plan: DropPlan) -> Option<DragSplit> {
    Some(DragSplit {
        source: DragSource::SidebarSession,
        session_id: Some(session.to_owned()),
        root: ROOT,
        plan,
        preview: None,
        anchor: None,
    })
}

fn sidebar_payload(session: &str) -> DragPayload {
    DragPayload { source: DragSource::SidebarSession, session_id: Some(session.to_owned()) }
}

/// A rectangle of measured numbers.
fn rect(x: f32, y: f32, w: f32, h: f32) -> Rect {
    Rect { x: x.to_bits(), y: y.to_bits(), w: w.to_bits(), h: h.to_bits() }
}

const ROOT: Rect = Rect { x: 0, y: 0, w: 1, h: 1 };

fn painted(layout: &Layout) -> Vec<PanePlace> {
    let panes = layout.panes.iter().map(|entry| PaneBound { pane: entry.pane, rect: ROOT });
    workspace_geometry(layout, &panes.collect(), &vec![], &vec![]).panes
}

const SPLIT: DropPlan = DropPlan::SplitPane { pane: PaneId(3), direction: Direction::Right };

#[test]
fn an_already_open_session_drop_only_focuses() {
    let layout = single(Some("chat-a1"));
    let mut drag = sidebar_drop("chat-a1", SPLIT);
    let commit = commit_split_drop(&mut drag, &sidebar_payload("chat-a1"));
    assert_eq!(commit, DropCommit::Sidebar { plan: SPLIT });
    let (drop, _) = commit_sidebar_split(SPLIT, &Some("chat-a1".to_owned()), &layout, false);
    assert_eq!(drop, SidebarDrop::Focus { pane: PaneId(3) });
}

#[test]
fn a_stale_drag_payload_never_mutates_the_layout() {
    let mut drag = sidebar_drop("chat-a1", SPLIT);
    assert_eq!(commit_split_drop(&mut drag, &sidebar_payload("chat-b1")), DropCommit::Redraw);
    assert!(drag.is_none());
    let mut drag = sidebar_drop("chat-a1", SPLIT);
    assert_eq!(accept_sidebar_session_drop(&mut drag, &sidebar_payload("chat-b1")), None);
    assert!(drag.is_none());
    let state = sidebar_drop("chat-a1", SPLIT).unwrap();
    assert!(split_drag_matches_payload(&state, &sidebar_payload("chat-a1")));
}

#[test]
fn an_open_session_resolves_to_focus_only_inside_the_content() {
    let layout = single(Some("chat-a1"));
    let open = Some("chat-a1".to_owned());
    let shown = painted(&layout);
    assert!(existing_sidebar_session_resolution(&layout, &open, false, &shown).is_none());
    let resolution = existing_sidebar_session_resolution(&layout, &open, true, &shown).unwrap();
    assert_eq!(resolution.plan, DropPlan::FocusPane { pane: PaneId(3) });
    assert_eq!(
        resolution.preview,
        Some(Preview { rect: ROOT, kind: PreviewKind::FullTarget })
    );
    let hidden =
        existing_sidebar_session_resolution(&layout, &open, true, &vec![]).unwrap();
    assert_eq!(hidden.plan, DropPlan::FocusPane { pane: PaneId(3) });
    assert_eq!(hidden.preview, None, "a pane that is not painted has no preview");
    let other = Some("chat-b1".to_owned());
    assert!(existing_sidebar_session_resolution(&layout, &other, true, &shown).is_none());
}

#[test]
fn a_sidebar_strip_drop_inserts_at_the_requested_position() {
    let before = layout(vec![pane(1, 2, 3, Some("chat-a1")), pane(1, 7, 8, None)], 3);
    let plan = DropPlan::MoveIntoPane { view: ViewId(1), tab_before: Some(TabId(2)) };
    let (drop, _) = commit_sidebar_split(plan, &Some("chat-b1".to_owned()), &before, false);
    assert_eq!(drop, SidebarDrop::AddTab { view: ViewId(1), before: Some(TabId(2)) });
    let after = layout(
        vec![pane(1, 2, 3, Some("chat-a1")), pane(1, 7, 8, None), pane(1, 9, 10, None)],
        10,
    );
    let made = Made::Tab(ViewId(1), TabId(9));
    assert_eq!(bind_sidebar_session(made, &after), Some(PaneId(10)));
    assert_eq!(bind_sidebar_session(Made::Refused, &after), None);
    assert_eq!(bind_sidebar_session(Made::View(ViewId(1)), &after), Some(PaneId(3)));
}

#[test]
fn drops_of_chips_and_headers_move_what_they_name() {
    let chip = DragSource::TabChip(TabId(2), ViewId(1));
    let header = DragSource::PaneHeader(PaneId(3));
    let into = |before| DropPlan::MoveIntoPane { view: ViewId(1), tab_before: before };
    assert_eq!(
        apply_drop_plan(into(None), chip),
        Some(LayoutOp::FocusTab { view: ViewId(1), tab: TabId(2) }),
        "a tab dropped into its own view only gets the focus"
    );
    assert_eq!(
        apply_drop_plan(into(Some(TabId(5))), chip),
        Some(LayoutOp::ReorderTab { tab: TabId(2), view: ViewId(1), before: Some(TabId(5)) })
    );
    assert_eq!(
        apply_drop_plan(into(None), header),
        Some(LayoutOp::PaneToTab { pane: PaneId(3), view: ViewId(1) })
    );
    assert_eq!(
        apply_drop_plan(DropPlan::SplitPane { pane: PaneId(6), direction: Direction::Up }, header),
        Some(LayoutOp::MovePane {
            pane: PaneId(3),
            target: PaneId(6),
            direction: Direction::Up
        })
    );
    assert_eq!(apply_drop_plan(DropPlan::Nowhere, chip), None);
    assert_eq!(apply_drop_plan(SPLIT, DragSource::SidebarSession), None);
}

#[test]
fn sidebar_pointer_release_without_target_suppresses_click() {
    let mut pointer =
        Some(SidebarPointer { session_id: "chat-b".to_owned(), dragging: false });
    let mut drag = None;
    let moved = move_sidebar_session_pointer(&mut pointer, true, false, true);
    assert!(matches!(&moved, PointerMove::Resolve { session_id, began: true } if session_id == "chat-b"));
    let layout = single(Some("chat-a"));
    let outside = Resolution { plan: DropPlan::Nowhere, preview: None, anchor: None };
    let shown = painted(&layout);
    resolve_sidebar_pointer(
        &mut drag,
        "chat-b",
        Some(ROOT),
        &layout,
        false,
        false,
        &shown,
        outside,
    );
    let released = release_sidebar_session_pointer(&mut pointer);
    assert_eq!(released.as_deref(), Some("chat-b"), "the click is suppressed");
    assert_eq!(finish_sidebar_drag(&mut drag, "chat-b"), None);
    assert!(pointer.is_none());
    assert!(drag.is_none());
    assert!(layout.is_trivial());
}

#[test]
fn a_pointer_drag_commits_what_it_resolved_to() {
    let layout = single(Some("chat-a"));
    let mut drag = None;
    let half = Preview { rect: rect(0.5, 0.0, 0.5, 1.0), kind: PreviewKind::Part(1) };
    let inside = Resolution { plan: SPLIT, preview: Some(half), anchor: Some(PaneId(3)) };
    let shown = painted(&layout);
    let mut sample = |drag: &mut Option<DragSplit>, outlet, resolution| {
        resolve_sidebar_pointer(
            drag, "chat-b", outlet, &layout, false, true, &shown, resolution,
        )
    };
    assert!(sample(&mut drag, Some(ROOT), inside));
    assert!(!sample(&mut drag, Some(ROOT), inside));
    let wider = Preview { rect: rect(0.25, 0.0, 0.75, 1.0), ..half };
    let grown = Resolution { preview: Some(wider), ..inside };
    assert!(sample(&mut drag, Some(ROOT), grown), "another preview is another frame");
    assert!(!sample(&mut drag, Some(ROOT), grown));
    assert!(
        sample(&mut drag, Some(rect(1.0, 0.0, 1.0, 1.0)), grown),
        "an outlet that moved is another frame"
    );
    assert_eq!(finish_sidebar_drag(&mut drag, "chat-b"), Some(SPLIT));

    let mut drag = sidebar_drop("chat-b", SPLIT);
    assert!(sample(&mut drag, None, inside));
    assert!(drag.is_none(), "without an outlet the drag ends");
    let mut moved = None;
    let payload = sidebar_payload("chat-a");
    apply_split_drag_move(&mut moved, &payload, &layout, ROOT, true, &shown, inside);
    assert_eq!(moved.unwrap().plan, DropPlan::FocusPane { pane: PaneId(3) });
}

#[test]
fn a_docked_session_is_bound_focused_and_no_longer_alone() {
    let mut shell = PaneShell::new(single(Some("chat-a")), Some("chat-a".to_owned()), None);
    shell.solo = true;
    shell.solo_chats = vec!["chat-b".to_owned(), "chat-c".to_owned()];
    let session = Some("chat-b".to_owned());
    assert_eq!(shell.drop_sidebar_session(DropPlan::Nowhere, &session), SidebarDrop::Redraw);
    assert!(shell.solo, "outside nothing changes");
    assert_eq!(
        shell.drop_sidebar_session(SPLIT, &session),
        SidebarDrop::SplitPane { pane: PaneId(3), direction: Direction::Right }
    );
    assert!(!shell.solo);
    let refused = shell.sidebar_session_docked(
        Made::Refused,
        single(Some("elsewhere")),
        Some("chat-b".to_owned()),
    );
    assert!(!refused);
    assert_eq!(shell.solo_chats.len(), 2);
    assert_eq!(shell.layout.session_of(PaneId(3)).as_deref(), Some("chat-a"));

    let made = layout(vec![pane(1, 2, 3, Some("chat-a")), pane(1, 2, 4, None)], 3);
    assert!(shell.sidebar_session_docked(Made::Pane(PaneId(4)), made, session));
    assert_eq!(shell.layout.session_of(PaneId(4)).as_deref(), Some("chat-b"));
    assert_eq!(shell.layout.active_pane_id(), Some(PaneId(4)));
    assert_eq!(shell.selected_chat.as_deref(), Some("chat-b"));
    assert_eq!(shell.solo_chats, ["chat-c"]);
    assert!(shell.dirty);
}

#[test]
fn composers_tell_the_shell_where_they_went() {
    let mut shell = PaneShell::new(single(Some("chat-a")), Some("chat-a".to_owned()), None);
    let dock = shell.dock;
    assert!(!shell.composer_moved(dock, None), "it follows the selection");
    assert!(!shell.composer_moved(99, None));
    shell.layout = single(Some("chat-b"));
    shell.selected_chat = Some("chat-b".to_owned());
    shell.dock_routed("chat-b");
    shell.layout = layout(vec![pane(1, 2, 3, Some("chat-b")), pane(1, 2, 4, None)], 4);
    shell.ensure_pane_chat_surfaces();
    let owner = |shell: &PaneShell, pane| {
        shell.surfaces.iter().find(|entry| entry.pane == PaneId(pane)).unwrap().composer
    };
    assert_eq!(owner(&shell, 3), dock, "the pane it was routed to takes it over");
    let fresh = owner(&shell, 4);
    assert!(shell.composer_moved(fresh, Some("minted".to_owned())));
    shell.ensure_pane_chat_surfaces();
    assert_eq!(shell.layout.session_of(PaneId(4)).as_deref(), Some("minted"));
    assert_eq!(owner(&shell, 4), fresh);
}

#[test]
fn a_click_and_a_foreign_drag_end_the_press() {
    let mut pointer =
        Some(SidebarPointer { session_id: "chat-b".to_owned(), dragging: false });
    assert!(matches!(
        move_sidebar_session_pointer(&mut pointer, true, false, false),
        PointerMove::Nothing
    ));
    assert_eq!(release_sidebar_session_pointer(&mut pointer), None, "a click stays a click");
    let mut pointer = Some(SidebarPointer { session_id: "chat-b".to_owned(), dragging: true });
    assert!(matches!(
        move_sidebar_session_pointer(&mut pointer, true, true, true),
        PointerMove::Cancel
    ));
    assert!(pointer.is_none());
}

#[test]
fn only_what_shows_takes_part_in_a_drag() {
    let layout = layout(
        vec![pane(1, 2, 3, None), pane(1, 7, 8, None), pane(4, 5, 6, None)],
        3,
    );
    let chip = |view, tab, place| ChipBound { view: ViewId(view), tab: TabId(tab), place };
    let bound = |pane| PaneBound { pane: PaneId(pane), rect: ROOT };
    let geometry = workspace_geometry(
        &layout,
        &vec![bound(3), bound(6), bound(8), bound(99)],
        &vec![ViewId(1), ViewId(4), ViewId(50)],
        &vec![chip(4, 5, 10), chip(1, 2, 90), chip(1, 7, 10), chip(1, 77, 0), chip(50, 2, 0)],
    );
    assert_eq!(
        geometry.panes,
        vec![
            PanePlace { pane: PaneId(3), view: ViewId(1), tab: TabId(2), rect: ROOT },
            PanePlace { pane: PaneId(6), view: ViewId(4), tab: TabId(5), rect: ROOT },
        ]
    );
    assert_eq!(
        geometry.views,
        vec![
            ViewPlace { view: ViewId(1), tab_count: 2 },
            ViewPlace { view: ViewId(4), tab_count: 1 },
        ]
    );
    assert_eq!(geometry.strips.len(), 2);
    assert_eq!(geometry.strips[0].view, ViewId(1));
    let order: Vec<TabId> = geometry.strips[0].chips.iter().map(|chip| chip.tab).collect();
    assert_eq!(order, [TabId(7), TabId(2)]);
    let level = |tab| ChipPlace { tab: TabId(tab), place: 1 };
    let sorted = sort_chips(vec![level(9), level(2)]);
    assert_eq!(sorted[0].tab, TabId(2), "chips at one place go by their ids");
}

#[test]
fn first_split_preserves_the_original_composer_and_focuses_only_the_new_pane() {
    let mut shell = shell();
    let original = shell.dock;
    split(&mut shell);
    let first = surface(&shell, 3).composer;
    let second = surface(&shell, 6).composer;
    assert_eq!(first, original);
    assert_ne!(first, second);
    assert!(!pending(&shell, first));
    assert!(pending(&shell, second));
    assert_eq!(shell.active_composer(), second);
    assert_eq!(surface(&shell, 3).chat.as_deref(), Some("chat-a"));
}

#[test]
fn collapsing_to_one_pane_keeps_its_composer_and_draft() {
    let mut shell = shell();
    split(&mut shell);
    let survivor = shell.active_composer();
    shell.op_applied(layout(vec![pane(4, 5, 6, None)], 6), true);
    assert!(shell.layout.is_trivial());
    assert!(!shell.workspace_mode());
    assert_eq!(shell.layout.active_pane_id(), Some(PaneId(6)));
    assert_eq!(
        shell.active_composer(),
        survivor,
        "the survivor is adopted, never rebuilt from a draft snapshot"
    );
    assert!(shell.surfaces.is_empty());
}

#[test]
fn a_collapse_keeps_the_queue_edit() {
    let lease = || QueueEdit {
        queued: Some("row-lease".to_owned()),
        draft: Some("displaced words".to_owned()),
    };
    let dropped = QueueEdit { queued: None, draft: None };
    let kept = reseat_composer_as_dock(lease(), dropped);
    assert_eq!(kept.queued.as_deref(), Some("row-lease"));
    assert_eq!(kept.draft.as_deref(), Some("displaced words"));
    let newer = QueueEdit { queued: Some("other".to_owned()), draft: None };
    let kept = reseat_composer_as_dock(lease(), newer);
    assert_eq!(kept.queued.as_deref(), Some("other"));
    assert_eq!(kept.draft, None);
}

#[test]
fn a_live_surface_cache_does_not_latch_the_workspace_route() {
    let mut shell = shell();
    let original = shell.dock;
    split(&mut shell);
    shell.op_applied(single(Some("chat-a")), true);
    assert!(shell.layout.is_trivial());
    assert!(!shell.workspace_mode());
    assert_eq!(shell.layout.active_pane_id(), Some(PaneId(3)));
    assert_eq!(shell.active_composer(), original);
    shell.ensure_pane_chat_surfaces();
    assert!(!shell.surfaces.is_empty(), "ensure rebuilds the survivor surface");
    assert!(!shell.workspace_mode(), "the cache must not latch the workspace route");
    assert!(shell.transcript_underlay_fades_top());
    assert!(!shell.pane_chrome_wins_titlebar_band(true));
}

#[test]
fn pane_navigation_keeps_the_composer() {
    let mut shell = shell();
    split(&mut shell);
    let composer = shell.active_composer();
    assert_eq!(shell.apply_explicit_workspace_navigation(Some("chat-b".to_owned())), None);
    assert_eq!(shell.active_composer(), composer);
    assert_eq!(surface(&shell, 6).chat.as_deref(), Some("chat-b"));
    assert_eq!(shell.selected_chat.as_deref(), Some("chat-b"));
    assert_eq!(shell.apply_explicit_workspace_navigation(None), None);
    assert_eq!(shell.active_composer(), composer);
    assert_eq!(surface(&shell, 6).chat, None);
}

#[test]
fn first_send_binding_before_observers_preserves_the_sender_and_its_own_pane() {
    let mut shell = shell();
    split(&mut shell);
    let sender = shell.active_composer();
    shell.op_applied(pair(Some("chat-a"), None, 3), true);
    retarget(&mut shell, sender, Some("minted"));
    shell.ensure_pane_chat_surfaces();
    let bound = surface(&shell, 6);
    assert_eq!(bound.composer, sender);
    assert_eq!(bound.chat.as_deref(), Some("minted"));
    assert!(bound.transcript.is_some());
    assert_eq!(session(&shell, 6).as_deref(), Some("minted"));
    assert_eq!(session(&shell, 3).as_deref(), Some("chat-a"));
    assert_eq!(shell.selected_chat.as_deref(), Some("chat-a"));
    assert_eq!(shell.layout.active_pane_id(), Some(PaneId(3)));
}

#[test]
fn first_send_rollback_keeps_the_canvas_composer() {
    let mut shell = shell();
    split(&mut shell);
    let composer = shell.active_composer();
    retarget(&mut shell, composer, Some("minted"));
    shell.ensure_pane_chat_surfaces();
    retarget(&mut shell, composer, None);
    shell.ensure_pane_chat_surfaces();
    let surface = surface(&shell, 6);
    assert_eq!(surface.composer, composer);
    assert!(surface.chat.is_none());
    assert!(surface.transcript.is_none());
    assert!(session(&shell, 6).is_none());
}

#[test]
fn explicit_navigation_is_not_overwritten_by_an_older_composer_binding() {
    let mut shell = shell();
    split(&mut shell);
    let composer = shell.active_composer();
    retarget(&mut shell, composer, Some("older-mint"));
    shell.layout.set_pane_session(PaneId(6), Some("chat-b".to_owned()));
    shell.ensure_pane_chat_surfaces();
    assert_eq!(session(&shell, 6).as_deref(), Some("chat-b"));
    assert_eq!(surface(&shell, 6).chat.as_deref(), Some("chat-b"));
    assert_eq!(shell.active_composer(), composer);
}

#[test]
fn a_late_queue_acknowledgement_does_not_reopen_the_previous_session() {
    let mut shell = shell();
    split(&mut shell);
    shell.apply_explicit_workspace_navigation(Some("chat-b".to_owned()));
    let deed = shell.on_pane_composer_event(
        PaneId(6),
        ComposerEvent::Queued {
            chat_id: "older-mint".to_owned(),
            message_id: "old-message".to_owned(),
        },
    );
    assert!(matches!(deed, ComposerDeed::Nothing));
    assert_eq!(session(&shell, 6).as_deref(), Some("chat-b"));
    assert_eq!(surface(&shell, 6).chat.as_deref(), Some("chat-b"));
    let deed = shell.on_pane_composer_event(
        PaneId(6),
        ComposerEvent::Sent { chat_id: "chat-b".to_owned(), message_id: "m".to_owned() },
    );
    assert!(matches!(deed, ComposerDeed::MarkOwnTurn { queued: false, .. }));
}

#[test]
fn only_the_latest_focus_request_survives_before_paint() {
    let mut shell = shell();
    split(&mut shell);
    shell.op_applied(pair(Some("chat-a"), None, 3), true);
    assert!(pending(&shell, surface(&shell, 3).composer));
    assert!(!pending(&shell, surface(&shell, 6).composer));
}

#[test]
fn pointer_activation_changes_routing_without_requesting_composer_focus() {
    let mut shell = shell();
    split(&mut shell);
    let op = shell.pointer_focus_workspace_pane(PaneId(3));
    assert_eq!(op, Some(LayoutOp::FocusPane { pane: PaneId(3) }));
    shell.pointer_focus_applied(pair(Some("chat-a"), None, 3), true);
    assert_eq!(shell.layout.active_pane_id(), Some(PaneId(3)));
    assert_eq!(shell.selected_chat.as_deref(), Some("chat-a"));
    assert!(shell.surfaces.iter().all(|surface| !pending(&shell, surface.composer)));
}

#[test]
fn clicking_the_active_pane_does_not_refocus_the_composer() {
    let mut shell = shell();
    split(&mut shell);
    assert_eq!(shell.pointer_focus_workspace_pane(PaneId(6)), None);
    let composer = shell.active_composer();
    assert!(!pending(&shell, composer));
}

fn draft_of(shell: &PaneShell, pane: u64) -> Option<u64> {
    let composer = surface(shell, pane).composer;
    shell.composers.iter().find(|entry| entry.id == composer).unwrap().draft
}

#[test]
fn project_switch_preserves_each_panes_unsent_draft() {
    let mut shell = PaneShell::new(
        single(Some("chat-a1")),
        Some("chat-a1".to_owned()),
        Some("a".to_owned()),
    );
    shell.op_applied(pair(Some("chat-a1"), Some("chat-a2"), 3), true);
    let (first, second) = (surface(&shell, 3).composer, surface(&shell, 6).composer);
    let selected = Some(("chat-b1".to_owned(), Some("b".to_owned())));
    shell.selected_chat = Some("chat-b1".to_owned());
    assert!(shell.restore_workspace_layout(
        Some("b".to_owned()),
        None,
        single(None),
        selected
    ));
    assert_eq!(shell.space.as_deref(), Some("b"));
    assert!(shell.surfaces.is_empty(), "the switch dropped the pane surfaces");
    assert_eq!(session(&shell, 3).as_deref(), Some("chat-b1"));
    shell.restore_workspace_layout(
        Some("a".to_owned()),
        Some(pair(Some("chat-a1"), Some("chat-a2"), 3)),
        single(None),
        None,
    );
    assert_eq!(draft_of(&shell, 3), Some(first));
    assert_eq!(draft_of(&shell, 6), Some(second));
    assert!(shell.parked.is_empty(), "a parked draft is restored once");
}

#[test]
fn parked_drafts_survive_pane_id_reuse_across_spaces() {
    let mut shell = PaneShell::new(
        single(Some("chat-a1")),
        Some("chat-a1".to_owned()),
        Some("a".to_owned()),
    );
    shell.op_applied(pair(Some("chat-a1"), None, 3), true);
    let alpha = surface(&shell, 3).composer;
    shell.restore_workspace_layout(
        Some("b".to_owned()),
        Some(pair(Some("chat-b1"), None, 3)),
        single(None),
        None,
    );
    assert_eq!(draft_of(&shell, 3), None, "another space's pane inherits no draft");
    let beta = surface(&shell, 3).composer;
    shell.restore_workspace_layout(
        Some("a".to_owned()),
        Some(pair(Some("chat-a1"), None, 3)),
        single(None),
        None,
    );
    assert_eq!(draft_of(&shell, 3), Some(alpha));
    shell.restore_workspace_layout(
        Some("b".to_owned()),
        Some(pair(Some("chat-b1"), None, 3)),
        single(None),
        None,
    );
    assert_eq!(draft_of(&shell, 3), Some(beta));
}

#[test]
fn focusing_between_mixed_space_panes_keeps_the_layout_owner() {
    let mut shell = PaneShell::new(
        single(Some("chat-a1")),
        Some("chat-a1".to_owned()),
        Some("a".to_owned()),
    );
    shell.op_applied(pair(Some("chat-a1"), Some("chat-b1"), 6), true);
    assert_eq!(shell.selected_chat.as_deref(), Some("chat-b1"));
    assert_eq!(shell.space.as_deref(), Some("a"));
    assert_eq!(shell.selected_space.as_deref(), Some("a"));
    shell.op_applied(pair(Some("chat-a1"), Some("chat-b1"), 3), true);
    assert_eq!(shell.selected_chat.as_deref(), Some("chat-a1"));
    assert_eq!(shell.selected_space.as_deref(), Some("a"));
    assert_eq!(shell.layout.find_pane_with_session("chat-b1"), Some(PaneId(6)));
}

#[test]
fn split_panes_drop_the_underlay_top_ramp_and_win_the_titlebar_band() {
    let mut shell = shell();
    assert!(!shell.workspace_mode());
    assert!(shell.transcript_underlay_fades_top());
    assert!(!shell.pane_chrome_wins_titlebar_band(true));
    split(&mut shell);
    assert!(shell.workspace_mode());
    assert!(!shell.transcript_underlay_fades_top());
    assert!(shell.pane_chrome_wins_titlebar_band(true));
    assert!(!shell.pane_chrome_wins_titlebar_band(false));
    shell.op_applied(single(Some("chat-a")), true);
    assert!(shell.layout.is_trivial());
    assert!(!shell.workspace_mode());
    assert!(shell.transcript_underlay_fades_top());
    assert!(!shell.pane_chrome_wins_titlebar_band(true));
}

#[test]
fn boot_without_saved_layout_keeps_the_selected_chat() {
    let mut shell = PaneShell::new(single(None), None, None);
    shell.selected_chat = Some("chat-a".to_owned());
    shell.restore_workspace_layout(
        Some("b".to_owned()),
        None,
        single(None),
        Some(("chat-a".to_owned(), Some("b".to_owned()))),
    );
    assert_eq!(shell.selected_chat.as_deref(), Some("chat-a"));
    assert_eq!(session(&shell, 3).as_deref(), Some("chat-a"));
}

#[test]
fn same_project_navigation_focuses_existing_pane_without_rebinding_its_neighbor() {
    let mut shell = shell();
    shell.op_applied(pair(Some("chat-a"), Some("chat-b"), 3), true);
    let op = shell.apply_explicit_workspace_navigation(Some("chat-b".to_owned()));
    assert_eq!(op, Some(LayoutOp::FocusPane { pane: PaneId(6) }));
    assert_eq!(session(&shell, 3).as_deref(), Some("chat-a"));
    assert_eq!(session(&shell, 6).as_deref(), Some("chat-b"));
}

#[test]
fn sidebar_selection_of_foreign_session_keeps_its_four_pane_workspace() {
    let mut shell = shell();
    let four = |focused| {
        layout(
            vec![
                pane(1, 2, 3, Some("chat-a")),
                pane(1, 2, 4, Some("chat-b")),
                pane(1, 2, 5, Some("chat-foreign")),
                pane(1, 2, 6, None),
            ],
            focused,
        )
    };
    shell.op_applied(four(3), true);
    let (revealed, switches) = shell.reveal_workspace_session("chat-foreign", None);
    assert!(revealed && !switches);
    let op = shell.apply_explicit_workspace_navigation(Some("chat-foreign".to_owned()));
    assert_eq!(op, Some(LayoutOp::FocusPane { pane: PaneId(5) }));
    shell.op_applied(four(5), true);
    assert_eq!(shell.space.as_deref(), Some("b"));
    assert_eq!(shell.selected_space.as_deref(), Some("b"));
    assert_eq!(shell.selected_chat.as_deref(), Some("chat-foreign"));
    assert_eq!(session(&shell, 3).as_deref(), Some("chat-a"));
    assert_eq!(session(&shell, 4).as_deref(), Some("chat-b"));
    assert_eq!(session(&shell, 6), None);
}

#[test]
fn unbound_foreign_session_still_follows_its_native_space() {
    let mut shell = shell();
    shell.op_applied(pair(Some("chat-a"), None, 6), true);
    assert_eq!(shell.reveal_workspace_session("chat-foreign", None), (false, false));
    let foreign = ChatRow { space_id: Some("a".to_owned()), ..chat("chat-foreign", "local", None) };
    assert_eq!(native_space(&vec![foreign], "chat-foreign").as_deref(), Some("a"));
    let (revealed, switches) =
        shell.reveal_workspace_session("chat-foreign", Some(Some("a".to_owned())));
    assert!(revealed && switches, "a stored owner is shown instead");
}

#[test]
fn new_session_opens_solo_without_rebinding_the_split_workspace() {
    let mut shell = shell();
    shell.op_applied(pair(Some("chat-a"), Some("chat-b"), 6), true);
    shell.enter_solo_session("");
    assert!(shell.solo);
    assert!(!shell.workspace_mode());
    assert_eq!(session(&shell, 6).as_deref(), Some("chat-b"));
    assert_eq!(session(&shell, 3).as_deref(), Some("chat-a"));
    shell.sync_workspace_selection();
    assert_eq!(session(&shell, 6).as_deref(), Some("chat-b"), "solo binds no pane");
    let (revealed, _) = shell.reveal_workspace_session("chat-a", None);
    assert!(revealed);
    shell.op_applied(pair(Some("chat-a"), Some("chat-b"), 3), true);
    assert!(shell.workspace_mode());
    assert_eq!(shell.layout.active_pane_id(), Some(PaneId(3)));
}

#[test]
fn writes_wait_for_the_end_of_a_drag() {
    let mut shell = shell();
    shell.begin_divider_drag();
    assert!(!shell.note_divider_hover());
    shell.apply_divider_ratio(true);
    assert!(!shell.save_armed);
    assert!(shell.end_divider_drag());
    assert!(shell.save_armed);
    let plan = shell.flush_workspace_layout(true);
    assert!(plan.put && plan.prune);
    assert!(!shell.dirty && shell.store_dirty && !shell.save_armed);
    shell.store_written(0, true);
    assert!(!shell.store_dirty);
}

#[test]
fn dead_sessions_leave_their_panes() {
    let mut shell = shell();
    shell.op_applied(pair(Some("chat-a"), Some("chat-b"), 6), true);
    assert!(shell.prune_dead_workspace_sessions(&vec![chat("chat-a", "local", None)]));
    assert_eq!(session(&shell, 6), None);
    assert_eq!(session(&shell, 3).as_deref(), Some("chat-a"));
    assert!(!shell.prune_dead_workspace_sessions(&vec![chat("chat-a", "local", None)]));
    assert!(keeps_space(&None, &vec![]));
    assert!(!keeps_space(&Some("x".to_owned()), &vec!["y".to_owned()]));
}

#[test]
fn the_tool_picker_toggles_and_adds_a_tab() {
    let mut shell = shell();
    shell.open_workspace_tool_picker_for_tab(ViewId(1), true, false);
    assert_eq!(shell.render_workspace_overlays(None), vec![Overlay::ToolPicker { view: ViewId(1) }]);
    assert_eq!(
        shell.commit_tool_picker(ViewId(1), true),
        LayoutOp::AddTab { view: ViewId(1), terminal: true }
    );
    assert!(!shell.close_tool_picker());
    shell.open_workspace_tool_picker_for_tab(ViewId(1), true, true);
    assert!(shell.tool_picker.is_none(), "an overlay is in the way");
    assert_eq!(shell.close_workspace_view(true, false), Some(LayoutOp::CloseFocusedView));
    assert_eq!(shell.split_workspace_pane(Direction::Down, false, false), None);
    assert_eq!(pane_menu_rows().len(), 5);
}

#[test]
fn native_view_keeps_pane_composer_and_draft() {
    let mut shell = PaneShell::new(
        single(Some("native-session")),
        Some("native-session".to_owned()),
        None,
    );
    let mut surfaces = NativeSurfaces::new();
    let made = ensure_session_surfaces(
        &mut surfaces,
        &shell.layout,
        shell.workspace_mode(),
        &shell.selected_chat,
    );
    assert_eq!(made, vec![PaneId(3)]);
    let composer = shell.dock;
    for cli in [true, false] {
        surfaces.observe(PaneId(3), cli, Some(PaneId(3)));
        let made = ensure_session_surfaces(
            &mut surfaces,
            &shell.layout,
            shell.workspace_mode(),
            &shell.selected_chat,
        );
        assert!(made.is_empty(), "an unchanged pane keeps its control");
        shell.retarget_to_focused_pane();
        assert_eq!(shell.dock, composer);
        assert_eq!(session(&shell, 3).as_deref(), Some("native-session"));
        assert_eq!(surfaces.controls[0].was_cli, cli);
    }
    surfaces.observe(PaneId(3), true, Some(PaneId(3)));
    let other = Some("other-session".to_owned());
    let made = ensure_session_surfaces(&mut surfaces, &shell.layout, false, &other);
    assert_eq!(made, vec![PaneId(3)]);
    assert!(!surfaces.controls[0].was_cli, "a new control has seen nothing yet");
    assert!(!surfaces.observe(PaneId(3), false, Some(PaneId(3))));
    assert_eq!(chat_pane_sessions(&shell.layout).len(), 1);
}
