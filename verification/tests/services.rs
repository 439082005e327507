//! Icons, updates, the agents' browser, the action catalog, stored layouts,
//! times and texts.
use noches_ui::action_catalog::catalog;
use noches_ui::browser_agent::{
    browser_state, close_hidden_tab, closed_reply, handle_browser_request, opened_reply,
    starts_browser_control, BrowserAction, BrowserHost, BrowserPlan, PageState, RightSurface,
    MAX_BROWSER_TABS,
};
use noches_ui::clock::{elapsed_between, millis, moment, FIRST_MILLIS, LAST_MILLIS};
use noches_ui::json::Json;
use noches_ui::layout_file::{hex, layout_path, name_for_digest, profile_identity};
use noches_ui::project_icon::{
    checkout_root, icon_key, icon_mime, icon_path, icon_source, initial, join_key, monogram,
    monogram_tone, profile_key, render_project_icon, AuthState, EngineMode, FilesRequestContext,
    IconCache, IconEntry, IconEvent, IconSearch, IconStep, IconView, ProjectIconRequest,
    ProjectIconSource, Space, WorkspaceScope, ICON_PATH_COUNT, ICON_TTL_MS,
};
use noches_ui::terminal_panel::ChatHost;
use noches_ui::text::{
    decimal, eq_ignore_ascii_case, first_meaningful_line, is_white_space, signed_decimal,
    single_line, trim,
};
use noches_ui::theme::{Appearance, Theme};
use noches_ui::updates::{
    guard_error, CheckOutcome, InstallStep, Manifest, UpdateDeed, UpdateFlow, Updates,
};
use noches_ui::voice_actions::{tool_schemas, Kind};

fn theme(appearance: Appearance) -> Theme {
    Theme {
        appearance,
        danger: 1,
        warning: 2,
        busy: 3,
        success: 4,
        accent: 5,
        text: 6,
        text_muted: 7,
        text_faint: 8,
    }
}

#[test]
fn only_the_in_process_engine_on_its_own_device_reads_local_disk() {
    let remote = EngineMode::Remote { url: "ws://127.0.0.1:1".into() };
    assert_eq!(
        icon_source(Some(&EngineMode::InProcess), Some("studio"), "studio"),
        ProjectIconSource::LocalFs
    );
    assert_eq!(
        icon_source(Some(&remote), Some("studio"), "studio"),
        ProjectIconSource::WorkspaceRpc
    );
    assert_eq!(
        icon_source(Some(&EngineMode::InProcess), Some("studio"), "server"),
        ProjectIconSource::WorkspaceRpc
    );
    assert_eq!(icon_source(None, None, "server"), ProjectIconSource::WorkspaceRpc);
}

#[test]
fn icons_are_tried_by_priority_and_the_first_found_is_final() {
    let (mut search, step) = IconSearch::begin(ProjectIconSource::LocalFs, false);
    let mut seen = Vec::new();
    let mut step = step;
    while let IconStep::ReadLocal { path } = step {
        seen.push(path);
        step = search.step(IconEvent::Missing);
    }
    assert!(matches!(step, IconStep::GiveUp));
    assert_eq!(seen.len(), ICON_PATH_COUNT);
    let place = |name: &str| seen.iter().position(|path| *path == name).unwrap();
    assert!(place("public/apple-touch-icon.png") < place("favicon.png"));
    assert_eq!(icon_path(0), seen[0]);
    assert_eq!(icon_mime(place("favicon.svg")), "image/svg+xml");

    let (mut search, _) = IconSearch::begin(ProjectIconSource::LocalFs, false);
    assert!(matches!(search.step(IconEvent::Unreadable), IconStep::GiveUp));
    assert!(matches!(search.step(IconEvent::Missing), IconStep::GiveUp));
    let (mut search, _) = IconSearch::begin(ProjectIconSource::LocalFs, false);
    assert!(matches!(search.step(IconEvent::Read), IconStep::Decode { .. }));
}

#[test]
fn a_remote_icon_is_listed_before_it_is_read() {
    let (_, step) = IconSearch::begin(ProjectIconSource::WorkspaceRpc, false);
    assert!(matches!(step, IconStep::GiveUp), "without an engine nothing is asked");
    let (mut search, step) = IconSearch::begin(ProjectIconSource::WorkspaceRpc, true);
    assert!(matches!(step, IconStep::ReadFile { .. }));
    let step = search.step(IconEvent::Listed { checkout: "c1".to_owned() });
    assert!(matches!(step, IconStep::ReadImage { checkout, .. } if checkout == "c1"));
    let step = search.step(IconEvent::Image { mime: "image/png".to_owned() });
    assert!(matches!(step, IconStep::Decode { mime } if mime == "image/png"));
    let (mut search, _) = IconSearch::begin(ProjectIconSource::WorkspaceRpc, true);
    assert!(matches!(
        search.step(IconEvent::Refused { retryable: false }),
        IconStep::ReadFile { .. }
    ));
    assert!(matches!(search.step(IconEvent::Refused { retryable: true }), IconStep::GiveUp));
}

#[test]
fn the_checkout_root_is_the_nearest_repository() {
    assert_eq!(checkout_root(&vec![false, false, true, true]), 2);
    assert_eq!(checkout_root(&vec![false, false]), 0);
    assert_eq!(checkout_root(&vec![]), 0);
}

#[test]
fn monograms_are_upper_cased_and_toned_by_their_seed() {
    let dark = theme(Appearance::Dark);
    assert_eq!(initial("  ünder"), 'ü');
    assert_eq!(initial(" \t"), '?');
    let drawn = monogram("  ünder", "/tmp/project", false, &dark);
    assert_eq!(drawn.letter, "Ü");
    assert_eq!(drawn.wash, 16);
    assert_eq!(monogram("ßtraße", "seed", true, &dark).letter, "SS");
    assert_eq!(monogram("x", "seed", true, &dark).wash, 26);
    assert_eq!(monogram_tone("", &dark).color, 0x6ee7b7);
    assert_eq!(monogram_tone("", &theme(Appearance::Light)).color, 0x047857);
    assert_eq!(monogram_tone("a", &dark), monogram_tone("a", &dark));
}

fn signed_in(user: &str, org: Option<&str>) -> Option<AuthState> {
    Some(AuthState::SignedIn { user_id: user.to_owned(), org_id: org.map(str::to_owned) })
}

#[test]
fn profiles_are_told_apart_by_scope_and_account() {
    let key = |scope, auth: Option<AuthState>, org: Option<&str>| {
        profile_key(scope, &auth, &org.map(str::to_owned), "org_default")
    };
    assert_eq!(key(None, None, None), None);
    assert_eq!(key(Some(WorkspaceScope::Local), None, None).as_deref(), Some("local"));
    assert_eq!(
        key(Some(WorkspaceScope::Synced), signed_in("u1", Some("o1")), None).as_deref(),
        Some("synced:o1:u1")
    );
    assert_eq!(key(Some(WorkspaceScope::Synced), signed_in("u1", None), None), None);
    assert_eq!(key(Some(WorkspaceScope::Synced), Some(AuthState::SignedOut), None), None);
    assert_eq!(
        key(Some(WorkspaceScope::Development), signed_in("dev", None), None).as_deref(),
        Some("development:org_default:dev")
    );
    assert_eq!(
        key(Some(WorkspaceScope::Development), signed_in("dev", None), Some("mine")).as_deref(),
        Some("development:mine:dev")
    );
}

fn space() -> Space {
    Space {
        id: "s1".to_owned(),
        display_name: "Noches".to_owned(),
        path: "/work/noches".to_owned(),
        device_id: "studio".to_owned(),
        checkout_id: Some("c\"1".to_owned()),
    }
}

#[test]
fn a_badge_request_names_only_a_remote_device() {
    let here = Some("studio".to_owned());
    let request =
        ProjectIconRequest::resolve("c", None, Some(&space()), Some(&EngineMode::InProcess), &here);
    assert_eq!(request.device, "Unknown device");
    assert_eq!(request.source, ProjectIconSource::LocalFs);
    let context = request.context.unwrap();
    assert_eq!(context.target_device_id, None);
    assert_eq!(context.cwd, "/work/noches");
    let there = Some("laptop".to_owned());
    let request = ProjectIconRequest::resolve(
        "c",
        Some("Mac Studio"),
        Some(&space()),
        Some(&EngineMode::InProcess),
        &there,
    );
    assert_eq!(request.device, "Mac Studio");
    assert_eq!(request.source, ProjectIconSource::WorkspaceRpc);
    assert_eq!(request.context.unwrap().target_device_id.as_deref(), Some("studio"));
    let home = ProjectIconRequest::resolve("c", None, None, None, &here);
    assert_eq!((home.name.as_str(), home.seed.as_str()), ("Home", "home"));
    assert!(ProjectIconRequest::monogram_only("c", "Home").context.is_none());
}

#[test]
fn a_badge_key_writes_its_parts_out() {
    let context = FilesRequestContext {
        space_id: "s1".to_owned(),
        target_device_id: None,
        cwd: "/work".to_owned(),
        checkout_id: Some("c\"1".to_owned()),
    };
    let key = icon_key(
        &Some("local".to_owned()),
        ProjectIconSource::LocalFs,
        &Some("studio".to_owned()),
        &context,
        "Noches",
    );
    assert_eq!(
        key,
        "Some(\"local\"):LocalFs:Some(\"studio\"):None:/work:Some(\"c\\\"1\"):Noches"
    );
    assert_eq!(
        join_key("p", ProjectIconSource::WorkspaceRpc, "d", "t", "w", "c", "n"),
        "p:WorkspaceRpc:d:t:w:c:n"
    );
}

#[test]
fn a_badge_is_cached_until_it_is_stale() {
    let mut cache = IconCache { entries: vec![], pruned_ms: 0 };
    let request = ProjectIconRequest::resolve(
        "c",
        None,
        Some(&space()),
        Some(&EngineMode::InProcess),
        &Some("studio".to_owned()),
    );
    assert_eq!(render_project_icon(&mut cache, &request, "k", false, 10), IconView::Loading);
    assert_eq!(render_project_icon(&mut cache, &request, "k", false, 20), IconView::Monogram);
    cache.loaded("other", true);
    assert_eq!(render_project_icon(&mut cache, &request, "k", false, 25), IconView::Monogram);
    cache.loaded("k", true);
    assert_eq!(render_project_icon(&mut cache, &request, "k", false, 30), IconView::Artwork);
    assert_eq!(
        render_project_icon(&mut cache, &request, "k", false, 10 + ICON_TTL_MS),
        IconView::Loading
    );
    cache.entries.push(IconEntry { key: "old".to_owned(), refreshed_ms: 0, artwork: false });
    render_project_icon(&mut cache, &request, "k", false, 2 * ICON_TTL_MS);
    assert!(cache.entries.iter().all(|entry| entry.key != "old"));
    let home = ProjectIconRequest::monogram_only("c", "Home");
    assert_eq!(render_project_icon(&mut cache, &home, "h", true, 0), IconView::Monogram);
}

#[test]
fn profiles_store_their_layouts_apart() {
    assert_eq!(
        layout_path(Some(WorkspaceScope::Development), &None),
        "workspace-layout-875b9380866e9d56e7110b0ee310962c16d9d4ae103f829d62bdffd2cbe7c61d.json"
    );
    assert_eq!(
        layout_path(Some(WorkspaceScope::Synced), &signed_in("u1", Some("org"))),
        "workspace-layout-dad6665c7ececa29bc2e9036233a791ceaf4b2b2022033d5eaddff8b8e777a19.json"
    );
    assert_eq!(
        layout_path(Some(WorkspaceScope::Synced), &signed_in("u1", None)),
        "workspace-layout-c508f605c3454c700319f35b3ae058ba0d52278410aaf6b979c9144716842c4e.json"
    );
    for (scope, auth) in [
        (None, None),
        (Some(WorkspaceScope::Local), signed_in("u1", Some("org"))),
        (Some(WorkspaceScope::Synced), Some(AuthState::SignedOut)),
    ] {
        assert_eq!(layout_path(scope, &auth), "workspace-layout.json");
    }
    assert_eq!(
        profile_identity(Some(WorkspaceScope::Synced), &signed_in("u1", None)).as_deref(),
        Some("synced:u1:")
    );
    assert_eq!(hex(&vec![0, 10, 255]), "000aff");
    assert_eq!(name_for_digest(Some(vec![1])), "workspace-layout-01.json");
}

#[test]
fn moments_are_written_in_utc() {
    assert_eq!(moment(1_769_850_300_000).as_deref(), Some("2026-01-31 09:05 UTC"));
    assert_eq!(moment(0).as_deref(), Some("1970-01-01 00:00 UTC"));
    assert_eq!(moment(-60_000).as_deref(), Some("1969-12-31 23:59 UTC"));
    assert!(moment(FIRST_MILLIS).unwrap().ends_with("262143-01-01 00:00 UTC"));
    assert_eq!(moment(FIRST_MILLIS - 1), None);
    assert_eq!(moment(LAST_MILLIS + 1), None);
    assert_eq!(millis(0), None);
    assert_eq!(millis(-1), None);
    assert_eq!(millis(LAST_MILLIS), Some(LAST_MILLIS));
    assert_eq!(millis(LAST_MILLIS + 1), None);
    assert_eq!(millis(i64::MAX), None);
    assert!(moment(LAST_MILLIS).unwrap().ends_with("-12-31 23:59 UTC"));
}

#[test]
fn elapsed_times_are_coarse() {
    assert_eq!(elapsed_between(5_000, 0), "0s");
    assert_eq!(elapsed_between(0, 999), "0s");
    assert_eq!(elapsed_between(0, 59_999), "59s");
    assert_eq!(elapsed_between(0, 60_000), "1m");
    assert_eq!(elapsed_between(0, 3_725_000), "1h 2m");
    assert!(elapsed_between(i64::MIN, i64::MAX).ends_with('m'));
}

#[test]
fn white_space_is_that_of_the_standard_library() {
    for point in 0..=0x10ffff_u32 {
        if let Some(c) = char::from_u32(point) {
            assert_eq!(is_white_space(c), c.is_whitespace(), "{point:#x}");
        }
    }
    assert_eq!(trim("\u{2003} a b \n"), "a b");
}

#[test]
fn texts_are_numbered_and_folded() {
    for n in [0, 9, 10, 1_000_000_007, u64::MAX] {
        assert_eq!(decimal(n), n.to_string());
    }
    for n in [0, -1, i64::MIN, i64::MAX] {
        assert_eq!(signed_decimal(n), n.to_string());
    }
    assert!(eq_ignore_ascii_case("AbÇ", "aBÇ"));
    assert!(!eq_ignore_ascii_case("ç", "Ç"));
    assert_eq!(first_meaningful_line("\n \n x \ny").as_deref(), Some("x"));
    assert_eq!(single_line("one"), "one");
}

fn fresh() -> Updates {
    Updates {
        checking: false,
        status: String::new(),
        dismissed: Some("2".to_owned()),
        checked_at: None,
        manifest: None,
        flow: UpdateFlow::Idle,
        notice: None,
    }
}

fn release() -> Manifest {
    Manifest { version: "2".to_owned(), notes_url: "https://github.com/x".to_owned() }
}

const NOW: i64 = 1_769_850_300_000;

#[test]
fn checking_finds_a_release_and_brings_a_dismissed_strip_back() {
    let mut updates = fresh();
    assert!(!updates.check_for_updates(true, false));
    assert!(updates.status.starts_with("Local source build."));
    assert!(updates.check_for_updates(true, true));
    assert!(!updates.check_for_updates(true, true), "one check at a time");
    updates.update_checked(NOW, CheckOutcome::Latest { manifest: release(), newer: true });
    assert_eq!(updates.checked_at.as_deref(), Some("2026-01-31 09:05 UTC"));
    assert_eq!(
        updates.render_update_strip(0, 0, "", "").as_deref(),
        Some("Version 2 is available.")
    );
    updates.dismissed = Some("2".to_owned());
    assert_eq!(updates.render_update_strip(0, 0, "", ""), None);

    let mut updates = fresh();
    updates.update_checked(0, CheckOutcome::Failed { error: "offline".to_owned() });
    assert_eq!(updates.checked_at.as_deref(), Some("1970-01-01 00:00 UTC"));
    updates.update_checked(NOW, CheckOutcome::Latest { manifest: release(), newer: false });
    assert_eq!(updates.status, "You're up to date.");
    assert!(updates.manifest.is_none());
    updates.update_checked(NOW, CheckOutcome::Failed { error: "offline".to_owned() });
    assert_eq!(updates.status, "Could not check for updates: offline");
}

#[test]
fn a_download_is_followed_to_its_end() {
    let mut updates = fresh();
    assert!(matches!(updates.on_update_strip_click(), UpdateDeed::Nothing));
    updates.manifest = Some(release());
    assert!(matches!(updates.on_update_strip_click(), UpdateDeed::Download));
    assert!(updates.watches_progress());
    assert_eq!(updates.update_label(0, 0, "", ""), "Starting download…");
    assert_eq!(
        updates.update_label(1, 3, "1.0", "3.0"),
        "Downloading… 33% (1.0 / 3.0 MB)"
    );
    assert_eq!(updates.update_label(3, 3, "", ""), "Verifying and preparing update…");
    assert!(matches!(updates.on_update_strip_click(), UpdateDeed::Nothing));
    updates.download_finished(Err("disk full".to_owned()));
    assert_eq!(updates.update_label(0, 0, "", ""), "Update failed: disk full");
    updates.download_finished(Ok("/tmp/new".to_owned()));
    let page = updates.render_updates_page("Noches", "1", "stable", "abc", true, 0, 0, "", "");
    assert_eq!(page.identity, "Noches 1 · stable channel");
    assert_eq!(page.build, "Build abc");
    assert_eq!(page.install_button, Some("Install and restart"));
    assert!(!page.check_button && !page.unmanaged);
    assert_eq!(page.release_notes.as_deref(), Some("https://github.com/x"));
    assert!(matches!(
        updates.on_update_strip_click(),
        UpdateDeed::Apply { staged } if staged == "/tmp/new"
    ));
}

#[test]
fn whatever_holds_an_installation_back_keeps_it_ready() {
    let ready = |updates: &Updates| matches!(&updates.flow, UpdateFlow::Ready(path) if path == "p");
    let mut updates = fresh();
    assert_eq!(updates.apply_staged_update("p", 2), InstallStep::Nothing);
    assert!(ready(&updates));
    assert!(updates.status.starts_with("Close other Noches windows"));
    let mut updates = fresh();
    assert_eq!(updates.apply_staged_update("p", 1), InstallStep::PrepareExit);
    assert_eq!(updates.exit_prepared("p", true, false, false), InstallStep::Nothing);
    assert!(ready(&updates));
    assert_eq!(updates.exit_prepared("p", true, true, false), InstallStep::SkipEngine);
    assert_eq!(updates.exit_prepared("p", true, false, true), InstallStep::AskEngine);
    let refused = guard_error(None);
    assert_eq!(refused, "The engine did not answer. Retry once it is connected.");
    assert_eq!(updates.engine_answered("p", Err(refused)), InstallStep::Nothing);
    assert!(ready(&updates) && updates.notice.is_some());
    assert_eq!(updates.engine_answered("p", Ok(())), InstallStep::PrepareExit);
    assert_eq!(updates.exit_confirmed("p", false), InstallStep::Nothing);
    assert_eq!(updates.exit_confirmed("p", true), InstallStep::Install);
    assert_eq!(updates.installed("p", Err("locked".to_owned())), InstallStep::Nothing);
    assert_eq!(updates.status, "Could not install: locked");
    assert_eq!(updates.installed("p", Ok(())), InstallStep::Quit);
}

fn page(error: Option<&str>) -> PageState {
    PageState {
        url: "https://a".to_owned(),
        title: "A".to_owned(),
        loading: false,
        error: error.map(str::to_owned),
        can_back: true,
        can_forward: false,
    }
}

fn host(tabs: u64) -> BrowserHost {
    BrowserHost {
        remote: false,
        local_device_id: Some("here".to_owned()),
        active_chat: "c".to_owned(),
        right_pane_open: false,
        surfaces: (0..tabs).map(RightSurface::Browser).collect(),
        pages: (0..tabs).map(|tab| (tab, page(None))).collect(),
    }
}

fn chats() -> Vec<ChatHost> {
    vec![
        ChatHost { id: "c".to_owned(), device_id: "here".to_owned() },
        ChatHost { id: "far".to_owned(), device_id: "there".to_owned() },
    ]
}

fn refusal(plan: BrowserPlan) -> String {
    match plan {
        BrowserPlan::Refuse(error) => error,
        other => panic!("{other:?} is no refusal"),
    }
}

#[test]
fn an_agent_only_reaches_tabs_of_its_own_conversation() {
    let unavailable = "Conversation is not available on this desktop. \
                       Remote browser control is not connected.";
    assert_eq!(
        refusal(handle_browser_request(&host(1), &chats(), "far", BrowserAction::Tabs)),
        unavailable
    );
    let remote = BrowserHost { remote: true, ..host(1) };
    assert_eq!(
        refusal(handle_browser_request(&remote, &chats(), "c", BrowserAction::Tabs)),
        unavailable
    );
    assert_eq!(
        refusal(handle_browser_request(&host(1), &chats(), "c", BrowserAction::Page { tab: 5 })),
        "Tab does not belong to this conversation or has been closed"
    );
    assert!(matches!(
        handle_browser_request(&host(1), &chats(), "c", BrowserAction::Page { tab: 0 }),
        BrowserPlan::Forward { tab: 0 }
    ));
    assert!(matches!(
        handle_browser_request(&host(1), &chats(), "c", BrowserAction::Close { tab: 0 }),
        BrowserPlan::CloseShown { tab: 0 }
    ));
    let hidden = BrowserHost { active_chat: "other".to_owned(), ..host(1) };
    assert!(matches!(
        handle_browser_request(&hidden, &chats(), "c", BrowserAction::Close { tab: 0 }),
        BrowserPlan::CloseHidden { tab: 0 }
    ));
}

#[test]
fn an_agents_tabs_are_bounded() {
    let open = || BrowserAction::Open { address: Ok("https://b".to_owned()) };
    assert!(matches!(
        handle_browser_request(&host(0), &chats(), "c", open()),
        BrowserPlan::Open { show_pane: true, .. }
    ));
    assert!(refusal(handle_browser_request(
        &host(MAX_BROWSER_TABS as u64),
        &chats(),
        "c",
        open()
    ))
    .starts_with("Close an existing browser tab"));
    let bad = BrowserAction::Open { address: Err("bad address".to_owned()) };
    assert_eq!(
        refusal(handle_browser_request(&host(0), &chats(), "c", bad)),
        "bad address"
    );
    match handle_browser_request(&host(2), &chats(), "c", BrowserAction::Tabs) {
        BrowserPlan::Answer(Json::Object(members)) => {
            assert_eq!(members[0].1, Json::Text("chromium".to_owned()));
            assert!(matches!(&members[1].1, Json::Array(tabs) if tabs.len() == 2));
        }
        other => panic!("{other:?} is no list"),
    }
}

#[test]
fn replies_carry_the_state_of_a_tab() {
    match browser_state(7, &page(None)) {
        Json::Object(members) => {
            let keys: Vec<&str> = members.iter().map(|(key, _)| key.as_str()).collect();
            assert_eq!(
                keys,
                ["tab", "url", "title", "loading", "error", "canBack", "canForward"]
            );
            assert_eq!(members[0].1, Json::Unsigned(7));
            assert_eq!(members[4].1, Json::Null);
        }
        _ => panic!("a state is an object"),
    }
    assert_eq!(opened_reply(7, &page(Some("boom"))), Err("boom".to_owned()));
    assert_eq!(opened_reply(7, &page(None)), Ok(browser_state(7, &page(None))));
    assert_eq!(
        closed_reply(7),
        Json::Object(vec![("closed".to_owned(), Json::Unsigned(7))])
    );
    let mut surfaces = vec![RightSurface::Browser(1), RightSurface::Browser(2)];
    let active = close_hidden_tab(&mut surfaces, RightSurface::Browser(1), 1);
    assert_eq!(active, RightSurface::Picker);
    assert_eq!(surfaces, vec![RightSurface::Browser(2)]);
    assert!(starts_browser_control(false, false));
    assert!(!starts_browser_control(true, false) && !starts_browser_control(false, true));
}

fn object(members: Vec<(&str, Json)>) -> Json {
    Json::Object(members.into_iter().map(|(key, value)| (key.to_owned(), value)).collect())
}

fn text(value: &str) -> Json {
    Json::Text(value.to_owned())
}

#[test]
fn actions_are_unique_and_cannot_smuggle_rpc_methods_or_mutation_ops() {
    let actions = catalog();
    let mut names = std::collections::HashSet::new();
    for action in &actions {
        assert!(names.insert(action.name));
    }
    let rename = actions.iter().find(|a| a.name == "rename_session").unwrap();
    assert!(rename.validate(&object(vec![("chatId", text("a")), ("title", text("b"))])).is_ok());
    assert!(rename
        .validate(&object(vec![
            ("chatId", text("a")),
            ("title", text("b")),
            ("op", text("deleteChat")),
        ]))
        .is_err());
    assert!(rename
        .validate(&object(vec![("chatId", text("a")), ("title", Json::Null)]))
        .is_err());
    assert!(rename.validate(&object(vec![("title", text("b"))])).is_err());
}

#[test]
fn arguments_are_an_object_of_the_right_kinds() {
    let actions = catalog();
    let rename = actions.iter().find(|a| a.name == "rename_session").unwrap();
    assert_eq!(
        rename.validate(&Json::Null).unwrap_err(),
        "Arguments must be an object"
    );
    assert!(rename
        .validate(&object(vec![("chatId", text(" ")), ("title", text("b"))]))
        .is_err());
    assert_eq!(Kind::Boolean.word(), "boolean");
    match rename.descriptor() {
        Json::Object(members) => {
            let keys: Vec<&str> = members.iter().map(|(key, _)| key.as_str()).collect();
            assert_eq!(keys, ["name", "description", "parameters", "requiresConfirmation"]);
            assert_eq!(members[0].1, text("rename_session"));
        }
        _ => panic!("a descriptor is an object"),
    }
    let names: Vec<Json> = tool_schemas()
        .into_iter()
        .map(|schema| match schema {
            Json::Object(members) => {
                members.into_iter().find(|(key, _)| key == "name").unwrap().1
            }
            _ => panic!("a schema is an object"),
        })
        .collect();
    assert_eq!(names, vec![text("get_context"), text("list_actions"), text("execute_action")]);
}
