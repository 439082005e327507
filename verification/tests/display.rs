//! Status and tool hues, avatars, the plan strip, the scrollbar rail, and the
//! agents' surfaces.
use noches_ui::agents_view::{
    agents_panel_body, agents_tray_row, fitting, render_agents_tray, sidebar_children,
    status_glyph, tray_layout, Glyph, PanelRow,
};
use noches_ui::entry::{
    MessagePart, MessageRole, MessageStatus, SessionMessageEntry, SubagentStatus, TodoItem, Tool,
    ToolCall, ToolPart,
};
use noches_ui::json::Json;
use noches_ui::plan_hud::{plan_progress, plan_progress_from_items, PlanProgress};
use noches_ui::scrollbar::TranscriptScrollbarState;
use noches_ui::sidebar_buddy::{
    animation, animation_offset, avatar_for_session, status_color, update_buddy, BodyMotion, Bot,
    BotImage, Buddy,
};
use noches_ui::status_palette::{diff_colors, ChatIndicator, SessionState};
use noches_ui::subagents::{
    one_line, result_doc_id, strip_visible, subagents_for, SubagentPhase, SubagentState,
    SubagentSummary,
};
use noches_ui::theme::{Appearance, Theme, Tint};
use noches_ui::tool_palette::ToolFamily;

fn theme() -> Theme {
    Theme {
        appearance: Appearance::Dark,
        danger: 0xd00000,
        warning: 0xe0a000,
        busy: 0x0000f0,
        success: 0x00f000,
        accent: 0x123456,
        text: 0xffffff,
        text_muted: 0x999999,
        text_faint: 0x666666,
    }
}

fn solid(color: u32) -> Tint {
    Tint { color, percent: 100 }
}

#[test]
fn delivery_failures_and_queue_override_working_color() {
    let theme = theme();
    let working = ChatIndicator::Working;
    assert_eq!(status_color(working, false, false, &theme), solid(theme.busy));
    assert_eq!(status_color(working, true, false, &theme), solid(theme.warning));
    assert_eq!(status_color(working, true, true, &theme), solid(theme.danger));
}

#[test]
fn avatar_for_session_regression_chat_0_and_browser_fixture() {
    assert_eq!(
        avatar_for_session("chat-0"),
        (BotImage { bot: Bot::Basic, blink: false }, BotImage { bot: Bot::Basic, blink: true })
    );
    assert_eq!(
        avatar_for_session("browser-fixture"),
        (BotImage { bot: Bot::Visor, blink: false }, BotImage { bot: Bot::Visor, blink: true })
    );
}

#[test]
fn an_idle_badge_is_faint_and_hidden() {
    let theme = theme();
    assert_eq!(
        status_color(ChatIndicator::Idle, false, false, &theme),
        Tint { color: theme.text_muted, percent: 45 }
    );
    assert!(!animation(ChatIndicator::Idle, false, false, false).badge);
}

#[test]
fn animations_follow_status_and_reduced_motion() {
    let working = animation(ChatIndicator::Working, true, true, false);
    assert_eq!(working.body, BodyMotion::Bob);
    assert!(working.blinks && working.wiggles && working.pulses && working.badge);
    assert_eq!(animation(ChatIndicator::Errored, false, false, false).body, BodyMotion::Shake);
    let still = animation(ChatIndicator::Working, true, true, true);
    assert_eq!(still.body, BodyMotion::Still);
    assert!(!still.blinks && !still.wiggles && !still.pulses);
}

#[test]
fn an_avatar_repaints_only_on_change() {
    let (image, blink_image) = avatar_for_session("chat-0");
    let calm = Buddy {
        image,
        blink_image,
        status: ChatIndicator::Idle,
        hovered: false,
        status_color: solid(1),
        ring_color: solid(2),
        offset: animation_offset("ab"),
    };
    assert_eq!(calm.offset, 97 * 31 + 98);
    let mut drawn = calm;
    assert!(!update_buddy(&mut drawn, calm, false).repaint);
    assert!(update_buddy(&mut drawn, calm, true).repaint);
    let hovered = Buddy { hovered: true, ..calm };
    assert!(update_buddy(&mut drawn, hovered, false).hover_starts);
    assert!(!update_buddy(&mut drawn, hovered, false).hover_starts);
}

#[test]
fn send_truth_overrides_the_engine_indicator() {
    assert_eq!(SessionState::resolve(ChatIndicator::Working, true, true), SessionState::Failed);
    assert_eq!(SessionState::resolve(ChatIndicator::Idle, true, false), SessionState::Queued);
    assert_eq!(
        SessionState::resolve(ChatIndicator::AwaitingInput, false, false),
        SessionState::AwaitingInput
    );
    assert!(SessionState::Failed.needs_you());
    assert!(SessionState::Queued.running());
    assert_eq!(SessionState::Idle.label(), None);
}

#[test]
fn state_hues_follow_the_appearance() {
    let dark = theme();
    let light = Theme { appearance: Appearance::Light, ..dark };
    assert_eq!(SessionState::Working.color(&dark), Some(solid(0x7dd3fc)));
    assert_eq!(SessionState::Working.color(&light), Some(solid(0x0284c7)));
    assert_eq!(SessionState::AwaitingInput.color(&dark), Some(solid(0xa5b4fc)));
    assert_eq!(SessionState::Completed.color(&light), Some(solid(0x059669)));
    assert_eq!(SessionState::Failed.color(&dark), Some(solid(dark.danger)));
    assert_eq!(SessionState::Queued.color(&dark), None);
    assert_eq!(SessionState::AwaitingInput.label(), Some("Awaiting input"));
    assert_eq!(diff_colors(&dark), (solid(0x6ee7b7), solid(0xfca5a5)));
    assert_eq!(diff_colors(&light), (solid(0x15803d), solid(0xb91c1c)));
}

fn call(tool: Tool, spawn: bool) -> ToolCall {
    ToolCall { tool, spawn, model: None }
}

fn unknown(name: &str) -> Tool {
    Tool::Unknown { name: name.to_owned(), input: None }
}

#[test]
fn families_split_by_action_kind() {
    assert_eq!(ToolFamily::of(&call(Tool::Search, false), false), ToolFamily::Explore);
    assert_eq!(ToolFamily::of(&call(Tool::EditFile, false), false), ToolFamily::Change);
    assert_eq!(
        ToolFamily::of(&call(unknown("Agent: probe"), true), false),
        ToolFamily::Delegate
    );
    assert_eq!(ToolFamily::of(&call(Tool::Exec, false), false), ToolFamily::Neutral);
    assert_eq!(ToolFamily::of(&call(Tool::ReadFile, false), true), ToolFamily::Neutral);
}

#[test]
fn waiting_for_agents_delegates() {
    let wait = call(unknown("Wait for agents"), false);
    assert_eq!(ToolFamily::of(&wait, false), ToolFamily::Delegate);
    assert_eq!(ToolFamily::Delegate.color(&theme()), Some(solid(0xc9a0dc)));
    assert_eq!(ToolFamily::Explore.color(&theme()), Some(solid(0x7cc4bd)));
    assert_eq!(ToolFamily::Change.color(&theme()), Some(solid(0xd9b26f)));
    assert_eq!(ToolFamily::Neutral.color(&theme()), None);
}

fn entry(role: MessageRole, parts: Vec<MessagePart>) -> SessionMessageEntry {
    SessionMessageEntry {
        role,
        parts,
        created_at: 1_700_000_000_000,
        status: Some(MessageStatus::Complete),
    }
}

fn plan_entry(parts: Vec<MessagePart>) -> SessionMessageEntry {
    SessionMessageEntry { role: MessageRole::Assistant, parts, created_at: 0, status: None }
}

fn text(text: &str) -> MessagePart {
    MessagePart::Text { text: text.to_owned() }
}

fn items(items: &[(&str, bool)]) -> Vec<TodoItem> {
    items.iter().map(|(text, done)| TodoItem { text: (*text).to_owned(), done: *done }).collect()
}

fn todo(id: &str, list: &[(&str, bool)]) -> MessagePart {
    MessagePart::Tool(ToolPart {
        id: id.to_owned(),
        call: call(Tool::Todo { items: items(list) }, false),
        is_error: false,
        resolved: true,
        output: None,
        subagent_ref: None,
        subagent_status: None,
        subagent_tail: None,
    })
}

#[test]
fn no_todos_yields_no_hud() {
    assert_eq!(plan_progress(&vec![]), None);
    assert_eq!(plan_progress(&vec![plan_entry(vec![text("hello")])]), None);
}

fn fraction(progress: &PlanProgress) -> f32 {
    let (done, total) = progress.fraction();
    done as f32 / total as f32
}

#[test]
fn derivation_reports_total_done_and_first_open_step() {
    let progress = plan_progress(&vec![plan_entry(vec![todo(
        "p0",
        &[("ship the parser", true), ("wire the hud", false), ("polish", false)],
    )])])
    .unwrap();
    assert_eq!(
        progress,
        PlanProgress { total: 3, done: 1, current: Some("wire the hud".into()) }
    );
    assert!(!progress.is_complete());
    assert!((fraction(&progress) - 1.0 / 3.0).abs() < 1e-6);
}

#[test]
fn all_done_leaves_no_current_step() {
    let progress =
        plan_progress(&vec![plan_entry(vec![todo("p0", &[("one", true), ("two", true)])])])
            .unwrap();
    assert_eq!(progress.total, 2);
    assert_eq!(progress.done, 2);
    assert_eq!(progress.current, None);
    assert!(progress.is_complete());
    assert_eq!(fraction(&progress), 1.0);
}

#[test]
fn the_newest_todo_call_wins_over_older_ones() {
    let entries = vec![
        plan_entry(vec![todo("p0", &[("stale step", false)])]),
        plan_entry(vec![
            text("making progress"),
            todo("p1", &[("stale step", true), ("fresh step", false)]),
        ]),
    ];
    let progress = plan_progress(&entries).unwrap();
    assert_eq!(progress.current.as_deref(), Some("fresh step"));
    assert_eq!((progress.total, progress.done), (2, 1));
    let same_entry = vec![plan_entry(vec![
        todo("p0", &[("older", false)]),
        todo("p1", &[("newer", false)]),
    ])];
    assert_eq!(plan_progress(&same_entry).unwrap().current.as_deref(), Some("newer"));
}

#[test]
fn an_empty_newest_list_reads_as_no_plan() {
    let entries = vec![
        plan_entry(vec![todo("p0", &[("was a plan", false)])]),
        plan_entry(vec![todo("p1", &[])]),
    ];
    assert_eq!(plan_progress(&entries), None);
    assert_eq!(
        plan_progress(&vec![plan_entry(vec![todo("p1", &[]), todo("p0", &[("real", false)])])])
            .unwrap()
            .total,
        1
    );
}

#[test]
fn empty_items_never_render_a_strip() {
    assert_eq!(plan_progress_from_items(&vec![]), None);
}

#[test]
fn hover_and_grab_drive_visibility() {
    let mut state = TranscriptScrollbarState::default();
    assert!(!state.visible());
    assert!(state.set_viewport_hovered(true));
    assert!(state.visible());
    assert!(state.set_viewport_hovered(false));
    assert!(!state.visible());
    state.press();
    assert!(state.visible());
    assert!(state.active());
    assert!(state.release());
    assert!(!state.visible());
    assert!(!state.release(), "release without a drag is a no-op");
}

#[test]
fn leaving_the_transcript_disarms_the_bar_unless_it_is_held() {
    let mut state = TranscriptScrollbarState::default();
    state.set_viewport_hovered(true);
    assert!(state.set_bar_hovered(true));
    assert!(!state.set_bar_hovered(true));
    state.press();
    state.set_viewport_hovered(false);
    assert!(state.active(), "a drag keeps the rail");
    state.release();
    assert!(!state.active());
}

fn spawn(id: &str, resolved: bool, status: Option<SubagentStatus>) -> ToolPart {
    ToolPart {
        id: id.to_owned(),
        call: call(
            Tool::Unknown {
                name: "Agent: scout".to_owned(),
                input: Some(Json::Object(vec![(
                    "description".to_owned(),
                    Json::Text("scout".to_owned()),
                )])),
            },
            true,
        ),
        is_error: false,
        resolved,
        output: None,
        subagent_ref: status.map(|_| "doc-1".to_string()),
        subagent_status: status,
        subagent_tail: None,
    }
}

fn state_over(transcript: Vec<SessionMessageEntry>) -> SubagentState {
    SubagentState {
        selected_chat: Some("c".to_owned()),
        transcript,
        sub_transcripts: Vec::new(),
        finished_obs: Vec::new(),
        active_obs: Vec::new(),
    }
}

const NOW: i64 = 1_700_000_100_000;

#[test]
fn selector_orders_running_then_finished_and_tags_latest_turn() {
    let done = spawn("a", true, Some(SubagentStatus::Done));
    let running = spawn("b", false, Some(SubagentStatus::Running));
    let mut started = spawn("s", true, None);
    started.call = call(
        Tool::Unknown {
            name: "Agent: bg".to_owned(),
            input: Some(Json::Object(vec![(
                "run_in_background".to_owned(),
                Json::Bool(true),
            )])),
        },
        true,
    );
    let mut state = state_over(vec![
        entry(MessageRole::User, vec![]),
        entry(
            MessageRole::Assistant,
            vec![MessagePart::Tool(done), MessagePart::Tool(running)],
        ),
        entry(MessageRole::User, vec![]),
        entry(MessageRole::Assistant, vec![MessagePart::Tool(started)]),
    ]);
    let out = subagents_for(&mut state, "c", NOW);
    assert_eq!(out.len(), 3);
    assert_eq!(out[0].status, SubagentPhase::Running);
    assert_eq!(out[0].id, "b");
    assert_eq!(out[1].status, SubagentPhase::Started);
    assert_eq!(out[2].status, SubagentPhase::Done);
    assert!(out[1].latest_turn);
    assert!(!out[2].latest_turn);

    let strip = strip_visible(&out);
    let ids: Vec<&str> = strip.iter().map(|s| s.id.as_str()).collect();
    assert_eq!(ids, ["b", "s"], "older turns only show what still runs");
    assert_eq!(render_agents_tray(Some("c"), &out).unwrap().len(), 2);
    assert!(render_agents_tray(None, &out).is_none());
    assert!(render_agents_tray(Some("c"), &vec![]).is_none());
}

#[test]
fn pi_spawn_lifecycle_comes_from_the_tool_call() {
    let unresolved = spawn("p1", false, None);
    let mut resolved = spawn("p2", true, None);
    resolved.output = Some("agent report: all green".into());
    let mut live = entry(MessageRole::Assistant, vec![MessagePart::Tool(unresolved)]);
    live.status = Some(MessageStatus::Streaming);
    let mut state = state_over(vec![
        entry(MessageRole::User, vec![]),
        live,
        entry(MessageRole::Assistant, vec![MessagePart::Tool(resolved)]),
    ]);
    let out = subagents_for(&mut state, "c", NOW);
    assert_eq!(out[0].status, SubagentPhase::Running);
    assert_eq!(out[1].status, SubagentPhase::Done);
    assert_eq!(out[1].summary.as_deref(), Some("agent report: all green"));
}

#[test]
fn eager_done_spawn_reads_started_not_done() {
    let mut live =
        entry(MessageRole::Assistant, vec![MessagePart::Tool(spawn("e", true, None))]);
    live.status = Some(MessageStatus::Streaming);
    let mut state = state_over(vec![entry(MessageRole::User, vec![]), live]);
    let out = subagents_for(&mut state, "c", NOW);
    assert_eq!(out[0].status, SubagentPhase::Started);
}

#[test]
fn finished_observation_requires_an_active_observation_this_session() {
    let settled = || {
        vec![
            entry(MessageRole::User, vec![]),
            entry(
                MessageRole::Assistant,
                vec![MessagePart::Tool(spawn("a", true, Some(SubagentStatus::Done)))],
            ),
        ]
    };
    let mut state = state_over(settled());
    let out = subagents_for(&mut state, "c", NOW);
    assert_eq!(out.len(), 1);
    assert_eq!(out[0].status, SubagentPhase::Done);
    assert!(out[0].finished.is_none());
    assert!(out[0].elapsed(NOW).is_none());
    assert!(state.finished_obs.is_empty());

    let mut live = entry(
        MessageRole::Assistant,
        vec![MessagePart::Tool(spawn("a", false, Some(SubagentStatus::Running)))],
    );
    live.status = Some(MessageStatus::Streaming);
    state.transcript = vec![entry(MessageRole::User, vec![]), live];
    let out = subagents_for(&mut state, "c", NOW);
    assert_eq!(out[0].status, SubagentPhase::Running);

    state.transcript = settled();
    subagents_for(&mut state, "c", NOW);
    let out = subagents_for(&mut state, "c", NOW);
    assert_eq!(out[0].status, SubagentPhase::Done);
    assert!(out[0].finished.is_some());
    assert!(out[0].elapsed(NOW).is_some());
}

/// The tenths of a pixel that the first pills need beside the others' count.
fn tray_width(all: &[SubagentSummary], pills: usize) -> u32 {
    let pill = |s: &SubagentSummary| 740 + 66 * s.title.chars().count().min(22) as u32;
    let gaps = 60 * (pills as u32 - 1);
    1080 + all.iter().take(pills).map(pill).sum::<u32>() + gaps + 440
}

#[test]
fn agents_fill_the_tray_the_sidebar_and_the_panel() {
    let mut state = state_over(vec![
        entry(MessageRole::User, vec![]),
        entry(
            MessageRole::Assistant,
            vec![
                MessagePart::Tool(spawn("r1", false, Some(SubagentStatus::Running))),
                MessagePart::Tool(spawn("r2", false, Some(SubagentStatus::Running))),
                MessagePart::Tool(spawn("r3", false, Some(SubagentStatus::Running))),
                MessagePart::Tool(spawn("r4", false, Some(SubagentStatus::Running))),
                MessagePart::Tool(spawn("d", true, Some(SubagentStatus::Done))),
            ],
        ),
    ]);
    let all = subagents_for(&mut state, "c", NOW);
    let theme = theme();
    let width = tray_width(&all, 2);
    let row = agents_tray_row("c", &all, width, true, &vec![], NOW, &theme);
    assert_eq!(row.counter, "1/5");
    assert_eq!(row.pills.len(), 2);
    assert_eq!(row.pills[0].key, "agent-pill-r1");
    assert_eq!(row.more.as_deref(), Some("+3"));
    assert!(row.chevron_down);
    let (shown, left) = tray_layout(&all, width);
    assert_eq!((shown.len(), left), (2, 3));
    assert_eq!(fitting(&all, width - 1), 1, "a tenth of a pixel too little");
    assert_eq!(fitting(&all, 0), 0);
    assert_eq!(fitting(&all, u32::MAX), 5);
    assert_eq!(fitting(&vec![], 0), 0);

    let rows = sidebar_children(&all, NOW, &theme);
    assert_eq!(rows.rows.len(), 3);
    assert_eq!(rows.more.as_deref(), Some("+1 more"));

    let body = agents_panel_body(&all, &vec![], NOW, &theme).unwrap();
    let sections: Vec<&str> = body
        .iter()
        .filter_map(|row| match row {
            PanelRow::Section(label) => Some(label.as_str()),
            PanelRow::Agent(_) => None,
        })
        .collect();
    assert_eq!(sections, ["Active", "Done · 1"]);
    assert_eq!(body.len(), 7, "every agent has one row");
    assert!(agents_panel_body(&vec![], &vec![], NOW, &theme).is_none());
}

#[test]
fn a_seen_result_loses_its_hue() {
    let theme = theme();
    assert_eq!(
        status_glyph(SubagentPhase::Done, false, &theme),
        Glyph::Check(solid(0x6ee7b7))
    );
    assert_eq!(
        status_glyph(SubagentPhase::Done, true, &theme),
        Glyph::Check(solid(theme.text_faint))
    );
    assert_eq!(
        status_glyph(SubagentPhase::Failed, false, &theme),
        Glyph::Triangle(solid(theme.danger))
    );
    assert_eq!(
        status_glyph(SubagentPhase::Running, false, &theme),
        Glyph::Equalizer(solid(0x7dd3fc))
    );
    assert_eq!(
        status_glyph(SubagentPhase::Started, false, &theme),
        Glyph::Dot(solid(theme.text_faint))
    );
}

#[test]
fn a_summary_is_one_line() {
    assert_eq!(one_line(" \n\t"), None);
    assert_eq!(one_line("\n  first line \nsecond").as_deref(), Some("first line"));
    let exact = "é".repeat(120);
    assert_eq!(one_line(&exact).as_deref(), Some(exact.as_str()));
    let long = one_line(&"é".repeat(121)).unwrap();
    assert_eq!(long.chars().count(), 120);
    assert_eq!(long, "é".repeat(119) + "…");
    assert_eq!(result_doc_id("chat", "part"), "chat--sub--result:part");
}
