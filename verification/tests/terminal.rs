//! The terminal: tabs, input, composition, the provider's view, and the
//! stream behind it.
use noches_ui::codec::{decode_base64, encode_base64, pick_decoded, round_trip};
use noches_ui::composition::{utf16_to_chars, Span};
use noches_ui::json::Json;
use noches_ui::terminal_panel::{
    chat_target, AppView, ChatHost, ChatTabs, CloseReply, CloseTabReply, InputCoalescer,
    OpenReply, SessionViewStatus, TabSlot, TerminalEvent, TerminalPanel, TerminalTab,
};
use noches_ui::terminal_requests::{
    close_request, close_session_request, open_request, resize_request, subscribe_request,
    write_request,
};
use noches_ui::terminal_run::{open_answer, RunAction, RunEvent, RunStage, TerminalRun};
use noches_ui::terminal_tabs::{
    active_after_close, active_after_reorder, backoff_ms, exit_message, reorder_tabs,
    route_wheel, shell_title, slide_offset, wheel_mouse_bytes, with_target, WheelMode,
    WheelModifiers, WheelStep,
};
use noches_ui::terminal_view::{
    composition_cell, toggle_chord, Cell, Gesture, Grain, Hover, KeyPress, KeyRoute, Move, Press,
    Screen,
};

fn pending_tab() -> TerminalTab {
    TerminalTab {
        key: 1,
        title: "session".to_owned(),
        live_title: None,
        terminal_id: None,
        exited: None,
        last_seq: 0,
        coalescer: InputCoalescer::new(),
        cols: 80,
        rows: 24,
    }
}

fn app(selected: Option<&str>, engine: bool) -> AppView {
    AppView {
        selected_chat: selected.map(str::to_owned),
        engine,
        local_device_id: Some("here".to_owned()),
        chats: vec![
            ChatHost { id: "near".to_owned(), device_id: "here".to_owned() },
            ChatHost { id: "far".to_owned(), device_id: "there".to_owned() },
        ],
    }
}

fn ime_panel() -> TerminalPanel {
    let mut panel = TerminalPanel::new_session_view(&app(None, false));
    panel.open = true;
    panel.session_chat = Some("ime".to_owned());
    panel.session_status = SessionViewStatus::Opening;
    panel.chats.push((
        "ime".to_owned(),
        ChatTabs { tabs: vec![TerminalTab { key: 0, ..pending_tab() }], active: 0 },
    ));
    panel
}

fn tab<'a>(panel: &'a mut TerminalPanel) -> &'a mut TerminalTab {
    &mut panel.chats[0].1.tabs[0]
}

fn span(start: usize, end: usize) -> Option<Span> {
    Some(Span { start, end })
}

#[test]
fn wheel_mouse_protocol_coordinates() {
    assert_eq!(wheel_mouse_bytes(64, 0, 0, false, false).unwrap(), b"\x1b[M`!!");
    assert!(wheel_mouse_bytes(64, 223, 0, false, false).is_none());
    assert_eq!(wheel_mouse_bytes(65, 499, 10, true, false).unwrap(), b"\x1b[<65;500;11M");
    assert_eq!(wheel_mouse_bytes(64, 223, 0, false, true).unwrap(), "\x1b[M`Ā!".as_bytes());
}

const PLAIN: WheelMode = WheelMode {
    mouse_reporting: false,
    sgr: false,
    utf8: false,
    alternate_scroll: false,
    app_cursor: false,
};

const BARE: WheelModifiers = WheelModifiers { shift: false, alt: false, control: false };

fn report(step: WheelStep) -> Option<Vec<u8>> {
    match step {
        WheelStep::Report(bytes) => Some(bytes),
        _ => None,
    }
}

#[test]
fn the_wheel_reaches_programs_that_report_the_mouse() {
    let mode = WheelMode { mouse_reporting: true, sgr: true, ..PLAIN };
    assert_eq!(
        report(route_wheel(2, mode, BARE, Some((2, 3)))).unwrap(),
        b"\x1b[<64;3;4M\x1b[<64;3;4M"
    );
    assert_eq!(
        report(route_wheel(-2, mode, BARE, Some((0, 0)))).unwrap(),
        b"\x1b[<65;1;1M\x1b[<65;1;1M"
    );
    let held = WheelModifiers { alt: true, control: true, ..BARE };
    assert_eq!(report(route_wheel(1, mode, held, Some((0, 0)))).unwrap(), b"\x1b[<88;1;1M");
    assert!(matches!(route_wheel(1, mode, BARE, None), WheelStep::Drop));
    let shifted = WheelModifiers { shift: true, ..BARE };
    assert!(matches!(route_wheel(-2, mode, shifted, Some((0, 0))), WheelStep::Scroll(-2)));
}

#[test]
fn the_wheel_becomes_arrows_on_an_alternate_screen() {
    let mode = WheelMode { alternate_scroll: true, app_cursor: true, ..PLAIN };
    assert_eq!(report(route_wheel(-2, mode, BARE, None)).unwrap(), b"\x1bOB\x1bOB");
    let mode = WheelMode { alternate_scroll: true, ..PLAIN };
    assert_eq!(report(route_wheel(1, mode, BARE, None)).unwrap(), b"\x1b[A");
    assert!(matches!(route_wheel(3, PLAIN, BARE, None), WheelStep::Scroll(3)));
}

#[test]
fn ime_preedit_ranges_commit_and_cancellation() {
    let mut panel = ime_panel();
    let app = app(None, false);
    panel.replace_and_mark_text_in_range(None, "a😀é", span(1, 3), &app);
    assert_eq!(panel.marked_text_range(&app), span(0, 4));
    assert_eq!(panel.selected_text_range(&app), span(1, 3));
    assert_eq!(
        panel.text_for_range(2, 3, &app),
        Some(("😀".to_owned(), Span { start: 1, end: 3 }))
    );
    assert!(tab(&mut panel).coalescer.is_empty());
    panel.replace_and_mark_text_in_range(span(1, 3), "界", span(0, 1), &app);
    assert_eq!(panel.composition.committed(), "a界é");
    assert_eq!(panel.selected_text_range(&app), span(1, 2));
    panel.replace_text_in_range(None, "確定😀", &app);
    assert_eq!(tab(&mut panel).coalescer.take(), "確定😀".as_bytes());
    assert_eq!(panel.marked_text_range(&app), None);
    assert_eq!(panel.selected_text_range(&app), span(0, 0));
    panel.replace_and_mark_text_in_range(None, "cancel", None, &app);
    panel.unmark_text();
    panel.replace_and_mark_text_in_range(None, "cancel", None, &app);
    panel.replace_text_in_range(None, "", &app);
    panel.replace_and_mark_text_in_range(None, "cancel", None, &app);
    panel.replace_and_mark_text_in_range(None, "", None, &app);
    assert!(panel.composition.text.is_empty());
    assert!(tab(&mut panel).coalescer.is_empty());
}

#[test]
fn ime_closing_and_failed_sessions_reject_all_input() {
    let mut panel = ime_panel();
    let app = app(None, false);
    panel.replace_and_mark_text_in_range(None, "preedit", None, &app);
    for status in [SessionViewStatus::Closing, SessionViewStatus::Failed("failed".into())] {
        panel.set_session_status(status, false);
        assert!(!panel.accepts_text_input(&app));
        assert_eq!(panel.marked_text_range(&app), None);
        panel.replace_and_mark_text_in_range(None, "blocked", None, &app);
        panel.replace_text_in_range(None, "blocked", &app);
        panel.queue_input(b"blocked", &app);
        assert!(tab(&mut panel).coalescer.is_empty());
        assert!(panel.composition.text.is_empty());
    }
}

#[test]
fn platform_ranges_cover_whole_characters() {
    let text: Vec<char> = "a😀é".chars().collect();
    assert_eq!(utf16_to_chars(&text, 2, 3), Span { start: 1, end: 2 });
    assert_eq!(utf16_to_chars(&text, 2, 2), Span { start: 1, end: 1 });
    assert_eq!(utf16_to_chars(&text, 0, 99), Span { start: 0, end: 3 });
}

#[test]
fn input_waits_for_open_and_flushes_once() {
    let mut tab = pending_tab();
    assert!(tab.coalescer.push(b"hello"));
    assert_eq!(tab.take_input(), None);
    assert!(!tab.coalescer.push(b"\r"));
    assert_eq!(tab.take_input(), None);
    tab.terminal_id = Some("provider-pty".into());
    assert_eq!(tab.take_input(), Some(("provider-pty".into(), b"hello\r".to_vec())));
    assert_eq!(tab.take_input(), None);
}

#[test]
fn stopping_or_exiting_never_flushes_pending_input() {
    let mut tab = pending_tab();
    tab.coalescer.push(b"queued before close");
    tab.stop_input();
    tab.terminal_id = Some("provider-pty".into());
    assert_eq!(tab.take_input(), None);
    tab.coalescer.push(b"queued before exit");
    tab.exited = Some(0);
    assert_eq!(tab.take_input(), None);
    for status in [
        SessionViewStatus::Idle,
        SessionViewStatus::Closing,
        SessionViewStatus::Failed("failed".into()),
    ] {
        assert!(!status.accepts_input());
    }
    assert!(SessionViewStatus::Opening.accepts_input());
    assert!(SessionViewStatus::Ready.accepts_input());
}

#[test]
fn session_mode_does_not_create_shell_tabs_or_follow_chat_switches() {
    let first = app(Some("first"), false);
    let mut panel = TerminalPanel::new_session_view(&first);
    assert!(panel.embedded && panel.session_view);
    assert!(panel.session_view_status().same_as(&SessionViewStatus::Idle));
    assert_eq!(panel.session_chat.as_deref(), Some("first"));
    panel.set_open(true, &first);
    assert_eq!(panel.open_tab_for_selected(&first), None);
    panel.open_tab("first".into(), false);
    assert!(panel.chats.is_empty());
    panel.set_open(false, &first);
    assert_eq!(panel.session_chat.as_deref(), Some("first"));

    let second = app(Some("second"), false);
    panel.on_state_changed(&second);
    assert_eq!(panel.selected_chat(&second).as_deref(), Some("first"));
    assert!(panel.chats.is_empty());
}

#[test]
fn opening_a_view_shares_the_pending_request_and_reports_errors() {
    let nowhere = app(None, false);
    let mut panel = TerminalPanel::new_session_view(&nowhere);
    match panel.open_session_view(&nowhere) {
        OpenReply::Refused(error) => {
            assert_eq!(error, "Select a chat to open its session terminal")
        }
        _ => panic!("a view without a chat cannot open"),
    }
    assert!(matches!(panel.session_view_status(), SessionViewStatus::Failed(_)));
    panel.session_status = SessionViewStatus::Opening;
    panel.session_open = true;
    assert!(matches!(panel.open_session_view(&nowhere), OpenReply::Shared));
    assert!(matches!(panel.open_session_view(&nowhere), OpenReply::Shared));
    assert!(panel.chats.is_empty());

    let mut offline = TerminalPanel::new_session_view(&app(Some("near"), false));
    match offline.open_session_view(&app(Some("near"), false)) {
        OpenReply::Refused(error) => assert_eq!(error, "Engine is not connected"),
        _ => panic!("a view without an engine cannot open"),
    }
    match TerminalPanel::new().open_session_view(&nowhere) {
        OpenReply::Refused(error) => assert_eq!(error, "Not a session terminal view"),
        _ => panic!("a shell panel has no session view"),
    }
    offline.session_status = SessionViewStatus::Closing;
    match offline.open_session_view(&app(Some("near"), true)) {
        OpenReply::Refused(error) => assert_eq!(error, "Session terminal is closing"),
        _ => panic!("a closing view cannot open"),
    }
}

#[test]
fn session_status_emits_only_transitions() {
    let mut panel = TerminalPanel::new_session_view(&app(None, false));
    let mut events = Vec::new();
    for status in [
        SessionViewStatus::Opening,
        SessionViewStatus::Ready,
        SessionViewStatus::Ready,
        SessionViewStatus::Closing,
        SessionViewStatus::Failed("hydrate failed".into()),
        SessionViewStatus::Closing,
        SessionViewStatus::Idle,
    ] {
        let shown = format!("{status:?}");
        if panel.set_session_status(status, false).emitted {
            events.push(shown);
        }
    }
    let expected: Vec<String> = [
        SessionViewStatus::Opening,
        SessionViewStatus::Ready,
        SessionViewStatus::Closing,
        SessionViewStatus::Failed("hydrate failed".into()),
        SessionViewStatus::Closing,
        SessionViewStatus::Idle,
    ]
    .iter()
    .map(|status| format!("{status:?}"))
    .collect();
    assert_eq!(events, expected);
}

#[test]
fn a_view_closes_only_once_its_input_is_out() {
    let near = app(Some("near"), true);
    let mut panel = TerminalPanel::new_session_view(&near);
    let key = match panel.open_session_view(&near) {
        OpenReply::Opening { chat, key } => {
            assert_eq!(chat, "near");
            key
        }
        _ => panic!("the view opens"),
    };
    let effect = panel.queue_input(b"ls\r", &near).unwrap();
    assert!(effect.schedule && effect.submitted);
    assert_eq!(effect.key, key);
    match panel.close_session_view(&near) {
        CloseReply::Refused(error) => {
            assert_eq!(error, "Wait for buffered terminal input before switching views")
        }
        _ => panic!("buffered input holds the view"),
    }
    assert_eq!(panel.flush_input("near", key, true), None, "the terminal is not known yet");
    let write = panel.terminal_opened("near", key, "pty".to_owned(), true);
    assert_eq!(write, Some(Some(("pty".to_owned(), b"ls\r".to_vec()))));
    assert!(panel.still_writable("near", key, "pty"));
    match panel.close_session_view(&near) {
        CloseReply::Closing { chat, after_open } => {
            assert_eq!(chat, "near");
            assert!(after_open);
        }
        _ => panic!("the view closes"),
    }
    assert!(matches!(panel.close_session_view(&near), CloseReply::Shared));
    assert!(panel.queue_input(b"x", &near).is_none());
    panel.session_view_closed("near", Ok(()), false, true);
    assert!(panel.session_view_status().same_as(&SessionViewStatus::Idle));
    assert!(panel.chats.is_empty());
    assert!(matches!(panel.close_session_view(&near), CloseReply::Done));
}

#[test]
fn a_refused_release_restores_input_only_for_the_daemons_session() {
    let near = app(Some("near"), true);
    for (still_cli, expected) in
        [(true, SessionViewStatus::Ready), (false, SessionViewStatus::Failed("no".to_owned()))]
    {
        let mut panel = TerminalPanel::new_session_view(&near);
        panel.open_session_view(&near);
        panel.close_session_view(&near);
        panel.session_view_closed("near", Err("no".to_owned()), still_cli, true);
        assert!(panel.session_view_status().same_as(&expected));
    }
}

#[test]
fn shell_tabs_open_select_reorder_and_close() {
    let near = app(Some("near"), true);
    let mut panel = TerminalPanel::new();
    assert_eq!(panel.set_open(true, &near), Some(1), "an open drawer has a tab");
    assert_eq!(panel.open_tab("near".to_owned(), true), Some(2));
    assert_eq!(panel.open_tab("near".to_owned(), true), Some(3));
    let titles: Vec<String> =
        panel.tab_summaries(&near).into_iter().map(|(_, title, _)| title).collect();
    assert_eq!(titles, ["Terminal 1", "Terminal 2", "Terminal 3"]);
    panel.note_title("near", 2, Some("  vim  ".to_owned()));
    assert_eq!(panel.tab_summaries(&near)[1].1, "vim");

    panel.update_drag_over(2, 0);
    let bar = panel.render_tab_bar("near");
    assert!(matches!(bar[2].slot, TabSlot::Spacer));
    assert!(matches!(bar[0].slot, TabSlot::Sliding { start: 0, target: 1, .. }));
    panel.commit_reorder("near", 2, 0);
    let keys: Vec<u64> = panel.tab_summaries(&near).into_iter().map(|(key, _, _)| key).collect();
    assert_eq!(keys, [3, 1, 2]);
    assert_eq!(panel.chats[0].1.active, 0, "the moved tab stays active");

    assert!(panel.select_tab_by_key(1, &near));
    assert!(matches!(
        panel.close_tab("near", 1, &near),
        CloseTabReply::Closed { toggle_drawer: false, release: None }
    ));
    assert!(matches!(panel.close_tab("near", 9, &near), CloseTabReply::Nothing));
    panel.close_tab("near", 2, &near);
    assert!(matches!(
        panel.close_tab("near", 3, &near),
        CloseTabReply::Closed { toggle_drawer: true, release: None }
    ));
}

#[test]
fn a_stream_feeds_the_emulator_until_the_exit() {
    let near = app(Some("near"), true);
    let mut panel = TerminalPanel::new();
    let key = panel.open_tab("near".to_owned(), true).unwrap();
    panel.terminal_opened("near", key, "pty".to_owned(), true);
    let reply = panel.apply_stream_event(
        "near",
        key,
        TerminalEvent::Data { seq: 7, data: "aGk=".to_owned() },
        true,
    );
    assert_eq!(reply.feed, b"hi");
    assert!(!reply.stop);
    assert_eq!(panel.chats[0].1.tabs[0].last_seq, 7);
    let reply = panel.apply_stream_event(
        "near",
        key,
        TerminalEvent::Exit { seq: 8, exit_code: 130 },
        true,
    );
    assert!(reply.stop);
    assert_eq!(reply.feed, exit_message(130));
    assert!(panel.queue_input(b"x", &near).is_none(), "an exited process takes no input");
    let gone = panel.apply_stream_event(
        "near",
        99,
        TerminalEvent::Data { seq: 1, data: String::new() },
        true,
    );
    assert!(gone.stop);
}

#[test]
fn requests_name_only_a_remote_device() {
    let view = app(None, true);
    assert_eq!(chat_target(&view, "near"), None);
    assert_eq!(chat_target(&view, "far"), Some("there".to_owned()));
    assert_eq!(chat_target(&view, "nobody"), None);
    let params = Json::Object(vec![("chatId".to_owned(), Json::Text("c".to_owned()))]);
    match with_target(params, &Some("there".to_owned())) {
        Json::Object(members) => {
            assert_eq!(members.len(), 2);
            assert_eq!(members[1].1, Json::Text("there".to_owned()));
        }
        _ => panic!("an object stays one"),
    }
}

#[test]
fn backoff_doubles_and_caps() {
    assert_eq!(backoff_ms(0), 500);
    assert_eq!(backoff_ms(1), 1000);
    assert_eq!(backoff_ms(2), 2000);
    assert_eq!(backoff_ms(3), 4000);
    assert_eq!(backoff_ms(4), 8000);
    assert_eq!(backoff_ms(10), 8000);
    assert_eq!(backoff_ms(u32::MAX), 8000);
}

#[test]
fn reorder_moves_forward_and_backward() {
    let mut v = vec!["a", "b", "c", "d"];
    reorder_tabs(&mut v, 0, 2);
    assert_eq!(v, ["b", "c", "a", "d"]);
    reorder_tabs(&mut v, 3, 0);
    assert_eq!(v, ["d", "b", "c", "a"]);
    reorder_tabs(&mut v, 9, 0);
    reorder_tabs(&mut v, 1, 1);
    assert_eq!(v, ["d", "b", "c", "a"]);
}

#[test]
fn slide_offsets_shift_toward_the_gap() {
    assert_eq!(f32::from(slide_offset(0, 0, 2)), 0.0);
    assert_eq!(f32::from(slide_offset(1, 0, 2)), -1.0);
    assert_eq!(f32::from(slide_offset(2, 0, 2)), -1.0);
    assert_eq!(f32::from(slide_offset(3, 0, 2)), 0.0);
    assert_eq!(f32::from(slide_offset(0, 3, 1)), 0.0);
    assert_eq!(f32::from(slide_offset(1, 3, 1)), 1.0);
    assert_eq!(f32::from(slide_offset(2, 3, 1)), 1.0);
    assert_eq!(f32::from(slide_offset(3, 3, 1)), 0.0);
    for ix in 0..4 {
        assert_eq!(f32::from(slide_offset(ix, 2, 2)), 0.0);
    }
}

#[test]
fn active_index_tracks_reorders() {
    assert_eq!(active_after_reorder(1, 1, 3), 3);
    assert_eq!(active_after_reorder(2, 0, 3), 1);
    assert_eq!(active_after_reorder(1, 3, 0), 2);
    assert_eq!(active_after_reorder(0, 2, 3), 0);
}

#[test]
fn active_index_tracks_closes() {
    assert_eq!(active_after_close(2, 0, 3), 1);
    assert_eq!(active_after_close(1, 1, 2), 1);
    assert_eq!(active_after_close(2, 2, 2), 1);
    assert_eq!(active_after_close(0, 0, 0), 0);
}

#[test]
fn exit_message_format() {
    let text = String::from_utf8(exit_message(0)).unwrap();
    assert!(text.contains("[process exited 0]"));
    let text = String::from_utf8(exit_message(137)).unwrap();
    assert!(text.contains("[process exited 137]"));
    assert!(text.starts_with("\r\n"));
    assert!(text.ends_with("\r\n"));
    let text = String::from_utf8(exit_message(i32::MIN)).unwrap();
    assert!(text.contains("[process exited -2147483648]"));
}

#[test]
fn shell_titles() {
    assert_eq!(shell_title("/bin/zsh"), "zsh");
    assert_eq!(shell_title("/usr/local/bin/fish"), "fish");
    assert_eq!(shell_title("C:\\Windows\\System32\\cmd.exe"), "cmd.exe");
    assert_eq!(shell_title("bash"), "bash");
    assert_eq!(shell_title(""), "terminal");
}

#[test]
fn base64_round_trip_and_tolerance() {
    assert_eq!(decode_base64("aGk="), b"hi".to_vec());
    assert_eq!(decode_base64("aGk"), b"hi".to_vec(), "unpadded input tolerated");
    assert_eq!(decode_base64("!!!"), Vec::<u8>::new(), "garbage decodes to nothing");
    assert_eq!(encode_base64(b"hi"), "aGk=");
}

#[test]
fn every_byte_survives_the_wire() {
    let bytes: Vec<u8> = (0..=255).collect();
    assert_eq!(round_trip(&bytes), bytes);
    assert_eq!(round_trip(&[]), Vec::<u8>::new());
    assert_eq!(pick_decoded(None, Some(vec![1])), vec![1]);
    assert_eq!(pick_decoded(Some(vec![2]), Some(vec![1])), vec![2]);
    assert_eq!(pick_decoded(None, None), Vec::<u8>::new());
}

fn key(name: &str) -> KeyPress {
    KeyPress {
        key: name.to_owned(),
        platform: false,
        control: false,
        alt: false,
        shift: false,
        prefers_text: false,
    }
}

#[test]
fn keys_are_routed_around_the_clipboard_and_history() {
    let main = Some(Screen { alternate: false, rows: 24 });
    let full = Some(Screen { alternate: true, rows: 24 });
    let shift_up = KeyPress { shift: true, ..key("pageup") };
    assert_eq!(shift_up.on_key_down(false, false, main), KeyRoute::Scroll(24));
    assert_eq!(shift_up.on_key_down(false, false, full), KeyRoute::Encode);
    let shift_down = KeyPress { shift: true, ..key("pagedown") };
    assert_eq!(shift_down.on_key_down(false, false, main), KeyRoute::Scroll(-24));
    assert_eq!(key("pageup").on_key_down(false, false, main), KeyRoute::Encode);
    let interrupt = KeyPress { control: true, ..key("c") };
    assert_eq!(interrupt.on_key_down(true, true, main), KeyRoute::Encode);
    let copy = KeyPress { control: true, shift: true, ..key("c") };
    assert_eq!(copy.on_key_down(false, true, main), KeyRoute::Copy);
    assert_eq!(copy.on_key_down(false, false, main), KeyRoute::Encode);
    let paste = KeyPress { platform: true, ..key("v") };
    assert_eq!(paste.on_key_down(false, false, main), KeyRoute::Paste);
    assert_eq!(key("dead_acute").on_key_down(true, false, main), KeyRoute::Composition);
    let altgr = KeyPress { control: true, alt: true, prefers_text: true, ..key("q") };
    assert_eq!(altgr.on_key_down(false, false, main), KeyRoute::PlatformText);
}

#[test]
fn a_click_only_clears_and_a_drag_selects() {
    let mut gesture = Gesture::new();
    assert_eq!(gesture.on_mouse_down(true, 1, false, true), Press::Clear);
    assert_eq!(gesture.on_mouse_move(true, false, true, true), Move::Nothing);
    assert_eq!(gesture.on_mouse_move(true, true, true, true), Move::Extend { begin: true });
    assert_eq!(gesture.on_mouse_move(true, true, true, true), Move::Extend { begin: false });
    gesture.on_mouse_up();
    assert_eq!(gesture.on_mouse_down(true, 2, false, false), Press::Select(Grain::Word));
    assert_eq!(gesture.on_mouse_down(true, 3, false, false), Press::Select(Grain::Line));
    assert_eq!(gesture.on_mouse_down(true, 1, true, true), Press::Extend);
    assert_eq!(gesture.on_mouse_down(false, 1, false, false), Press::Nothing);
}

#[test]
fn a_hidden_cursor_keeps_the_preedit_on_the_grid() {
    let last = Cell { row: 30, col: 90 };
    let cell = composition_cell(None, last, 80, 24);
    assert!(cell.row < 24 && cell.col < 80);
    let shown = Cell { row: 1, col: 2 };
    assert_eq!(composition_cell(Some(shown), last, 80, 24), shown);
    assert_ne!(toggle_chord(true), toggle_chord(false));
}

#[test]
fn a_dropped_stream_backs_off_and_resumes() {
    let mut run = TerminalRun::open(false, 80, 24);
    let opened = run.step(RunEvent::Opened {
        id: "pty".to_owned(),
        attached: true,
        cols: 100,
        rows: 24,
    });
    assert!(matches!(
        opened.as_slice(),
        [RunAction::Resize { cols: 100, rows: 24, .. }, RunAction::LookUp]
    ));
    let resumed = run.step(RunEvent::Resume { after: Some(7) });
    assert!(matches!(resumed.as_slice(), [RunAction::Subscribe { after: 7, .. }]));
    run.step(RunEvent::Subscribed);
    assert!(matches!(
        run.step(RunEvent::Dropped { done: false }).as_slice(),
        [RunAction::Wait(500)]
    ));
    run.step(RunEvent::Waited);
    run.step(RunEvent::Resume { after: Some(8) });
    assert!(matches!(run.step(RunEvent::SubscribeFailed).as_slice(), [RunAction::Wait(1000)]));
    run.step(RunEvent::Waited);
    run.step(RunEvent::Resume { after: Some(8) });
    run.step(RunEvent::Subscribed);
    assert!(run.step(RunEvent::Frame { last: false }).is_empty());
    assert_eq!(run.attempt, 0, "a frame resets the backoff");
    run.step(RunEvent::Frame { last: true });
    assert_eq!(run.stage, RunStage::Finished);
    assert!(run.step(RunEvent::Waited).is_empty());
}

#[test]
fn an_unattached_terminal_is_released_unless_a_view_parks_it() {
    let opened = || RunEvent::Opened { id: "pty".to_owned(), attached: false, cols: 80, rows: 24 };
    let mut run = TerminalRun::open(false, 80, 24);
    assert!(matches!(run.step(opened()).as_slice(), [RunAction::Release(_)]));
    let mut run = TerminalRun::open(true, 80, 24);
    assert!(run.step(opened()).is_empty());
    let mut run = TerminalRun::open(true, 80, 24);
    assert!(matches!(
        run.step(RunEvent::OpenFailed("no".to_owned())).as_slice(),
        [RunAction::ShowOpenFailure(_), RunAction::Ready(Err(_))]
    ));
}

#[test]
fn a_handoff_waits_for_an_idle_native_session() {
    let mut panel = ime_panel();
    let unverified = Some("Native session state is not verified");
    assert_eq!(panel.handoff_unavailable(), unverified);
    assert!(panel.note_native_activity(Some("busy".to_owned())));
    assert!(!panel.note_native_activity(Some("busy".to_owned())));
    assert_eq!(panel.handoff_unavailable(), Some("Session is busy"));
    panel.note_native_activity(Some("permission".to_owned()));
    assert_eq!(panel.handoff_unavailable(), Some("Session is busy"));
    panel.note_native_activity(Some("odd".to_owned()));
    assert_eq!(panel.handoff_unavailable(), unverified);
    panel.note_native_activity(Some("idle".to_owned()));
    assert_eq!(panel.handoff_unavailable(), None);
}

#[test]
fn a_grid_resizes_its_shown_tab_and_tells_the_terminal_later() {
    let view = app(None, true);
    let mut panel = ime_panel();
    assert_eq!(panel.on_grid_metrics(80, 24, &view), None, "the size is the same");
    panel.set_resize_suspended(true);
    assert_eq!(panel.on_grid_metrics(100, 30, &view), None);
    panel.set_resize_suspended(false);
    assert_eq!(panel.on_grid_metrics(100, 30, &view), Some((0, true)));
    assert_eq!((tab(&mut panel).cols, tab(&mut panel).rows), (100, 30));
    assert_eq!(panel.due_resize("ime", 0, &None), None, "no terminal is known");
    assert_eq!(
        panel.due_resize("ime", 0, &Some("t0".to_owned())),
        Some(("t0".to_owned(), 100, 30))
    );
    tab(&mut panel).terminal_id = Some("t1".to_owned());
    assert_eq!(
        panel.due_resize("ime", 0, &Some("t0".to_owned())),
        Some(("t1".to_owned(), 100, 30))
    );
    assert_eq!(panel.due_resize("ime", 9, &Some("t0".to_owned())), None);
    assert_eq!(panel.answer_to("ime", 0, &vec![1]).as_deref(), Some("t1"));
    assert_eq!(panel.answer_to("ime", 0, &vec![]), None);
}

#[test]
fn a_terminal_that_did_not_open_fails_its_view() {
    let mut panel = ime_panel();
    let fed = panel.terminal_open_failed("ime", 0, "denied".to_owned(), false).unwrap();
    assert_eq!(
        String::from_utf8(fed).unwrap(),
        "\x1b[31mfailed to open terminal: denied\x1b[0m\r\n"
    );
    assert_eq!(tab(&mut panel).exited, Some(-1));
    assert!(matches!(
        &panel.session_status,
        SessionViewStatus::Failed(message) if message == "denied"
    ));
    assert!(panel.terminal_open_failed("ime", 9, "denied".to_owned(), false).is_none());
}

#[test]
fn a_dragged_tab_lands_on_its_own_strip_only() {
    let mut panel = TerminalPanel::new();
    let keys = |panel: &TerminalPanel| -> Vec<u64> {
        panel.chats[0].1.tabs.iter().map(|tab| tab.key).collect()
    };
    panel.chats.push((
        "near".to_owned(),
        ChatTabs {
            tabs: (0..3).map(|key| TerminalTab { key, ..pending_tab() }).collect(),
            active: 0,
        },
    ));
    assert!(!panel.drag_moved("near", "far", 0, 2));
    assert!(panel.drag.is_none());
    assert!(panel.drag_moved("near", "near", 0, 2));
    assert!(!panel.drag_moved("near", "near", 0, 2));
    panel.drop_tab("near", "far", 0);
    assert_eq!(keys(&panel), [0, 1, 2]);
    assert!(panel.drag.is_none());
    panel.drag_moved("near", "near", 0, 2);
    panel.drop_tab("near", "near", 0);
    assert_eq!(keys(&panel), [1, 2, 0]);
    assert_eq!(panel.chats[0].1.active, 2, "the shown tab stays shown");
    assert!(matches!(
        panel.close_tab_by_key(9, &app(None, false)),
        CloseTabReply::Nothing
    ));
    panel.close_tab_by_key(2, &app(Some("near"), false));
    assert_eq!(keys(&panel), [1, 0]);
}

#[test]
fn composed_text_is_read_in_platform_units() {
    let view = app(None, false);
    let mut panel = ime_panel();
    assert_eq!(panel.marked_text(&view), None);
    panel.replace_and_mark_text_in_range(None, "a😀b", None, &view);
    assert_eq!(panel.marked_text(&view).as_deref(), Some("a😀b"));
    assert_eq!(panel.text_length_utf16(&view), Some(4));
    panel.set_selected_text_range(2, 3, &view);
    let range = panel.selected_text_range(&view).unwrap();
    assert_eq!((range.start, range.end), (1, 3), "a pair is never split");
}

#[test]
fn edge_scrolling_and_hover_follow_the_gesture() {
    let mut gesture = Gesture::new();
    assert_eq!(gesture.step_selection_scroll(2, 2), None);
    gesture.on_mouse_down(true, 2, false, false);
    assert!(gesture.schedule_selection_scroll(1));
    assert_eq!(gesture.step_selection_scroll(2, 2), Some(2));
    assert!(gesture.scroll_due);
    assert_eq!(gesture.step_selection_scroll(0, 0), None);
    assert!(!gesture.scroll_due);
    gesture.on_scrollbar_mouse_down();
    assert_eq!(gesture.on_mouse_move(true, false, true, true), Move::DragThumb);
    let mut hover = Hover { terminal: false, scrollbar: false };
    assert!(hover.on_terminal_hover(true));
    assert!(hover.on_scrollbar_hover(true));
    assert!(!hover.on_terminal_hover(true));
    assert!(hover.on_terminal_hover(false));
    assert!(!hover.scrollbar, "leaving the terminal leaves its scrollbar");
}

fn members(pairs: Vec<(&str, Json)>) -> Json {
    Json::Object(pairs.into_iter().map(|(key, value)| (key.to_owned(), value)).collect())
}

#[test]
fn requests_name_their_method_and_every_parameter() {
    let text = |value: &str| Json::Text(value.to_owned());
    let here = None;
    let there = Some("studio".to_owned());
    assert_eq!(
        open_request(false, "c", Some((100, 30)), &here),
        (
            "OpenTerminal",
            members(vec![
                ("chatId", text("c")),
                ("cols", Json::Unsigned(100)),
                ("rows", Json::Unsigned(30)),
            ])
        )
    );
    assert_eq!(
        open_request(true, "c", None, &there),
        (
            "OpenSessionTerminal",
            members(vec![
                ("chatId", text("c")),
                ("cols", Json::Unsigned(80)),
                ("rows", Json::Unsigned(24)),
                ("targetDeviceId", text("studio")),
            ])
        )
    );
    assert_eq!(
        subscribe_request("t", 7, &here),
        (
            "SubscribeTerminal",
            members(vec![("terminalId", text("t")), ("afterSeq", Json::Unsigned(7))])
        )
    );
    assert_eq!(
        resize_request("t", 90, 20, &there),
        (
            "ResizeTerminal",
            members(vec![
                ("terminalId", text("t")),
                ("cols", Json::Unsigned(90)),
                ("rows", Json::Unsigned(20)),
                ("targetDeviceId", text("studio")),
            ])
        )
    );
    assert_eq!(
        write_request("t", b"hi", &here),
        ("WriteTerminal", members(vec![("terminalId", text("t")), ("data", text("aGk="))]))
    );
    assert_eq!(
        close_request("t", &here),
        ("CloseTerminal", members(vec![("terminalId", text("t"))]))
    );
    assert_eq!(
        close_session_request("c", &there),
        (
            "CloseSessionTerminal",
            members(vec![("chatId", text("c")), ("targetDeviceId", text("studio"))])
        )
    );
}

#[test]
fn a_cell_out_of_reach_drops_any_button() {
    assert_eq!(wheel_mouse_bytes(255, 223, 0, false, false), None);
    assert_eq!(wheel_mouse_bytes(255, 0, usize::MAX, false, true), None);
    assert_eq!(
        wheel_mouse_bytes(255, 0, 0, true, false),
        Some(b"\x1b[<255;1;1M".to_vec())
    );
}

#[test]
fn an_unanswered_open_means_the_view_is_detached() {
    assert_eq!(open_answer(None), Err("Session terminal view detached".to_owned()));
    assert_eq!(open_answer(Some(Ok(()))), Ok(()));
    assert_eq!(open_answer(Some(Err("denied".to_owned()))), Err("denied".to_owned()));
    let mut run = TerminalRun::open(true, 80, 24);
    let gone = RunEvent::Opened { id: "t".to_owned(), attached: false, cols: 0, rows: 0 };
    assert!(run.step(gone).is_empty(), "nothing is answered, and nothing released");
}
