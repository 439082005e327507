//! Voice sessions: turns, retained audio, the backend, and a session's life.
use noches_ui::codec::{pcm16_to_base64, pcm16_to_bytes};
use noches_ui::voice_runner::{Runner, RunnerAction, RunnerEvent, ServerEvent, Stage};
use noches_ui::voice_session::{
    connect_plan, env_key, mute_decision, press_decision, resolve_backend, voice_config, Backend,
    Endpoint, Gate, Mute, Press, Voice, VoicePhase, VoiceStartSnapshot, VoiceStatus, VoiceUpdate,
};
use noches_ui::voice_turn::{
    exhaustion_decision, reconnect_events, ClientEvent, Exhaustion, ReplayBuffer, Turn,
    REPLAY_SAMPLES,
};

fn snapshot() -> VoiceStartSnapshot {
    VoiceStartSnapshot {
        endpoint: "ws://127.0.0.1:8317/v1/realtime?model=gpt-realtime-2.1".to_owned(),
        model: "gpt-realtime-2.1".to_owned(),
        session: "{\"voice\":\"marin\"}".to_owned(),
    }
}

#[test]
fn backend_prefers_cpa_then_openai_then_errors() {
    let snapshot = snapshot();
    // CPA wins whenever its key is set, even alongside an OpenAI key.
    let endpoint = resolve_backend(Some("cpa-key"), Some("sk-live"), &snapshot).unwrap();
    assert_eq!(endpoint.backend, Backend::Cpa);
    assert_eq!(
        endpoint.url, "ws://127.0.0.1:8317/v1/realtime?model=gpt-realtime-2.1",
        "CPA dials the snapshot's resolved endpoint"
    );

    let endpoint = resolve_backend(None, Some("  sk-only  "), &snapshot).unwrap();
    assert_eq!(endpoint.backend, Backend::OpenAi);

    let error = resolve_backend(Some("  "), Some(""), &snapshot).unwrap_err();
    assert_eq!(error, "set CPA_API_KEY or OPENAI_API_KEY to use voice");
    let error = resolve_backend(None, None, &snapshot).unwrap_err();
    assert_eq!(error, "set CPA_API_KEY or OPENAI_API_KEY to use voice");
}

#[test]
fn exhaustion_replays_only_what_a_fresh_socket_can_redo() {
    assert_eq!(exhaustion_decision(true, true, true, true), Exhaustion::ReplayCommitted);
    for (safe, has_audio, complete) in [
        (false, true, true),
        (false, false, true),
        (false, false, false),
        (true, true, false),
    ] {
        assert_eq!(
            exhaustion_decision(true, safe, has_audio, complete),
            Exhaustion::Notify,
            "safe={safe} has_audio={has_audio} complete={complete}"
        );
    }
    assert_eq!(exhaustion_decision(false, true, true, true), Exhaustion::Reappend);
    assert_eq!(exhaustion_decision(false, false, true, true), Exhaustion::Reappend);
    assert_eq!(exhaustion_decision(false, true, true, false), Exhaustion::Notify);
    for (safe, complete) in [(true, true), (false, false)] {
        assert_eq!(
            exhaustion_decision(false, safe, false, complete),
            Exhaustion::Reconnect,
            "safe={safe} complete={complete}"
        );
    }
}

#[test]
fn replay_buffer_stays_bounded_and_flags_truncation() {
    let mut buffer = ReplayBuffer::new();
    buffer.push(&vec![0i16; REPLAY_SAMPLES]);
    assert_eq!(buffer.samples, REPLAY_SAMPLES);
    assert!(buffer.complete);
    assert!(!buffer.committed);

    buffer.push(&[1, 2, 3]);
    assert_eq!(buffer.samples, REPLAY_SAMPLES, "a full buffer drops");
    assert!(!buffer.complete, "an overflow marks the copy truncated");
    assert_eq!(
        exhaustion_decision(false, true, true, buffer.complete),
        Exhaustion::Notify,
        "a truncated utterance is never re-appended as if complete"
    );

    buffer.clear();
    assert_eq!(buffer.samples, 0);
    assert!(buffer.chunks.is_empty());
    assert!(buffer.complete, "clearing readies the next utterance");
    assert!(!buffer.committed);
}

#[test]
fn press_decision_is_a_pure_toggle() {
    for phase in [
        VoicePhase::Idle,
        VoicePhase::Connecting,
        VoicePhase::Listening,
        VoicePhase::Thinking,
        VoicePhase::Speaking,
        VoicePhase::Error,
    ] {
        assert_eq!(press_decision(false, phase), Press::Connect, "dead {phase:?}");
    }
    for phase in [VoicePhase::Idle, VoicePhase::Error] {
        assert_eq!(press_decision(true, phase), Press::Connect, "{phase:?}");
    }
    for phase in [
        VoicePhase::Connecting,
        VoicePhase::Listening,
        VoicePhase::Thinking,
        VoicePhase::Speaking,
    ] {
        assert_eq!(press_decision(true, phase), Press::Stop, "{phase:?}");
    }
}

#[test]
fn a_stale_response_done_cannot_clear_a_newer_turn() {
    let mut turn = Turn::new();
    turn.replay.push(&[1, 2, 3]);
    turn.speech_stopped();
    turn.response_created(Some("resp_a".to_owned()));
    turn.replay_safe = false;

    assert!(!turn.response_done(Some("resp_stale")));
    assert!(turn.turn_open);
    assert!(!turn.replay.chunks.is_empty());
    assert!(!turn.replay_safe);

    assert!(turn.response_done(Some("resp_a")));
    assert!(!turn.turn_open);
    assert!(turn.replay.chunks.is_empty());
    assert!(turn.replay_safe);
    assert_eq!(turn.exhaustion(), Exhaustion::Reconnect);
}

#[test]
fn a_barge_in_invalidates_the_interrupted_response() {
    let mut turn = Turn::new();
    turn.replay.push(&[1, 2, 3]);
    turn.speech_stopped();
    turn.response_created(Some("resp_a".to_owned()));
    assert_eq!(turn.exhaustion(), Exhaustion::ReplayCommitted);

    turn.speech_started();
    turn.replay.push(&[4, 5, 6]);

    assert!(!turn.response_done(Some("resp_a")), "canceled response's done");
    assert!(!turn.response_done(None), "no response is tracked yet");
    assert!(!turn.replay.committed, "the new utterance is uncommitted");
    assert_eq!(
        turn.exhaustion(),
        Exhaustion::Reappend,
        "the new utterance's retained chunks still re-append"
    );
}

#[test]
fn mute_only_toggles_a_live_session() {
    for phase in [VoicePhase::Listening, VoicePhase::Thinking, VoicePhase::Speaking] {
        assert_eq!(mute_decision(true, phase), Mute::Toggle, "{phase:?}");
        assert_eq!(mute_decision(false, phase), Mute::Skip, "dead {phase:?}");
    }
    for phase in [VoicePhase::Idle, VoicePhase::Connecting, VoicePhase::Error] {
        assert_eq!(mute_decision(true, phase), Mute::Skip, "{phase:?}");
    }

    let status = VoiceStatus {
        phase: VoicePhase::Listening,
        muted: true,
        ..VoiceStatus::default()
    };
    let peak = 0.7_f32;
    let level = if status.meter_open() { peak } else { 0.0 };
    assert_eq!(level, 0.0, "a muted status never exposes a meter peak");
}

#[test]
fn response_done_matching_rules() {
    let mut turn = Turn::new();
    assert!(!turn.response_done(Some("resp_x")));
    assert!(!turn.response_done(None));

    turn.response_created(None);
    assert!(turn.response_done(Some("resp_any")));

    turn.response_created(Some("resp_b".to_owned()));
    assert!(turn.response_done(None), "an id-less done cannot be checked");
}

#[test]
fn the_retained_buffer_keeps_filling_while_a_dial_is_pending() {
    let mut turn = Turn::new();
    turn.replay.push(&[1, 2, 3]);
    assert_eq!(turn.exhaustion(), Exhaustion::Reappend);

    turn.replay.push(&[4, 5, 6]);
    assert_eq!(turn.replay.chunks.len(), 2);
    assert_eq!(turn.replay.samples, 6);
    assert_eq!(turn.exhaustion(), Exhaustion::Reappend);
    let events = reconnect_events(Exhaustion::Reappend, &turn.replay, &turn.pending);
    assert_eq!(events.len(), 2, "each retained chunk appends once");
    assert!(
        events.iter().all(|event| matches!(event, ClientEvent::InputAudioBufferAppend { .. })),
        "an uncommitted re-append emits only appends"
    );
}

#[test]
fn committed_replay_keeps_mid_dial_capture_as_the_next_utterance() {
    let mut turn = Turn::new();
    turn.replay.push(&[1, 2, 3]);
    turn.speech_stopped();
    assert!(turn.replay.committed);
    assert_eq!(turn.exhaustion(), Exhaustion::ReplayCommitted);

    turn.pending.push(&[4, 5, 6]);
    turn.pending.push(&[7, 8]);
    assert_eq!(turn.replay.chunks.len(), 1);
    assert_eq!(turn.replay.samples, 3, "the committed replay is unchanged");
    assert_eq!(turn.pending.chunks.len(), 2);
    assert_eq!(turn.pending.samples, 5, "pending capture stays bounded");

    let events = reconnect_events(Exhaustion::ReplayCommitted, &turn.replay, &turn.pending);
    let kinds: Vec<&str> = events
        .iter()
        .map(|event| match event {
            ClientEvent::InputAudioBufferAppend { .. } => "append",
            ClientEvent::InputAudioBufferCommit => "commit",
            ClientEvent::ResponseCreate => "response",
        })
        .collect();
    assert_eq!(kinds, ["append", "commit", "response", "append", "append"]);
    let audio: Vec<&String> = events
        .iter()
        .filter_map(|event| match event {
            ClientEvent::InputAudioBufferAppend { audio } => Some(audio),
            _ => None,
        })
        .collect();
    assert_eq!(
        audio,
        [
            pcm16_to_base64(&[1, 2, 3]),
            pcm16_to_base64(&[4, 5, 6]),
            pcm16_to_base64(&[7, 8]),
        ]
        .iter()
        .collect::<Vec<_>>(),
        "old committed audio precedes the pending utterance"
    );
}

#[test]
fn reconnect_moves_mid_dial_capture_instead_of_dropping_it() {
    let mut turn = Turn::new();
    assert_eq!(turn.exhaustion(), Exhaustion::Reconnect);
    turn.replay.push(&[9, 9]);
    let events = reconnect_events(Exhaustion::Reconnect, &turn.replay, &turn.pending);
    assert_eq!(events.len(), 1, "mid-dial capture is re-appended");

    let mut turn = Turn::new();
    turn.replay.push(&[1, 2, 3]);
    turn.speech_stopped();
    turn.replay_safe = false;
    assert_eq!(turn.exhaustion(), Exhaustion::Notify);
    turn.pending.push(&[4, 5]);
    let events = reconnect_events(Exhaustion::Notify, &turn.replay, &turn.pending);
    assert_eq!(events.len(), 1);
    assert!(
        matches!(
            &events[0],
            ClientEvent::InputAudioBufferAppend { audio }
                if audio == &pcm16_to_base64(&[4, 5])
        ),
        "the mid-dial utterance re-appends uncommitted"
    );

    let mut turn = Turn::new();
    turn.replay.push(&vec![0i16; REPLAY_SAMPLES]);
    turn.replay.push(&[1]);
    assert!(!turn.replay.complete);
    let events = reconnect_events(Exhaustion::Reappend, &turn.replay, &turn.pending);
    assert!(events.is_empty(), "truncated audio is never re-appended");
}

#[test]
fn pcm_is_little_endian_base64() {
    assert_eq!(pcm16_to_bytes(&[1, -2]), vec![1, 0, 0xfe, 0xff]);
    assert_eq!(pcm16_to_base64(&[1, -2]), "AQD+/w==");
}

#[test]
fn keys_are_trimmed_before_use() {
    assert_eq!(env_key(Some("\t sk-a \n")), Some("sk-a".to_owned()));
    assert_eq!(env_key(Some(" \u{a0}\u{3000}")), None);
    assert_eq!(env_key(None), None);
}

#[test]
fn only_the_account_pool_names_an_endpoint() {
    let config = voice_config(Backend::Cpa, "ws://pool", "k".to_owned(), &snapshot());
    assert_eq!(config.endpoint, Some("ws://pool".to_owned()));
    assert_eq!(config.model, "gpt-realtime-2.1");
    assert_eq!(config.session, "{\"voice\":\"marin\"}");
    let config = voice_config(Backend::OpenAi, "", "k".to_owned(), &snapshot());
    assert_eq!(config.endpoint, None);
    assert_eq!(config.key, "k");

    let stock = Endpoint { backend: Backend::OpenAi, url: String::new() };
    let config = connect_plan(&stock, None, Some(" sk "), &snapshot());
    assert_eq!(config.map(|config| config.key), Some("sk".to_owned()));
    assert!(connect_plan(&stock, Some("cpa"), Some(" "), &snapshot()).is_none());
}

fn live(backend: Backend) -> Runner {
    let endpoint = Endpoint { backend, url: String::new() };
    let (mut runner, actions) = Runner::start(&endpoint);
    assert!(matches!(actions.as_slice(), [RunnerAction::OpenAudio]));
    let actions = runner.step(RunnerEvent::AudioReady { frames: true });
    assert!(matches!(actions.as_slice(), [RunnerAction::Connect]));
    let actions = runner.step(RunnerEvent::Dialed);
    assert!(matches!(
        actions.as_slice(),
        [
            RunnerAction::Tell(VoiceUpdate::Mic),
            RunnerAction::BeginCapture,
            RunnerAction::Tell(VoiceUpdate::Phase(VoicePhase::Listening)),
        ]
    ));
    runner
}

fn exhausted() -> RunnerEvent {
    RunnerEvent::Server(ServerEvent::Error {
        code: Some("cpa_credential_exhausted".to_owned()),
        message: None,
    })
}

#[test]
fn a_credential_swap_replays_the_committed_turn_then_the_capture() {
    let mut runner = live(Backend::Cpa);
    runner.step(RunnerEvent::CaptureAudio(vec![1, 2]));
    runner.step(RunnerEvent::Server(ServerEvent::InputAudioBufferSpeechStopped));
    let actions = runner.step(exhausted());
    assert!(matches!(actions.as_slice(), [RunnerAction::Cancel, RunnerAction::Connect]));
    assert_eq!(runner.stage, Stage::Redialing(Exhaustion::ReplayCommitted));
    assert!(runner.step(RunnerEvent::CaptureAudio(vec![3])).is_empty());
    let actions = runner.step(RunnerEvent::Dialed);
    assert!(matches!(
        actions.as_slice(),
        [
            RunnerAction::Send(ClientEvent::InputAudioBufferAppend { .. }),
            RunnerAction::Send(ClientEvent::InputAudioBufferCommit),
            RunnerAction::Send(ClientEvent::ResponseCreate),
            RunnerAction::Send(ClientEvent::InputAudioBufferAppend { .. }),
            RunnerAction::Tell(VoiceUpdate::Phase(VoicePhase::Thinking)),
        ]
    ));
    assert_eq!(runner.stage, Stage::Live);
}

#[test]
fn a_swap_amid_output_asks_to_repeat() {
    let mut runner = live(Backend::Cpa);
    runner.step(RunnerEvent::CaptureAudio(vec![1]));
    runner.step(RunnerEvent::Server(ServerEvent::InputAudioBufferSpeechStopped));
    runner.step(RunnerEvent::Server(ServerEvent::OutputTextDelta));
    runner.step(exhausted());
    let actions = runner.step(RunnerEvent::Dialed);
    assert!(matches!(
        actions.as_slice(),
        [RunnerAction::Tell(VoiceUpdate::Notify(message))]
            if message == "voice account switched mid-turn - please repeat"
    ));
}

#[test]
fn the_stock_backend_does_not_swap() {
    let mut runner = live(Backend::OpenAi);
    let actions = runner.step(exhausted());
    assert!(matches!(
        actions.as_slice(),
        [RunnerAction::Tell(VoiceUpdate::Failure(message)), RunnerAction::Stop]
            if message == "the realtime API returned an error"
    ));
    assert_eq!(runner.stage, Stage::Ended);
    assert!(runner.step(RunnerEvent::Played).is_empty(), "an ended session stays silent");
}

#[test]
fn the_first_dial_falls_back_once() {
    let endpoint = Endpoint { backend: Backend::Cpa, url: String::new() };
    let (mut runner, _) = Runner::start(&endpoint);
    runner.step(RunnerEvent::AudioReady { frames: true });
    let failed = || RunnerEvent::DialFailed {
        error: "no route".to_owned(),
        openai_key: Some("sk".to_owned()),
    };
    assert!(matches!(runner.step(failed()).as_slice(), [RunnerAction::Connect]));
    assert_eq!(runner.backend, Backend::OpenAi);
    assert_eq!(runner.stage, Stage::FallingBack);
    assert!(matches!(
        runner.step(failed()).as_slice(),
        [RunnerAction::Tell(VoiceUpdate::Failure(message)), RunnerAction::Stop]
            if message == "voice session: no route"
    ));
}

#[test]
fn every_failure_of_a_session_says_what_failed() {
    let endpoint = Endpoint { backend: Backend::OpenAi, url: String::new() };
    let (mut runner, _) = Runner::start(&endpoint);
    let actions = runner.step(RunnerEvent::AudioFailed("busy".to_owned()));
    assert!(matches!(
        &actions[0],
        RunnerAction::Tell(VoiceUpdate::Failure(message)) if message == "voice audio: busy"
    ));
    let (mut runner, _) = Runner::start(&endpoint);
    let actions = runner.step(RunnerEvent::AudioReady { frames: false });
    assert!(matches!(
        &actions[0],
        RunnerAction::Tell(VoiceUpdate::Failure(message)) if message == "voice capture did not start"
    ));
    for (event, expected) in [
        (RunnerEvent::SendFailed, "the voice connection dropped"),
        (RunnerEvent::DecodeFailed, "voice audio decode failed"),
        (RunnerEvent::PlaybackFailed, "voice playback failed"),
    ] {
        let actions = live(Backend::OpenAi).step(event);
        assert!(
            matches!(
                &actions[0],
                RunnerAction::Tell(VoiceUpdate::Failure(message)) if message == expected
            ),
            "{expected}"
        );
    }
}

#[test]
fn a_stale_done_says_nothing() {
    let mut runner = live(Backend::OpenAi);
    let done = |id: &str| {
        RunnerEvent::Server(ServerEvent::ResponseDone { response_id: Some(id.to_owned()) })
    };
    runner.step(RunnerEvent::Server(ServerEvent::ResponseCreated {
        response_id: Some("r1".to_owned()),
    }));
    assert!(runner.step(done("r0")).is_empty());
    assert!(matches!(
        runner.step(done("r1")).as_slice(),
        [RunnerAction::Tell(VoiceUpdate::Phase(VoicePhase::Listening))]
    ));
    assert!(runner.step(done("r1")).is_empty(), "a response closes once");
}

#[test]
fn pressing_and_muting_drive_the_workspace_side() {
    let mut voice = Voice { controller: None };
    assert_eq!(voice.voice_status().phase, VoicePhase::Idle);
    assert_eq!(voice.voice_mute_toggle(), Gate::Leave);
    assert_eq!(voice.voice_toggle(), Press::Connect);
    assert_eq!(voice.voice_status().phase, VoicePhase::Connecting);
    voice.voice_update(VoiceUpdate::Mic);
    voice.voice_update(VoiceUpdate::Phase(VoicePhase::Listening));
    assert_eq!(voice.voice_mute_toggle(), Gate::Close);
    assert!(voice.voice_status().muted);
    assert!(!voice.voice_status().meter_open());
    assert_eq!(voice.voice_mute_toggle(), Gate::Open);
    assert!(voice.voice_status().meter_open());
    assert_eq!(voice.voice_toggle(), Press::Stop);
    assert!(voice.controller.is_none());
}

#[test]
fn a_stopped_session_lets_go_of_the_microphone() {
    let mut voice = Voice { controller: None };
    voice.voice_stopped();
    assert!(voice.controller.is_none());
    assert_eq!(voice.voice_toggle(), Press::Connect);
    voice.voice_update(VoiceUpdate::Mic);
    voice.voice_update(VoiceUpdate::Phase(VoicePhase::Speaking));
    voice.voice_stopped();
    let status = voice.voice_status();
    assert_eq!(status.phase, VoicePhase::Error);
    assert_eq!(status.error.as_deref(), Some("the voice session ended"));
    assert!(!status.mic && !status.muted);

    assert_eq!(voice.voice_toggle(), Press::Connect);
    voice.voice_update(VoiceUpdate::Failure("dropped".to_owned()));
    voice.voice_stopped();
    let status = voice.voice_status();
    assert_eq!(status.phase, VoicePhase::Error);
    assert_eq!(status.error.as_deref(), Some("dropped"));
}

#[test]
fn a_barge_in_leaves_the_next_turn_replayable() {
    let mut turn = Turn::new();
    turn.replay.push(&[1]);
    turn.speech_stopped();
    turn.response_created(Some("a".to_owned()));
    turn.replay_safe = false;
    assert_eq!(turn.exhaustion(), Exhaustion::Notify);
    turn.speech_started();
    turn.replay.push(&[2]);
    turn.speech_stopped();
    turn.response_created(Some("b".to_owned()));
    assert_eq!(turn.exhaustion(), Exhaustion::ReplayCommitted);
    turn.replay_safe = false;
    assert_eq!(turn.exhaustion(), Exhaustion::Notify, "its own output counts");
}
