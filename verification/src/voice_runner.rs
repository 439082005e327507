//! The live session's event loop as a state machine: each device, socket or
//! dial event gives the next state and the actions to perform, in order. An
//! action that fails is handed back as an event.
use vstd::prelude::*;
use crate::text::{is_text, join2};
use crate::voice_session::{
    env_key, usable_key, Backend, Endpoint, Told, VoicePhase, VoiceUpdate,
};
use crate::voice_turn::{
    reconnect_events, resend, ClientEvent, Exhaustion, Outgoing, Retained, Turn, TurnState,
};

verus! {

/// What the realtime server says.
pub enum ServerEvent {
    InputAudioBufferSpeechStarted,
    InputAudioBufferSpeechStopped,
    ResponseCreated { response_id: Option<String> },
    FunctionCallArgumentsDelta,
    FunctionCallArgumentsDone,
    OutputAudioDelta { delta: String },
    OutputAudioDone,
    OutputTextDelta,
    OutputTextDone,
    OutputAudioTranscriptDelta,
    OutputAudioTranscriptDone,
    ResponseDone { response_id: Option<String> },
    Error { code: Option<String>, message: Option<String> },
    Other,
}

/// What happens to a running session.
pub enum RunnerEvent {
    /// The audio devices did not open.
    AudioFailed(String),
    /// The audio devices opened, with or without a stream of capture frames.
    AudioReady { frames: bool },
    /// The pending dial landed.
    Dialed,
    /// The pending dial failed; the stock backend's key as it reads now.
    DialFailed { error: String, openai_key: Option<String> },
    CaptureAudio(Vec<i16>),
    /// A stale release boundary.
    CaptureReleased,
    CaptureClosed,
    Server(ServerEvent),
    SessionClosed,
    /// An append or a send no longer reached the socket.
    SendFailed,
    /// Queued assistant audio is playing.
    Played,
    /// Assistant audio did not decode.
    DecodeFailed,
    /// Playing or flushing assistant audio failed.
    PlaybackFailed,
}

/// What has to be done for a session.
pub enum RunnerAction {
    /// Open the audio devices.
    OpenAudio,
    /// Dial the current backend.
    Connect,
    /// Open the microphone gate.
    BeginCapture,
    /// Drop queued assistant audio.
    ClearPlayback,
    /// Send one captured chunk.
    Append(Vec<i16>),
    /// Decode and queue assistant audio.
    Play(String),
    /// Let the queued audio play out.
    Flush,
    /// Give up the current socket.
    Cancel,
    /// Send one event on the fresh socket.
    Send(ClientEvent),
    /// Tell the workspace.
    Tell(VoiceUpdate),
    /// The session is over.
    Stop,
}

/// What a server event carries.
pub enum Said {
    SpeechStarted,
    SpeechStopped,
    ResponseCreated(Option<Seq<char>>),
    CallDelta,
    CallDone,
    AudioDelta(Seq<char>),
    AudioDone,
    /// Assistant text, or a transcript of spoken output.
    Text,
    ResponseDone(Option<Seq<char>>),
    Error(Option<Seq<char>>, Option<Seq<char>>),
    Other,
}

/// What an event carries.
pub enum Heard {
    AudioFailed(Seq<char>),
    AudioReady(bool),
    Dialed,
    DialFailed(Seq<char>, Option<Seq<char>>),
    Capture(Seq<i16>),
    Released,
    CaptureClosed,
    Server(Said),
    SessionClosed,
    SendFailed,
    Played,
    DecodeFailed,
    PlaybackFailed,
}

/// What an action carries.
pub enum Deed {
    OpenAudio,
    Connect,
    BeginCapture,
    ClearPlayback,
    Append(Seq<i16>),
    Play(Seq<char>),
    Flush,
    Cancel,
    Send(Outgoing),
    Tell(Told),
    Stop,
}

impl DeepView for ServerEvent {
    type V = Said;

    open spec fn deep_view(&self) -> Said {
        match self {
            ServerEvent::InputAudioBufferSpeechStarted => Said::SpeechStarted,
            ServerEvent::InputAudioBufferSpeechStopped => Said::SpeechStopped,
            ServerEvent::ResponseCreated { response_id } => Said::ResponseCreated(
                response_id.deep_view(),
            ),
            ServerEvent::FunctionCallArgumentsDelta => Said::CallDelta,
            ServerEvent::FunctionCallArgumentsDone => Said::CallDone,
            ServerEvent::OutputAudioDelta { delta } => Said::AudioDelta(delta@),
            ServerEvent::OutputAudioDone => Said::AudioDone,
            ServerEvent::OutputTextDelta => Said::Text,
            ServerEvent::OutputTextDone => Said::Text,
            ServerEvent::OutputAudioTranscriptDelta => Said::Text,
            ServerEvent::OutputAudioTranscriptDone => Said::Text,
            ServerEvent::ResponseDone { response_id } => Said::ResponseDone(
                response_id.deep_view(),
            ),
            ServerEvent::Error { code, message } => Said::Error(
                code.deep_view(),
                message.deep_view(),
            ),
            ServerEvent::Other => Said::Other,
        }
    }
}

impl DeepView for RunnerEvent {
    type V = Heard;

    open spec fn deep_view(&self) -> Heard {
        match self {
            RunnerEvent::AudioFailed(error) => Heard::AudioFailed(error@),
            RunnerEvent::AudioReady { frames } => Heard::AudioReady(*frames),
            RunnerEvent::Dialed => Heard::Dialed,
            RunnerEvent::DialFailed { error, openai_key } => Heard::DialFailed(
                error@,
                openai_key.deep_view(),
            ),
            RunnerEvent::CaptureAudio(pcm) => Heard::Capture(pcm@),
            RunnerEvent::CaptureReleased => Heard::Released,
            RunnerEvent::CaptureClosed => Heard::CaptureClosed,
            RunnerEvent::Server(event) => Heard::Server(event.deep_view()),
            RunnerEvent::SessionClosed => Heard::SessionClosed,
            RunnerEvent::SendFailed => Heard::SendFailed,
            RunnerEvent::Played => Heard::Played,
            RunnerEvent::DecodeFailed => Heard::DecodeFailed,
            RunnerEvent::PlaybackFailed => Heard::PlaybackFailed,
        }
    }
}

impl DeepView for RunnerAction {
    type V = Deed;

    open spec fn deep_view(&self) -> Deed {
        match self {
            RunnerAction::OpenAudio => Deed::OpenAudio,
            RunnerAction::Connect => Deed::Connect,
            RunnerAction::BeginCapture => Deed::BeginCapture,
            RunnerAction::ClearPlayback => Deed::ClearPlayback,
            RunnerAction::Append(pcm) => Deed::Append(pcm@),
            RunnerAction::Play(delta) => Deed::Play(delta@),
            RunnerAction::Flush => Deed::Flush,
            RunnerAction::Cancel => Deed::Cancel,
            RunnerAction::Send(event) => Deed::Send(event.deep_view()),
            RunnerAction::Tell(update) => Deed::Tell(update.deep_view()),
            RunnerAction::Stop => Deed::Stop,
        }
    }
}

/// How far a session has come.
#[derive(Debug, Clone, Copy, PartialEq, Eq, Structural)]
pub enum Stage {
    /// The audio devices are opening.
    Opening,
    /// The first dial runs.
    Connecting,
    /// The dial of the stock backend runs after the account pool's failed.
    FallingBack,
    /// The socket is up.
    Live,
    /// A credential swap's dial runs; the decision it applies is fixed.
    Redialing(Exhaustion),
    /// The session is over.
    Ended,
}

/// A running session.
pub struct Runner {
    pub backend: Backend,
    pub stage: Stage,
    pub turn: Turn,
}

/// What a session is.
#[verifier::ext_equal]
pub struct Running {
    pub backend: Backend,
    pub stage: Stage,
    pub turn: TurnState,
}

impl View for Runner {
    type V = Running;

    open spec fn view(&self) -> Running {
        Running { backend: self.backend, stage: self.stage, turn: self.turn@ }
    }
}

/// What one event leads to.
#[verifier::ext_equal]
pub struct Outcome {
    pub next: Running,
    pub deeds: Seq<Deed>,
}

/// The phase shown from here on.
pub open spec fn tell_phase(phase: VoicePhase) -> Deed {
    Deed::Tell(Told::Phase(phase))
}

impl Running {
    /// Nothing happens.
    pub open spec fn still(self) -> Outcome {
        Outcome { next: self, deeds: Seq::empty() }
    }

    /// The session moves on.
    pub open spec fn with(self, turn: TurnState, deeds: Seq<Deed>) -> Outcome {
        Outcome { next: Running { turn, ..self }, deeds }
    }

    /// The session ends without a word: the workspace shows the end.
    pub open spec fn over(self) -> Outcome {
        Outcome { next: Running { stage: Stage::Ended, ..self }, deeds: seq![Deed::Stop] }
    }

    /// The session fails with a message.
    pub open spec fn failed(self, message: Seq<char>) -> Outcome {
        Outcome {
            next: Running { stage: Stage::Ended, ..self },
            deeds: seq![Deed::Tell(Told::Failure(message)), Deed::Stop],
        }
    }

    /// A turn that produced output.
    pub open spec fn heard_output(self) -> TurnState {
        TurnState { replay_safe: false, ..self.turn }
    }

    /// What a captured chunk does: it joins the uncommitted utterance, or,
    /// behind a committed one, the next utterance while a dial runs; on a live
    /// socket it is sent.
    pub open spec fn on_capture(self, pcm: Seq<i16>) -> Outcome {
        let turn = if !self.turn.replay.committed {
            TurnState { replay: self.turn.replay.pushed(pcm), ..self.turn }
        } else if self.stage is Redialing {
            TurnState { pending: self.turn.pending.pushed(pcm), ..self.turn }
        } else {
            self.turn
        };
        self.with(
            turn,
            if self.stage is Live {
                seq![Deed::Append(pcm)]
            } else {
                Seq::empty()
            },
        )
    }

    /// Whether a server error asks for the next credential.
    pub open spec fn exhausts(self, code: Option<Seq<char>>) -> bool {
        self.backend is Cpa && code == Some("cpa_credential_exhausted"@)
    }

    /// What a server event does to a live session.
    pub open spec fn on_server(self, event: Said) -> Outcome {
        match event {
            Said::SpeechStarted => self.with(
                self.turn.interrupted(),
                seq![Deed::ClearPlayback, tell_phase(VoicePhase::Listening)],
            ),
            Said::SpeechStopped => self.with(
                self.turn.stopped(),
                seq![tell_phase(VoicePhase::Thinking)],
            ),
            Said::ResponseCreated(id) => self.with(
                self.turn.responding(id),
                seq![tell_phase(VoicePhase::Thinking)],
            ),
            Said::CallDelta => self.with(
                self.heard_output(),
                seq![tell_phase(VoicePhase::Thinking)],
            ),
            Said::CallDone => self.with(
                TurnState { tool_pending: true, ..self.heard_output() },
                seq![tell_phase(VoicePhase::Thinking)],
            ),
            Said::AudioDelta(delta) => self.with(self.heard_output(), seq![Deed::Play(delta)]),
            Said::AudioDone => self.with(self.heard_output(), seq![Deed::Flush]),
            Said::Text => self.with(self.heard_output(), Seq::empty()),
            Said::ResponseDone(id) => if self.turn.closes(id) {
                self.with(
                    self.turn.closed(),
                    if self.turn.tool_pending {
                        Seq::empty()
                    } else {
                        seq![tell_phase(VoicePhase::Listening)]
                    },
                )
            } else {
                self.still()
            },
            Said::Error(code, message) => if self.exhausts(code) {
                Outcome {
                    next: Running { stage: Stage::Redialing(self.turn.exhaustion()), ..self },
                    deeds: seq![Deed::Cancel, Deed::Connect],
                }
            } else {
                self.failed(
                    match message {
                        Some(message) => message,
                        None => "the realtime API returned an error"@,
                    },
                )
            },
            Said::Other => self.still(),
        }
    }

    /// The decision a landed dial applies: a copy that overflowed while the
    /// dial ran is no longer whole.
    pub open spec fn landing(self, decided: Exhaustion) -> Exhaustion {
        if (decided is Reappend || decided is Reconnect) && !self.turn.replay.complete {
            Exhaustion::Notify
        } else {
            decided
        }
    }

    /// What a landed credential swap does: the resend first, then the phase.
    pub open spec fn on_landed(self, decided: Exhaustion) -> Outcome {
        let decision = self.landing(decided);
        let sent = sends(resend(decision, self.turn.replay, self.turn.pending));
        let (turn, told) = match decision {
            Exhaustion::ReplayCommitted => (
                TurnState { pending: Retained::fresh(), ..self.turn },
                Told::Phase(VoicePhase::Thinking),
            ),
            Exhaustion::Reappend => (self.turn, Told::Phase(VoicePhase::Listening)),
            Exhaustion::Notify => (
                TurnState::fresh(),
                Told::Notify("voice account switched mid-turn - please repeat"@),
            ),
            Exhaustion::Reconnect => (TurnState::fresh(), Told::Phase(VoicePhase::Listening)),
        };
        Outcome {
            next: Running { stage: Stage::Live, turn, ..self },
            deeds: sent.push(Deed::Tell(told)),
        }
    }

    /// What a failed dial does: the account pool's first dial falls back to
    /// the stock backend while its key is usable; every other failure ends the
    /// session.
    pub open spec fn on_dial_failed(self, error: Seq<char>, openai_key: Option<Seq<char>>) -> Outcome {
        if self.stage is Connecting && self.backend is Cpa && usable_key(openai_key) is Some {
            Outcome {
                next: Running { backend: Backend::OpenAi, stage: Stage::FallingBack, ..self },
                deeds: seq![Deed::Connect],
            }
        } else {
            self.failed("voice session: "@ + error)
        }
    }

    /// What one event leads to. Each event counts only in the stages that wait
    /// for it: while a dial runs, nothing of the old socket is heard.
    pub open spec fn step(self, event: Heard) -> Outcome {
        match (self.stage, event) {
            (Stage::Opening, Heard::AudioFailed(error)) => self.failed("voice audio: "@ + error),
            (Stage::Opening, Heard::AudioReady(true)) => Outcome {
                next: Running { stage: Stage::Connecting, ..self },
                deeds: seq![Deed::Connect],
            },
            (Stage::Opening, Heard::AudioReady(false)) => self.failed(
                "voice capture did not start"@,
            ),
            (Stage::Connecting, Heard::Dialed) => self.on_connected(),
            (Stage::FallingBack, Heard::Dialed) => self.on_connected(),
            (Stage::Redialing(decided), Heard::Dialed) => self.on_landed(decided),
            (Stage::Connecting, Heard::DialFailed(error, key)) => self.on_dial_failed(error, key),
            (Stage::FallingBack, Heard::DialFailed(error, key)) => self.on_dial_failed(error, key),
            (Stage::Redialing(_), Heard::DialFailed(error, key)) => self.on_dial_failed(
                error,
                key,
            ),
            (Stage::Live, Heard::Capture(pcm)) => self.on_capture(pcm),
            (Stage::Redialing(_), Heard::Capture(pcm)) => self.on_capture(pcm),
            (Stage::Live, Heard::CaptureClosed) => self.over(),
            (Stage::Redialing(_), Heard::CaptureClosed) => self.over(),
            (Stage::Live, Heard::Server(event)) => self.on_server(event),
            (Stage::Live, Heard::SessionClosed) => self.over(),
            (Stage::Live, Heard::SendFailed) => self.failed("the voice connection dropped"@),
            (Stage::Live, Heard::Played) => self.with(
                self.turn,
                seq![tell_phase(VoicePhase::Speaking)],
            ),
            (Stage::Live, Heard::DecodeFailed) => self.failed("voice audio decode failed"@),
            (Stage::Live, Heard::PlaybackFailed) => self.failed("voice playback failed"@),
            _ => self.still(),
        }
    }

    /// The first socket is up: the microphone opens for the session's life.
    pub open spec fn on_connected(self) -> Outcome {
        Outcome {
            next: Running { stage: Stage::Live, ..self },
            deeds: seq![
                Deed::Tell(Told::Mic),
                Deed::BeginCapture,
                tell_phase(VoicePhase::Listening),
            ],
        }
    }

    /// What holds of every session: the resend window is open exactly while
    /// the retained audio is committed, capture is set aside only behind a
    /// committed replay while a dial runs, and the decision of a running dial
    /// fits the retained audio.
    pub open spec fn inv(self) -> bool {
        &&& self.turn.turn_open == self.turn.replay.committed
        &&& !(self.stage is Redialing) ==> self.turn.pending == Retained::fresh()
            || self.stage is Ended
        &&& !self.turn.replay.committed ==> self.turn.pending == Retained::fresh()
            || self.stage is Ended
        &&& self.stage matches Stage::Redialing(decided) ==> {
            &&& decided is ReplayCommitted ==> self.turn.replay.committed
                && self.turn.replay.complete
            &&& decided is Reappend || decided is Reconnect ==> !self.turn.replay.committed
        }
    }
}

fn fail(actions: &mut Vec<RunnerAction>, message: String)
    ensures
        final(actions).deep_view() == old(actions).deep_view().push(
            Deed::Tell(Told::Failure(message@)),
        ).push(Deed::Stop),
{
    let ghost before = actions.deep_view();
    actions.push(RunnerAction::Tell(VoiceUpdate::Failure(message)));
    actions.push(RunnerAction::Stop);
    proof {
        assert(actions.deep_view() =~= before.push(Deed::Tell(Told::Failure(message@))).push(
            Deed::Stop,
        ));
    }
}

fn act(actions: &mut Vec<RunnerAction>, action: RunnerAction)
    ensures
        final(actions).deep_view() == old(actions).deep_view().push(action.deep_view()),
{
    let ghost before = actions.deep_view();
    actions.push(action);
    proof {
        assert(actions.deep_view() =~= before.push(action.deep_view()));
    }
}

fn show(actions: &mut Vec<RunnerAction>, phase: VoicePhase)
    ensures
        final(actions).deep_view() == old(actions).deep_view().push(tell_phase(phase)),
{
    act(actions, RunnerAction::Tell(VoiceUpdate::Phase(phase)));
}

/// Each event on the fresh socket, in order.
pub open spec fn sends(events: Seq<Outgoing>) -> Seq<Deed> {
    events.map_values(|event: Outgoing| Deed::Send(event))
}

fn send_all(events: Vec<ClientEvent>, actions: &mut Vec<RunnerAction>)
    requires
        old(actions).deep_view() == Seq::<Deed>::empty(),
    ensures
        final(actions).deep_view() == sends(events.deep_view()),
{
    let ghost all = sends(events.deep_view());
    proof {
        assert(actions.deep_view() =~= all.take(0));
    }
    for event in it: events
        invariant
            all == sends(events.deep_view()),
            it.seq() == events@,
            actions.deep_view() == all.take(it.index() as int),
    {
        proof {
            assert(all[it.index() as int] == Deed::Send(event.deep_view()));
            assert(all.take(it.index() + 1) =~= all.take(it.index() as int).push(
                Deed::Send(event.deep_view()),
            ));
        }
        act(actions, RunnerAction::Send(event));
    }
    proof {
        assert(all.take(all.len() as int) =~= all);
    }
}

impl Runner {
    /// The turn's buffers stay under the cap.
    pub open spec fn wf(&self) -> bool {
        self.turn.wf()
    }

    /// A session about to open its audio devices.
    pub fn start(endpoint: &Endpoint) -> (r: (Runner, Vec<RunnerAction>))
        ensures
            r.0.wf(),
            r.0@ == (Running {
                backend: endpoint.backend,
                stage: Stage::Opening,
                turn: TurnState::fresh(),
            }),
            r.1.deep_view() == seq![Deed::OpenAudio],
    {
        let mut actions: Vec<RunnerAction> = Vec::new();
        act(&mut actions, RunnerAction::OpenAudio);
        proof {
            assert(actions.deep_view() =~= seq![Deed::OpenAudio]);
        }
        (Runner { backend: endpoint.backend, stage: Stage::Opening, turn: Turn::new() }, actions)
    }

    /// Retains one captured chunk, and sends it while the socket is up.
    fn capture(&mut self, pcm: Vec<i16>, actions: &mut Vec<RunnerAction>)
        requires
            old(self).wf(),
            old(self).stage is Live || old(self).stage is Redialing,
            old(actions).deep_view() == Seq::<Deed>::empty(),
        ensures
            final(self).wf(),
            final(self)@ == old(self)@.on_capture(pcm@).next,
            final(actions).deep_view() == old(self)@.on_capture(pcm@).deeds,
    {
        let dialing: bool = match self.stage {
            Stage::Redialing(_) => true,
            _ => false,
        };
        if self.turn.replay.committed {
            if dialing {
                self.turn.pending.push(pcm.as_slice());
            }
        } else {
            self.turn.replay.push(pcm.as_slice());
        }
        if !dialing {
            act(actions, RunnerAction::Append(pcm));
            proof {
                assert(actions.deep_view() =~= seq![Deed::Append(pcm@)]);
            }
        }
    }

    /// Applies one server event to a live session.
    fn server(&mut self, event: ServerEvent, actions: &mut Vec<RunnerAction>)
        requires
            old(self).wf(),
            old(self).stage is Live,
            old(actions).deep_view() == Seq::<Deed>::empty(),
        ensures
            final(self).wf(),
            final(self)@ == old(self)@.on_server(event.deep_view()).next,
            final(actions).deep_view() == old(self)@.on_server(event.deep_view()).deeds,
    {
        match event {
            ServerEvent::InputAudioBufferSpeechStarted => {
                act(actions, RunnerAction::ClearPlayback);
                self.turn.speech_started();
                show(actions, VoicePhase::Listening);
            },
            ServerEvent::InputAudioBufferSpeechStopped => {
                self.turn.speech_stopped();
                show(actions, VoicePhase::Thinking);
            },
            ServerEvent::ResponseCreated { response_id } => {
                self.turn.response_created(response_id);
                show(actions, VoicePhase::Thinking);
            },
            ServerEvent::FunctionCallArgumentsDelta => {
                self.turn.replay_safe = false;
                show(actions, VoicePhase::Thinking);
            },
            ServerEvent::FunctionCallArgumentsDone => {
                self.turn.tool_pending = true;
                self.turn.replay_safe = false;
                show(actions, VoicePhase::Thinking);
            },
            ServerEvent::OutputAudioDelta { delta } => {
                self.turn.replay_safe = false;
                act(actions, RunnerAction::Play(delta));
            },
            ServerEvent::OutputAudioDone => {
                self.turn.replay_safe = false;
                act(actions, RunnerAction::Flush);
            },
            ServerEvent::OutputTextDelta | ServerEvent::OutputTextDone
            | ServerEvent::OutputAudioTranscriptDelta
            | ServerEvent::OutputAudioTranscriptDone => {
                self.turn.replay_safe = false;
            },
            ServerEvent::ResponseDone { response_id } => {
                let id: Option<&str> = match &response_id {
                    Some(id) => Some(id.as_str()),
                    None => None,
                };
                if self.turn.response_done(id) && !self.turn.tool_pending {
                    show(actions, VoicePhase::Listening);
                }
            },
            ServerEvent::Error { code, message } => {
                if self.backend == Backend::Cpa && is_text(&code, "cpa_credential_exhausted") {
                    self.stage = Stage::Redialing(self.turn.exhaustion());
                    act(actions, RunnerAction::Cancel);
                    act(actions, RunnerAction::Connect);
                } else {
                    let message: String = match message {
                        Some(message) => message,
                        None => "the realtime API returned an error".to_owned(),
                    };
                    fail(actions, message);
                    self.stage = Stage::Ended;
                }
            },
            ServerEvent::Other => {},
        }
        proof {
            assert(actions.deep_view() =~= old(self)@.on_server(event.deep_view()).deeds);
        }
    }

    /// Applies a landed credential swap.
    fn land(&mut self, decided: Exhaustion, actions: &mut Vec<RunnerAction>)
        requires
            old(self).wf(),
            old(actions).deep_view() == Seq::<Deed>::empty(),
        ensures
            final(self).wf(),
            final(self)@ == old(self)@.on_landed(decided).next,
            final(actions).deep_view() == old(self)@.on_landed(decided).deeds,
    {
        let decision: Exhaustion = match decided {
            Exhaustion::Reappend | Exhaustion::Reconnect => {
                if !self.turn.replay.complete {
                    Exhaustion::Notify
                } else {
                    decided
                }
            },
            other => other,
        };
        let events: Vec<ClientEvent> = reconnect_events(
            decision,
            &self.turn.replay,
            &self.turn.pending,
        );
        send_all(events, actions);
        self.stage = Stage::Live;
        match decision {
            Exhaustion::ReplayCommitted => {
                self.turn.pending.clear();
                show(actions, VoicePhase::Thinking);
            },
            Exhaustion::Reappend => {
                show(actions, VoicePhase::Listening);
            },
            Exhaustion::Notify => {
                self.turn.reset_for_reconnect();
                act(
                    actions,
                    RunnerAction::Tell(
                        VoiceUpdate::Notify(
                            "voice account switched mid-turn - please repeat".to_owned(),
                        ),
                    ),
                );
            },
            Exhaustion::Reconnect => {
                self.turn.reset_for_reconnect();
                show(actions, VoicePhase::Listening);
            },
        }
    }

    /// Applies a failed dial.
    fn dial_failed(
        &mut self,
        error: String,
        openai_key: Option<String>,
        actions: &mut Vec<RunnerAction>,
    )
        requires
            old(self).wf(),
            old(actions).deep_view() == Seq::<Deed>::empty(),
        ensures
            final(self).wf(),
            final(self)@ == old(self)@.on_dial_failed(error@, openai_key.deep_view()).next,
            final(actions).deep_view() == old(self)@.on_dial_failed(
                error@,
                openai_key.deep_view(),
            ).deeds,
    {
        let key: Option<String> = match &openai_key {
            Some(key) => env_key(Some(key.as_str())),
            None => None,
        };
        if self.stage == Stage::Connecting && self.backend == Backend::Cpa && key.is_some() {
            self.backend = Backend::OpenAi;
            self.stage = Stage::FallingBack;
            act(actions, RunnerAction::Connect);
        } else {
            fail(actions, join2("voice session: ", error.as_str()));
            self.stage = Stage::Ended;
        }
        proof {
            assert(actions.deep_view() =~= old(self)@.on_dial_failed(
                error@,
                openai_key.deep_view(),
            ).deeds);
        }
    }

    /// The first socket is up.
    fn connected(&mut self, actions: &mut Vec<RunnerAction>)
        requires
            old(self).wf(),
            old(actions).deep_view() == Seq::<Deed>::empty(),
        ensures
            final(self).wf(),
            final(self)@ == old(self)@.on_connected().next,
            final(actions).deep_view() == old(self)@.on_connected().deeds,
    {
        act(actions, RunnerAction::Tell(VoiceUpdate::Mic));
        act(actions, RunnerAction::BeginCapture);
        show(actions, VoicePhase::Listening);
        self.stage = Stage::Live;
        proof {
            assert(actions.deep_view() =~= old(self)@.on_connected().deeds);
        }
    }

    /// Ends the session with a message.
    fn end(&mut self, message: &str, actions: &mut Vec<RunnerAction>)
        requires
            old(self).wf(),
            old(actions).deep_view() == Seq::<Deed>::empty(),
        ensures
            final(self).wf(),
            final(self)@ == old(self)@.failed(message@).next,
            final(actions).deep_view() == old(self)@.failed(message@).deeds,
    {
        fail(actions, message.to_owned());
        self.stage = Stage::Ended;
        proof {
            assert(actions.deep_view() =~= old(self)@.failed(message@).deeds);
        }
    }

    /// Ends the session without a message.
    fn finish(&mut self, actions: &mut Vec<RunnerAction>)
        requires
            old(self).wf(),
            old(actions).deep_view() == Seq::<Deed>::empty(),
        ensures
            final(self).wf(),
            final(self)@ == old(self)@.over().next,
            final(actions).deep_view() == old(self)@.over().deeds,
    {
        act(actions, RunnerAction::Stop);
        self.stage = Stage::Ended;
        proof {
            assert(actions.deep_view() =~= old(self)@.over().deeds);
        }
    }

    /// Applies one event: the session's next state, and what has to be done in
    /// order. The first action that fails is handed back as an event, and the
    /// actions behind it are dropped.
    pub fn step(&mut self, event: RunnerEvent) -> (r: Vec<RunnerAction>)
        requires
            old(self).wf(),
        ensures
            final(self).wf(),
            final(self)@ == old(self)@.step(event.deep_view()).next,
            r.deep_view() == old(self)@.step(event.deep_view()).deeds,
    {
        let mut actions: Vec<RunnerAction> = Vec::new();
        proof {
            assert(actions.deep_view() =~= Seq::<Deed>::empty());
        }
        match (self.stage, event) {
            (Stage::Opening, RunnerEvent::AudioFailed(error)) => {
                self.end(join2("voice audio: ", error.as_str()).as_str(), &mut actions);
            },
            (Stage::Opening, RunnerEvent::AudioReady { frames }) => {
                if frames {
                    self.stage = Stage::Connecting;
                    act(&mut actions, RunnerAction::Connect);
                    proof {
                        assert(actions.deep_view() =~= seq![Deed::Connect]);
                    }
                } else {
                    self.end("voice capture did not start", &mut actions);
                }
            },
            (Stage::Connecting, RunnerEvent::Dialed) | (
                Stage::FallingBack,
                RunnerEvent::Dialed,
            ) => {
                self.connected(&mut actions);
            },
            (Stage::Redialing(decided), RunnerEvent::Dialed) => {
                self.land(decided, &mut actions);
            },
            (Stage::Connecting, RunnerEvent::DialFailed { error, openai_key }) => {
                self.dial_failed(error, openai_key, &mut actions);
            },
            (Stage::FallingBack, RunnerEvent::DialFailed { error, openai_key }) => {
                self.dial_failed(error, openai_key, &mut actions);
            },
            (Stage::Redialing(_), RunnerEvent::DialFailed { error, openai_key }) => {
                self.dial_failed(error, openai_key, &mut actions);
            },
            (Stage::Live, RunnerEvent::CaptureAudio(pcm)) => {
                self.capture(pcm, &mut actions);
            },
            (Stage::Redialing(_), RunnerEvent::CaptureAudio(pcm)) => {
                self.capture(pcm, &mut actions);
            },
            (Stage::Live, RunnerEvent::CaptureClosed) | (
                Stage::Redialing(_),
                RunnerEvent::CaptureClosed,
            ) | (Stage::Live, RunnerEvent::SessionClosed) => {
                self.finish(&mut actions);
            },
            (Stage::Live, RunnerEvent::Server(event)) => {
                self.server(event, &mut actions);
            },
            (Stage::Live, RunnerEvent::SendFailed) => {
                self.end("the voice connection dropped", &mut actions);
            },
            (Stage::Live, RunnerEvent::Played) => {
                show(&mut actions, VoicePhase::Speaking);
                proof {
                    assert(actions.deep_view() =~= seq![tell_phase(VoicePhase::Speaking)]);
                }
            },
            (Stage::Live, RunnerEvent::DecodeFailed) => {
                self.end("voice audio decode failed", &mut actions);
            },
            (Stage::Live, RunnerEvent::PlaybackFailed) => {
                self.end("voice playback failed", &mut actions);
            },
            _ => {},
        }
        actions
    }
}

/// Every event keeps what holds of every session.
pub proof fn every_step_keeps_the_session_sound(session: Running, event: Heard)
    requires
        session.inv(),
    ensures
        session.step(event).next.inv(),
{
}

/// A session that has just been started is sound.
pub proof fn a_fresh_session_is_sound(backend: Backend)
    ensures
        (Running { backend, stage: Stage::Opening, turn: TurnState::fresh() }).inv(),
{
}

/// A session that is over stays over and does nothing more.
pub proof fn an_ended_session_stays_silent(session: Running, event: Heard)
    requires
        session.stage is Ended,
    ensures
        session.step(event) == session.still(),
{
}

/// A failure is the last thing a session says: it ends with it.
pub proof fn a_failure_ends_the_session(session: Running, event: Heard, i: int)
    requires
        0 <= i < session.step(event).deeds.len(),
        session.step(event).deeds[i] matches Deed::Tell(told) && told is Failure,
    ensures
        session.step(event).next.stage is Ended,
        session.step(event).deeds.last() is Stop,
{
    if session.stage is Redialing && event is Dialed {
        let decision = session.landing(session.stage->Redialing_0);
        let events = resend(decision, session.turn.replay, session.turn.pending);
        if i < events.len() {
            assert(sends(events)[i] is Send);
        }
    }
}

/// While a credential swap's dial runs, nothing is sent to or heard from the
/// dead socket, and a committed utterance stays as it was committed.
pub proof fn a_running_dial_freezes_the_committed_turn(session: Running, event: Heard)
    requires
        session.stage is Redialing,
        event is Capture || event is Server || event is Released,
    ensures
        session.step(event).deeds == Seq::<Deed>::empty(),
        session.step(event).next.stage == session.stage,
        session.turn.replay.committed ==> session.step(event).next.turn.replay
            == session.turn.replay,
{
}

/// Capture is never lost in a swap that keeps the utterance: a chunk that
/// arrives while the dial runs is the last one the fresh socket is sent.
pub proof fn capture_during_a_swap_reaches_the_fresh_socket(
    session: Running,
    decided: Exhaustion,
    pcm: Seq<i16>,
)
    requires
        session.inv(),
        session.stage == Stage::Redialing(decided),
        session.on_capture(pcm).next.turn.replay.complete,
        session.on_capture(pcm).next.turn.pending.complete,
        decided is Notify ==> session.turn.replay.committed,
    ensures
        ({
            let later = session.step(Heard::Capture(pcm)).next;
            let landed = later.step(Heard::Dialed);
            let sent = crate::codec::standard_base64(crate::codec::pcm16_bytes(pcm));
            &&& landed.deeds.len() >= 2
            &&& landed.deeds[landed.deeds.len() - 2] == Deed::Send(Outgoing::Append(sent))
        }),
{
    let later = session.step(Heard::Capture(pcm)).next;
    let decision = later.landing(decided);
    assert(decision == decided);
    let events = resend(decision, later.turn.replay, later.turn.pending);
    let chunks = if session.turn.replay.committed {
        later.turn.pending.chunks
    } else {
        later.turn.replay.chunks
    };
    assert(chunks.last() == pcm);
}

} // verus!
