//! The live voice session as the workspace sees it: the shared status, the
//! press and mute rules, and the choice of the realtime backend.
use vstd::prelude::*;
use crate::text::{same_option, trim, trimmed};

verus! {

/// The minimal phase every composer mirrors on its mic button.
#[derive(Debug, Clone, Copy, PartialEq, Eq, Structural)]
pub enum VoicePhase {
    /// No live session.
    Idle,
    /// First press in flight.
    Connecting,
    /// Microphone gate open; the server listens for the next utterance.
    Listening,
    /// The model is generating or running tools.
    Thinking,
    /// Assistant audio is arriving or playing.
    Speaking,
    /// Last attempt failed; the next press reconnects.
    Error,
}

impl Default for VoicePhase {
    fn default() -> (r: Self)
        ensures
            r is Idle,
    {
        VoicePhase::Idle
    }
}

impl VoicePhase {
    /// The session's gate is open: it listens, thinks or speaks.
    pub open spec fn live(self) -> bool {
        self is Listening || self is Thinking || self is Speaking
    }
}

/// The snapshot pushed to every pane composer.
pub struct VoiceStatus {
    pub phase: VoicePhase,
    pub error: Option<String>,
    /// A capture handle is held.
    pub mic: bool,
    /// The live-session mic gate is closed.
    pub muted: bool,
}

/// What a status shows.
#[verifier::ext_equal]
pub struct Shown {
    pub phase: VoicePhase,
    pub error: Option<Seq<char>>,
    pub mic: bool,
    pub muted: bool,
}

impl View for VoiceStatus {
    type V = Shown;

    open spec fn view(&self) -> Shown {
        Shown {
            phase: self.phase,
            error: self.error.deep_view(),
            mic: self.mic,
            muted: self.muted,
        }
    }
}

impl Shown {
    /// No session.
    pub open spec fn idle() -> Shown {
        Shown { phase: VoicePhase::Idle, error: None, mic: false, muted: false }
    }

    /// A session that has just been started.
    pub open spec fn connecting() -> Shown {
        Shown { phase: VoicePhase::Connecting, ..Shown::idle() }
    }
}

impl Default for VoiceStatus {
    fn default() -> (r: Self)
        ensures
            r@ == Shown::idle(),
    {
        VoiceStatus { phase: VoicePhase::Idle, error: None, mic: false, muted: false }
    }
}

impl VoiceStatus {
    /// Whether the meter may show the microphone's level: it is not muted and
    /// a handle is held. Everywhere else the level reads zero.
    pub fn meter_open(&self) -> (r: bool)
        ensures
            r == (!self.muted && self.mic),
    {
        !self.muted && self.mic
    }

    /// Whether two snapshots paint alike.
    pub fn same_as(&self, other: &VoiceStatus) -> (r: bool)
        ensures
            r == (self@ == other@),
    {
        self.phase == other.phase && same_option(&self.error, &other.error) && self.muted
            == other.muted && self.mic == other.mic
    }
}

/// What a mic-button press does.
#[derive(Debug, Clone, Copy, PartialEq, Eq, Structural)]
pub enum Press {
    /// No live session: connect, then open the microphone for good.
    Connect,
    /// The live session is running: tear it down.
    Stop,
}

/// Live mode is a strict toggle: a press stops a running session and starts
/// one from everywhere else.
pub fn press_decision(alive: bool, phase: VoicePhase) -> (r: Press)
    ensures
        r == press_of(alive, phase),
{
    match (alive, phase) {
        (true, VoicePhase::Idle) | (true, VoicePhase::Error) | (false, _) => Press::Connect,
        (true, _) => Press::Stop,
    }
}

/// What a mute request does.
#[derive(Debug, Clone, Copy, PartialEq, Eq, Structural)]
pub enum Mute {
    /// Flip the capture gate on the live session.
    Toggle,
    /// No live session, or a phase where muting means nothing.
    Skip,
}

/// Muting only means something while the session's gate is open.
pub fn mute_decision(alive: bool, phase: VoicePhase) -> (r: Mute)
    ensures
        r == mute_of(alive, phase),
{
    match (alive, phase) {
        (true, VoicePhase::Listening) | (true, VoicePhase::Thinking) | (
            true,
            VoicePhase::Speaking,
        ) => Mute::Toggle,
        _ => Mute::Skip,
    }
}

/// Updates from the running session back to the workspace.
pub enum VoiceUpdate {
    Phase(VoicePhase),
    Failure(String),
    /// Marks the phase Error and keeps the notice past the turn.
    Notify(String),
    /// The capture handle arrived.
    Mic,
}

/// What an update carries.
pub enum Told {
    Phase(VoicePhase),
    Failure(Seq<char>),
    Notify(Seq<char>),
    Mic,
}

impl DeepView for VoiceUpdate {
    type V = Told;

    open spec fn deep_view(&self) -> Told {
        match self {
            VoiceUpdate::Phase(phase) => Told::Phase(*phase),
            VoiceUpdate::Failure(message) => Told::Failure(message@),
            VoiceUpdate::Notify(message) => Told::Notify(message@),
            VoiceUpdate::Mic => Told::Mic,
        }
    }
}

/// What has to be done to the capture gate.
#[derive(Debug, Clone, Copy, PartialEq, Eq, Structural)]
pub enum Gate {
    Leave,
    Open,
    Close,
}

/// One voice session's state on the workspace's side.
pub struct VoiceController {
    pub status: VoiceStatus,
    /// False once the session has ended; the next press reconnects.
    pub alive: bool,
}

/// The workspace's voice state: at most one controller.
pub struct Voice {
    pub controller: Option<VoiceController>,
}

/// What the workspace knows of a voice session.
#[verifier::ext_equal]
pub struct VoiceState {
    pub alive: bool,
    pub shown: Shown,
}

/// The workspace's voice session, if it has one.
pub open spec fn voice_state(voice: Voice) -> Option<VoiceState> {
    match voice.controller {
        None => None,
        Some(controller) => Some(
            VoiceState { alive: controller.alive, shown: controller.status@ },
        ),
    }
}

/// What a press does to a session.
pub open spec fn press_of(alive: bool, phase: VoicePhase) -> Press {
    if alive && (phase is Connecting || phase.live()) {
        Press::Stop
    } else {
        Press::Connect
    }
}

/// What a press does in a workspace.
pub open spec fn press_in(state: Option<VoiceState>) -> Press {
    match state {
        None => Press::Connect,
        Some(state) => press_of(state.alive, state.shown.phase),
    }
}

/// The session after a press.
pub open spec fn pressed(state: Option<VoiceState>) -> Option<VoiceState> {
    match press_in(state) {
        Press::Connect => Some(VoiceState { alive: true, shown: Shown::connecting() }),
        Press::Stop => None,
    }
}

/// What a mute request does to a session.
pub open spec fn mute_of(alive: bool, phase: VoicePhase) -> Mute {
    if alive && phase.live() {
        Mute::Toggle
    } else {
        Mute::Skip
    }
}

/// The session after a mute request.
pub open spec fn mute_toggled(state: Option<VoiceState>) -> Option<VoiceState> {
    match state {
        Some(session) if mute_of(session.alive, session.shown.phase) is Toggle => Some(
            VoiceState {
                shown: Shown { muted: !session.shown.muted, ..session.shown },
                ..session
            },
        ),
        _ => state,
    }
}

/// What a mute request does to the capture gate: only a live session's gate
/// moves, and only where a handle is held.
pub open spec fn gate_after_mute(state: Option<VoiceState>) -> Gate {
    match state {
        Some(session) if mute_of(session.alive, session.shown.phase) is Toggle
            && session.shown.mic => if session.shown.muted {
            Gate::Open
        } else {
            Gate::Close
        },
        _ => Gate::Leave,
    }
}

/// The status after one update.
pub open spec fn updated(shown: Shown, told: Told) -> Shown {
    match told {
        Told::Phase(phase) => Shown { phase, error: None, ..shown },
        Told::Failure(message) => Shown {
            phase: VoicePhase::Error,
            error: Some(message),
            ..shown
        },
        Told::Notify(message) => Shown {
            phase: VoicePhase::Error,
            error: Some(message),
            ..shown
        },
        Told::Mic => Shown { mic: true, ..shown },
    }
}

/// The status after the session ended: an error stays on screen, a session
/// that was still running becomes one.
pub open spec fn ended(shown: Shown) -> Shown {
    if shown.phase is Connecting || shown.phase.live() {
        Shown {
            phase: VoicePhase::Error,
            error: Some("the voice session ended"@),
            mic: false,
            muted: false,
        }
    } else {
        Shown { mic: false, muted: false, ..shown }
    }
}

impl Voice {
    /// The shared status every pane composer renders.
    pub fn voice_status(&self) -> (r: VoiceStatus)
        ensures
            r@ == (match voice_state(*self) {
                None => Shown::idle(),
                Some(state) => state.shown,
            }),
    {
        match &self.controller {
            None => VoiceStatus::default(),
            Some(controller) => VoiceStatus {
                phase: controller.status.phase,
                error: crate::text::copy_option(&controller.status.error),
                mic: controller.status.mic,
                muted: controller.status.muted,
            },
        }
    }

    /// One mic-button press: it stops a running session, and starts a fresh
    /// one from everywhere else. Returns what was decided.
    pub fn voice_toggle(&mut self) -> (r: Press)
        ensures
            r == press_in(voice_state(*old(self))),
            voice_state(*final(self)) == pressed(voice_state(*old(self))),
    {
        let decision: Press = match &self.controller {
            None => press_decision(false, VoicePhase::Idle),
            Some(controller) => press_decision(controller.alive, controller.status.phase),
        };
        match decision {
            Press::Connect => {
                self.controller = Some(
                    VoiceController {
                        status: VoiceStatus {
                            phase: VoicePhase::Connecting,
                            error: None,
                            mic: false,
                            muted: false,
                        },
                        alive: true,
                    },
                );
            },
            Press::Stop => {
                self.controller = None;
            },
        }
        decision
    }

    /// The global mic-mute toggle: it flips the flag of a live session and
    /// moves the capture gate where a handle is held. Everything else of the
    /// session stays as it is.
    pub fn voice_mute_toggle(&mut self) -> (r: Gate)
        ensures
            r == gate_after_mute(voice_state(*old(self))),
            voice_state(*final(self)) == mute_toggled(voice_state(*old(self))),
    {
        let mut controller = match self.controller.take() {
            None => return Gate::Leave,
            Some(controller) => controller,
        };
        if mute_decision(controller.alive, controller.status.phase) == Mute::Skip {
            self.controller = Some(controller);
            return Gate::Leave;
        }
        controller.status.muted = !controller.status.muted;
        let gate: Gate = if !controller.status.mic {
            Gate::Leave
        } else if controller.status.muted {
            Gate::Close
        } else {
            Gate::Open
        };
        self.controller = Some(controller);
        gate
    }

    /// Applies one update of the running session. A queued mute closes the
    /// gate of a capture handle that arrives late.
    pub fn voice_update(&mut self, update: VoiceUpdate) -> (r: Gate)
        ensures
            voice_state(*old(self)) is None ==> voice_state(*final(self)) is None && r is Leave,
            voice_state(*old(self)) matches Some(state) ==> {
                &&& voice_state(*final(self)) == Some(
                    VoiceState { shown: updated(state.shown, update.deep_view()), ..state },
                )
                &&& r == (if update is Mic && state.shown.muted {
                    Gate::Close
                } else {
                    Gate::Leave
                })
            },
    {
        let mut gate: Gate = Gate::Leave;
        let mut controller = match self.controller.take() {
            None => return Gate::Leave,
            Some(controller) => controller,
        };
        match update {
            VoiceUpdate::Phase(phase) => {
                controller.status.phase = phase;
                controller.status.error = None;
            },
            VoiceUpdate::Failure(message) => {
                controller.status.phase = VoicePhase::Error;
                controller.status.error = Some(message);
            },
            VoiceUpdate::Notify(message) => {
                controller.status.phase = VoicePhase::Error;
                controller.status.error = Some(message);
            },
            VoiceUpdate::Mic => {
                if controller.status.muted {
                    gate = Gate::Close;
                }
                controller.status.mic = true;
            },
        }
        self.controller = Some(controller);
        gate
    }

    /// The session ended: the last error stays visible and the next press
    /// reconnects.
    pub fn voice_stopped(&mut self)
        ensures
            voice_state(*final(self)) == (match voice_state(*old(self)) {
                None => None,
                Some(state) => Some(VoiceState { alive: false, shown: ended(state.shown) }),
            }),
    {
        let mut controller = match self.controller.take() {
            None => return,
            Some(controller) => controller,
        };
        controller.alive = false;
        controller.status.mic = false;
        controller.status.muted = false;
        match controller.status.phase {
            VoicePhase::Connecting | VoicePhase::Listening | VoicePhase::Thinking
            | VoicePhase::Speaking => {
                controller.status.phase = VoicePhase::Error;
                controller.status.error = Some("the voice session ended".to_owned());
            },
            _ => {},
        }
        self.controller = Some(controller);
    }
}

/// A usable key: what is left of an environment value without the white space
/// around it, unless nothing is.
pub open spec fn usable_key(env: Option<Seq<char>>) -> Option<Seq<char>> {
    match env {
        Some(value) if trimmed(value).len() > 0 => Some(trimmed(value)),
        _ => None,
    }
}

pub fn env_key(env: Option<&str>) -> (r: Option<String>)
    ensures
        r.deep_view() == usable_key(env.deep_view()),
{
    match env {
        None => None,
        Some(value) => {
            let key: String = trim(value);
            if key.as_str().is_empty() {
                None
            } else {
                Some(key)
            }
        },
    }
}

/// Which realtime backend the session is talking to.
#[derive(Debug, Clone, Copy, PartialEq, Eq, Structural)]
pub enum Backend {
    /// The account pool, against the snapshot's endpoint.
    Cpa,
    /// The stock endpoint.
    OpenAi,
}

/// The resolved backend plus its socket URL.
#[derive(Debug)]
pub struct Endpoint {
    pub backend: Backend,
    pub url: String,
}

/// What an endpoint names.
#[verifier::ext_equal]
pub struct Place {
    pub backend: Backend,
    pub url: Seq<char>,
}

impl View for Endpoint {
    type V = Place;

    open spec fn view(&self) -> Place {
        Place { backend: self.backend, url: self.url@ }
    }
}

/// The start-time freeze of settings and environment that a session dials
/// with.
pub struct VoiceStartSnapshot {
    pub endpoint: String,
    pub model: String,
    /// The session settings, serialized.
    pub session: String,
}

impl VoiceStartSnapshot {
    /// The account pool's resolved endpoint.
    pub fn cpa_endpoint(&self) -> (r: String)
        ensures
            r@ == self.endpoint@,
    {
        self.endpoint.clone()
    }
}

/// Picks the backend and endpoint without touching the network: the account
/// pool wins whenever its key is usable, the stock endpoint is next.
pub fn resolve_backend(
    cpa_key: Option<&str>,
    openai_key: Option<&str>,
    snapshot: &VoiceStartSnapshot,
) -> (r: Result<Endpoint, String>)
    ensures
        r is Err <==> usable_key(cpa_key.deep_view()) is None && usable_key(
            openai_key.deep_view(),
        ) is None,
        r matches Err(message) ==> message@
            == "set CPA_API_KEY or OPENAI_API_KEY to use voice"@,
        usable_key(cpa_key.deep_view()) is Some ==> r is Ok && r->Ok_0@ == (Place {
            backend: Backend::Cpa,
            url: snapshot.endpoint@,
        }),
        usable_key(cpa_key.deep_view()) is None && r is Ok ==> r->Ok_0@ == (Place {
            backend: Backend::OpenAi,
            url: Seq::empty(),
        }),
{
    if env_key(cpa_key).is_some() {
        return Ok(Endpoint { backend: Backend::Cpa, url: snapshot.cpa_endpoint() });
    }
    if env_key(openai_key).is_some() {
        return Ok(Endpoint { backend: Backend::OpenAi, url: String::new() });
    }
    Err("set CPA_API_KEY or OPENAI_API_KEY to use voice".to_owned())
}

/// What one dial is made with.
pub struct VoiceConfig {
    pub key: String,
    pub model: String,
    /// The session settings, serialized.
    pub session: String,
    /// Unset for the stock endpoint.
    pub endpoint: Option<String>,
}

/// Builds the connection settings for a backend.
pub fn voice_config(
    backend: Backend,
    endpoint: &str,
    key: String,
    snapshot: &VoiceStartSnapshot,
) -> (r: VoiceConfig)
    ensures
        r.key@ == key@,
        r.model@ == snapshot.model@,
        r.session@ == snapshot.session@,
        r.endpoint.deep_view() == (match backend {
            Backend::Cpa => Some(endpoint@),
            Backend::OpenAi => None,
        }),
{
    let endpoint: Option<String> = match backend {
        Backend::Cpa => Some(endpoint.to_owned()),
        Backend::OpenAi => None,
    };
    VoiceConfig {
        key,
        model: snapshot.model.clone(),
        session: snapshot.session.clone(),
        endpoint,
    }
}

/// The settings of one connect attempt, from the keys read at that moment, or
/// `None` where the backend's key is no longer usable.
pub fn connect_plan(
    endpoint: &Endpoint,
    cpa_key: Option<&str>,
    openai_key: Option<&str>,
    snapshot: &VoiceStartSnapshot,
) -> (r: Option<VoiceConfig>)
    ensures
        ({
            let key = usable_key(
                match endpoint.backend {
                    Backend::Cpa => cpa_key.deep_view(),
                    Backend::OpenAi => openai_key.deep_view(),
                },
            );
            &&& r is None <==> key is None
            &&& r matches Some(config) ==> {
                &&& Some(config.key@) == key
                &&& config.model@ == snapshot.model@
                &&& config.session@ == snapshot.session@
                &&& config.endpoint.deep_view() == (match endpoint.backend {
                    Backend::Cpa => Some(endpoint.url@),
                    Backend::OpenAi => None,
                })
            }
        }),
{
    let key: Option<String> = match endpoint.backend {
        Backend::Cpa => env_key(cpa_key),
        Backend::OpenAi => env_key(openai_key),
    };
    match key {
        None => None,
        Some(key) => Some(voice_config(endpoint.backend, endpoint.url.as_str(), key, snapshot)),
    }
}

/// A press is a strict toggle: the press after one that started a session
/// stops it, and the press after one that stopped a session starts one.
pub proof fn presses_alternate(state: Option<VoiceState>)
    ensures
        press_in(state) is Connect ==> press_in(pressed(state)) is Stop,
        press_in(state) is Stop ==> press_in(pressed(state)) is Connect,
        press_in(state) is Stop ==> pressed(state) is None,
{
}

/// Muting twice restores the session as it was.
pub proof fn muting_twice_restores_the_session(state: Option<VoiceState>)
    ensures
        mute_toggled(mute_toggled(state)) == state,
{
}

/// A session that ended holds no microphone, is not muted, and shows no phase
/// of a running session.
pub proof fn an_ended_session_holds_nothing(shown: Shown)
    ensures
        !ended(shown).mic,
        !ended(shown).muted,
        ended(shown).phase is Idle || ended(shown).phase is Error,
        shown.phase is Error ==> ended(shown).error == shown.error,
{
}

} // verus!
