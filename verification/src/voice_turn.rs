//! One live voice turn: the retained capture, the response in flight, and what
//! of it a fresh socket may be sent after a credential swap.
use vstd::prelude::*;
use crate::codec::{pcm16_bytes, pcm16_to_base64, standard_base64};
use crate::text::{same_text};

verus! {

/// Retained input cap: about 60 s of 24 kHz mono samples.
pub const REPLAY_SAMPLES: usize = 1_440_000;

/// What an exhausted credential means for the live session. A reconnect
/// always lands on the next account; what differs is how much of the
/// utterance in flight can move to the fresh socket.
#[derive(Debug, Clone, Copy, PartialEq, Eq, Structural)]
pub enum Exhaustion {
    /// The committed turn produced no output or tool activity yet: resend the
    /// retained audio, then commit and request the response explicitly.
    ReplayCommitted,
    /// The socket died mid-utterance: re-append the retained chunks
    /// uncommitted and let the new session finish the turn.
    Reappend,
    /// Replaying would duplicate work, or the retained audio is truncated.
    Notify,
    /// Nothing was committed and no retained audio is worth moving.
    Reconnect,
}

/// The rule by which an exhausted credential is answered.
pub open spec fn exhaustion_of(
    committed: bool,
    safe: bool,
    has_audio: bool,
    complete: bool,
) -> Exhaustion {
    if committed && safe && complete {
        Exhaustion::ReplayCommitted
    } else if committed {
        Exhaustion::Notify
    } else if !has_audio {
        Exhaustion::Reconnect
    } else if complete {
        Exhaustion::Reappend
    } else {
        Exhaustion::Notify
    }
}

/// Decides how an exhausted credential is answered.
pub fn exhaustion_decision(committed: bool, safe: bool, has_audio: bool, complete: bool) -> (r:
    Exhaustion)
    ensures
        r == exhaustion_of(committed, safe, has_audio, complete),
{
    match (committed, safe, has_audio, complete) {
        (true, true, _, true) => Exhaustion::ReplayCommitted,
        (true, _, _, _) => Exhaustion::Notify,
        (false, _, true, true) => Exhaustion::Reappend,
        (false, _, true, false) => Exhaustion::Notify,
        (false, _, false, _) => Exhaustion::Reconnect,
    }
}

/// Bounded copy of the current utterance's uncommitted input. Chunks stay
/// chunks; the cap counts samples.
pub struct ReplayBuffer {
    pub chunks: Vec<Vec<i16>>,
    pub samples: usize,
    /// False once a chunk overflowed the cap: the copy is then truncated.
    pub complete: bool,
    /// True once the retained audio was committed on its socket.
    pub committed: bool,
}

/// What a replay buffer holds.
#[verifier::ext_equal]
pub struct Retained {
    pub chunks: Seq<Seq<i16>>,
    pub complete: bool,
    pub committed: bool,
}

/// The number of samples in a list of chunks.
pub open spec fn sample_count(chunks: Seq<Seq<i16>>) -> nat
    decreases chunks.len(),
{
    if chunks.len() == 0 {
        0
    } else {
        sample_count(chunks.drop_last()) + chunks.last().len()
    }
}

impl View for ReplayBuffer {
    type V = Retained;

    open spec fn view(&self) -> Retained {
        Retained {
            chunks: self.chunks.deep_view(),
            complete: self.complete,
            committed: self.committed,
        }
    }
}

impl Retained {
    /// Nothing retained yet.
    pub open spec fn fresh() -> Retained {
        Retained { chunks: Seq::empty(), complete: true, committed: false }
    }

    /// The buffer after one more chunk: kept while it fits the cap, else only
    /// noted as missing.
    pub open spec fn pushed(self, pcm: Seq<i16>) -> Retained {
        if sample_count(self.chunks) + pcm.len() > REPLAY_SAMPLES {
            Retained { complete: false, ..self }
        } else {
            Retained { chunks: self.chunks.push(pcm), ..self }
        }
    }
}

impl ReplayBuffer {
    /// The counter holds the retained samples, and they stay under the cap.
    pub open spec fn wf(&self) -> bool {
        &&& self.samples == sample_count(self@.chunks)
        &&& self.samples <= REPLAY_SAMPLES
    }

    pub fn new() -> (r: Self)
        ensures
            r.wf(),
            r@ == Retained::fresh(),
    {
        let r = Self { chunks: Vec::new(), samples: 0, complete: true, committed: false };
        proof {
            assert(r.chunks.deep_view() =~= Seq::<Seq<i16>>::empty());
        }
        r
    }

    /// Stores `pcm` unless it would push the buffer past [`REPLAY_SAMPLES`];
    /// a full buffer marks the copy incomplete.
    pub fn push(&mut self, pcm: &[i16])
        requires
            old(self).wf(),
        ensures
            final(self).wf(),
            final(self)@ == old(self)@.pushed(pcm@),
    {
        if pcm.len() > REPLAY_SAMPLES - self.samples {
            self.complete = false;
            return;
        }
        let ghost before = self.chunks.deep_view();
        self.samples = self.samples + pcm.len();
        let chunk: Vec<i16> = vstd::slice::slice_to_vec(pcm);
        self.chunks.push(chunk);
        proof {
            let after = self.chunks.deep_view();
            assert(chunk.deep_view() =~= pcm@);
            assert(after =~= before.push(pcm@));
            assert(after.drop_last() =~= before);
        }
    }

    pub fn clear(&mut self)
        ensures
            final(self).wf(),
            final(self)@ == Retained::fresh(),
    {
        self.chunks.clear();
        self.samples = 0;
        self.complete = true;
        self.committed = false;
        proof {
            assert(self.chunks.deep_view() =~= Seq::<Seq<i16>>::empty());
        }
    }

    fn is_empty(&self) -> (r: bool)
        ensures
            r == (self@.chunks.len() == 0),
    {
        self.chunks.len() == 0
    }
}

/// One live turn's bookkeeping: which response is in flight, whether the
/// committed utterance's resend window is still open, and the retained audio.
pub struct Turn {
    /// The response in flight, `Some("")` when the event carried no id.
    pub active_response: Option<String>,
    /// A committed utterance whose response has not completed.
    pub turn_open: bool,
    /// A finished response still has a tool call's follow-up coming.
    pub tool_pending: bool,
    /// Retained uncommitted utterance plus the committed turn.
    pub replay: ReplayBuffer,
    /// Capture gathered while a reconnect runs on top of a committed replay.
    pub pending: ReplayBuffer,
    /// True until the current response produces output or tool activity.
    pub replay_safe: bool,
}

/// What a turn holds.
#[verifier::ext_equal]
pub struct TurnState {
    pub active_response: Option<Seq<char>>,
    pub turn_open: bool,
    pub tool_pending: bool,
    pub replay: Retained,
    pub pending: Retained,
    pub replay_safe: bool,
}

impl View for Turn {
    type V = TurnState;

    open spec fn view(&self) -> TurnState {
        TurnState {
            active_response: self.active_response.deep_view(),
            turn_open: self.turn_open,
            tool_pending: self.tool_pending,
            replay: self.replay@,
            pending: self.pending@,
            replay_safe: self.replay_safe,
        }
    }
}

impl TurnState {
    /// No turn in flight and nothing retained.
    pub open spec fn fresh() -> TurnState {
        TurnState {
            active_response: None,
            turn_open: false,
            tool_pending: false,
            replay: Retained::fresh(),
            pending: Retained::fresh(),
            replay_safe: true,
        }
    }

    /// The turn superseded by new speech: what the superseded response
    /// produced no longer counts against the next one.
    pub open spec fn interrupted(self) -> TurnState {
        TurnState {
            active_response: None,
            turn_open: false,
            replay: Retained::fresh(),
            pending: Retained::fresh(),
            replay_safe: true,
            ..self
        }
    }

    /// The utterance committed by the server.
    pub open spec fn stopped(self) -> TurnState {
        TurnState {
            turn_open: true,
            replay: Retained { committed: true, ..self.replay },
            ..self
        }
    }

    /// A response under way; an event without an id counts as the empty one.
    pub open spec fn responding(self, id: Option<Seq<char>>) -> TurnState {
        TurnState {
            active_response: Some(
                match id {
                    Some(id) => id,
                    None => Seq::empty(),
                },
            ),
            tool_pending: false,
            ..self
        }
    }

    /// Whether a finished response is the tracked one: there is one, and the
    /// two ids are equal wherever both are known.
    pub open spec fn closes(self, id: Option<Seq<char>>) -> bool {
        match self.active_response {
            None => false,
            Some(active) => active.len() == 0 || id is None || id == Some(active),
        }
    }

    /// The turn after its response finished.
    pub open spec fn closed(self) -> TurnState {
        TurnState {
            active_response: None,
            turn_open: false,
            replay: Retained::fresh(),
            replay_safe: true,
            ..self
        }
    }

    /// What an exhausted credential means now.
    pub open spec fn exhaustion(self) -> Exhaustion {
        exhaustion_of(
            self.turn_open,
            self.replay_safe,
            self.replay.chunks.len() > 0,
            self.replay.complete,
        )
    }
}

impl Turn {
    /// Both buffers stay under the cap.
    pub open spec fn wf(&self) -> bool {
        self.replay.wf() && self.pending.wf()
    }

    pub fn new() -> (r: Self)
        ensures
            r.wf(),
            r@ == TurnState::fresh(),
    {
        Self {
            active_response: None,
            turn_open: false,
            tool_pending: false,
            replay: ReplayBuffer::new(),
            pending: ReplayBuffer::new(),
            replay_safe: true,
        }
    }

    /// A new utterance starts: the interrupted response's resend window closes
    /// and the retained copy restarts with the new speech, whose response has
    /// produced nothing yet.
    pub fn speech_started(&mut self)
        ensures
            final(self).wf(),
            final(self)@ == old(self)@.interrupted(),
    {
        self.replay.clear();
        self.pending.clear();
        self.active_response = None;
        self.turn_open = false;
        self.replay_safe = true;
    }

    /// The server committed the utterance; the response it creates next owns
    /// the resend window.
    pub fn speech_stopped(&mut self)
        requires
            old(self).wf(),
        ensures
            final(self).wf(),
            final(self)@ == old(self)@.stopped(),
    {
        self.replay.committed = true;
        self.turn_open = true;
    }

    pub fn response_created(&mut self, response_id: Option<String>)
        requires
            old(self).wf(),
        ensures
            final(self).wf(),
            final(self)@ == old(self)@.responding(response_id.deep_view()),
    {
        let id: String = match response_id {
            Some(id) => id,
            None => String::new(),
        };
        self.active_response = Some(id);
        self.tool_pending = false;
    }

    /// Closes the active response when `response_id` names it. Returns `false`
    /// for a stale event, which leaves the turn as it was.
    pub fn response_done(&mut self, response_id: Option<&str>) -> (r: bool)
        requires
            old(self).wf(),
        ensures
            final(self).wf(),
            r == old(self)@.closes(response_id.deep_view()),
            r ==> final(self)@ == old(self)@.closed(),
            !r ==> *final(self) == *old(self),
    {
        match &self.active_response {
            None => return false,
            Some(active) => {
                if !active.as_str().is_empty() {
                    match response_id {
                        Some(id) => {
                            if !same_text(id, active.as_str()) {
                                return false;
                            }
                        },
                        None => {},
                    }
                }
            },
        }
        self.active_response = None;
        self.turn_open = false;
        self.replay.clear();
        self.replay_safe = true;
        true
    }

    /// What an exhausted credential means for this turn.
    pub fn exhaustion(&self) -> (r: Exhaustion)
        ensures
            r == self@.exhaustion(),
    {
        exhaustion_decision(
            self.turn_open,
            self.replay_safe,
            !self.replay.is_empty(),
            self.replay.complete,
        )
    }

    /// Keeps no turn state on the fresh socket.
    pub fn reset_for_reconnect(&mut self)
        ensures
            final(self).wf(),
            final(self)@ == TurnState::fresh(),
    {
        self.active_response = None;
        self.turn_open = false;
        self.tool_pending = false;
        self.replay.clear();
        self.pending.clear();
        self.replay_safe = true;
    }
}

/// What is sent to the realtime socket.
pub enum ClientEvent {
    /// One chunk of captured audio, as base64.
    InputAudioBufferAppend { audio: String },
    InputAudioBufferCommit,
    ResponseCreate,
}

/// What a client event carries.
pub enum Outgoing {
    Append(Seq<char>),
    Commit,
    Response,
}

impl DeepView for ClientEvent {
    type V = Outgoing;

    open spec fn deep_view(&self) -> Outgoing {
        match self {
            ClientEvent::InputAudioBufferAppend { audio } => Outgoing::Append(audio@),
            ClientEvent::InputAudioBufferCommit => Outgoing::Commit,
            ClientEvent::ResponseCreate => Outgoing::Response,
        }
    }
}

/// One append per retained chunk, in order.
pub open spec fn chunk_appends(chunks: Seq<Seq<i16>>) -> Seq<Outgoing> {
    Seq::new(chunks.len(), |i: int| Outgoing::Append(standard_base64(pcm16_bytes(chunks[i]))))
}

/// The appends of a whole copy; a truncated copy gives none.
pub open spec fn append_events(buffer: Retained) -> Seq<Outgoing> {
    if buffer.complete {
        chunk_appends(buffer.chunks)
    } else {
        Seq::empty()
    }
}

/// What a landed reconnect sends, in order.
pub open spec fn resend(reconnect: Exhaustion, replay: Retained, pending: Retained) -> Seq<
    Outgoing,
> {
    match reconnect {
        Exhaustion::ReplayCommitted => append_events(replay) + seq![
            Outgoing::Commit,
            Outgoing::Response,
        ] + append_events(pending),
        Exhaustion::Reappend => append_events(replay),
        Exhaustion::Notify => append_events(pending),
        Exhaustion::Reconnect => append_events(replay),
    }
}

fn push_appends(out: &mut Vec<ClientEvent>, buffer: &ReplayBuffer)
    ensures
        final(out).deep_view() == old(out).deep_view() + append_events(buffer@),
{
    let ghost before = out.deep_view();
    if !buffer.complete {
        proof {
            assert(before + Seq::<Outgoing>::empty() =~= before);
        }
        return;
    }
    let mut i: usize = 0;
    proof {
        assert(out.deep_view() =~= before + append_events(buffer@).take(0));
    }
    while i < buffer.chunks.len()
        invariant
            i <= buffer.chunks@.len(),
            buffer.complete,
            out.deep_view() == before + append_events(buffer@).take(i as int),
        decreases buffer.chunks@.len() - i,
    {
        let ghost sofar = out.deep_view();
        let audio: String = pcm16_to_base64(buffer.chunks[i].as_slice());
        let ghost event = Outgoing::Append(audio@);
        out.push(ClientEvent::InputAudioBufferAppend { audio });
        proof {
            assert(out.deep_view() =~= sofar.push(event));
            assert(buffer@.chunks[i as int] =~= buffer.chunks@[i as int]@);
            assert(append_events(buffer@)[i as int] == event);
            assert(append_events(buffer@).take(i + 1) =~= append_events(buffer@).take(
                i as int,
            ).push(event));
            assert(out.deep_view() =~= before + append_events(buffer@).take(i + 1));
        }
        i += 1;
    }
    proof {
        assert(append_events(buffer@).take(i as int) =~= append_events(buffer@));
    }
}

/// The ordered client events a landed reconnect sends before listening
/// resumes.
pub fn reconnect_events(
    reconnect: Exhaustion,
    replay: &ReplayBuffer,
    pending: &ReplayBuffer,
) -> (r: Vec<ClientEvent>)
    ensures
        r.deep_view() == resend(reconnect, replay@, pending@),
{
    let mut out: Vec<ClientEvent> = Vec::new();
    proof {
        assert(out.deep_view() =~= Seq::<Outgoing>::empty());
    }
    match reconnect {
        Exhaustion::ReplayCommitted => {
            push_appends(&mut out, replay);
            let ghost first = out.deep_view();
            out.push(ClientEvent::InputAudioBufferCommit);
            out.push(ClientEvent::ResponseCreate);
            proof {
                assert(out.deep_view() =~= first + seq![Outgoing::Commit, Outgoing::Response]);
                assert(first =~= append_events(replay@));
            }
            push_appends(&mut out, pending);
        },
        Exhaustion::Reappend => {
            push_appends(&mut out, replay);
            proof {
                assert(out.deep_view() =~= append_events(replay@));
            }
        },
        Exhaustion::Notify => {
            push_appends(&mut out, pending);
            proof {
                assert(out.deep_view() =~= append_events(pending@));
            }
        },
        Exhaustion::Reconnect => {
            push_appends(&mut out, replay);
            proof {
                assert(out.deep_view() =~= append_events(replay@));
            }
        },
    }
    out
}

/// Only a committed turn that produced nothing and was kept whole is resent as
/// a committed turn.
pub proof fn committed_replay_is_whole_and_unheard(turn: TurnState)
    ensures
        turn.exhaustion() is ReplayCommitted <==> turn.turn_open && turn.replay_safe
            && turn.replay.complete,
{
}

/// Of a truncated copy nothing reaches a fresh socket, whatever was decided:
/// what is sent is what an empty buffer in its place would send.
pub proof fn truncated_audio_is_never_sent(
    reconnect: Exhaustion,
    replay: Retained,
    pending: Retained,
)
    ensures
        !replay.complete ==> resend(reconnect, replay, pending) == resend(
            reconnect,
            Retained::fresh(),
            pending,
        ),
        !pending.complete ==> resend(reconnect, replay, pending) == resend(
            reconnect,
            replay,
            Retained::fresh(),
        ),
{
    assert(append_events(Retained::fresh()) =~= Seq::<Outgoing>::empty());
}

/// A buffer never holds more than the cap, however many chunks arrive.
pub proof fn retained_audio_stays_bounded(buffer: Retained, pcm: Seq<i16>)
    requires
        sample_count(buffer.chunks) <= REPLAY_SAMPLES,
    ensures
        sample_count(buffer.pushed(pcm).chunks) <= REPLAY_SAMPLES,
        buffer.pushed(pcm).complete ==> buffer.complete && buffer.pushed(pcm).chunks
            == buffer.chunks.push(pcm),
{
    assert(buffer.chunks.push(pcm).drop_last() =~= buffer.chunks);
}

/// New speech makes every later event of the interrupted response stale.
pub proof fn a_barge_in_makes_late_events_stale(turn: TurnState, id: Option<Seq<char>>)
    ensures
        !turn.interrupted().closes(id),
{
}

/// What an interrupted response did never stands against the utterance that
/// interrupted it: once that one is committed it is resent as a committed turn
/// wherever its copy was kept whole, before its response is created and after.
pub proof fn a_barge_in_leaves_the_next_turn_replayable(
    turn: TurnState,
    kept: Retained,
    id: Option<Seq<char>>,
)
    requires
        kept.complete,
    ensures
        ({
            let committed = (TurnState { replay: kept, ..turn.interrupted() }).stopped();
            &&& committed.exhaustion() is ReplayCommitted
            &&& committed.responding(id).exhaustion() is ReplayCommitted
        }),
{
}

/// A finished response is accepted once: the next event is stale until
/// another response is created.
pub proof fn a_response_closes_once(
    turn: TurnState,
    id: Option<Seq<char>>,
    later: Option<Seq<char>>,
)
    ensures
        turn.responding(id).closes(id),
        !turn.closed().closes(later),
{
}

} // verus!
