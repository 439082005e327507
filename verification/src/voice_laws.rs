//! What a live voice session promises across events: what is heard, what is
//! said, and what a credential swap may and may not do with a turn.
use vstd::prelude::*;
use crate::codec::{pcm16_bytes, standard_base64};
use crate::text::white_space;
use crate::text_laws::a_trimmed_text_is_empty_only_where_blank;
use crate::voice_runner::{Deed, Heard, Running, Said, ServerEvent, Stage};
use crate::voice_session::{Backend, Told, VoicePhase};
use crate::voice_turn::{
    append_events, chunk_appends, exhaustion_of, resend, sample_count, Exhaustion, Outgoing,
    Retained, TurnState,
};

verus! {

/// The session after some events, in order.
pub open spec fn after(session: Running, events: Seq<Heard>) -> Running
    decreases events.len(),
{
    if events.len() == 0 {
        session
    } else {
        after(session, events.drop_last()).step(events.last()).next
    }
}

/// The event carries assistant output, or the activity of a tool call.
pub open spec fn carries_output(event: ServerEvent) -> bool {
    ||| event is OutputAudioDelta
    ||| event is OutputAudioDone
    ||| event is OutputTextDelta
    ||| event is OutputTextDone
    ||| event is OutputAudioTranscriptDelta
    ||| event is OutputAudioTranscriptDone
    ||| event is FunctionCallArgumentsDelta
    ||| event is FunctionCallArgumentsDone
}

/// The event may end the turn in flight: new speech, a finished response, or
/// an error of the server.
pub open spec fn may_end_the_turn(event: Heard) -> bool {
    event matches Heard::Server(said) && (said is SpeechStarted || said is ResponseDone
        || said is Error)
}

/// The server reports that the account pool's credential is used up.
pub open spec fn exhausted(message: Option<Seq<char>>) -> Heard {
    Heard::Server(Said::Error(Some("cpa_credential_exhausted"@), message))
}

/// Once a turn's answer was heard, seen or acted on, a used-up credential never
/// has it answered a second time, whatever happens in between, until the
/// response is done or new speech supersedes it: the user is asked to repeat,
/// and neither a commit nor a request for a response is sent.
pub proof fn a_heard_answer_is_never_asked_for_again(
    session: Running,
    output: ServerEvent,
    between: Seq<Heard>,
    message: Option<Seq<char>>,
)
    requires
        session.stage is Live,
        session.backend is Cpa,
        session.turn.turn_open,
        carries_output(output),
        forall|i: int| 0 <= i < between.len() ==> !may_end_the_turn(#[trigger] between[i]),
    ensures
        ({
            let heard = session.step(Heard::Server(output.deep_view())).next;
            let swapped = after(heard, between).step(exhausted(message)).next;
            &&& swapped.stage == Stage::Redialing(Exhaustion::Notify) || swapped.stage is Ended
            &&& swapped.stage is Redialing ==> {
                let landed = swapped.step(Heard::Dialed);
                &&& !landed.deeds.contains(Deed::Send(Outgoing::Response))
                &&& !landed.deeds.contains(Deed::Send(Outgoing::Commit))
                &&& landed.deeds.last() == Deed::Tell(
                    Told::Notify("voice account switched mid-turn - please repeat"@),
                )
            }
        }),
{
    let heard = session.step(Heard::Server(output.deep_view())).next;
    unheard_stays_away(heard, between);
    let swapped = after(heard, between).step(exhausted(message)).next;
    if swapped.stage is Redialing {
        landed_sends(swapped, Exhaustion::Notify);
    }
}

/// While no event may end it, an open turn that produced output stays so.
proof fn unheard_stays_away(heard: Running, between: Seq<Heard>)
    requires
        heard.stage is Live,
        heard.backend is Cpa,
        heard.turn.turn_open,
        !heard.turn.replay_safe,
        forall|i: int| 0 <= i < between.len() ==> !may_end_the_turn(#[trigger] between[i]),
    ensures
        after(heard, between).stage is Live || after(heard, between).stage is Ended,
        after(heard, between).backend is Cpa,
        after(heard, between).turn.turn_open,
        !after(heard, between).turn.replay_safe,
    decreases between.len(),
{
    if between.len() > 0 {
        assert forall|i: int| 0 <= i < between.drop_last().len() implies !may_end_the_turn(
            #[trigger] between.drop_last()[i],
        ) by {
            assert(between.drop_last()[i] == between[i]);
        }
        unheard_stays_away(heard, between.drop_last());
        assert(!may_end_the_turn(between[between.len() - 1]));
    }
}

/// One chunk as the fresh socket is sent it.
pub open spec fn append_of(pcm: Seq<i16>) -> Deed {
    Deed::Send(Outgoing::Append(standard_base64(pcm16_bytes(pcm))))
}

/// The deeds from a place on are the appends of some chunks, in order.
pub open spec fn appends_at(deeds: Seq<Deed>, at: int, chunks: Seq<Seq<i16>>) -> bool {
    &&& 0 <= at
    &&& at + chunks.len() <= deeds.len()
    &&& forall|i: int|
        #![trigger chunks[i]]
        0 <= i < chunks.len() ==> deeds[at + i] == append_of(chunks[i])
}

/// The chunks of a buffer that may be sent: all of a whole copy, none of a
/// truncated one.
pub open spec fn sendable(buffer: Retained) -> Seq<Seq<i16>> {
    if buffer.complete {
        buffer.chunks
    } else {
        Seq::empty()
    }
}

/// A landed swap that resends a committed turn sends its audio, then the
/// commit, then the request for a response, then what was captured while the
/// dial ran, and then shows that it thinks. Any other landed swap sends audio
/// alone, of one buffer, and ends with what the user is told: to repeat where
/// the turn could not move, and that it listens otherwise.
pub proof fn landed_sends(session: Running, decided: Exhaustion)
    requires
        session.stage == Stage::Redialing(decided),
    ensures
        ({
            let landed = session.step(Heard::Dialed);
            let deeds = landed.deeds;
            let replay = sendable(session.turn.replay);
            let pending = sendable(session.turn.pending);
            let truncated = !session.turn.replay.complete;
            &&& landed.next.stage is Live
            &&& landed.next.backend == session.backend
            &&& decided is ReplayCommitted ==> {
                &&& deeds.len() == replay.len() + pending.len() + 3
                &&& appends_at(deeds, 0, replay)
                &&& deeds[replay.len() as int] == Deed::Send(Outgoing::Commit)
                &&& deeds[replay.len() as int + 1] == Deed::Send(Outgoing::Response)
                &&& appends_at(deeds, replay.len() as int + 2, pending)
                &&& deeds.last() == Deed::Tell(Told::Phase(VoicePhase::Thinking))
                &&& landed.next.turn.replay == session.turn.replay
                &&& landed.next.turn.turn_open == session.turn.turn_open
                &&& landed.next.turn.pending.chunks.len() == 0
            }
            &&& !(decided is ReplayCommitted) ==> {
                &&& !deeds.contains(Deed::Send(Outgoing::Response))
                &&& !deeds.contains(Deed::Send(Outgoing::Commit))
            }
            &&& decided is Notify || ((decided is Reappend || decided is Reconnect) && truncated)
                ==> {
                &&& deeds.len() == pending.len() + 1
                &&& appends_at(deeds, 0, pending)
                &&& deeds.last() == Deed::Tell(
                    Told::Notify("voice account switched mid-turn - please repeat"@),
                )
                &&& landed.next.turn == blank()
            }
            &&& (decided is Reappend || decided is Reconnect) && !truncated ==> {
                &&& deeds.len() == replay.len() + 1
                &&& appends_at(deeds, 0, replay)
                &&& deeds.last() == Deed::Tell(Told::Phase(VoicePhase::Listening))
                &&& decided is Reappend ==> landed.next.turn == session.turn
                &&& decided is Reconnect ==> landed.next.turn == blank()
            }
        }),
{
    let deeds = session.step(Heard::Dialed).deeds;
    assert forall|i: int| 0 <= i < deeds.len() && !(decided is ReplayCommitted) implies deeds[i]
        != Deed::Send(Outgoing::Response) && deeds[i] != Deed::Send(Outgoing::Commit) by {}
}

/// A turn with nothing in flight and nothing retained.
pub open spec fn blank() -> TurnState {
    let nothing = Retained { chunks: Seq::empty(), complete: true, committed: false };
    TurnState {
        active_response: None,
        turn_open: false,
        tool_pending: false,
        replay: nothing,
        pending: nothing,
        replay_safe: true,
    }
}

/// A session whose microphone just opened for a new utterance.
pub open spec fn listening(session: Running) -> bool {
    &&& session.stage is Live
    &&& session.backend is Cpa
    &&& session.turn.replay == (Retained {
        chunks: Seq::empty(),
        complete: true,
        committed: false,
    })
    &&& session.turn.pending == (Retained {
        chunks: Seq::empty(),
        complete: true,
        committed: false,
    })
    &&& !session.turn.turn_open
}

/// The events of some captured chunks.
pub open spec fn captures(chunks: Seq<Seq<i16>>) -> Seq<Heard> {
    Seq::new(chunks.len(), |i: int| Heard::Capture(chunks[i]))
}

/// Captured chunks gather in the utterance, in order, while they fit; on a
/// live socket each is sent as it comes.
proof fn chunks_gather(session: Running, chunks: Seq<Seq<i16>>)
    requires
        session.stage is Live || session.stage is Redialing,
        !session.turn.replay.committed,
        sample_count(session.turn.replay.chunks + chunks) <= 1_440_000,
    ensures
        after(session, captures(chunks)) == (Running {
            turn: TurnState {
                replay: Retained {
                    chunks: session.turn.replay.chunks + chunks,
                    ..session.turn.replay
                },
                ..session.turn
            },
            ..session
        }),
    decreases chunks.len(),
{
    let all = captures(chunks);
    if chunks.len() == 0 {
        assert(session.turn.replay.chunks + chunks =~= session.turn.replay.chunks);
    } else {
        let front = chunks.drop_last();
        assert(all.drop_last() =~= captures(front));
        let gathered = session.turn.replay.chunks + front;
        assert((session.turn.replay.chunks + chunks).drop_last() =~= gathered);
        assert((session.turn.replay.chunks + chunks).last() == chunks.last());
        chunks_gather(session, front);
        assert(gathered.push(chunks.last()) =~= session.turn.replay.chunks + chunks);
    }
}

/// Chunks captured behind a committed utterance while a dial runs are set
/// aside, in order, while they fit.
proof fn chunks_wait(session: Running, chunks: Seq<Seq<i16>>)
    requires
        session.stage is Redialing,
        session.turn.replay.committed,
        sample_count(session.turn.pending.chunks + chunks) <= 1_440_000,
    ensures
        after(session, captures(chunks)) == (Running {
            turn: TurnState {
                pending: Retained {
                    chunks: session.turn.pending.chunks + chunks,
                    ..session.turn.pending
                },
                ..session.turn
            },
            ..session
        }),
    decreases chunks.len(),
{
    let all = captures(chunks);
    if chunks.len() == 0 {
        assert(session.turn.pending.chunks + chunks =~= session.turn.pending.chunks);
    } else {
        let front = chunks.drop_last();
        assert(all.drop_last() =~= captures(front));
        let gathered = session.turn.pending.chunks + front;
        assert((session.turn.pending.chunks + chunks).drop_last() =~= gathered);
        assert((session.turn.pending.chunks + chunks).last() == chunks.last());
        chunks_wait(session, front);
        assert(gathered.push(chunks.last()) =~= session.turn.pending.chunks + chunks);
    }
}

/// A credential that is used up in the middle of an utterance loses nothing of
/// it: every chunk spoken before and while the dial runs reaches the fresh
/// socket once, in order and uncommitted, and the session listens on.
pub proof fn a_swap_moves_an_unfinished_utterance(
    session: Running,
    spoken: Seq<Seq<i16>>,
    meanwhile: Seq<Seq<i16>>,
    message: Option<Seq<char>>,
)
    requires
        listening(session),
        sample_count(spoken + meanwhile) <= 1_440_000,
    ensures
        ({
            let live = after(session, captures(spoken));
            let swap = live.step(exhausted(message));
            let dialing = after(swap.next, captures(meanwhile));
            let landed = dialing.step(Heard::Dialed);
            &&& swap.deeds == seq![Deed::Cancel, Deed::Connect]
            &&& landed.deeds.len() == spoken.len() + meanwhile.len() + 1
            &&& appends_at(landed.deeds, 0, spoken + meanwhile)
            &&& landed.deeds.last() == Deed::Tell(Told::Phase(VoicePhase::Listening))
        }),
{
    samples_split(spoken, meanwhile);
    assert(session.turn.replay.chunks + spoken =~= spoken);
    chunks_gather(session, spoken);
    let live = after(session, captures(spoken));
    let swap = live.step(exhausted(message));
    chunks_gather(swap.next, meanwhile);
    let dialing = after(swap.next, captures(meanwhile));
    landed_sends(dialing, dialing.stage->Redialing_0);
}

/// A part of some chunks holds no more samples than all of them.
proof fn samples_split(front: Seq<Seq<i16>>, back: Seq<Seq<i16>>)
    ensures
        sample_count(front + back) == sample_count(front) + sample_count(back),
    decreases back.len(),
{
    if back.len() == 0 {
        assert(front + back =~= front);
    } else {
        assert((front + back).drop_last() =~= front + back.drop_last());
        samples_split(front, back.drop_last());
    }
}

/// A credential that is used up behind a finished utterance, before any of the
/// answer was heard, has it answered on the fresh socket: what was spoken is
/// sent again, committed and answered, once; what is spoken while the dial
/// runs follows as the next utterance.
pub proof fn a_swap_replays_an_unanswered_utterance(
    session: Running,
    spoken: Seq<Seq<i16>>,
    asked: Option<Option<Seq<char>>>,
    meanwhile: Seq<Seq<i16>>,
    message: Option<Seq<char>>,
)
    requires
        listening(session),
        session.turn.replay_safe,
        sample_count(spoken) <= 1_440_000,
        sample_count(meanwhile) <= 1_440_000,
    ensures
        ({
            let stopped = after(session, captures(spoken)).step(
                Heard::Server(Said::SpeechStopped),
            ).next;
            let committed = match asked {
                Some(id) => stopped.step(Heard::Server(Said::ResponseCreated(id))).next,
                None => stopped,
            };
            let dialing = after(committed.step(exhausted(message)).next, captures(meanwhile));
            replays(dialing.step(Heard::Dialed).deeds, spoken, meanwhile)
        }),
{
    assert(session.turn.replay.chunks + spoken =~= spoken);
    chunks_gather(session, spoken);
    let stopped = after(session, captures(spoken)).step(Heard::Server(Said::SpeechStopped)).next;
    assert(stopped.turn.replay == (Retained { chunks: spoken, complete: true, committed: true }));
    let committed = match asked {
        Some(id) => stopped.step(Heard::Server(Said::ResponseCreated(id))).next,
        None => stopped,
    };
    assert(committed.turn.replay == stopped.turn.replay);
    assert(committed.turn.turn_open && committed.turn.replay_safe);
    let swapped = committed.step(exhausted(message)).next;
    assert(swapped.stage == Stage::Redialing(Exhaustion::ReplayCommitted));
    replay_lands(swapped, spoken, meanwhile);
}

proof fn replay_lands(swapped: Running, spoken: Seq<Seq<i16>>, meanwhile: Seq<Seq<i16>>)
    requires
        swapped.stage == Stage::Redialing(Exhaustion::ReplayCommitted),
        swapped.turn.replay == (Retained { chunks: spoken, complete: true, committed: true }),
        swapped.turn.pending == (Retained {
            chunks: Seq::empty(),
            complete: true,
            committed: false,
        }),
        sample_count(meanwhile) <= 1_440_000,
    ensures
        replays(after(swapped, captures(meanwhile)).step(Heard::Dialed).deeds, spoken, meanwhile),
{
    assert(swapped.turn.pending.chunks + meanwhile =~= meanwhile);
    chunks_wait(swapped, meanwhile);
    landed_sends(after(swapped, captures(meanwhile)), Exhaustion::ReplayCommitted);
}

/// The utterance, its commit, one request for a response, the next utterance.
pub open spec fn replays(deeds: Seq<Deed>, spoken: Seq<Seq<i16>>, next: Seq<Seq<i16>>) -> bool {
    &&& deeds.len() == spoken.len() + next.len() + 3
    &&& appends_at(deeds, 0, spoken)
    &&& deeds[spoken.len() as int] == Deed::Send(Outgoing::Commit)
    &&& deeds[spoken.len() as int + 1] == Deed::Send(Outgoing::Response)
    &&& appends_at(deeds, spoken.len() as int + 2, next)
    &&& deeds.last() == Deed::Tell(Told::Phase(VoicePhase::Thinking))
}

/// An utterance that outgrew its copy is never passed off as whole: a swap has
/// it repeated, and nothing of it is sent.
pub proof fn a_swap_never_moves_a_truncated_utterance(
    session: Running,
    spoken: Seq<Seq<i16>>,
    last: Seq<i16>,
    finished: bool,
    message: Option<Seq<char>>,
)
    requires
        listening(session),
        spoken.len() > 0,
        sample_count(spoken) <= 1_440_000,
        sample_count(spoken) + last.len() > 1_440_000,
    ensures
        ({
            let full = after(session, captures(spoken)).step(Heard::Capture(last)).next;
            let live = if finished {
                full.step(Heard::Server(Said::SpeechStopped)).next
            } else {
                full
            };
            let landed = live.step(exhausted(message)).next.step(Heard::Dialed);
            landed.deeds == seq![
                Deed::Tell(Told::Notify("voice account switched mid-turn - please repeat"@)),
            ]
        }),
{
    assert(session.turn.replay.chunks + spoken =~= spoken);
    chunks_gather(session, spoken);
    let full = after(session, captures(spoken)).step(Heard::Capture(last)).next;
    let live = if finished {
        full.step(Heard::Server(Said::SpeechStopped)).next
    } else {
        full
    };
    let dialing = live.step(exhausted(message)).next;
    landed_sends(dialing, Exhaustion::Notify);
    assert(dialing.step(Heard::Dialed).deeds =~= seq![
        Deed::Tell(Told::Notify("voice account switched mid-turn - please repeat"@)),
    ]);
}

/// On a live socket every captured chunk is sent as it comes; while a dial
/// runs none is.
pub proof fn capture_is_sent_while_the_socket_lives(session: Running, pcm: Seq<i16>)
    ensures
        session.stage is Live ==> session.step(Heard::Capture(pcm)).deeds == seq![
            Deed::Append(pcm),
        ],
        !(session.stage is Live) ==> session.step(Heard::Capture(pcm)).deeds.len() == 0,
        session.step(Heard::Capture(pcm)).next.stage == session.stage,
{
}

/// What waits to be played once some deeds are done, over what waited before.
pub open spec fn queued(before: Seq<Seq<char>>, deeds: Seq<Deed>) -> Seq<Seq<char>>
    decreases deeds.len(),
{
    if deeds.len() == 0 {
        before
    } else {
        let sofar = queued(before, deeds.drop_last());
        match deeds.last() {
            Deed::Play(delta) => sofar.push(delta),
            Deed::ClearPlayback => Seq::empty(),
            _ => sofar,
        }
    }
}

/// New speech silences the answer at once: of what was queued before nothing
/// is left to play, the playback is cleared before anything else is done, and
/// the session listens.
pub proof fn a_barge_in_silences_the_answer(session: Running, before: Seq<Seq<char>>)
    requires
        session.stage is Live,
    ensures
        ({
            let event = ServerEvent::InputAudioBufferSpeechStarted;
            let outcome = session.step(Heard::Server(event.deep_view()));
            &&& queued(before, outcome.deeds).len() == 0
            &&& outcome.deeds.len() > 0
            &&& outcome.deeds[0] is ClearPlayback
            &&& outcome.deeds.last() == Deed::Tell(Told::Phase(VoicePhase::Listening))
            &&& outcome.next.stage is Live
        }),
{
    let deeds = session.step(Heard::Server(Said::SpeechStarted)).deeds;
    reveal_with_fuel(queued, 4);
    assert(deeds.drop_last() =~= seq![deeds[0]]);
    assert(deeds.drop_last().drop_last() =~= Seq::<Deed>::empty());
}

/// Only new speech silences an answer, and only assistant audio joins it: each
/// piece is queued once, as it came.
pub proof fn the_answer_plays_as_it_comes(session: Running, event: ServerEvent, before: Seq<Seq<char>>)
    requires
        session.stage is Live,
        !(event is InputAudioBufferSpeechStarted),
    ensures
        ({
            let deeds = session.step(Heard::Server(event.deep_view())).deeds;
            queued(before, deeds) == match event {
                ServerEvent::OutputAudioDelta { delta } => before.push(delta@),
                _ => before,
            }
        }),
        event is OutputAudioDone ==> session.step(
            Heard::Server(event.deep_view()),
        ).deeds.contains(Deed::Flush),
{
    let deeds = session.step(Heard::Server(event.deep_view())).deeds;
    reveal_with_fuel(queued, 4);
    if deeds.len() == 1 {
        assert(deeds.drop_last() =~= Seq::<Deed>::empty());
    } else if deeds.len() == 2 {
        assert(deeds.drop_last() =~= seq![deeds[0]]);
        assert(deeds.drop_last().drop_last() =~= Seq::<Deed>::empty());
    }
    if event is OutputAudioDone {
        assert(deeds[0] == Deed::Flush);
    }
}

/// The phase last told by some deeds.
pub open spec fn phase_told(deeds: Seq<Deed>) -> Option<VoicePhase> {
    if deeds.len() > 0 {
        match deeds.last() {
            Deed::Tell(Told::Phase(phase)) => Some(phase),
            _ => None,
        }
    } else {
        None
    }
}

/// The phase follows the turn. The session listens once the user speaks,
/// thinks once they stopped, once a response is created and while a tool call
/// is written, and speaks exactly when audio is playing.
pub proof fn the_phase_follows_the_turn(session: Running, event: ServerEvent)
    requires
        session.stage is Live,
    ensures
        ({
            let told = phase_told(session.step(Heard::Server(event.deep_view())).deeds);
            &&& told == Some(VoicePhase::Thinking) <==> (event is InputAudioBufferSpeechStopped
                || event is ResponseCreated || event is FunctionCallArgumentsDelta
                || event is FunctionCallArgumentsDone)
            &&& told != Some(VoicePhase::Speaking)
            &&& event is InputAudioBufferSpeechStarted ==> told == Some(VoicePhase::Listening)
            &&& told == Some(VoicePhase::Listening) ==> event is InputAudioBufferSpeechStarted
                || event is ResponseDone
        }),
        phase_told(session.step(Heard::Played).deeds) == Some(VoicePhase::Speaking),
        session.step(Heard::Played).next == session,
{
}

/// A response that is done gives the word back to the user, and lets go of the
/// utterance it answered.
pub proof fn a_finished_response_listens_again(
    session: Running,
    id: Option<Seq<char>>,
    message: Option<Seq<char>>,
)
    requires
        session.stage is Live,
        session.backend is Cpa,
    ensures
        ({
            let created = session.step(Heard::Server(Said::ResponseCreated(id))).next;
            let done = created.step(Heard::Server(Said::ResponseDone(id)));
            &&& done.deeds == seq![Deed::Tell(Told::Phase(VoicePhase::Listening))]
            &&& done.next.turn.replay.chunks.len() == 0
            &&& done.next.step(exhausted(message)).next.stage == Stage::Redialing(
                Exhaustion::Reconnect,
            )
            &&& done.next.step(Heard::Server(Said::ResponseDone(id))).deeds.len() == 0
        }),
{
}

/// While a tool call's follow-up is owed, a response that is done does not
/// give the word back; the follow-up's own end does.
pub proof fn a_tool_call_keeps_the_session_thinking(
    session: Running,
    id: Option<Seq<char>>,
    follow_up: Option<Seq<char>>,
)
    requires
        session.stage is Live,
    ensures
        ({
            let call = ServerEvent::FunctionCallArgumentsDone;
            let called = session.step(Heard::Server(call.deep_view()));
            let done = called.next.step(Heard::Server(Said::ResponseDone(id)));
            let created = done.next.step(Heard::Server(Said::ResponseCreated(follow_up)));
            let ended = created.next.step(Heard::Server(Said::ResponseDone(follow_up)));
            &&& called.deeds == seq![Deed::Tell(Told::Phase(VoicePhase::Thinking))]
            &&& done.deeds.len() == 0
            &&& created.deeds == seq![Deed::Tell(Told::Phase(VoicePhase::Thinking))]
            &&& ended.deeds == seq![Deed::Tell(Told::Phase(VoicePhase::Listening))]
        }),
{
}

/// The end of another response than the one in flight changes nothing; nor
/// does one that comes after new speech. Where either id is unknown the two
/// are taken for the same.
pub proof fn a_stale_end_changes_nothing(
    session: Running,
    active: Seq<char>,
    other: Seq<char>,
)
    requires
        session.stage is Live,
        active != other,
        active.len() > 0,
    ensures
        ({
            let created = session.step(Heard::Server(Said::ResponseCreated(Some(active)))).next;
            let stale = created.step(Heard::Server(Said::ResponseDone(Some(other))));
            &&& stale.next == created
            &&& stale.deeds.len() == 0
            &&& created.step(
                Heard::Server(Said::ResponseDone(None)),
            ).next.turn.active_response is None
            &&& created.step(
                Heard::Server(Said::ResponseDone(Some(active))),
            ).next.turn.active_response is None
            &&& session.step(Heard::Server(Said::ResponseCreated(None))).next.step(
                Heard::Server(Said::ResponseDone(Some(other))),
            ).next.turn.active_response is None
            &&& created.turn.active_response == Some(active)
        }),
        ({
            let spoke = session.step(Heard::Server(Said::SpeechStarted)).next;
            let late = spoke.step(Heard::Server(Said::ResponseDone(Some(other))));
            late.next == spoke && late.deeds.len() == 0
        }),
{
}

/// Any other error of the server ends the session with its message, as does a
/// used-up credential of the stock backend.
pub proof fn a_server_error_ends_the_session(
    session: Running,
    code: Option<Seq<char>>,
    message: Option<Seq<char>>,
)
    requires
        session.stage is Live,
        session.backend is OpenAi || code != Some("cpa_credential_exhausted"@),
    ensures
        ({
            let outcome = session.step(Heard::Server(Said::Error(code, message)));
            let shown = match message {
                Some(message) => message,
                None => "the realtime API returned an error"@,
            };
            &&& outcome.next.stage is Ended
            &&& outcome.deeds == seq![Deed::Tell(Told::Failure(shown)), Deed::Stop]
        }),
{
}

/// A session comes up by opening its devices, dialing once, and then opening
/// the microphone before it listens.
pub proof fn a_session_comes_up(backend: Backend, turn: TurnState)
    ensures
        ({
            let opening = Running { backend, stage: Stage::Opening, turn };
            let ready = opening.step(Heard::AudioReady(true));
            let up = ready.next.step(Heard::Dialed);
            &&& ready.deeds == seq![Deed::Connect]
            &&& up.deeds == seq![
                Deed::Tell(Told::Mic),
                Deed::BeginCapture,
                Deed::Tell(Told::Phase(VoicePhase::Listening)),
            ]
            &&& up.next == (Running { backend, stage: Stage::Live, turn })
            &&& opening.step(Heard::AudioReady(false)).deeds[0] == Deed::Tell(
                Told::Failure("voice capture did not start"@),
            )
        }),
{
}

/// A first dial of the account pool that fails is tried once more on the stock
/// backend where its key is more than blanks; there, and anywhere else, a
/// failed dial ends the session with the reason.
pub proof fn a_failed_dial_falls_back_once(
    session: Running,
    error: Seq<char>,
    key: Seq<char>,
    again: Seq<char>,
    key_again: Option<Seq<char>>,
)
    requires
        session.stage is Connecting,
        session.backend is Cpa,
        exists|i: int| 0 <= i < key.len() && !white_space(#[trigger] key[i]),
    ensures
        ({
            let fell = session.step(Heard::DialFailed(error, Some(key)));
            let lost = fell.next.step(Heard::DialFailed(again, key_again));
            let keyless = session.step(Heard::DialFailed(error, None));
            &&& fell.deeds == seq![Deed::Connect]
            &&& fell.next.backend is OpenAi
            &&& fell.next.step(Heard::Dialed).next.stage is Live
            &&& fell.next.step(Heard::Dialed).next.backend is OpenAi
            &&& lost.next.stage is Ended
            &&& lost.deeds == seq![
                Deed::Tell(Told::Failure("voice session: "@ + again)),
                Deed::Stop,
            ]
            &&& keyless.next.stage is Ended
            &&& keyless.deeds == seq![
                Deed::Tell(Told::Failure("voice session: "@ + error)),
                Deed::Stop,
            ]
        }),
{
    a_trimmed_text_is_empty_only_where_blank(key);
}

/// A swap whose dial fails ends the session; it never falls back.
pub proof fn a_failed_swap_ends_the_session(
    session: Running,
    error: Seq<char>,
    key: Option<Seq<char>>,
)
    requires
        session.stage is Redialing || session.backend is OpenAi,
        session.stage is Redialing || session.stage is Connecting || session.stage is FallingBack,
    ensures
        session.step(Heard::DialFailed(error, key)).next.stage is Ended,
        session.step(Heard::DialFailed(error, key)).deeds == seq![
            Deed::Tell(Told::Failure("voice session: "@ + error)),
            Deed::Stop,
        ],
{
}

/// A socket or a device that is lost ends the session: without a word where
/// the stream just ended, and with the reason where something failed.
pub proof fn a_lost_session_says_why(session: Running)
    requires
        session.stage is Live,
    ensures
        session.step(Heard::SessionClosed).deeds == seq![Deed::Stop],
        session.step(Heard::CaptureClosed).deeds == seq![Deed::Stop],
        session.step(Heard::SessionClosed).next.stage is Ended,
        session.step(Heard::CaptureClosed).next.stage is Ended,
        session.step(Heard::SendFailed).deeds == seq![
            Deed::Tell(Told::Failure("the voice connection dropped"@)),
            Deed::Stop,
        ],
        session.step(Heard::DecodeFailed).deeds == seq![
            Deed::Tell(Told::Failure("voice audio decode failed"@)),
            Deed::Stop,
        ],
        session.step(Heard::PlaybackFailed).deeds == seq![
            Deed::Tell(Told::Failure("voice playback failed"@)),
            Deed::Stop,
        ],
{
}

/// A used-up credential is answered by what was lost: an answered or truncated
/// turn is only told of, an unanswered one is asked for again, an utterance in
/// the making moves over, and silence just reconnects.
pub proof fn a_lost_turn_is_answered_by_what_was_lost(
    committed: bool,
    safe: bool,
    has_audio: bool,
    complete: bool,
)
    ensures
        exhaustion_of(committed, safe, has_audio, complete) is ReplayCommitted <==> committed
            && safe && complete,
        committed && !safe ==> exhaustion_of(committed, safe, has_audio, complete) is Notify,
        !complete && (committed || has_audio) ==> exhaustion_of(
            committed,
            safe,
            has_audio,
            complete,
        ) is Notify,
        !committed && !has_audio ==> exhaustion_of(committed, safe, has_audio, complete)
            is Reconnect,
        !committed && has_audio && complete ==> exhaustion_of(
            committed,
            safe,
            has_audio,
            complete,
        ) is Reappend,
{
}

/// What a new connection is sent commits and asks only where a committed turn
/// is replayed; what was held back is not sent before it.
pub proof fn only_a_replay_asks_again(
    reconnect: Exhaustion,
    replay: Retained,
    pending: Retained,
    i: int,
)
    requires
        0 <= i < resend(reconnect, replay, pending).len(),
        !(reconnect is ReplayCommitted),
    ensures
        !(resend(reconnect, replay, pending)[i] is Commit),
        !(resend(reconnect, replay, pending)[i] is Response),
        reconnect is Notify ==> resend(reconnect, replay, pending) == append_events(pending),
        !(reconnect is Notify) ==> resend(reconnect, replay, pending) == append_events(replay),
{
    let sent = if reconnect is Notify {
        pending.chunks
    } else {
        replay.chunks
    };
    chunks_are_appended(sent);
}

/// Chunks become appends, one for each.
proof fn chunks_are_appended(chunks: Seq<Seq<i16>>)
    ensures
        chunk_appends(chunks).len() == chunks.len(),
        forall|i: int|
            0 <= i < chunks.len() ==> (#[trigger] chunk_appends(chunks)[i]) is Append,
    decreases chunks.len(),
{
    if chunks.len() > 0 {
        chunks_are_appended(chunks.drop_last());
    }
}

/// A fresh turn holds nothing: no speech, no answer, and nothing that stands
/// against asking again.
pub proof fn a_fresh_turn_holds_nothing()
    ensures
        TurnState::fresh().active_response is None,
        !TurnState::fresh().turn_open && !TurnState::fresh().tool_pending,
        TurnState::fresh().replay_safe,
        TurnState::fresh().replay.chunks.len() == 0 && TurnState::fresh().pending.chunks.len() == 0,
        TurnState::fresh().replay.complete && TurnState::fresh().pending.complete,
        !TurnState::fresh().replay.committed && !TurnState::fresh().pending.committed,
        TurnState::fresh().exhaustion() is Reconnect,
{
}

} // verus!
