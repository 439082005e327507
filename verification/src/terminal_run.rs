//! One terminal's life on the wire as a state machine: open, attach, then
//! stream with reconnect backoff. Each event gives the next state and the
//! actions to perform, in order.
use vstd::prelude::*;
use crate::terminal_tabs::{backoff, backoff_ms};

verus! {

/// How far a terminal's session has come.
#[derive(Debug, Clone, Copy, PartialEq, Eq, Structural)]
pub enum RunStage {
    /// The open request is pending.
    Opening,
    /// The place to resume from is being looked up.
    Resuming,
    /// The subscribe request is pending.
    Subscribing,
    /// Frames arrive.
    Streaming,
    /// A failed or dropped stream waits before the next attempt.
    Waiting,
    /// Nothing more happens.
    Finished,
}

/// A terminal's session on the wire.
pub struct TerminalRun {
    pub stage: RunStage,
    /// Attempts since the last frame.
    pub attempt: u32,
    /// The session belongs to a provider's own terminal view.
    pub session_view: bool,
    /// The size the terminal was opened with.
    pub cols: u16,
    pub rows: u16,
    pub terminal_id: Option<String>,
}

/// What happens to a terminal's session.
pub enum RunEvent {
    OpenFailed(String),
    /// The terminal opened; whether its tab is still there, and the size that
    /// tab has by now.
    Opened { id: String, attached: bool, cols: usize, rows: usize },
    /// The last sequence number of the tab, or none when the tab is gone.
    Resume { after: Option<u64> },
    Subscribed,
    SubscribeFailed,
    /// A frame that could not be read.
    Malformed,
    /// A frame was applied; whether it was the last one.
    Frame { last: bool },
    /// The stream dropped; whether the tab is gone or its process exited.
    Dropped { done: bool },
    /// The wait is over.
    Waited,
}

/// What has to be done for a terminal's session.
pub enum RunAction {
    /// Show that the terminal did not open.
    ShowOpenFailure(String),
    /// Answer whoever waits for the terminal.
    Ready(Result<(), String>),
    /// Release a terminal nobody shows.
    Release(String),
    /// Send the size the tab has by now.
    Resize { id: String, cols: usize, rows: usize },
    /// Look up where to resume.
    LookUp,
    Subscribe { id: String, after: u64 },
    Wait(u64),
}

/// What a session is.
#[verifier::ext_equal]
pub struct Run {
    pub stage: RunStage,
    pub attempt: u32,
    pub session_view: bool,
    pub cols: u16,
    pub rows: u16,
    pub terminal_id: Option<Seq<char>>,
}

/// What an event carries.
pub enum RunNews {
    OpenFailed(Seq<char>),
    Opened { id: Seq<char>, attached: bool, cols: usize, rows: usize },
    Resume(Option<u64>),
    Subscribed,
    SubscribeFailed,
    Malformed,
    Frame(bool),
    Dropped(bool),
    Waited,
}

/// What an action carries.
pub enum RunDeed {
    ShowOpenFailure(Seq<char>),
    ReadyOk,
    ReadyErr(Seq<char>),
    Release(Seq<char>),
    Resize { id: Seq<char>, cols: usize, rows: usize },
    LookUp,
    Subscribe { id: Seq<char>, after: u64 },
    Wait(u64),
}

impl View for TerminalRun {
    type V = Run;

    open spec fn view(&self) -> Run {
        Run {
            stage: self.stage,
            attempt: self.attempt,
            session_view: self.session_view,
            cols: self.cols,
            rows: self.rows,
            terminal_id: self.terminal_id.deep_view(),
        }
    }
}

impl DeepView for RunEvent {
    type V = RunNews;

    open spec fn deep_view(&self) -> RunNews {
        match self {
            RunEvent::OpenFailed(error) => RunNews::OpenFailed(error@),
            RunEvent::Opened { id, attached, cols, rows } => RunNews::Opened {
                id: id@,
                attached: *attached,
                cols: *cols,
                rows: *rows,
            },
            RunEvent::Resume { after } => RunNews::Resume(*after),
            RunEvent::Subscribed => RunNews::Subscribed,
            RunEvent::SubscribeFailed => RunNews::SubscribeFailed,
            RunEvent::Malformed => RunNews::Malformed,
            RunEvent::Frame { last } => RunNews::Frame(*last),
            RunEvent::Dropped { done } => RunNews::Dropped(*done),
            RunEvent::Waited => RunNews::Waited,
        }
    }
}

impl DeepView for RunAction {
    type V = RunDeed;

    open spec fn deep_view(&self) -> RunDeed {
        match self {
            RunAction::ShowOpenFailure(error) => RunDeed::ShowOpenFailure(error@),
            RunAction::Ready(Ok(_)) => RunDeed::ReadyOk,
            RunAction::Ready(Err(error)) => RunDeed::ReadyErr(error@),
            RunAction::Release(id) => RunDeed::Release(id@),
            RunAction::Resize { id, cols, rows } => RunDeed::Resize {
                id: id@,
                cols: *cols,
                rows: *rows,
            },
            RunAction::LookUp => RunDeed::LookUp,
            RunAction::Subscribe { id, after } => RunDeed::Subscribe { id: id@, after: *after },
            RunAction::Wait(ms) => RunDeed::Wait(*ms),
        }
    }
}

/// What one event leads to.
#[verifier::ext_equal]
pub struct RunOutcome {
    pub next: Run,
    pub deeds: Seq<RunDeed>,
}

impl Run {
    /// A run about to open.
    pub open spec fn opening(session_view: bool, cols: u16, rows: u16) -> Run {
        Run {
            stage: RunStage::Opening,
            attempt: 0,
            session_view,
            cols,
            rows,
            terminal_id: None,
        }
    }

    /// The run goes to another stage.
    pub open spec fn to(self, stage: RunStage, deeds: Seq<RunDeed>) -> RunOutcome {
        RunOutcome { next: Run { stage, ..self }, deeds }
    }

    /// The run waits out its backoff.
    pub open spec fn back_off(self) -> RunOutcome {
        RunOutcome {
            next: Run {
                stage: RunStage::Waiting,
                attempt: if self.attempt < u32::MAX {
                    (self.attempt + 1) as u32
                } else {
                    self.attempt
                },
                ..self
            },
            deeds: seq![RunDeed::Wait(backoff(self.attempt as nat) as u64)],
        }
    }

    /// What the opened terminal leads to: a tab that is gone releases it,
    /// unless a provider's own view parks it; an attached one gets the size it
    /// grew to meanwhile, and the stream begins.
    pub open spec fn on_opened(self, id: Seq<char>, attached: bool, cols: usize, rows: usize) -> RunOutcome {
        if !attached {
            self.to(
                RunStage::Finished,
                if self.session_view {
                    Seq::empty()
                } else {
                    seq![RunDeed::Release(id)]
                },
            )
        } else {
            let resize = if cols != self.cols || rows != self.rows {
                seq![RunDeed::Resize { id, cols, rows }]
            } else {
                Seq::empty()
            };
            let ready = if self.session_view {
                seq![RunDeed::ReadyOk]
            } else {
                Seq::empty()
            };
            RunOutcome {
                next: Run { stage: RunStage::Resuming, terminal_id: Some(id), ..self },
                deeds: resize + ready + seq![RunDeed::LookUp],
            }
        }
    }

    /// What one event leads to. Each event counts only in the stage that waits
    /// for it.
    pub open spec fn step(self, event: RunNews) -> RunOutcome {
        match (self.stage, event) {
            (RunStage::Opening, RunNews::OpenFailed(error)) => self.to(
                RunStage::Finished,
                if self.session_view {
                    seq![RunDeed::ShowOpenFailure(error), RunDeed::ReadyErr(error)]
                } else {
                    seq![RunDeed::ShowOpenFailure(error)]
                },
            ),
            (RunStage::Opening, RunNews::Opened { id, attached, cols, rows }) => self.on_opened(
                id,
                attached,
                cols,
                rows,
            ),
            (RunStage::Resuming, RunNews::Resume(None)) => self.to(
                RunStage::Finished,
                Seq::empty(),
            ),
            (RunStage::Resuming, RunNews::Resume(Some(after))) => match self.terminal_id {
                Some(id) => self.to(
                    RunStage::Subscribing,
                    seq![RunDeed::Subscribe { id, after }],
                ),
                None => self.to(RunStage::Finished, Seq::empty()),
            },
            (RunStage::Subscribing, RunNews::Subscribed) => self.to(
                RunStage::Streaming,
                Seq::empty(),
            ),
            (RunStage::Subscribing, RunNews::SubscribeFailed) => self.back_off(),
            (RunStage::Streaming, RunNews::Frame(last)) => RunOutcome {
                next: Run {
                    stage: if last {
                        RunStage::Finished
                    } else {
                        RunStage::Streaming
                    },
                    attempt: 0,
                    ..self
                },
                deeds: Seq::empty(),
            },
            (RunStage::Streaming, RunNews::Dropped(true)) => self.to(
                RunStage::Finished,
                Seq::empty(),
            ),
            (RunStage::Streaming, RunNews::Dropped(false)) => self.back_off(),
            (RunStage::Waiting, RunNews::Waited) => self.to(
                RunStage::Resuming,
                seq![RunDeed::LookUp],
            ),
            _ => RunOutcome { next: self, deeds: Seq::empty() },
        }
    }
}

impl TerminalRun {
    pub fn open(session_view: bool, cols: u16, rows: u16) -> (r: Self)
        ensures
            r@ == Run::opening(session_view, cols, rows),
    {
        TerminalRun {
            stage: RunStage::Opening,
            attempt: 0,
            session_view,
            cols,
            rows,
            terminal_id: None,
        }
    }

    fn wait(&mut self, actions: &mut Vec<RunAction>)
        requires
            old(actions).deep_view() == Seq::<RunDeed>::empty(),
        ensures
            final(self)@ == old(self)@.back_off().next,
            final(actions).deep_view() == old(self)@.back_off().deeds,
    {
        actions.push(RunAction::Wait(backoff_ms(self.attempt)));
        self.stage = RunStage::Waiting;
        if self.attempt < u32::MAX {
            self.attempt = self.attempt + 1;
        }
        proof {
            assert(actions.deep_view() =~= old(self)@.back_off().deeds);
        }
    }

    fn opened(
        &mut self,
        id: String,
        attached: bool,
        cols: usize,
        rows: usize,
        actions: &mut Vec<RunAction>,
    )
        requires
            old(actions).deep_view() == Seq::<RunDeed>::empty(),
        ensures
            final(self)@ == old(self)@.on_opened(id@, attached, cols, rows).next,
            final(actions).deep_view() == old(self)@.on_opened(id@, attached, cols, rows).deeds,
    {
        if !attached {
            self.stage = RunStage::Finished;
            if !self.session_view {
                actions.push(RunAction::Release(id));
            }
            proof {
                assert(actions.deep_view() =~= old(self)@.on_opened(
                    id@,
                    attached,
                    cols,
                    rows,
                ).deeds);
            }
            return;
        }
        if cols != self.cols as usize || rows != self.rows as usize {
            actions.push(RunAction::Resize { id: id.clone(), cols, rows });
        }
        if self.session_view {
            actions.push(RunAction::Ready(Ok(())));
        }
        actions.push(RunAction::LookUp);
        self.stage = RunStage::Resuming;
        self.terminal_id = Some(id);
        proof {
            assert(actions.deep_view() =~= old(self)@.on_opened(id@, attached, cols, rows).deeds);
        }
    }

    /// Applies one event.
    pub fn step(&mut self, event: RunEvent) -> (r: Vec<RunAction>)
        ensures
            final(self)@ == old(self)@.step(event.deep_view()).next,
            r.deep_view() == old(self)@.step(event.deep_view()).deeds,
    {
        let mut actions: Vec<RunAction> = Vec::new();
        proof {
            assert(actions.deep_view() =~= Seq::<RunDeed>::empty());
        }
        match (self.stage, event) {
            (RunStage::Opening, RunEvent::OpenFailed(error)) => {
                self.stage = RunStage::Finished;
                if self.session_view {
                    let copy: String = error.clone();
                    actions.push(RunAction::ShowOpenFailure(copy));
                    actions.push(RunAction::Ready(Err(error)));
                } else {
                    actions.push(RunAction::ShowOpenFailure(error));
                }
            },
            (RunStage::Opening, RunEvent::Opened { id, attached, cols, rows }) => {
                self.opened(id, attached, cols, rows, &mut actions);
            },
            (RunStage::Resuming, RunEvent::Resume { after }) => match (after, &self.terminal_id) {
                (Some(after), Some(id)) => {
                    let id: String = id.clone();
                    actions.push(RunAction::Subscribe { id, after });
                    self.stage = RunStage::Subscribing;
                },
                _ => {
                    self.stage = RunStage::Finished;
                },
            },
            (RunStage::Subscribing, RunEvent::Subscribed) => {
                self.stage = RunStage::Streaming;
            },
            (RunStage::Subscribing, RunEvent::SubscribeFailed) => {
                self.wait(&mut actions);
            },
            (RunStage::Streaming, RunEvent::Frame { last }) => {
                self.attempt = 0;
                if last {
                    self.stage = RunStage::Finished;
                }
            },
            (RunStage::Streaming, RunEvent::Dropped { done }) => {
                if done {
                    self.stage = RunStage::Finished;
                } else {
                    self.wait(&mut actions);
                }
            },
            (RunStage::Waiting, RunEvent::Waited) => {
                actions.push(RunAction::LookUp);
                self.stage = RunStage::Resuming;
            },
            _ => {},
        }
        proof {
            assert(actions.deep_view() =~= old(self)@.step(event.deep_view()).deeds);
        }
        actions
    }
}

/// A finished run stays finished and does nothing more.
pub proof fn a_finished_run_stays_silent(run: Run, event: RunNews)
    requires
        run.stage is Finished,
    ensures
        run.step(event) == (RunOutcome { next: run, deeds: Seq::empty() }),
{
}

/// A stream that drops resumes behind the last frame it applied: after the
/// wait it asks for the tab's sequence number and subscribes from there.
pub proof fn a_dropped_stream_resumes_where_it_stopped(run: Run, after: u64)
    requires
        run.stage is Streaming,
        run.terminal_id is Some,
    ensures
        ({
            let waiting = run.step(RunNews::Dropped(false)).next;
            let resuming = waiting.step(RunNews::Waited).next;
            resuming.step(RunNews::Resume(Some(after))).deeds == seq![
                RunDeed::Subscribe { id: run.terminal_id->0, after },
            ]
        }),
{
}

/// Every frame resets the backoff, so a stream that works waits the least.
pub proof fn a_frame_resets_the_backoff(run: Run)
    requires
        run.stage is Streaming,
    ensures
        run.step(RunNews::Frame(false)).next.step(RunNews::Dropped(false)).deeds == seq![
            RunDeed::Wait(500),
        ],
{
}

/// A terminal whose tab was closed meanwhile is released exactly once, unless
/// a provider's own view parks it.
pub proof fn an_orphaned_terminal_is_released(run: Run, id: Seq<char>, cols: usize, rows: usize)
    requires
        run.stage is Opening,
    ensures
        ({
            let outcome = run.step(RunNews::Opened { id, attached: false, cols, rows });
            &&& outcome.next.stage is Finished
            &&& outcome.deeds == (if run.session_view {
                Seq::empty()
            } else {
                seq![RunDeed::Release(id)]
            })
        }),
{
}

/// What is answered to those who wait for a provider's view: what came of its
/// open, or, where its tab was gone before the open completed and nothing was
/// answered, that the view is detached.
pub open spec fn answer_of(reply: Option<Result<(), Seq<char>>>) -> Result<(), Seq<char>> {
    match reply {
        Some(reply) => reply,
        None => Err("Session terminal view detached"@),
    }
}

/// A reply of an open, by its text.
pub open spec fn reply_text(reply: Result<(), String>) -> Result<(), Seq<char>> {
    match reply {
        Ok(_) => Ok(()),
        Err(error) => Err(error@),
    }
}

/// Answers those who wait for a provider's view.
pub fn open_answer(reply: Option<Result<(), String>>) -> (r: Result<(), String>)
    ensures
        reply_text(r) == answer_of(
            match reply {
                Some(reply) => Some(reply_text(reply)),
                None => None,
            },
        ),
{
    match reply {
        Some(reply) => reply,
        None => Err("Session terminal view detached".to_owned()),
    }
}

/// What a deed answers to those who wait for a view, if it does.
pub open spec fn answered_by(deed: RunDeed) -> Option<Result<(), Seq<char>>> {
    match deed {
        RunDeed::ReadyOk => Some(Ok(())),
        RunDeed::ReadyErr(error) => Some(Err(error)),
        _ => None,
    }
}

/// A provider's view whose tab is gone when its terminal opens ends its run
/// without an answer, so that those who wait hear that it is detached.
pub proof fn a_view_without_its_tab_is_detached(
    run: Run,
    id: Seq<char>,
    cols: usize,
    rows: usize,
)
    requires
        run.stage is Opening,
        run.session_view,
    ensures
        ({
            let outcome = run.step(RunNews::Opened { id, attached: false, cols, rows });
            &&& outcome.next.stage is Finished
            &&& forall|i: int|
                0 <= i < outcome.deeds.len() ==> answered_by(#[trigger] outcome.deeds[i]) is None
        }),
        answer_of(None) == Err::<(), Seq<char>>("Session terminal view detached"@),
{
}

} // verus!
