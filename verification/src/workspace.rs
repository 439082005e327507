//! The workspace of panes: sessions, their terminals, and what dragging and
//! the menus do to the arrangement.
use vstd::prelude::*;
use crate::layout::{
    Arrangement, Direction, Layout, Pane, PaneEntry, PaneId, PaneMode, Region, TabId, TabPlacement,
    ViewId,
};
use crate::list::{
    first_place_at, has_key, keyed, keyed_item, keyed_push, keyed_remove, keyed_update,
    keys_distinct,
};
use crate::pane_header::{chat_of, find_chat, ChatRow};
use crate::terminal_panel::{SessionViewStatus, ViewStatus};
use crate::text::{copy_option, join2, same_option, same_text};

verus! {

/// The harness whose sessions can be handed to a terminal.
pub open spec fn pi_harness() -> Seq<char> {
    "pi"@
}

/// A pane that was rendered.
#[derive(Debug)]
pub struct PaneRuntime {
    pub pane: PaneId,
    /// Its terminal shows, not its chat.
    pub shows_terminal: bool,
    /// Where its terminal stands, where it has one.
    pub terminal: Option<SessionViewStatus>,
}

/// What a rendered pane is.
pub struct Runtime {
    pub shows_terminal: bool,
    pub terminal: Option<ViewStatus>,
}

/// A status, where there is one.
pub open spec fn status_of(status: Option<SessionViewStatus>) -> Option<ViewStatus> {
    match status {
        Some(status) => Some(status@),
        None => None,
    }
}

/// The pane of a runtime.
pub open spec fn runtime_key() -> spec_fn(PaneRuntime) -> PaneId {
    |entry: PaneRuntime| entry.pane
}

/// What a runtime entry holds.
pub open spec fn runtime_value() -> spec_fn(PaneRuntime) -> Runtime {
    |entry: PaneRuntime|
        Runtime { shows_terminal: entry.shows_terminal, terminal: status_of(entry.terminal) }
}

/// What is dragged over the workspace.
#[derive(Debug, Clone, Copy, PartialEq, Eq, Structural)]
pub enum DragTarget {
    Pane(PaneId),
    Tab(TabId),
}

/// What the layout engine is asked to do.
#[derive(Debug, Clone, Copy, PartialEq, Eq, Structural)]
pub enum WorkspaceOp {
    FocusPane { pane: PaneId },
    FocusTab { view: ViewId, tab: TabId },
    /// A tab with an unbound pane.
    AddTab { view: ViewId },
    SplitPane { pane: PaneId, direction: Direction },
    SplitView { view: ViewId, direction: Direction },
    /// Closes a pane; the last one makes way for the launcher.
    CloseToLauncher { pane: PaneId },
    SetMode { pane: PaneId, mode: PaneMode },
    PaneToTab { pane: PaneId, view: ViewId },
    PlaceTabs { view: ViewId, placement: TabPlacement },
    PaneToView { pane: PaneId, view: ViewId, direction: Direction },
    TabToView { tab: TabId, view: ViewId, direction: Direction },
    MovePane { pane: PaneId, target: PaneId, direction: Direction },
    MergeTab { tab: TabId, target: PaneId, direction: Direction },
    MoveTab { tab: TabId, view: ViewId },
    /// A tab goes before another of a view.
    InsertTab { tab: TabId, view: ViewId, before: Option<TabId> },
    /// A pane becomes a tab, which then goes before another of a view where it
    /// `needs_reorder`.
    InsertPane { pane: PaneId, view: ViewId, before: Option<TabId> },
}

/// Where a selected session goes.
#[derive(Debug)]
pub enum SelectPlan {
    Nothing,
    /// To the pane it has.
    Focus { pane: PaneId },
    /// To a new tab, so that a terminal is not orphaned.
    AddTab { view: ViewId, session: Option<String> },
    /// To the focused pane.
    Bind { pane: PaneId, session: Option<String> },
}

/// What closing a pane takes.
#[derive(Debug, Clone, Copy, PartialEq, Eq, Structural)]
pub enum ClosePlan {
    Refused,
    /// Its terminal is released first.
    ReleaseTerminal,
    CloseNow { pane: PaneId },
}

/// What a pane that is rendered anew needs.
#[derive(Debug, Clone, Copy, PartialEq, Eq, Structural)]
pub enum RuntimePlan {
    Nothing,
    /// A chat.
    Chat,
    /// A chat, and a session's terminal that is opened.
    OpenTerminal,
    /// A chat, and a terminal that is only there to be closed.
    PrepareTerminal,
    /// A chat, and a terminal of a session that has yet to be made.
    StartCli,
}

/// What a terminal's status asks for.
#[derive(Debug, Clone, Copy, PartialEq, Eq, Structural)]
pub enum StatusPlan {
    Nothing,
    SetMode { pane: PaneId, mode: PaneMode },
    Close { pane: PaneId },
}

/// What switching a pane's view takes.
#[derive(Debug, Clone, Copy, PartialEq, Eq, Structural)]
pub enum ToggleDeed {
    /// The failed handoff is undone.
    Recover,
    Refuse,
    /// The terminal is closed, and its history comes back to the chat.
    CloseTerminal,
    OpenTerminal,
    StartCli,
    /// The pane is gone.
    Nothing,
}

/// What a toggle leads to.
#[derive(Debug, Clone, Copy, PartialEq, Eq, Structural)]
pub struct TogglePlan {
    /// The pane has to be focused first.
    pub focus: bool,
    pub deed: ToggleDeed,
}

/// The workspace.
#[derive(Debug)]
pub struct Workspace {
    pub layout: Layout,
    pub source_selected: Option<String>,
    pub panes: Vec<PaneRuntime>,
    /// Panes that close once their terminal is released.
    pub pending_close: Vec<PaneId>,
    /// Panes whose session is being made.
    pub starting_cli: Vec<PaneId>,
    pub error: Option<String>,
    pub drop_preview: Option<(PaneId, Option<Direction>)>,
    pub outer_preview: Option<(ViewId, Direction)>,
    pub tab_preview: Option<(ViewId, Option<TabId>)>,
    pub publish_active: bool,
    pub focus_pending: bool,
    pub save_due: bool,
}

/// What the workspace is.
#[verifier::ext_equal]
pub struct Station {
    pub layout: Arrangement,
    pub source_selected: Option<Seq<char>>,
    pub panes: Map<PaneId, Runtime>,
    pub pending_close: Set<PaneId>,
    pub starting_cli: Set<PaneId>,
    pub error: Option<Seq<char>>,
    pub drop_preview: Option<(PaneId, Option<Direction>)>,
    pub outer_preview: Option<(ViewId, Direction)>,
    pub tab_preview: Option<(ViewId, Option<TabId>)>,
    pub publish_active: bool,
    pub focus_pending: bool,
    pub save_due: bool,
}

impl View for Workspace {
    type V = Station;

    open spec fn view(&self) -> Station {
        Station {
            layout: self.layout@,
            source_selected: self.source_selected.deep_view(),
            panes: keyed(self.panes@, runtime_key(), runtime_value()),
            pending_close: self.pending_close@.to_set(),
            starting_cli: self.starting_cli@.to_set(),
            error: self.error.deep_view(),
            drop_preview: self.drop_preview,
            outer_preview: self.outer_preview,
            tab_preview: self.tab_preview,
            publish_active: self.publish_active,
            focus_pending: self.focus_pending,
            save_due: self.save_due,
        }
    }
}

fn has_pane(list: &Vec<PaneId>, pane: PaneId) -> (r: bool)
    ensures
        r == list@.to_set().contains(pane),
{
    let mut i: usize = 0;
    while i < list.len()
        invariant
            i <= list@.len(),
            forall|k: int| 0 <= k < i ==> list@[k] != pane,
        decreases list@.len() - i,
    {
        if list[i] == pane {
            proof {
                assert(list@.contains(pane));
            }
            return true;
        }
        i += 1;
    }
    false
}

fn add_pane(list: &mut Vec<PaneId>, pane: PaneId)
    ensures
        final(list)@.to_set() == old(list)@.to_set().insert(pane),
{
    let ghost before = list@;
    list.push(pane);
    proof {
        assert forall|other: PaneId|
            list@.to_set().contains(other) == #[trigger] before.to_set().insert(pane).contains(
                other,
            ) by {
            if before.contains(other) {
                let k = choose|k: int| 0 <= k < before.len() && #[trigger] before[k] == other;
                assert(list@[k] == other);
            }
            if other == pane {
                assert(list@[before.len() as int] == pane);
            }
            if list@.contains(other) && other != pane {
                let k = choose|k: int| 0 <= k < list@.len() && #[trigger] list@[k] == other;
                assert(before[k] == other);
            }
        }
        assert(list@.to_set() =~= before.to_set().insert(pane));
    }
}

fn remove_pane(list: &mut Vec<PaneId>, pane: PaneId) -> (r: bool)
    ensures
        r == old(list)@.to_set().contains(pane),
        final(list)@.to_set() == old(list)@.to_set().remove(pane),
{
    let there: bool = has_pane(list, pane);
    let mut kept: Vec<PaneId> = Vec::new();
    let mut i: usize = 0;
    let ghost all = list@;
    while i < list.len()
        invariant
            i <= list@.len(),
            list@ == all,
            forall|other: PaneId| #[trigger]
                kept@.contains(other) <==> other != pane && all.take(i as int).contains(other),
        decreases list@.len() - i,
    {
        let ghost before = kept@;
        let item: PaneId = list[i];
        if item != pane {
            kept.push(item);
        }
        proof {
            let front = all.take(i as int);
            let next = all.take(i + 1);
            assert(next =~= front.push(item));
            assert forall|other: PaneId| #[trigger]
                kept@.contains(other) <==> other != pane && next.contains(other) by {
                if before.contains(other) {
                    let k = choose|k: int| 0 <= k < before.len() && #[trigger] before[k] == other;
                    assert(kept@[k] == other);
                }
                if front.contains(other) {
                    let k = choose|k: int| 0 <= k < front.len() && #[trigger] front[k] == other;
                    assert(next[k] == other);
                }
                if other == item {
                    assert(next[i as int] == item);
                    if item != pane {
                        assert(kept@[before.len() as int] == item);
                    }
                }
                if next.contains(other) && other != item {
                    let k = choose|k: int| 0 <= k < next.len() && #[trigger] next[k] == other;
                    assert(front[k] == other);
                }
                if kept@.contains(other) && other != item {
                    let k = choose|k: int| 0 <= k < kept@.len() && #[trigger] kept@[k] == other;
                    assert(before[k] == other);
                }
            }
        }
        i += 1;
    }
    proof {
        assert(all.take(all.len() as int) =~= all);
        assert(kept@.to_set() =~= all.to_set().remove(pane));
    }
    *list = kept;
    there
}

impl Station {
    /// The status of a pane's terminal, where it has one.
    pub open spec fn terminal(self, pane: PaneId) -> Option<ViewStatus> {
        if self.panes.dom().contains(pane) {
            self.panes[pane].terminal
        } else {
            None
        }
    }

    /// The engine carried an operation out.
    pub open spec fn changed(self, layout: Arrangement) -> Station {
        Station { layout, error: None, publish_active: true, save_due: true, ..self }
    }

    /// A pane's mode.
    pub open spec fn mode(self, pane: PaneId) -> Option<PaneMode> {
        match self.layout.pane(pane) {
            Some(pane) => Some(pane.mode),
            None => None,
        }
    }

    /// Where a selected session goes: to the pane it has; to a new tab where
    /// the focused pane is a terminal or is switching; else to the focused
    /// pane.
    pub open spec fn selects(self, chat: Option<Seq<char>>, plan: SelectPlan) -> bool {
        let home = match chat {
            Some(chat) => self.layout.home_of(chat),
            None => None,
        };
        let focus = self.layout.active_pane();
        if home is Some {
            plan == SelectPlan::Focus { pane: home->0 }
        } else if focus is None {
            plan is Nothing
        } else {
            let terminal = self.terminal(focus->0);
            let switching = terminal is Some && !(terminal->0 is Idle);
            if switching || self.mode(focus->0) == Some(PaneMode::Terminal) {
                &&& plan is AddTab
                &&& plan->view == self.layout.active_view
                &&& plan->AddTab_session.deep_view() == chat
            } else {
                &&& plan is Bind
                &&& plan->Bind_pane == focus->0
                &&& plan->Bind_session.deep_view() == chat
            }
        }
    }

    /// The terminal a pane has, or gets once it is rendered to be closed.
    pub open spec fn terminal_to_close(self, pane: PaneId) -> bool {
        if self.panes.dom().contains(pane) {
            self.panes[pane].terminal is Some
        } else {
            self.mode(pane) == Some(PaneMode::Terminal)
        }
    }

    /// A pane that is rendered anew.
    pub open spec fn rendered(self, pane: PaneId, reopen: bool) -> Station {
        if self.panes.dom().contains(pane) || self.layout.pane(pane) is None {
            self
        } else {
            let entry = self.layout.pane(pane)->0;
            Station {
                panes: self.panes.insert(
                    pane,
                    Runtime {
                        shows_terminal: false,
                        terminal: if entry.mode is Terminal && !(reopen && entry.session is None) {
                            Some(ViewStatus::Idle)
                        } else {
                            None
                        },
                    },
                ),
                ..self
            }
        }
    }

    /// What a pane that is rendered anew needs.
    pub open spec fn render_plan(self, pane: PaneId, reopen: bool) -> RuntimePlan {
        if self.panes.dom().contains(pane) || self.layout.pane(pane) is None {
            RuntimePlan::Nothing
        } else {
            let entry = self.layout.pane(pane)->0;
            if entry.mode is Chat {
                RuntimePlan::Chat
            } else if !reopen {
                RuntimePlan::PrepareTerminal
            } else if entry.session is None {
                RuntimePlan::StartCli
            } else {
                RuntimePlan::OpenTerminal
            }
        }
    }

    /// The workspace once a pane is on the screen: one that is not rendered
    /// yet is, and its terminal is asked to open where it shows one. `opened`
    /// is the status such a terminal has from then on.
    pub open spec fn mounted(self, pane: PaneId, opened: ViewStatus) -> Station {
        let next = self.rendered(pane, true);
        if self.render_plan(pane, true) is OpenTerminal {
            Station {
                panes: next.panes.insert(
                    pane,
                    Runtime { terminal: Some(opened), ..next.panes[pane] },
                ),
                ..next
            }
        } else {
            next
        }
    }

    /// What opening a pane's terminal takes.
    pub open spec fn open_plan(self, pane: PaneId) -> RuntimePlan {
        if self.layout.pane(pane) is Some && self.layout.pane(pane)->0.session is None {
            RuntimePlan::StartCli
        } else if self.panes.dom().contains(pane) {
            RuntimePlan::OpenTerminal
        } else {
            RuntimePlan::Nothing
        }
    }

    /// The workspace once a pane's terminal is asked to open.
    pub open spec fn opening(self, pane: PaneId) -> Station {
        if self.open_plan(pane) is OpenTerminal && self.panes[pane].terminal is None {
            Station {
                panes: self.panes.insert(
                    pane,
                    Runtime { terminal: Some(ViewStatus::Idle), ..self.panes[pane] },
                ),
                ..self
            }
        } else {
            self
        }
    }

    /// What closing a pane takes, where the engine would close it.
    pub open spec fn close_plan(self, pane: PaneId) -> ClosePlan {
        if self.terminal_to_close(pane) {
            ClosePlan::ReleaseTerminal
        } else {
            ClosePlan::CloseNow { pane }
        }
    }

    /// The workspace once a pane is asked to close.
    pub open spec fn closing(self, pane: PaneId) -> Station {
        let shown = if self.mode(pane) == Some(PaneMode::Terminal) {
            self.rendered(pane, false)
        } else {
            self
        };
        if self.terminal_to_close(pane) {
            Station {
                pending_close: self.pending_close.insert(pane),
                focus_pending: true,
                ..shown
            }
        } else {
            Station { panes: shown.panes.remove(pane), focus_pending: true, ..shown }
        }
    }

    /// A pane shows a terminal whose handoff failed.
    pub open spec fn handoff_failed(self, pane: PaneId) -> bool {
        &&& self.terminal(pane) is Some
        &&& self.terminal(pane)->0 is Failed
        &&& self.panes[pane].shows_terminal
    }

    /// The workspace where a toggle goes on: its pane is focused and rendered.
    pub open spec fn toggling(self, pane: PaneId) -> Station {
        Station {
            focus_pending: self.focus_pending || self.layout.active_pane() != Some(pane),
            ..self
        }.rendered(pane, true)
    }

    /// What switching a pane's view takes, given why it cannot be, if it
    /// cannot.
    pub open spec fn toggle_deed(self, pane: PaneId, reason: Option<Seq<char>>) -> ToggleDeed {
        if self.handoff_failed(pane) {
            ToggleDeed::Recover
        } else if reason is Some {
            ToggleDeed::Refuse
        } else if self.mode(pane) == Some(PaneMode::Terminal) {
            ToggleDeed::CloseTerminal
        } else {
            match self.toggling(pane).open_plan(pane) {
                RuntimePlan::StartCli => ToggleDeed::StartCli,
                RuntimePlan::OpenTerminal => ToggleDeed::OpenTerminal,
                _ => ToggleDeed::Nothing,
            }
        }
    }

    /// The workspace once a pane's view is asked to switch.
    pub open spec fn toggled(self, pane: PaneId, reason: Option<Seq<char>>) -> Station {
        match self.toggle_deed(pane, reason) {
            ToggleDeed::Recover => self,
            ToggleDeed::Refuse => Station { error: reason, ..self },
            ToggleDeed::CloseTerminal => self.toggling(pane),
            _ => self.toggling(pane).opening(pane),
        }
    }

    /// A pane's mode follows its terminal: whether an operation is needed.
    pub open spec fn mode_op(self, pane: PaneId, mode: PaneMode) -> StatusPlan {
        if self.mode(pane) is Some && self.mode(pane) != Some(mode) {
            StatusPlan::SetMode { pane, mode }
        } else {
            StatusPlan::Nothing
        }
    }

    /// A pane's runtime with another terminal status, and what shows.
    pub open spec fn showing(self, pane: PaneId, status: ViewStatus, shows_terminal: bool) -> Station {
        if self.panes.dom().contains(pane) {
            Station {
                panes: self.panes.insert(
                    pane,
                    Runtime { shows_terminal, terminal: Some(status) },
                ),
                ..self
            }
        } else {
            self
        }
    }

    /// The workspace after a terminal's status changed.
    pub open spec fn after_status(self, pane: PaneId, status: ViewStatus) -> Station {
        let shown = self.panes.dom().contains(pane) && self.panes[pane].shows_terminal;
        let focused = self.layout.active_pane() == Some(pane);
        match status {
            ViewStatus::Opening => Station {
                focus_pending: focused,
                ..self.showing(pane, status, true)
            },
            ViewStatus::Ready => Station {
                pending_close: self.pending_close.remove(pane),
                focus_pending: focused,
                ..self.showing(pane, status, true)
            },
            ViewStatus::Idle => if self.pending_close.contains(pane) {
                Station {
                    pending_close: self.pending_close.remove(pane),
                    panes: self.panes.remove(pane),
                    ..self
                }
            } else {
                Station { focus_pending: focused, ..self.showing(pane, status, false) }
            },
            ViewStatus::Failed(error) => Station {
                pending_close: self.pending_close.remove(pane),
                error: Some(error),
                ..self.showing(pane, status, shown)
            },
            ViewStatus::Closing => self.showing(pane, status, shown),
        }
    }

    /// What a terminal's status asks for: a released pane closes, and any
    /// other's mode follows.
    pub open spec fn status_plan(self, pane: PaneId, status: ViewStatus) -> StatusPlan {
        match status {
            ViewStatus::Ready => self.mode_op(pane, PaneMode::Terminal),
            ViewStatus::Idle => if self.pending_close.contains(pane) {
                StatusPlan::Close { pane }
            } else {
                self.mode_op(pane, PaneMode::Chat)
            },
            _ => StatusPlan::Nothing,
        }
    }
}

/// What is known of the sessions and of the native side, for a switch of
/// views.
#[derive(Debug)]
pub struct ToggleFacts {
    /// Why a native session cannot be handed over, if it cannot.
    pub handoff: Option<&'static str>,
    /// Why an unbound pane cannot get a session, if it cannot.
    pub empty_cli: Option<&'static str>,
    /// Sessions whose agent works or waits.
    pub busy: Vec<String>,
    pub chats: Vec<ChatRow>,
}

/// Why a pane's view cannot be switched, if it cannot.
pub open spec fn refusal(station: Station, facts: ToggleFacts, pane: PaneId) -> Option<Seq<char>> {
    let terminal = station.terminal(pane);
    match station.layout.pane(pane) {
        None => None,
        Some(entry) => if station.starting_cli.contains(pane) {
            Some("Preparing CLI session"@)
        } else if terminal is Some && (terminal->0 is Opening || terminal->0 is Closing) {
            Some("Wait for the current view switch to finish"@)
        } else if entry.mode is Terminal {
            if terminal is None {
                Some("Native session state is not verified"@)
            } else {
                facts.handoff.deep_view()
            }
        } else if entry.session is None {
            facts.empty_cli.deep_view()
        } else if facts.busy.deep_view().contains(entry.session->0) {
            Some("Wait for the agent to become idle before switching views"@)
        } else {
            match chat_of(facts.chats@, entry.session) {
                None => Some("Session is unavailable"@),
                Some(chat) => if chat.harness.deep_view() == Some(pi_harness()) {
                    None
                } else {
                    Some("CLI switching is available for Pi sessions"@)
                },
            }
        },
    }
}

impl Workspace {
    /// No pane is rendered twice.
    pub open spec fn wf(&self) -> bool {
        keys_distinct(self.panes@, runtime_key())
    }

    /// A workspace over the arrangement that was stored. Where none was, or it
    /// cannot be restored, it starts from `fresh`; only in the first case the
    /// focused pane opens on the selected session.
    pub fn new(stored: Option<Result<Layout, String>>, fresh: Layout, selected: Option<String>) -> (r:
        Self)
        ensures
            r.wf(),
            r@ == (Station {
                layout: match stored {
                    Some(Ok(layout)) => layout@,
                    Some(Err(_)) => fresh@,
                    None => match fresh@.active_pane() {
                        Some(pane) => fresh@.with_session(pane, selected.deep_view()),
                        None => fresh@,
                    },
                },
                source_selected: selected.deep_view(),
                panes: Map::empty(),
                pending_close: Set::empty(),
                starting_cli: Set::empty(),
                error: match stored {
                    Some(Err(error)) => Some("Could not restore layout: "@ + error@),
                    _ => None,
                },
                drop_preview: None,
                outer_preview: None,
                tab_preview: None,
                publish_active: true,
                focus_pending: true,
                save_due: false,
            }),
    {
        let mut error: Option<String> = None;
        let layout: Layout = match stored {
            Some(Ok(layout)) => layout,
            Some(Err(cause)) => {
                error = Some(join2("Could not restore layout: ", cause.as_str()));
                fresh
            },
            None => {
                let mut layout: Layout = fresh;
                match layout.active_pane_id() {
                    Some(pane) => {
                        let session: Option<String> = copy_option(&selected);
                        let _found: bool = layout.set_pane_session(pane, session);
                    },
                    None => {},
                }
                layout
            },
        };
        let r: Workspace = Workspace {
            layout,
            source_selected: selected,
            panes: Vec::new(),
            pending_close: Vec::new(),
            starting_cli: Vec::new(),
            error,
            drop_preview: None,
            outer_preview: None,
            tab_preview: None,
            publish_active: true,
            focus_pending: true,
            save_due: false,
        };
        proof {
            assert(r@.panes =~= Map::<PaneId, Runtime>::empty());
            assert(r.pending_close@.to_set() =~= Set::<PaneId>::empty());
            assert(r.starting_cli@.to_set() =~= Set::<PaneId>::empty());
        }
        r
    }

    /// Takes over what the engine made of an operation.
    pub fn applied(&mut self, outcome: Result<Layout, String>)
        requires
            old(self).wf(),
        ensures
            final(self).wf(),
            final(self)@ == (match outcome {
                Ok(layout) => old(self)@.changed(layout@),
                Err(error) => Station { error: Some(error@), ..old(self)@ },
            }),
    {
        match outcome {
            Ok(layout) => {
                self.layout = layout;
                self.error = None;
                self.publish_active = true;
                self.save_due = true;
            },
            Err(error) => {
                self.error = Some(error);
            },
        }
    }

    /// Whether the arrangement is due to be stored; asking settles it.
    pub fn take_save(&mut self) -> (r: bool)
        requires
            old(self).wf(),
        ensures
            final(self).wf(),
            r == old(self)@.save_due,
            final(self)@ == (Station { save_due: false, ..old(self)@ }),
    {
        let due: bool = self.save_due;
        self.save_due = false;
        due
    }

    /// The arrangement is stored at once: what was due is settled by it.
    pub fn flush(&mut self)
        requires
            old(self).wf(),
        ensures
            final(self).wf(),
            final(self)@ == (Station { save_due: false, ..old(self)@ }),
    {
        let _due: bool = self.take_save();
    }

    /// Takes over that the arrangement could not be stored.
    pub fn save_failed(&mut self, error: &str)
        requires
            old(self).wf(),
        ensures
            final(self).wf(),
            final(self)@ == (Station {
                error: Some("Could not save layout: "@ + error@),
                ..old(self)@
            }),
    {
        self.error = Some(join2("Could not save layout: ", error));
    }

    /// The place of a rendered pane.
    fn find_runtime(&self, pane: PaneId) -> (r: Option<usize>)
        requires
            self.wf(),
        ensures
            (match r {
                Some(at) => {
                    &&& at < self.panes@.len()
                    &&& self.panes@[at as int].pane == pane
                    &&& self@.panes.dom().contains(pane)
                    &&& self@.panes[pane] == runtime_value()(self.panes@[at as int])
                },
                None => !self@.panes.dom().contains(pane),
            }),
    {
        let mut at: usize = 0;
        let ghost holds = has_key(runtime_key(), pane);
        while at < self.panes.len()
            invariant
                at <= self.panes@.len(),
                self.wf(),
                holds == has_key(runtime_key(), pane),
                forall|i: int| 0 <= i < at ==> !holds(#[trigger] self.panes@[i]),
            decreases self.panes@.len() - at,
        {
            if self.panes[at].pane == pane {
                proof {
                    keyed_item(self.panes@, runtime_key(), runtime_value(), at as int);
                }
                return Some(at);
            }
            at += 1;
        }
        proof {
            first_place_at(self.panes@, holds, at as int);
        }
        None
    }

    /// Stores a rendered pane.
    fn put_runtime(&mut self, entry: PaneRuntime)
        requires
            old(self).wf(),
        ensures
            final(self).wf(),
            final(self)@ == (Station {
                panes: old(self)@.panes.insert(entry.pane, runtime_value()(entry)),
                ..old(self)@
            }),
    {
        let ghost before = self.panes@;
        match self.find_runtime(entry.pane) {
            Some(at) => {
                proof {
                    keyed_update(before, runtime_key(), runtime_value(), at as int, entry);
                }
                self.panes.set(at, entry);
            },
            None => {
                proof {
                    keyed_push(before, runtime_key(), runtime_value(), entry);
                }
                self.panes.push(entry);
            },
        }
    }

    /// Forgets a rendered pane.
    fn drop_runtime(&mut self, pane: PaneId)
        requires
            old(self).wf(),
        ensures
            final(self).wf(),
            final(self)@ == (Station { panes: old(self)@.panes.remove(pane), ..old(self)@ }),
    {
        match self.find_runtime(pane) {
            Some(at) => {
                proof {
                    keyed_remove(self.panes@, runtime_key(), runtime_value(), at as int);
                }
                let _gone: PaneRuntime = self.panes.remove(at);
            },
            None => {
                proof {
                    assert(self@.panes.remove(pane) =~= self@.panes);
                }
            },
        }
    }

    /// Focuses a pane, where another is focused.
    pub fn focus(&mut self, pane: PaneId) -> (r: Option<WorkspaceOp>)
        requires
            old(self).wf(),
        ensures
            final(self).wf(),
            r == (if old(self)@.layout.active_pane() == Some(pane) {
                None
            } else {
                Some(WorkspaceOp::FocusPane { pane })
            }),
            final(self)@ == (Station {
                focus_pending: old(self)@.focus_pending || r is Some,
                ..old(self)@
            }),
    {
        if self.layout.active_pane_id() == Some(pane) {
            return None;
        }
        self.focus_pending = true;
        Some(WorkspaceOp::FocusPane { pane })
    }

    /// Focuses a tab.
    pub fn focus_tab(&mut self, view: ViewId, tab: TabId) -> (r: WorkspaceOp)
        requires
            old(self).wf(),
        ensures
            final(self).wf(),
            r == (WorkspaceOp::FocusTab { view, tab }),
            final(self)@ == (Station { focus_pending: true, ..old(self)@ }),
    {
        self.focus_pending = true;
        WorkspaceOp::FocusTab { view, tab }
    }

    /// A pane's own chat selected a session: the pane is bound to it, where it
    /// is not yet.
    pub fn chat_selected(&self, pane: PaneId, selected: Option<String>) -> (r: SelectPlan)
        ensures
            match self@.layout.pane(pane) {
                Some(entry) if entry.session != selected.deep_view() => {
                    &&& r is Bind
                    &&& r->Bind_pane == pane
                    &&& r->Bind_session.deep_view() == selected.deep_view()
                },
                _ => r is Nothing,
            },
    {
        match self.layout.find_pane(pane) {
            Some(at) => {
                if same_option(&self.layout.panes[at].session, &selected) {
                    SelectPlan::Nothing
                } else {
                    SelectPlan::Bind { pane, session: selected }
                }
            },
            None => SelectPlan::Nothing,
        }
    }

    /// Takes over the session that the published pane shows, so that the
    /// application's echo of it changes nothing.
    pub fn published(&mut self, chat: Option<String>)
        requires
            old(self).wf(),
        ensures
            final(self).wf(),
            final(self)@ == (Station { source_selected: chat.deep_view(), ..old(self)@ }),
    {
        self.source_selected = chat;
    }

    /// Where a selected session goes. Focusing its pane is then asked for by
    /// `focus`.
    pub fn select_session(&self, chat: Option<String>) -> (r: SelectPlan)
        requires
            self.wf(),
        ensures
            self@.selects(chat.deep_view(), r),
    {
        match &chat {
            Some(id) => match self.layout.find_pane_with_session(id.as_str()) {
                Some(pane) => return SelectPlan::Focus { pane },
                None => {},
            },
            None => {},
        }
        let pane: PaneId = match self.layout.active_pane_id() {
            Some(pane) => pane,
            None => return SelectPlan::Nothing,
        };
        let switching: bool = match self.find_runtime(pane) {
            Some(at) => match &self.panes[at].terminal {
                Some(status) => match status {
                    SessionViewStatus::Idle => false,
                    _ => true,
                },
                None => false,
            },
            None => false,
        };
        let terminal: bool = match self.layout.find_pane(pane) {
            Some(at) => self.layout.panes[at].mode == PaneMode::Terminal,
            None => false,
        };
        if switching || terminal {
            return SelectPlan::AddTab { view: self.layout.active_view, session: chat };
        }
        SelectPlan::Bind { pane, session: chat }
    }

    /// Follows the application's selection, where it changed.
    pub fn source_changed(&mut self, selected: Option<String>) -> (r: SelectPlan)
        requires
            old(self).wf(),
        ensures
            final(self).wf(),
            final(self)@ == (Station {
                source_selected: selected.deep_view(),
                ..old(self)@
            }),
            if old(self)@.source_selected == selected.deep_view() {
                r is Nothing
            } else {
                old(self)@.selects(selected.deep_view(), r)
            },
    {
        if same_option(&selected, &self.source_selected) {
            return SelectPlan::Nothing;
        }
        let chat: Option<String> = copy_option(&selected);
        self.source_selected = selected;
        self.select_session(chat)
    }

    /// Splits the focused pane, or the view it lies in.
    pub fn split(&mut self, direction: Direction, view: bool) -> (r: Option<WorkspaceOp>)
        requires
            old(self).wf(),
        ensures
            final(self).wf(),
            final(self)@ == (Station { focus_pending: true, ..old(self)@ }),
            r == (match old(self)@.layout.active_pane() {
                Some(pane) => Some(
                    if view {
                        WorkspaceOp::SplitView { view: old(self)@.layout.active_view, direction }
                    } else {
                        WorkspaceOp::SplitPane { pane, direction }
                    },
                ),
                None => None,
            }),
    {
        self.focus_pending = true;
        match self.layout.active_pane_id() {
            Some(pane) => {
                if view {
                    Some(WorkspaceOp::SplitView { view: self.layout.active_view, direction })
                } else {
                    Some(WorkspaceOp::SplitPane { pane, direction })
                }
            },
            None => None,
        }
    }

    /// Adds a tab to the active view.
    pub fn new_tab(&mut self) -> (r: WorkspaceOp)
        requires
            old(self).wf(),
        ensures
            final(self).wf(),
            final(self)@ == (Station { focus_pending: true, ..old(self)@ }),
            r == (WorkspaceOp::AddTab { view: old(self)@.layout.active_view }),
    {
        self.focus_pending = true;
        WorkspaceOp::AddTab { view: self.layout.active_view }
    }

    /// Adds a tab to the view whose rail was pressed: that view becomes the
    /// active one first. A view that is gone leaves the active one in charge.
    pub fn new_tab_in_view(&mut self, view: ViewId) -> (r: WorkspaceOp)
        requires
            old(self).wf(),
        ensures
            final(self).wf(),
            ({
                let before = old(self)@;
                let pressed = if before.layout.region(view) is Some {
                    view
                } else {
                    before.layout.active_view
                };
                &&& r == (WorkspaceOp::AddTab { view: pressed })
                &&& final(self)@ == (Station {
                    layout: Arrangement { active_view: pressed, ..before.layout },
                    focus_pending: true,
                    ..before
                })
            }),
    {
        if self.layout.find_view(view).is_some() {
            self.layout.active_view = view;
        }
        self.new_tab()
    }

    /// Renders a pane that is not rendered yet.
    pub fn ensure_pane_runtime(&mut self, pane: PaneId, reopen: bool) -> (r: RuntimePlan)
        requires
            old(self).wf(),
        ensures
            final(self).wf(),
            final(self)@ == old(self)@.rendered(pane, reopen),
            r == old(self)@.render_plan(pane, reopen),
    {
        if self.find_runtime(pane).is_some() {
            return RuntimePlan::Nothing;
        }
        let at: usize = match self.layout.find_pane(pane) {
            Some(at) => at,
            None => return RuntimePlan::Nothing,
        };
        let plan: RuntimePlan = match self.layout.panes[at].mode {
            PaneMode::Chat => RuntimePlan::Chat,
            PaneMode::Terminal => {
                if !reopen {
                    RuntimePlan::PrepareTerminal
                } else if self.layout.panes[at].session.is_none() {
                    RuntimePlan::StartCli
                } else {
                    RuntimePlan::OpenTerminal
                }
            },
        };
        let terminal: Option<SessionViewStatus> = match plan {
            RuntimePlan::PrepareTerminal => Some(SessionViewStatus::Idle),
            RuntimePlan::OpenTerminal => Some(SessionViewStatus::Idle),
            _ => None,
        };
        self.put_runtime(PaneRuntime { pane, shows_terminal: false, terminal });
        plan
    }

    /// Opens the terminal of a pane: of its session, or of one that has yet to
    /// be made.
    pub fn open_terminal(&mut self, pane: PaneId) -> (r: RuntimePlan)
        requires
            old(self).wf(),
        ensures
            final(self).wf(),
            r == old(self)@.open_plan(pane),
            final(self)@ == old(self)@.opening(pane),
    {
        let unbound: bool = match self.layout.find_pane(pane) {
            Some(at) => self.layout.panes[at].session.is_none(),
            None => false,
        };
        if unbound {
            return RuntimePlan::StartCli;
        }
        match self.find_runtime(pane) {
            Some(at) => {
                if self.panes[at].terminal.is_none() {
                    let shows_terminal: bool = self.panes[at].shows_terminal;
                    self.put_runtime(
                        PaneRuntime {
                            pane,
                            shows_terminal,
                            terminal: Some(SessionViewStatus::Idle),
                        },
                    );
                }
                RuntimePlan::OpenTerminal
            },
            None => RuntimePlan::Nothing,
        }
    }

    /// Closes a pane. A pane with a terminal only goes once that is released.
    /// `refused` is why the engine would not close it, if it would not.
    pub fn close(&mut self, pane: PaneId, refused: Option<String>) -> (r: ClosePlan)
        requires
            old(self).wf(),
        ensures
            final(self).wf(),
            r == (match refused {
                Some(_) => ClosePlan::Refused,
                None => old(self)@.close_plan(pane),
            }),
            final(self)@ == (match refused {
                Some(error) => Station {
                    error: Some(error@),
                    focus_pending: true,
                    ..old(self)@
                },
                None => old(self)@.closing(pane),
            }),
    {
        self.focus_pending = true;
        match refused {
            Some(error) => {
                self.error = Some(error);
                return ClosePlan::Refused;
            },
            None => {},
        }
        let terminal_mode: bool = match self.layout.find_pane(pane) {
            Some(at) => self.layout.panes[at].mode == PaneMode::Terminal,
            None => false,
        };
        if terminal_mode {
            let _plan: RuntimePlan = self.ensure_pane_runtime(pane, false);
        }
        let terminal: bool = match self.find_runtime(pane) {
            Some(at) => self.panes[at].terminal.is_some(),
            None => false,
        };
        if terminal {
            add_pane(&mut self.pending_close, pane);
            return ClosePlan::ReleaseTerminal;
        }
        self.drop_runtime(pane);
        ClosePlan::CloseNow { pane }
    }

    /// Takes over a terminal's status.
    pub fn terminal_status(&mut self, pane: PaneId, status: SessionViewStatus) -> (r: StatusPlan)
        requires
            old(self).wf(),
        ensures
            final(self).wf(),
            final(self)@ == old(self)@.after_status(pane, status@),
            r == old(self)@.status_plan(pane, status@),
    {
        let focused: bool = self.layout.active_pane_id() == Some(pane);
        let shown: bool = match self.find_runtime(pane) {
            Some(at) => self.panes[at].shows_terminal,
            None => false,
        };
        match status {
            SessionViewStatus::Opening => {
                self.focus_pending = focused;
                self.show(pane, SessionViewStatus::Opening, true);
                StatusPlan::Nothing
            },
            SessionViewStatus::Ready => {
                let plan: StatusPlan = self.mode_plan(pane, PaneMode::Terminal);
                let _pending: bool = remove_pane(&mut self.pending_close, pane);
                self.focus_pending = focused;
                self.show(pane, SessionViewStatus::Ready, true);
                plan
            },
            SessionViewStatus::Idle => {
                let plan: StatusPlan = self.mode_plan(pane, PaneMode::Chat);
                if remove_pane(&mut self.pending_close, pane) {
                    self.drop_runtime(pane);
                    return StatusPlan::Close { pane };
                }
                proof {
                    assert(old(self)@.pending_close.remove(pane) =~= old(self)@.pending_close);
                }
                self.focus_pending = focused;
                self.show(pane, SessionViewStatus::Idle, false);
                plan
            },
            SessionViewStatus::Failed(error) => {
                let _pending: bool = remove_pane(&mut self.pending_close, pane);
                self.error = Some(error.clone());
                self.show(pane, SessionViewStatus::Failed(error), shown);
                StatusPlan::Nothing
            },
            SessionViewStatus::Closing => {
                self.show(pane, SessionViewStatus::Closing, shown);
                StatusPlan::Nothing
            },
        }
    }

    fn show(&mut self, pane: PaneId, status: SessionViewStatus, shows_terminal: bool)
        requires
            old(self).wf(),
        ensures
            final(self).wf(),
            final(self)@ == old(self)@.showing(pane, status@, shows_terminal),
    {
        if self.find_runtime(pane).is_some() {
            self.put_runtime(PaneRuntime { pane, shows_terminal, terminal: Some(status) });
        }
    }

    fn mode_plan(&self, pane: PaneId, mode: PaneMode) -> (r: StatusPlan)
        ensures
            r == self@.mode_op(pane, mode),
    {
        match self.layout.find_pane(pane) {
            Some(at) => {
                if self.layout.panes[at].mode != mode {
                    StatusPlan::SetMode { pane, mode }
                } else {
                    StatusPlan::Nothing
                }
            },
            None => StatusPlan::Nothing,
        }
    }

    /// Why a pane's view cannot be switched, if it cannot.
    pub fn toggle_unavailable(&self, pane: PaneId, facts: &ToggleFacts) -> (r: Option<&'static str>)
        requires
            self.wf(),
        ensures
            r.deep_view() == refusal(self@, *facts, pane),
    {
        let at: usize = match self.layout.find_pane(pane) {
            Some(at) => at,
            None => return None,
        };
        if has_pane(&self.starting_cli, pane) {
            return Some("Preparing CLI session");
        }
        let runtime: Option<usize> = self.find_runtime(pane);
        let (has_terminal, switching): (bool, bool) = match runtime {
            Some(at) => match &self.panes[at].terminal {
                Some(status) => match status {
                    SessionViewStatus::Opening => (true, true),
                    SessionViewStatus::Closing => (true, true),
                    _ => (true, false),
                },
                None => (false, false),
            },
            None => (false, false),
        };
        if switching {
            return Some("Wait for the current view switch to finish");
        }
        match self.layout.panes[at].mode {
            PaneMode::Terminal => {
                if has_terminal {
                    return facts.handoff;
                }
                return Some("Native session state is not verified");
            },
            PaneMode::Chat => {},
        }
        let session: &String = match &self.layout.panes[at].session {
            Some(session) => session,
            None => return facts.empty_cli,
        };
        if is_busy(&facts.busy, session.as_str()) {
            return Some("Wait for the agent to become idle before switching views");
        }
        match find_chat(&facts.chats, session.as_str()) {
            None => Some("Session is unavailable"),
            Some(at) => match &facts.chats[at].harness {
                Some(harness) => {
                    if same_text(harness.as_str(), "pi") {
                        None
                    } else {
                        Some("CLI switching is available for Pi sessions")
                    }
                },
                None => Some("CLI switching is available for Pi sessions"),
            },
        }
    }

    /// Switches a pane between its chat and its terminal. A failed handoff is
    /// undone, never tried again.
    pub fn toggle(&mut self, pane: PaneId, facts: &ToggleFacts) -> (r: TogglePlan)
        requires
            old(self).wf(),
        ensures
            final(self).wf(),
            r.deed == old(self)@.toggle_deed(pane, refusal(old(self)@, *facts, pane)),
            r.focus == (!(r.deed is Recover) && !(r.deed is Refuse)
                && old(self)@.layout.active_pane() != Some(pane)),
            final(self)@ == old(self)@.toggled(pane, refusal(old(self)@, *facts, pane)),
    {
        let failed: bool = match self.find_runtime(pane) {
            Some(at) => self.panes[at].shows_terminal && match &self.panes[at].terminal {
                Some(status) => match status {
                    SessionViewStatus::Failed(_) => true,
                    _ => false,
                },
                None => false,
            },
            None => false,
        };
        if failed {
            return TogglePlan { focus: false, deed: ToggleDeed::Recover };
        }
        match self.toggle_unavailable(pane, facts) {
            Some(reason) => {
                self.error = Some(reason.to_owned());
                return TogglePlan { focus: false, deed: ToggleDeed::Refuse };
            },
            None => {},
        }
        let focus: bool = self.focus(pane).is_some();
        let _plan: RuntimePlan = self.ensure_pane_runtime(pane, true);
        let terminal_mode: bool = match self.layout.find_pane(pane) {
            Some(at) => self.layout.panes[at].mode == PaneMode::Terminal,
            None => false,
        };
        if terminal_mode {
            return TogglePlan { focus, deed: ToggleDeed::CloseTerminal };
        }
        match self.open_terminal(pane) {
            RuntimePlan::StartCli => TogglePlan { focus, deed: ToggleDeed::StartCli },
            RuntimePlan::OpenTerminal => TogglePlan { focus, deed: ToggleDeed::OpenTerminal },
            _ => TogglePlan { focus, deed: ToggleDeed::Nothing },
        }
    }

    /// A pane's title: its label, else its session's, else that of a fresh
    /// one.
    pub fn title(&self, pane: PaneId, chats: &Vec<ChatRow>) -> (r: String)
        ensures
            r@ == pane_name(self@.layout, pane, chats@),
    {
        let at: usize = match self.layout.find_pane(pane) {
            Some(at) => at,
            None => return "Closed pane".to_owned(),
        };
        match &self.layout.panes[at].label {
            Some(label) => return label.clone(),
            None => {},
        }
        match &self.layout.panes[at].session {
            Some(session) => match find_chat(chats, session.as_str()) {
                Some(at) => match &chats[at].title {
                    Some(title) => title.clone(),
                    None => "New session".to_owned(),
                },
                None => "New session".to_owned(),
            },
            None => "New session".to_owned(),
        }
    }
}

/// A pane's title.
pub open spec fn pane_name(layout: Arrangement, pane: PaneId, chats: Seq<ChatRow>) -> Seq<char> {
    match layout.pane(pane) {
        None => "Closed pane"@,
        Some(entry) => if entry.label is Some {
            entry.label->0
        } else {
            match chat_of(chats, entry.session) {
                Some(chat) if chat.title is Some => chat.title->0@,
                _ => "New session"@,
            }
        },
    }
}

fn is_busy(busy: &Vec<String>, session: &str) -> (r: bool)
    ensures
        r == busy.deep_view().contains(session@),
{
    let mut i: usize = 0;
    while i < busy.len()
        invariant
            i <= busy@.len(),
            forall|k: int| 0 <= k < i ==> busy.deep_view()[k] != session@,
        decreases busy@.len() - i,
    {
        proof {
            assert(busy.deep_view()[i as int] == busy@[i as int]@);
        }
        if same_text(busy[i].as_str(), session) {
            proof {
                assert(busy.deep_view().contains(session@));
            }
            return true;
        }
        i += 1;
    }
    false
}

/// What an entry of the pane's menu or a command does.
#[derive(Debug, Clone, Copy, PartialEq, Eq, Structural)]
pub enum PaneAction {
    Toggle,
    Split { direction: Direction, view: bool },
    MoveToTab,
    Close,
    MoveRail,
    NewTab,
    ToggleAgentAccess,
    ToggleOrchestration,
}

/// An entry of the pane's menu.
#[derive(Debug)]
pub struct MenuEntry {
    pub label: &'static str,
    pub enabled: bool,
    pub action: PaneAction,
}

fn menu_entry(label: &'static str, enabled: bool, action: PaneAction) -> (r: MenuEntry)
    ensures
        r.label@ == label@,
        r.enabled == enabled,
        r.action == action,
{
    MenuEntry { label, enabled, action }
}

/// The entries of a pane's menu. Only switching views can be unavailable.
pub open spec fn is_menu(
    entries: Seq<MenuEntry>,
    terminal: bool,
    switchable: bool,
    allowed: bool,
    orchestrating: bool,
) -> bool {
    &&& entries.len() == 10
    &&& forall|i: int| 0 <= i < 10 ==> (#[trigger] entries[i]).enabled == (i != 0 || switchable)
    &&& entries[0].action is Toggle && entries[0].label@ == (if terminal {
        "Switch to Chat view"@
    } else {
        "Switch to CLI view"@
    })
    &&& entries[1].action == (PaneAction::Split { direction: Direction::Right, view: false })
    &&& entries[1].label@ == "Split pane right"@
    &&& entries[2].action == (PaneAction::Split { direction: Direction::Down, view: false })
    &&& entries[2].label@ == "Split pane below"@
    &&& entries[3].action == (PaneAction::Split { direction: Direction::Right, view: true })
    &&& entries[3].label@ == "Split view right"@
    &&& entries[4].action == (PaneAction::Split { direction: Direction::Down, view: true })
    &&& entries[4].label@ == "Split view below"@
    &&& entries[5].action is MoveToTab && entries[5].label@ == "Move pane to a tab"@
    &&& entries[6].action is Close && entries[6].label@ == "Close pane"@
    &&& entries[7].action is MoveRail && entries[7].label@ == "Move tab rail"@
    &&& entries[8].action is ToggleAgentAccess && entries[8].label@ == (if allowed {
        "Revoke API agent access"@
    } else {
        "Allow API agent access"@
    })
    &&& entries[9].action is ToggleOrchestration && entries[9].label@ == (if orchestrating {
        "Revoke API orchestration in this workspace"@
    } else {
        "Allow API orchestration in this workspace"@
    })
}

fn menu_entries(terminal: bool, switchable: bool, allowed: bool, orchestrating: bool) -> (r: Vec<
    MenuEntry,
>)
    ensures
        is_menu(r@, terminal, switchable, allowed, orchestrating),
{
    let mut out: Vec<MenuEntry> = Vec::new();
    out.push(
        menu_entry(
            if terminal {
                "Switch to Chat view"
            } else {
                "Switch to CLI view"
            },
            switchable,
            PaneAction::Toggle,
        ),
    );
    out.push(
        menu_entry(
            "Split pane right",
            true,
            PaneAction::Split { direction: Direction::Right, view: false },
        ),
    );
    out.push(
        menu_entry(
            "Split pane below",
            true,
            PaneAction::Split { direction: Direction::Down, view: false },
        ),
    );
    out.push(
        menu_entry(
            "Split view right",
            true,
            PaneAction::Split { direction: Direction::Right, view: true },
        ),
    );
    out.push(
        menu_entry(
            "Split view below",
            true,
            PaneAction::Split { direction: Direction::Down, view: true },
        ),
    );
    out.push(menu_entry("Move pane to a tab", true, PaneAction::MoveToTab));
    out.push(menu_entry("Close pane", true, PaneAction::Close));
    out.push(menu_entry("Move tab rail", true, PaneAction::MoveRail));
    out.push(
        menu_entry(
            if allowed {
                "Revoke API agent access"
            } else {
                "Allow API agent access"
            },
            true,
            PaneAction::ToggleAgentAccess,
        ),
    );
    out.push(
        menu_entry(
            if orchestrating {
                "Revoke API orchestration in this workspace"
            } else {
                "Allow API orchestration in this workspace"
            },
            true,
            PaneAction::ToggleOrchestration,
        ),
    );
    out
}

/// The menu of a pane.
#[derive(Debug)]
pub struct PaneMenu {
    pub entries: Vec<MenuEntry>,
    /// Why views cannot be switched, if they cannot.
    pub reason: Option<&'static str>,
}

impl Workspace {
    /// The menu of a pane, where it is still there. `allowed` and
    /// `orchestrating` are the consents that were given.
    pub fn render_pane_menu(
        &self,
        pane: PaneId,
        facts: &ToggleFacts,
        allowed: bool,
        orchestrating: bool,
    ) -> (r: Option<PaneMenu>)
        requires
            self.wf(),
        ensures
            r is Some <==> self@.layout.pane(pane) is Some,
            r matches Some(menu) ==> {
                let reason = refusal(self@, *facts, pane);
                &&& menu.reason.deep_view() == reason
                &&& is_menu(
                    menu.entries@,
                    self@.mode(pane) == Some(PaneMode::Terminal),
                    reason is None,
                    allowed,
                    orchestrating,
                )
            },
    {
        let at: usize = match self.layout.find_pane(pane) {
            Some(at) => at,
            None => return None,
        };
        let terminal: bool = self.layout.panes[at].mode == PaneMode::Terminal;
        let reason: Option<&'static str> = self.toggle_unavailable(pane, facts);
        let entries: Vec<MenuEntry> = menu_entries(
            terminal,
            reason.is_none(),
            allowed,
            orchestrating,
        );
        Some(PaneMenu { entries, reason })
    }

    /// The operation behind an action that only changes the arrangement.
    pub fn arrange(&mut self, pane: PaneId, action: PaneAction) -> (r: Option<WorkspaceOp>)
        requires
            old(self).wf(),
        ensures
            final(self).wf(),
            ({
                let before = old(self)@;
                let view = before.layout.active_view;
                &&& final(self)@ == (Station {
                    focus_pending: before.focus_pending || action is Split || action is NewTab,
                    ..before
                })
                &&& r == (match action {
                    PaneAction::Split { direction, view: whole } => match before.layout.active_pane() {
                        Some(pane) => Some(
                            if whole {
                                WorkspaceOp::SplitView { view, direction }
                            } else {
                                WorkspaceOp::SplitPane { pane, direction }
                            },
                        ),
                        None => None,
                    },
                    PaneAction::MoveToTab => Some(WorkspaceOp::PaneToTab { pane, view }),
                    PaneAction::NewTab => Some(WorkspaceOp::AddTab { view }),
                    PaneAction::MoveRail => match before.layout.region(view) {
                        Some(region) => Some(
                            WorkspaceOp::PlaceTabs {
                                view,
                                placement: if region.placement is Top {
                                    TabPlacement::Left
                                } else {
                                    TabPlacement::Top
                                },
                            },
                        ),
                        None => None,
                    },
                    _ => None,
                })
            }),
    {
        let view: ViewId = self.layout.active_view;
        match action {
            PaneAction::Split { direction, view: whole } => self.split(direction, whole),
            PaneAction::MoveToTab => Some(WorkspaceOp::PaneToTab { pane, view }),
            PaneAction::NewTab => Some(self.new_tab()),
            PaneAction::MoveRail => match self.layout.find_view(view) {
                Some(at) => {
                    let placement: TabPlacement = match self.layout.views[at].placement {
                        TabPlacement::Top => TabPlacement::Left,
                        TabPlacement::Left => TabPlacement::Top,
                    };
                    Some(WorkspaceOp::PlaceTabs { view, placement })
                },
                None => None,
            },
            _ => None,
        }
    }
}

/// A button that switches a pane's view.
#[derive(Debug)]
pub struct ModeButton {
    pub label: &'static str,
    pub selected: bool,
    pub enabled: bool,
    pub clickable: bool,
    pub tooltip: &'static str,
}

/// The chat button and the terminal button of a pane.
#[derive(Debug)]
pub struct ModeButtons {
    pub chat: ModeButton,
    pub cli: ModeButton,
}

/// A button shows whether its view is selected; another can be clicked where
/// nothing stands against it, and says what does.
pub open spec fn mode_button(
    button: ModeButton,
    cli: bool,
    terminal: bool,
    reason: Option<Seq<char>>,
) -> bool {
    let selected = terminal == cli;
    &&& button.label@ == (if cli {
        "CLI"@
    } else {
        "Chat"@
    })
    &&& button.selected == selected
    &&& button.enabled == (selected || reason is None)
    &&& button.clickable == (!selected && reason is None)
    &&& button.tooltip@ == (if !selected && reason is Some {
        reason->0
    } else if cli {
        "Open CLI view"@
    } else {
        "Open Chat view"@
    })
}

fn make_button(cli: bool, terminal: bool, reason: Option<&'static str>) -> (r: ModeButton)
    ensures
        mode_button(r, cli, terminal, reason.deep_view()),
{
    let selected: bool = terminal == cli;
    let plain: &'static str = if cli {
        "Open CLI view"
    } else {
        "Open Chat view"
    };
    let tooltip: &'static str = match reason {
        Some(reason) => {
            if selected {
                plain
            } else {
                reason
            }
        },
        None => plain,
    };
    ModeButton {
        label: if cli {
            "CLI"
        } else {
            "Chat"
        },
        selected,
        enabled: selected || reason.is_none(),
        clickable: !selected && reason.is_none(),
        tooltip,
    }
}

impl Workspace {
    /// The buttons that switch a pane's view. A failed handoff can always be
    /// undone.
    pub fn render_pane_tools(&self, pane: PaneId, facts: &ToggleFacts) -> (r: ModeButtons)
        requires
            self.wf(),
        ensures
            ({
                let terminal = (self@.panes.dom().contains(pane)
                    && self@.panes[pane].shows_terminal) || self@.mode(pane) == Some(
                    PaneMode::Terminal,
                );
                let recovering = self@.terminal(pane) is Some && self@.terminal(pane)->0 is Failed;
                let reason = if recovering {
                    None
                } else {
                    refusal(self@, *facts, pane)
                };
                &&& mode_button(r.chat, false, terminal, reason)
                &&& mode_button(r.cli, true, terminal, reason)
            }),
    {
        let (shows, recovering): (bool, bool) = match self.find_runtime(pane) {
            Some(at) => {
                let recovering: bool = match &self.panes[at].terminal {
                    Some(status) => match status {
                        SessionViewStatus::Failed(_) => true,
                        _ => false,
                    },
                    None => false,
                };
                (self.panes[at].shows_terminal, recovering)
            },
            None => (false, false),
        };
        let mode: bool = match self.layout.find_pane(pane) {
            Some(at) => self.layout.panes[at].mode == PaneMode::Terminal,
            None => false,
        };
        let terminal: bool = shows || mode;
        let reason: Option<&'static str> = if recovering {
            None
        } else {
            self.toggle_unavailable(pane, facts)
        };
        ModeButtons {
            chat: make_button(false, terminal, reason),
            cli: make_button(true, terminal, reason),
        }
    }
}

/// What a button of the workspace is captioned with.
pub fn button_caption(label: &'static str) -> (r: &'static str)
    ensures
        r@ == (if label@ == "Split right"@ {
            "◫"@
        } else if label@ == "Split down"@ {
            "⊟"@
        } else if label@ == "View right"@ {
            "View ◫"@
        } else if label@ == "View down"@ {
            "View ⊟"@
        } else if label@ == "Pane actions"@ {
            "⋯"@
        } else {
            label@
        }),
{
    if same_text(label, "Split right") {
        "◫"
    } else if same_text(label, "Split down") {
        "⊟"
    } else if same_text(label, "View right") {
        "View ◫"
    } else if same_text(label, "View down") {
        "View ⊟"
    } else if same_text(label, "Pane actions") {
        "⋯"
    } else {
        label
    }
}

/// What a drop on a pane leads to.
#[derive(Debug, Clone, Copy, PartialEq, Eq, Structural)]
pub enum PaneDrop {
    Nothing,
    Op(WorkspaceOp),
    /// The pane that was previewed is gone.
    MissingTarget,
}

impl Station {
    /// A drag may land on a pane: not on itself, and not a tab on one of its
    /// own panes.
    pub open spec fn may_land(self, pane: PaneId, target: DragTarget) -> bool {
        match target {
            DragTarget::Pane(source) => source != pane,
            DragTarget::Tab(source) => self.layout.pane(pane) is Some && self.layout.pane(
                pane,
            )->0.tab != source,
        }
    }

    /// The workspace while a drag is over a pane, or leaves it.
    pub open spec fn dragged_over(
        self,
        pane: PaneId,
        target: DragTarget,
        inside: bool,
        direction: Option<Direction>,
    ) -> Station {
        let preview = if self.may_land(pane, target) && inside {
            Some((pane, direction))
        } else {
            None
        };
        let mine = self.drop_preview is Some && (self.drop_preview->0).0 == pane;
        Station {
            tab_preview: if inside {
                None
            } else {
                self.tab_preview
            },
            drop_preview: if preview is Some || mine {
                preview
            } else {
                self.drop_preview
            },
            ..self
        }
    }

    /// The operation of a drop that was previewed outside a view.
    pub open spec fn outer_op(self, target: DragTarget) -> Option<WorkspaceOp> {
        match self.outer_preview {
            Some((view, direction)) => Some(
                match target {
                    DragTarget::Pane(pane) => WorkspaceOp::PaneToView { pane, view, direction },
                    DragTarget::Tab(tab) => WorkspaceOp::TabToView { tab, view, direction },
                },
            ),
            None => None,
        }
    }

    /// What a drop on a pane leads to.
    pub open spec fn pane_drop(self, pane: PaneId, target: DragTarget) -> PaneDrop {
        if self.outer_preview is Some {
            PaneDrop::Op(self.outer_op(target)->0)
        } else {
            match self.drop_preview {
                Some((over, direction)) if over == pane => match (target, direction) {
                    (DragTarget::Pane(source), Some(direction)) => PaneDrop::Op(
                        WorkspaceOp::MovePane { pane: source, target: over, direction },
                    ),
                    (DragTarget::Tab(source), Some(direction)) => PaneDrop::Op(
                        WorkspaceOp::MergeTab { tab: source, target: over, direction },
                    ),
                    (DragTarget::Pane(source), None) => match self.layout.pane(over) {
                        Some(entry) => PaneDrop::Op(
                            WorkspaceOp::PaneToTab { pane: source, view: entry.view },
                        ),
                        None => PaneDrop::MissingTarget,
                    },
                    (DragTarget::Tab(source), None) => match self.layout.pane(over) {
                        Some(entry) => PaneDrop::Op(
                            WorkspaceOp::MoveTab { tab: source, view: entry.view },
                        ),
                        None => PaneDrop::MissingTarget,
                    },
                },
                _ => PaneDrop::Nothing,
            }
        }
    }

    /// The tab a drop goes before, at a tab that is hovered: it on its first
    /// half, else the next one.
    pub open spec fn insertion(order: Seq<TabId>, hit: Option<(int, bool)>) -> Option<TabId> {
        match hit {
            Some((at, first_half)) => if 0 <= at < order.len() {
                if first_half {
                    Some(order[at])
                } else if at + 1 < order.len() {
                    Some(order[at + 1])
                } else {
                    None
                }
            } else {
                None
            },
            None => None,
        }
    }

    /// The tab a drop on a rail goes before.
    pub open spec fn rail_before(self, view: ViewId) -> Option<TabId> {
        match self.tab_preview {
            Some((over, before)) if over == view => before,
            _ => None,
        }
    }

    /// The operation of a drop on a rail; a tab dropped before itself stays
    /// where it is.
    pub open spec fn rail_op(self, view: ViewId, target: DragTarget) -> Option<WorkspaceOp> {
        let before = self.rail_before(view);
        match target {
            DragTarget::Tab(tab) => if before == Some(tab) {
                None
            } else {
                Some(WorkspaceOp::InsertTab { tab, view, before })
            },
            DragTarget::Pane(pane) => Some(WorkspaceOp::InsertPane { pane, view, before }),
        }
    }
}

impl Workspace {
    /// A drag over a pane, or past it. `direction` is the edge it is near.
    /// Returns whether the preview changed.
    pub fn drag_over_pane(
        &mut self,
        pane: PaneId,
        target: DragTarget,
        inside: bool,
        direction: Option<Direction>,
    ) -> (r: bool)
        requires
            old(self).wf(),
        ensures
            final(self).wf(),
            final(self)@ == old(self)@.dragged_over(pane, target, inside, direction),
            r == (final(self)@.drop_preview != old(self)@.drop_preview),
    {
        if inside {
            self.tab_preview = None;
        }
        let valid: bool = match target {
            DragTarget::Pane(source) => source != pane,
            DragTarget::Tab(source) => match self.layout.pane_location(pane) {
                Some((_, tab)) => tab != source,
                None => false,
            },
        };
        let preview: Option<(PaneId, Option<Direction>)> = if valid && inside {
            Some((pane, direction))
        } else {
            None
        };
        let mine: bool = match self.drop_preview {
            Some((over, _)) => over == pane,
            None => false,
        };
        if (preview.is_some() || mine) && !same_preview(self.drop_preview, preview) {
            self.drop_preview = preview;
            return true;
        }
        false
    }

    /// A drop that was previewed outside a view.
    pub fn drop_outer(&mut self, target: DragTarget) -> (r: Option<WorkspaceOp>)
        requires
            old(self).wf(),
        ensures
            final(self).wf(),
            r == old(self)@.outer_op(target),
            final(self)@ == (if r is Some {
                Station {
                    outer_preview: None,
                    drop_preview: None,
                    tab_preview: None,
                    focus_pending: true,
                    ..old(self)@
                }
            } else {
                old(self)@
            }),
    {
        match self.outer_preview {
            Some((view, direction)) => {
                self.outer_preview = None;
                self.drop_preview = None;
                self.tab_preview = None;
                self.focus_pending = true;
                match target {
                    DragTarget::Pane(pane) => Some(
                        WorkspaceOp::PaneToView { pane, view, direction },
                    ),
                    DragTarget::Tab(tab) => Some(WorkspaceOp::TabToView { tab, view, direction }),
                }
            },
            None => None,
        }
    }

    /// A drop on a pane.
    pub fn drop_on_pane(&mut self, pane: PaneId, target: DragTarget) -> (r: PaneDrop)
        requires
            old(self).wf(),
        ensures
            final(self).wf(),
            r == old(self)@.pane_drop(pane, target),
            final(self)@ == (if old(self)@.outer_preview is Some {
                Station {
                    outer_preview: None,
                    drop_preview: None,
                    tab_preview: None,
                    focus_pending: true,
                    ..old(self)@
                }
            } else {
                Station {
                    drop_preview: None,
                    focus_pending: old(self)@.focus_pending || !(r is Nothing),
                    ..old(self)@
                }
            }),
    {
        match self.drop_outer(target) {
            Some(op) => return PaneDrop::Op(op),
            None => {},
        }
        let preview: Option<(PaneId, Option<Direction>)> = self.drop_preview;
        self.drop_preview = None;
        match preview {
            Some((over, direction)) => {
                if over != pane {
                    return PaneDrop::Nothing;
                }
                self.focus_pending = true;
                match (target, direction) {
                    (DragTarget::Pane(source), Some(direction)) => PaneDrop::Op(
                        WorkspaceOp::MovePane { pane: source, target: over, direction },
                    ),
                    (DragTarget::Tab(source), Some(direction)) => PaneDrop::Op(
                        WorkspaceOp::MergeTab { tab: source, target: over, direction },
                    ),
                    (DragTarget::Pane(source), None) => match self.layout.pane_location(over) {
                        Some((view, _)) => PaneDrop::Op(
                            WorkspaceOp::PaneToTab { pane: source, view },
                        ),
                        None => PaneDrop::MissingTarget,
                    },
                    (DragTarget::Tab(source), None) => match self.layout.pane_location(over) {
                        Some((view, _)) => PaneDrop::Op(
                            WorkspaceOp::MoveTab { tab: source, view },
                        ),
                        None => PaneDrop::MissingTarget,
                    },
                }
            },
            None => PaneDrop::Nothing,
        }
    }

    /// A drag over a view's rail. `hit` is the tab it is over, by its place,
    /// and whether it is on the first half. Returns whether the preview
    /// changed.
    pub fn drag_over_rail(&mut self, view: ViewId, hit: Option<(usize, bool)>) -> (r: bool)
        requires
            old(self).wf(),
            old(self)@.layout.region(view) is Some,
        ensures
            final(self).wf(),
            ({
                let order = old(self)@.layout.region(view)->0.order;
                let before = Station::insertion(
                    order,
                    match hit {
                        Some((at, first)) => Some((at as int, first)),
                        None => None,
                    },
                );
                &&& r == (old(self)@.tab_preview != Some((view, before)))
                &&& final(self)@ == (if r {
                    Station {
                        tab_preview: Some((view, before)),
                        drop_preview: None,
                        outer_preview: None,
                        ..old(self)@
                    }
                } else {
                    old(self)@
                })
            }),
    {
        let before: Option<TabId> = match (self.layout.find_view(view), hit) {
            (Some(place), Some((at, first))) => {
                let order: &Vec<TabId> = &self.layout.views[place].order;
                if at < order.len() {
                    if first {
                        Some(order[at])
                    } else if order.len() - at > 1 {
                        Some(order[at + 1])
                    } else {
                        None
                    }
                } else {
                    None
                }
            },
            _ => None,
        };
        let same: bool = match self.tab_preview {
            Some((over, was)) => over == view && was == before,
            None => false,
        };
        if same {
            return false;
        }
        self.tab_preview = Some((view, before));
        self.drop_preview = None;
        self.outer_preview = None;
        true
    }

    /// A drop on a view's rail, which always means insertion. A tab dropped
    /// before itself counts as a change that was carried out at once.
    pub fn drop_on_rail(&mut self, view: ViewId, target: DragTarget) -> (r: Option<WorkspaceOp>)
        requires
            old(self).wf(),
        ensures
            final(self).wf(),
            r == old(self)@.rail_op(view, target),
            ({
                let dropped = Station {
                    tab_preview: None,
                    drop_preview: None,
                    outer_preview: None,
                    focus_pending: true,
                    ..old(self)@
                };
                final(self)@ == (if r is None {
                    dropped.changed(dropped.layout)
                } else {
                    dropped
                })
            }),
    {
        let before: Option<TabId> = match self.tab_preview {
            Some((over, before)) => {
                if over == view {
                    before
                } else {
                    None
                }
            },
            None => None,
        };
        self.tab_preview = None;
        self.outer_preview = None;
        self.drop_preview = None;
        self.focus_pending = true;
        match target {
            DragTarget::Tab(tab) => {
                if needs_reorder(tab, before) {
                    Some(WorkspaceOp::InsertTab { tab, view, before })
                } else {
                    self.error = None;
                    self.publish_active = true;
                    self.save_due = true;
                    None
                }
            },
            DragTarget::Pane(pane) => Some(WorkspaceOp::InsertPane { pane, view, before }),
        }
    }

    /// A drag over a view. `ring` is the outer edge it is near. Returns
    /// whether the preview changed.
    pub fn drag_over_view(&mut self, view: ViewId, in_rail: bool, ring: Option<Direction>) -> (r: bool)
        requires
            old(self).wf(),
        ensures
            final(self).wf(),
            ({
                let before = old(self)@;
                let preview = match ring {
                    Some(direction) if !in_rail => Some((view, direction)),
                    _ => None,
                };
                let mine = before.outer_preview is Some && (before.outer_preview->0).0 == view;
                &&& final(self)@ == (Station {
                    outer_preview: if preview is Some || mine {
                        preview
                    } else {
                        before.outer_preview
                    },
                    ..before
                })
                &&& r == (final(self)@.outer_preview != before.outer_preview)
            }),
    {
        let preview: Option<(ViewId, Direction)> = match ring {
            Some(direction) => {
                if in_rail {
                    None
                } else {
                    Some((view, direction))
                }
            },
            None => None,
        };
        let (mine, same): (bool, bool) = match (self.outer_preview, preview) {
            (Some((over, was)), Some((_, now))) => (over == view, over == view && was == now),
            (Some((over, _)), None) => (over == view, false),
            (None, Some(_)) => (false, false),
            (None, None) => (false, true),
        };
        if (preview.is_some() || mine) && !same {
            self.outer_preview = preview;
            return true;
        }
        false
    }
}

/// Whether a tab has to move to go before another: before itself it already
/// is.
pub fn needs_reorder(tab: TabId, before: Option<TabId>) -> (r: bool)
    ensures
        r == (before != Some(tab)),
{
    before != Some(tab)
}

fn same_preview(
    a: Option<(PaneId, Option<Direction>)>,
    b: Option<(PaneId, Option<Direction>)>,
) -> (r: bool)
    ensures
        r == (a == b),
{
    match (a, b) {
        (Some((p, d)), Some((q, e))) => p == q && d == e,
        (None, None) => true,
        _ => false,
    }
}

/// What a preview over a pane says.
pub fn preview_label(direction: Option<Direction>) -> (r: &'static str)
    ensures
        r@ == (match direction {
            None => "Move into tab rail"@,
            Some(Direction::Left) => "Move left"@,
            Some(Direction::Right) => "Move right"@,
            Some(Direction::Up) => "Move above"@,
            Some(Direction::Down) => "Move below"@,
        }),
{
    match direction {
        None => "Move into tab rail",
        Some(Direction::Left) => "Move left",
        Some(Direction::Right) => "Move right",
        Some(Direction::Up) => "Move above",
        Some(Direction::Down) => "Move below",
    }
}

/// A pane as it is drawn.
#[derive(Debug)]
pub struct PaneView {
    pub active: bool,
    pub show_header: bool,
    pub title: String,
    pub shows_terminal: bool,
    /// What is said over the pane while its view switches.
    pub message: Option<String>,
    /// A button leads back to the chat.
    pub recover: bool,
    /// Where a drop would land.
    pub preview: Option<Option<Direction>>,
}

/// How many panes a tab has.
pub open spec fn panes_in(panes: Seq<Pane>, view: ViewId, tab: TabId) -> Seq<PaneId>
    decreases panes.len(),
{
    if panes.len() == 0 {
        Seq::empty()
    } else if panes.last().view == view && panes.last().tab == tab {
        panes_in(panes.drop_last(), view, tab).push(panes.last().pane)
    } else {
        panes_in(panes.drop_last(), view, tab)
    }
}

/// The panes of a tab, in order: each has to be closed for the tab to go.
pub fn panes_of_tab(layout: &Layout, view: ViewId, tab: TabId) -> (r: Vec<PaneId>)
    ensures
        r@ == panes_in(layout@.panes, view, tab),
{
    let mut out: Vec<PaneId> = Vec::new();
    let mut i: usize = 0;
    let ghost all = layout@.panes;
    proof {
        assert(all.take(0) =~= Seq::<Pane>::empty());
    }
    while i < layout.panes.len()
        invariant
            i <= layout.panes@.len(),
            all == layout@.panes,
            out@ == panes_in(all.take(i as int), view, tab),
        decreases layout.panes@.len() - i,
    {
        let entry: &PaneEntry = &layout.panes[i];
        proof {
            let front = all.take(i + 1);
            assert(front.drop_last() =~= all.take(i as int));
            assert(front.last() == entry.deep_view());
        }
        if entry.view == view && entry.tab == tab {
            out.push(entry.pane);
        }
        i += 1;
    }
    proof {
        assert(all.take(all.len() as int) =~= all);
    }
    out
}

impl Station {
    /// What is said over a pane while its view switches.
    pub open spec fn message(self, pane: PaneId) -> Option<Seq<char>> {
        match self.terminal(pane) {
            Some(ViewStatus::Opening) => Some("Opening CLI session…"@),
            Some(ViewStatus::Closing) => Some("Restoring chat history…"@),
            Some(ViewStatus::Failed(error)) => Some("View switch failed: "@ + error),
            _ => if self.starting_cli.contains(pane) {
                Some("Preparing CLI session…"@)
            } else {
                None
            },
        }
    }

    /// A pane's header shows where it has siblings or the rail stands at the
    /// left.
    pub open spec fn shows_header(self, entry: Pane) -> bool {
        ||| panes_in(self.layout.panes, entry.view, entry.tab).len() > 1
        ||| self.layout.region(entry.view) is Some && self.layout.region(
            entry.view,
        )->0.placement is Left
    }

    /// The preview over a pane, while something is dragged and no outer edge
    /// is previewed.
    pub open spec fn preview(self, pane: PaneId, dragging: bool) -> Option<Option<Direction>> {
        match self.drop_preview {
            Some((over, direction)) if over == pane && self.outer_preview is None && dragging =>
                Some(direction),
            _ => None,
        }
    }
}

impl Station {
    /// How a pane looks.
    pub open spec fn draws(
        self,
        pane: PaneId,
        chats: Seq<ChatRow>,
        dragging: bool,
        shown: PaneView,
    ) -> bool {
        &&& shown.active == (self.layout.active_pane() == Some(pane))
        &&& shown.show_header == self.shows_header(self.layout.pane(pane)->0)
        &&& shown.title@ == pane_name(self.layout, pane, chats)
        &&& shown.shows_terminal == (self.panes.dom().contains(pane)
            && self.panes[pane].shows_terminal)
        &&& shown.message.deep_view() == self.message(pane)
        &&& shown.recover == (self.terminal(pane) is Some && self.terminal(pane)->0 is Failed)
        &&& shown.preview == self.preview(pane, dragging)
    }
}

impl Workspace {
    /// Puts a pane on the screen. `opened` is the status its terminal has as
    /// soon as it is asked to open. Returns what the pane needs.
    fn mount(&mut self, pane: PaneId, opened: SessionViewStatus) -> (r: RuntimePlan)
        requires
            old(self).wf(),
        ensures
            final(self).wf(),
            r == old(self)@.render_plan(pane, true),
            final(self)@ == old(self)@.mounted(pane, opened@),
    {
        let plan: RuntimePlan = self.ensure_pane_runtime(pane, true);
        match plan {
            RuntimePlan::OpenTerminal => {
                self.put_runtime(
                    PaneRuntime { pane, shows_terminal: false, terminal: Some(opened) },
                );
            },
            _ => {},
        }
        plan
    }

    /// A pane on the screen: it is rendered where it was not yet, and drawn.
    /// `opened` is the status its terminal has as soon as it is asked to open.
    /// Returns what the pane needs, and how it looks.
    pub fn render_pane(
        &mut self,
        pane: PaneId,
        opened: SessionViewStatus,
        chats: &Vec<ChatRow>,
        dragging: bool,
    ) -> (r: (RuntimePlan, PaneView))
        requires
            old(self).wf(),
            old(self)@.layout.pane(pane) is Some,
        ensures
            final(self).wf(),
            r.0 == old(self)@.render_plan(pane, true),
            final(self)@ == old(self)@.mounted(pane, opened@),
            final(self)@.draws(pane, chats@, dragging, r.1),
    {
        let plan: RuntimePlan = self.mount(pane, opened);
        (plan, self.draw_pane(pane, chats, dragging))
    }

    /// A pane as it looks.
    fn draw_pane(&self, pane: PaneId, chats: &Vec<ChatRow>, dragging: bool) -> (r: PaneView)
        requires
            self.wf(),
            self@.layout.pane(pane) is Some,
        ensures
            self@.draws(pane, chats@, dragging, r),
    {
        let active: bool = self.layout.active_pane_id() == Some(pane);
        let show_header: bool = match self.layout.pane_location(pane) {
            Some((view, tab)) => {
                let siblings: Vec<PaneId> = panes_of_tab(&self.layout, view, tab);
                let left: bool = match self.layout.find_view(view) {
                    Some(at) => self.layout.views[at].placement == TabPlacement::Left,
                    None => false,
                };
                siblings.len() > 1 || left
            },
            None => false,
        };
        let starting: bool = has_pane(&self.starting_cli, pane);
        let preparing: Option<String> = if starting {
            Some("Preparing CLI session…".to_owned())
        } else {
            None
        };
        let mut shows_terminal: bool = false;
        let mut recover: bool = false;
        let message: Option<String> = match self.find_runtime(pane) {
            Some(at) => {
                shows_terminal = self.panes[at].shows_terminal;
                match &self.panes[at].terminal {
                    Some(status) => match status {
                        SessionViewStatus::Opening => Some("Opening CLI session…".to_owned()),
                        SessionViewStatus::Closing => Some("Restoring chat history…".to_owned()),
                        SessionViewStatus::Failed(error) => {
                            recover = true;
                            Some(join2("View switch failed: ", error.as_str()))
                        },
                        _ => preparing,
                    },
                    None => preparing,
                }
            },
            None => preparing,
        };
        let preview: Option<Option<Direction>> = match self.drop_preview {
            Some((over, direction)) => {
                if over == pane && self.outer_preview.is_none() && dragging {
                    Some(direction)
                } else {
                    None
                }
            },
            None => None,
        };
        PaneView {
            active,
            show_header,
            title: self.title(pane, chats),
            shows_terminal,
            message,
            recover,
            preview,
        }
    }
}

/// A tab in a view's rail.
#[derive(Debug)]
pub struct RailTab {
    pub tab: TabId,
    pub pane: PaneId,
    pub title: String,
    pub selected: bool,
    /// It holds more than one pane.
    pub grouped: bool,
    /// A drop would go before it.
    pub insert_before: bool,
}

/// What a tab in a rail shows.
#[verifier::ext_equal]
pub struct RailCell {
    pub tab: TabId,
    pub pane: PaneId,
    pub title: Seq<char>,
    pub selected: bool,
    pub grouped: bool,
    pub insert_before: bool,
}

impl DeepView for RailTab {
    type V = RailCell;

    open spec fn deep_view(&self) -> RailCell {
        RailCell {
            tab: self.tab,
            pane: self.pane,
            title: self.title@,
            selected: self.selected,
            grouped: self.grouped,
            insert_before: self.insert_before,
        }
    }
}

/// A view as it is drawn.
#[derive(Debug)]
pub struct ViewModel {
    pub placement: TabPlacement,
    pub rail: Vec<RailTab>,
    /// A drop would go behind the last tab.
    pub insert_last: bool,
    /// The pane's tools stand beside the rail.
    pub tools_in_rail: bool,
    /// Where a drop would make a view of its own.
    pub outer: Option<Direction>,
}

impl Station {
    /// The pane a view shows: the active one of its active tab.
    pub open spec fn pane_of_view(self, view: ViewId) -> Option<PaneId> {
        match self.layout.region(view) {
            Some(region) => match self.layout.tab(region.view, region.active_tab) {
                Some(tab) => Some(tab.active_pane),
                None => None,
            },
            None => None,
        }
    }

    /// How a view looks.
    pub open spec fn draws_view(
        self,
        view: ViewId,
        chats: Seq<ChatRow>,
        dragging: bool,
        model: ViewModel,
    ) -> bool {
        let region = self.layout.region(view)->0;
        &&& model.placement == region.placement
        &&& model.rail.deep_view() == self.rail(region, region.order, chats, dragging)
        &&& model.insert_last == (dragging && self.tab_preview == Some(
            (region.view, None::<TabId>),
        ))
        &&& model.tools_in_rail == (region.placement is Top && panes_in(
            self.layout.panes,
            region.view,
            region.active_tab,
        ).len() == 1)
        &&& model.outer == (match self.outer_preview {
            Some((over, direction)) if over == region.view && dragging => Some(direction),
            _ => None,
        })
    }

    /// The rail of a view, in its order; a tab that is gone has no place.
    pub open spec fn rail(
        self,
        region: Region,
        order: Seq<TabId>,
        chats: Seq<ChatRow>,
        dragging: bool,
    ) -> Seq<RailCell>
        decreases order.len(),
    {
        if order.len() == 0 {
            Seq::empty()
        } else {
            let before = self.rail(region, order.drop_last(), chats, dragging);
            let tab = order.last();
            match self.layout.tab(region.view, tab) {
                Some(entry) => before.push(
                    RailCell {
                        tab,
                        pane: entry.active_pane,
                        title: pane_name(self.layout, entry.active_pane, chats),
                        selected: region.active_tab == tab,
                        grouped: panes_in(self.layout.panes, region.view, tab).len() > 1,
                        insert_before: dragging && self.tab_preview == Some(
                            (region.view, Some(tab)),
                        ),
                    },
                ),
                None => before,
            }
        }
    }
}

impl Workspace {
    fn make_rail(&self, at: usize, chats: &Vec<ChatRow>, dragging: bool) -> (r: Vec<RailTab>)
        requires
            at < self.layout.views@.len(),
        ensures
            r.deep_view() == self@.rail(
                self@.layout.views[at as int],
                self@.layout.views[at as int].order,
                chats@,
                dragging,
            ),
    {
        let view: ViewId = self.layout.views[at].view;
        let active: TabId = self.layout.views[at].active_tab;
        let order: &Vec<TabId> = &self.layout.views[at].order;
        let ghost region = self@.layout.views[at as int];
        let mut out: Vec<RailTab> = Vec::new();
        let mut i: usize = 0;
        proof {
            assert(region == self.layout.views@[at as int].deep_view());
            assert(order@.take(0) =~= Seq::<TabId>::empty());
            assert(out.deep_view() =~= Seq::<RailCell>::empty());
        }
        while i < order.len()
            invariant
                i <= order@.len(),
                region.view == view,
                region.active_tab == active,
                region.order == order@,
                out.deep_view() == self@.rail(region, order@.take(i as int), chats@, dragging),
            decreases order@.len() - i,
        {
            let tab: TabId = order[i];
            let ghost before = out.deep_view();
            proof {
                let front = order@.take(i + 1);
                assert(front.drop_last() =~= order@.take(i as int));
                assert(front.last() == tab);
            }
            match self.layout.find_tab(view, tab) {
                Some(entry) => {
                    let panes: Vec<PaneId> = panes_of_tab(&self.layout, view, tab);
                    let insert_before: bool = dragging && match self.tab_preview {
                        Some((over, before)) => over == view && before == Some(tab),
                        None => false,
                    };
                    let cell: RailTab = RailTab {
                        tab,
                        pane: entry.active_pane,
                        title: self.title(entry.active_pane, chats),
                        selected: active == tab,
                        grouped: panes.len() > 1,
                        insert_before,
                    };
                    let ghost shown = cell.deep_view();
                    out.push(cell);
                    proof {
                        assert(out.deep_view() =~= before.push(shown));
                    }
                },
                None => {},
            }
            i += 1;
        }
        proof {
            assert(order@.take(order@.len() as int) =~= order@);
        }
        out
    }

    /// A view on the screen: the pane it shows is rendered where it was not
    /// yet, and the view is drawn. `opened` is the status a terminal has as
    /// soon as it is asked to open. Returns what the pane needs, and how the
    /// view looks.
    pub fn render_view(
        &mut self,
        view: ViewId,
        opened: SessionViewStatus,
        chats: &Vec<ChatRow>,
        dragging: bool,
    ) -> (r: (RuntimePlan, Option<ViewModel>))
        requires
            old(self).wf(),
        ensures
            final(self).wf(),
            r.1 is Some <==> old(self)@.layout.region(view) is Some,
            ({
                let pane = old(self)@.pane_of_view(view);
                &&& r.0 == (match pane {
                    Some(pane) => old(self)@.render_plan(pane, true),
                    None => RuntimePlan::Nothing,
                })
                &&& final(self)@ == (match pane {
                    Some(pane) => old(self)@.mounted(pane, opened@),
                    None => old(self)@,
                })
            }),
            r.1 matches Some(model) ==> final(self)@.draws_view(view, chats@, dragging, model),
    {
        let pane: Option<PaneId> = match self.layout.find_view(view) {
            Some(at) => {
                let id: ViewId = self.layout.views[at].view;
                let active: TabId = self.layout.views[at].active_tab;
                proof {
                    assert(self@.layout.views[at as int] == self.layout.views@[at as int].deep_view());
                }
                match self.layout.find_tab(id, active) {
                    Some(tab) => Some(tab.active_pane),
                    None => None,
                }
            },
            None => None,
        };
        let plan: RuntimePlan = match pane {
            Some(pane) => self.mount(pane, opened),
            None => RuntimePlan::Nothing,
        };
        (plan, self.draw_view(view, chats, dragging))
    }

    /// A view as it looks.
    fn draw_view(&self, view: ViewId, chats: &Vec<ChatRow>, dragging: bool) -> (r: Option<
        ViewModel,
    >)
        ensures
            r is Some <==> self@.layout.region(view) is Some,
            r matches Some(model) ==> self@.draws_view(view, chats@, dragging, model),
    {
        let at: usize = match self.layout.find_view(view) {
            Some(at) => at,
            None => return None,
        };
        let id: ViewId = self.layout.views[at].view;
        let placement: TabPlacement = self.layout.views[at].placement;
        let shown: Vec<PaneId> = panes_of_tab(
            &self.layout,
            id,
            self.layout.views[at].active_tab,
        );
        let insert_last: bool = dragging && match self.tab_preview {
            Some((over, before)) => over == id && before.is_none(),
            None => false,
        };
        let outer: Option<Direction> = match self.outer_preview {
            Some((over, direction)) => {
                if over == id && dragging {
                    Some(direction)
                } else {
                    None
                }
            },
            None => None,
        };
        proof {
            assert(self@.layout.views[at as int] == self.layout.views@[at as int].deep_view());
        }
        Some(
            ViewModel {
                placement,
                rail: self.make_rail(at, chats, dragging),
                insert_last,
                tools_in_rail: placement == TabPlacement::Top && shown.len() == 1,
                outer,
            },
        )
    }

    /// What a frame asks for: previews of a drag that ended go, a changed
    /// active pane is rendered and published, and the keyboard goes where it
    /// is due.
    pub fn frame(&mut self, dragging: bool) -> (r: FramePlan)
        requires
            old(self).wf(),
        ensures
            final(self).wf(),
            ({
                let before = old(self)@;
                let focus = before.layout.active_pane();
                let rendered = if before.publish_active && focus is Some {
                    before.rendered(focus->0, true)
                } else {
                    before
                };
                &&& r.publish == (if before.publish_active {
                    focus
                } else {
                    None
                })
                &&& r.render == (if before.publish_active && focus is Some {
                    before.render_plan(focus->0, true)
                } else {
                    RuntimePlan::Nothing
                })
                &&& r.focus == (if before.focus_pending && focus is Some
                    && rendered.panes.dom().contains(focus->0) {
                    Some((focus->0, rendered.panes[focus->0].shows_terminal))
                } else {
                    None
                })
                &&& final(self)@ == (Station {
                    tab_preview: if dragging {
                        before.tab_preview
                    } else {
                        None
                    },
                    drop_preview: if dragging {
                        before.drop_preview
                    } else {
                        None
                    },
                    outer_preview: if dragging {
                        before.outer_preview
                    } else {
                        None
                    },
                    publish_active: false,
                    focus_pending: false,
                    panes: rendered.panes.restrict(
                        Set::new(|pane: PaneId| before.layout.pane(pane) is Some),
                    ),
                    ..before
                })
            }),
    {
        if !dragging {
            self.tab_preview = None;
            self.drop_preview = None;
            self.outer_preview = None;
        }
        let active: Option<PaneId> = self.layout.active_pane_id();
        let mut publish: Option<PaneId> = None;
        let mut render: RuntimePlan = RuntimePlan::Nothing;
        if self.publish_active {
            self.publish_active = false;
            match active {
                Some(pane) => {
                    render = self.ensure_pane_runtime(pane, true);
                    publish = Some(pane);
                },
                None => {},
            }
        }
        let mut focus: Option<(PaneId, bool)> = None;
        if self.focus_pending {
            self.focus_pending = false;
            match active {
                Some(pane) => match self.find_runtime(pane) {
                    Some(at) => {
                        focus = Some((pane, self.panes[at].shows_terminal));
                    },
                    None => {},
                },
                None => {},
            }
        }
        self.retain_present();
        FramePlan { publish, render, focus }
    }

    /// Forgets rendered panes that are gone.
    fn retain_present(&mut self)
        requires
            old(self).wf(),
        ensures
            final(self).wf(),
            final(self)@ == (Station {
                panes: old(self)@.panes.restrict(
                    Set::new(|pane: PaneId| old(self)@.layout.pane(pane) is Some),
                ),
                ..old(self)@
            }),
    {
        let ghost start = self@;
        let mut at: usize = 0;
        let ghost mut dropped: Set<PaneId> = Set::empty();
        proof {
            assert(start.panes.remove_keys(dropped) =~= start.panes);
        }
        while at < self.panes.len()
            invariant
                at <= self.panes@.len(),
                self.wf(),
                self@ == (Station { panes: start.panes.remove_keys(dropped), ..start }),
                forall|pane: PaneId| #[trigger]
                    dropped.contains(pane) ==> start.layout.pane(pane) is None,
                forall|i: int|
                    0 <= i < at ==> start.layout.pane((#[trigger] self.panes@[i]).pane) is Some,
            decreases self.panes@.len() - at,
        {
            let pane: PaneId = self.panes[at].pane;
            if self.layout.find_pane(pane).is_some() {
                at += 1;
            } else {
                let ghost before = self.panes@;
                proof {
                    keyed_remove(before, runtime_key(), runtime_value(), at as int);
                }
                let _gone: PaneRuntime = self.panes.remove(at);
                proof {
                    let next = dropped.insert(pane);
                    assert(start.panes.remove_keys(dropped).remove(pane)
                        =~= start.panes.remove_keys(next));
                    dropped = next;
                    assert forall|i: int| 0 <= i < at implies start.layout.pane(
                        (#[trigger] self.panes@[i]).pane,
                    ) is Some by {
                        assert(self.panes@[i] == before[i]);
                    }
                }
            }
        }
        proof {
            let kept = start.panes.restrict(
                Set::new(|pane: PaneId| start.layout.pane(pane) is Some),
            );
            assert forall|pane: PaneId| #[trigger]
                self@.panes.dom().contains(pane) implies start.layout.pane(pane) is Some by {
                let holds = has_key(runtime_key(), pane);
                crate::list::first_place_bounds(self.panes@, holds);
                let place = crate::list::first_place(self.panes@, holds);
                assert(self.panes@[place].pane == pane);
            }
            assert forall|pane: PaneId|
                kept.dom().contains(pane) == #[trigger] self@.panes.dom().contains(pane) by {
                if kept.dom().contains(pane) {
                    assert(!dropped.contains(pane));
                }
            }
            assert(self@.panes =~= kept);
        }
    }
}

/// What a frame asks for.
#[derive(Debug, Clone, Copy, PartialEq, Eq)]
pub struct FramePlan {
    /// The active pane is published.
    pub publish: Option<PaneId>,
    /// What the published pane needs, where it was not rendered yet.
    pub render: RuntimePlan,
    /// A pane gets the keyboard, in its terminal or its chat.
    pub focus: Option<(PaneId, bool)>,
}

/// A command of the workspace.
#[derive(Debug, Clone, Copy, PartialEq, Eq, Structural)]
pub enum Command {
    ToggleSessionView,
    SplitRight,
    SplitDown,
    SplitViewRight,
    SplitViewDown,
    NewTab,
    ClosePane,
}

/// The keys of a command, behind the platform's modifier.
pub open spec fn keys_of(command: Command) -> Seq<char> {
    match command {
        Command::ToggleSessionView => "-e"@,
        Command::SplitRight => "-alt-right"@,
        Command::SplitDown => "-alt-down"@,
        Command::SplitViewRight => "-alt-shift-right"@,
        Command::SplitViewDown => "-alt-shift-down"@,
        Command::NewTab => "-alt-t"@,
        Command::ClosePane => "-alt-w"@,
    }
}

/// The chord of a command.
pub fn bind_keys(command: Command, mac: bool) -> (r: String)
    ensures
        r@ == (if mac {
            "cmd"@
        } else {
            "ctrl"@
        }) + keys_of(command),
{
    let modifier: &'static str = if mac {
        "cmd"
    } else {
        "ctrl"
    };
    let keys: &'static str = match command {
        Command::ToggleSessionView => "-e",
        Command::SplitRight => "-alt-right",
        Command::SplitDown => "-alt-down",
        Command::SplitViewRight => "-alt-shift-right",
        Command::SplitViewDown => "-alt-shift-down",
        Command::NewTab => "-alt-t",
        Command::ClosePane => "-alt-w",
    };
    join2(modifier, keys)
}

/// What a command does to the focused pane.
pub fn command_action(command: Command) -> (r: PaneAction)
    ensures
        r == (match command {
            Command::ToggleSessionView => PaneAction::Toggle,
            Command::SplitRight => PaneAction::Split { direction: Direction::Right, view: false },
            Command::SplitDown => PaneAction::Split { direction: Direction::Down, view: false },
            Command::SplitViewRight => PaneAction::Split {
                direction: Direction::Right,
                view: true,
            },
            Command::SplitViewDown => PaneAction::Split { direction: Direction::Down, view: true },
            Command::NewTab => PaneAction::NewTab,
            Command::ClosePane => PaneAction::Close,
        }),
{
    match command {
        Command::ToggleSessionView => PaneAction::Toggle,
        Command::SplitRight => PaneAction::Split { direction: Direction::Right, view: false },
        Command::SplitDown => PaneAction::Split { direction: Direction::Down, view: false },
        Command::SplitViewRight => PaneAction::Split { direction: Direction::Right, view: true },
        Command::SplitViewDown => PaneAction::Split { direction: Direction::Down, view: true },
        Command::NewTab => PaneAction::NewTab,
        Command::ClosePane => PaneAction::Close,
    }
}

/// A side of a split.
#[derive(Debug, Clone, Copy, PartialEq, Eq, Structural)]
pub enum Branch {
    First,
    Second,
}

/// A tree of panes or views as it is drawn, by their numbers.
#[derive(Debug)]
pub enum VisualNode {
    Leaf(u64),
    Empty,
    Split {
        horizontal: bool,
        /// Where the split stands in the tree; one that is on its way out has
        /// no place.
        path: Option<Vec<Branch>>,
        first: Box<VisualNode>,
        second: Box<VisualNode>,
    },
}

/// A piece of a drawn tree.
#[derive(Debug)]
pub enum TreePart {
    Leaf(u64),
    Handle { horizontal: bool, interactive: bool, thickness: u32, path: Vec<Branch> },
}

/// What a piece of a drawn tree is.
pub enum Part {
    Leaf(u64),
    Handle { horizontal: bool, interactive: bool, thickness: u32, path: Seq<Branch> },
}

impl DeepView for TreePart {
    type V = Part;

    open spec fn deep_view(&self) -> Part {
        match self {
            TreePart::Leaf(content) => Part::Leaf(*content),
            TreePart::Handle { horizontal, interactive, thickness, path } => Part::Handle {
                horizontal: *horizontal,
                interactive: *interactive,
                thickness: *thickness,
                path: path@,
            },
        }
    }
}

/// The handle between two branches. One on its way out is not drawn and takes
/// no pointer.
pub open spec fn handle_of(horizontal: bool, path: Option<Vec<Branch>>) -> Part {
    Part::Handle {
        horizontal,
        interactive: path is Some,
        thickness: if path is Some {
            6
        } else {
            0
        },
        path: if path is Some {
            path->0@
        } else {
            Seq::empty()
        },
    }
}

/// A tree in drawing order: the first branch, the handle, the second branch.
pub open spec fn drawn(node: VisualNode) -> Seq<Part>
    decreases node,
{
    match node {
        VisualNode::Leaf(content) => seq![Part::Leaf(content)],
        VisualNode::Empty => Seq::empty(),
        VisualNode::Split { horizontal, path, first, second } => drawn(*first) + seq![
            handle_of(horizontal, path),
        ] + drawn(*second),
    }
}

fn copy_path(path: &Vec<Branch>) -> (r: Vec<Branch>)
    ensures
        r@ == path@,
{
    let mut out: Vec<Branch> = Vec::new();
    let mut i: usize = 0;
    while i < path.len()
        invariant
            i <= path@.len(),
            out@ == path@.take(i as int),
        decreases path@.len() - i,
    {
        out.push(path[i]);
        i += 1;
        proof {
            assert(path@.take(i as int) =~= path@.take(i - 1).push(path@[i - 1]));
        }
    }
    proof {
        assert(path@.take(path@.len() as int) =~= path@);
    }
    out
}

fn draw_into(node: &VisualNode, out: &mut Vec<TreePart>)
    ensures
        final(out).deep_view() == old(out).deep_view() + drawn(*node),
    decreases node,
{
    let ghost before = out.deep_view();
    match node {
        VisualNode::Leaf(content) => {
            let part: TreePart = TreePart::Leaf(*content);
            let ghost shown = part.deep_view();
            out.push(part);
            proof {
                assert(out.deep_view() =~= before.push(shown));
                assert(before.push(shown) =~= before + seq![shown]);
            }
        },
        VisualNode::Empty => {
            proof {
                assert(before + Seq::<Part>::empty() =~= before);
            }
        },
        VisualNode::Split { horizontal, path, first, second } => {
            draw_into(first, out);
            let ghost middle = out.deep_view();
            let (interactive, place): (bool, Vec<Branch>) = match path {
                Some(path) => (true, copy_path(path)),
                None => (false, Vec::new()),
            };
            let part: TreePart = TreePart::Handle {
                horizontal: *horizontal,
                interactive,
                thickness: if interactive {
                    6
                } else {
                    0
                },
                path: place,
            };
            let ghost shown = part.deep_view();
            out.push(part);
            proof {
                assert(shown == handle_of(*horizontal, *path));
                assert(out.deep_view() =~= middle.push(shown));
            }
            draw_into(second, out);
            proof {
                assert(out.deep_view() =~= before + drawn(*node));
            }
        },
    }
}

/// A tree in drawing order.
pub fn render_tree(node: &VisualNode) -> (r: Vec<TreePart>)
    ensures
        r.deep_view() == drawn(*node),
{
    let mut out: Vec<TreePart> = Vec::new();
    proof {
        assert(out.deep_view() =~= Seq::<Part>::empty());
    }
    draw_into(node, &mut out);
    proof {
        assert(Seq::<Part>::empty() + drawn(*node) =~= drawn(*node));
    }
    out
}

/// A split that is resized: of a tab's panes, or of the views.
#[derive(Debug)]
pub struct SplitResize {
    pub tier: Option<(ViewId, TabId)>,
    pub path: Vec<Branch>,
}

/// Whether a drag resizes the split of a handle: the handle is drawn, and the
/// drag began at it.
pub fn resizes(handle: &SplitResize, interactive: bool, drag: &SplitResize) -> (r: bool)
    ensures
        r == (interactive && drag.tier == handle.tier && drag.path@ == handle.path@),
{
    let same_tier: bool = match (drag.tier, handle.tier) {
        (Some((view, tab)), Some((other, place))) => view == other && tab == place,
        (None, None) => true,
        _ => false,
    };
    if !interactive || !same_tier || drag.path.len() != handle.path.len() {
        return false;
    }
    let mut i: usize = 0;
    while i < drag.path.len()
        invariant
            i <= drag.path@.len(),
            drag.path@.len() == handle.path@.len(),
            forall|k: int| 0 <= k < i ==> drag.path@[k] == handle.path@[k],
        decreases drag.path@.len() - i,
    {
        if drag.path[i] != handle.path[i] {
            proof {
                assert(drag.path@[i as int] != handle.path@[i as int]);
            }
            return false;
        }
        i += 1;
    }
    proof {
        assert(drag.path@ =~= handle.path@);
    }
    true
}

/// Whether a press on a handle makes its branches equal: a double click on one
/// that is drawn.
pub fn equalizes(interactive: bool, clicks: usize) -> (r: bool)
    ensures
        r == (interactive && clicks == 2),
{
    interactive && clicks == 2
}

/// How long the arrangement rests before it is stored.
pub const SAVE_DELAY_MS: u64 = 250;

/// A pane never goes before its terminal acknowledged the release: closing it
/// only asks for that and keeps the pane, and nothing but the release closes
/// it.
pub proof fn a_terminal_is_released_before_its_pane(station: Station, pane: PaneId, status: ViewStatus)
    requires
        station.terminal_to_close(pane),
    ensures
        station.close_plan(pane) is ReleaseTerminal,
        station.closing(pane).layout == station.layout,
        station.closing(pane).panes.dom().contains(pane),
        station.closing(pane).pending_close.contains(pane),
        station.closing(pane).status_plan(pane, status) is Close <==> status is Idle,
{
}

/// No terminal's status closes a pane that was not asked to close.
pub proof fn only_a_pending_pane_closes(station: Station, pane: PaneId, status: ViewStatus)
    ensures
        station.status_plan(pane, status) is Close ==> station.pending_close.contains(pane),
        station.status_plan(pane, status) is Close ==> !station.after_status(
            pane,
            status,
        ).pending_close.contains(pane),
{
}

/// A failed handoff keeps its pane, says why, and no longer closes it.
pub proof fn a_failed_handoff_keeps_the_pane(station: Station, pane: PaneId, error: Seq<char>)
    requires
        station.panes.dom().contains(pane),
    ensures
        station.status_plan(pane, ViewStatus::Failed(error)) is Nothing,
        ({
            let after = station.after_status(pane, ViewStatus::Failed(error));
            &&& after.layout == station.layout
            &&& after.panes.dom().contains(pane)
            &&& after.error == Some(error)
            &&& !after.pending_close.contains(pane)
            &&& after.message(pane) == Some("View switch failed: "@ + error)
        }),
{
}

/// A terminal whose handoff failed while it shows is given back, whatever
/// stands against a switch, and never opened again by one.
pub proof fn a_failed_handoff_is_recovered(
    station: Station,
    pane: PaneId,
    error: Seq<char>,
    reason: Option<Seq<char>>,
)
    requires
        station.panes.dom().contains(pane),
        station.panes[pane].shows_terminal,
    ensures
        station.after_status(pane, ViewStatus::Failed(error)).toggle_deed(pane, reason) is Recover,
{
}

/// A selection never takes a session away from a terminal: a pane that is one,
/// or is switching, is not bound to another session.
pub proof fn a_terminal_keeps_its_session(
    station: Station,
    pane: PaneId,
    chat: Option<Seq<char>>,
    plan: SelectPlan,
)
    requires
        station.selects(chat, plan),
        station.layout.active_pane() == Some(pane),
        station.mode(pane) == Some(PaneMode::Terminal) || (station.terminal(pane) is Some
            && !(station.terminal(pane)->0 is Idle)),
    ensures
        !(plan is Bind),
{
}

/// A session that has a pane is only focused, never opened a second time.
pub proof fn an_open_session_is_only_focused(station: Station, chat: Seq<char>, plan: SelectPlan)
    requires
        station.selects(Some(chat), plan),
        station.layout.home_of(chat) is Some,
    ensures
        plan == (SelectPlan::Focus { pane: station.layout.home_of(chat)->0 }),
{
}

/// A pane is never dropped on itself, and a tab never on a pane of its own:
/// no such drag is previewed, so no such drop leads anywhere.
pub proof fn a_drop_never_lands_on_itself(
    station: Station,
    pane: PaneId,
    target: DragTarget,
    inside: bool,
    direction: Option<Direction>,
)
    requires
        !station.may_land(pane, target),
        station.outer_preview is None,
    ensures
        station.dragged_over(pane, target, inside, direction).pane_drop(pane, target) is Nothing,
{
}

} // verus!
