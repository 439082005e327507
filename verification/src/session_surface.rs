//! The controls that switch a session between its chat and its own terminal,
//! one for each pane that shows a session.
use vstd::prelude::*;
use crate::layout::{Layout, Pane, PaneId, PaneMode};
use crate::list::{
    first_place, first_place_at, first_place_bounds, has_key, keyed, keyed_item, keyed_push,
    keyed_remove, keyed_update, keys_distinct,
};
use crate::text::{copy_option, same_text};

verus! {

/// A pane and the session it shows.
#[derive(Debug)]
pub struct PaneSession {
    pub pane: PaneId,
    pub session: Option<String>,
}

/// What a pane shows.
#[verifier::ext_equal]
pub struct Shown {
    pub pane: PaneId,
    pub session: Option<Seq<char>>,
}

impl DeepView for PaneSession {
    type V = Shown;

    open spec fn deep_view(&self) -> Shown {
        Shown { pane: self.pane, session: self.session.deep_view() }
    }
}

/// The chat panes with their sessions, in order.
pub open spec fn chat_sessions(panes: Seq<Pane>) -> Seq<Shown>
    decreases panes.len(),
{
    if panes.len() == 0 {
        Seq::empty()
    } else if panes.last().mode is Chat {
        chat_sessions(panes.drop_last()).push(
            Shown { pane: panes.last().pane, session: panes.last().session },
        )
    } else {
        chat_sessions(panes.drop_last())
    }
}

pub fn chat_pane_sessions(layout: &Layout) -> (r: Vec<PaneSession>)
    ensures
        r.deep_view() == chat_sessions(layout@.panes),
{
    let mut out: Vec<PaneSession> = Vec::new();
    let mut i: usize = 0;
    let ghost all = layout@.panes;
    proof {
        assert(all.take(0) =~= Seq::<Pane>::empty());
        assert(out.deep_view() =~= Seq::<Shown>::empty());
    }
    while i < layout.panes.len()
        invariant
            i <= layout.panes@.len(),
            all == layout@.panes,
            out.deep_view() == chat_sessions(all.take(i as int)),
        decreases layout.panes@.len() - i,
    {
        let ghost before = out.deep_view();
        proof {
            let front = all.take(i + 1);
            assert(front.drop_last() =~= all.take(i as int));
            assert(front.last() == layout.panes@[i as int].deep_view());
        }
        match layout.panes[i].mode {
            PaneMode::Chat => {
                let entry: PaneSession = PaneSession {
                    pane: layout.panes[i].pane,
                    session: copy_option(&layout.panes[i].session),
                };
                let ghost shown = entry.deep_view();
                out.push(entry);
                proof {
                    assert(out.deep_view() =~= before.push(shown));
                }
            },
            PaneMode::Terminal => {},
        }
        i += 1;
    }
    proof {
        assert(all.take(all.len() as int) =~= all);
    }
    out
}

/// A pane's control.
#[derive(Debug)]
pub struct NativeSurface {
    pub pane: PaneId,
    pub chat: String,
    /// Its session was last seen in its own terminal.
    pub was_cli: bool,
}

/// The pane of a control.
pub open spec fn control_key() -> spec_fn(NativeSurface) -> PaneId {
    |entry: NativeSurface| entry.pane
}

/// What a control holds: its session, and whether that was last seen in its own
/// terminal.
#[verifier::ext_equal]
pub struct Control {
    pub chat: Seq<char>,
    pub was_cli: bool,
}

/// What a pane's control holds.
pub open spec fn control_value() -> spec_fn(NativeSurface) -> Control {
    |entry: NativeSurface| Control { chat: entry.chat@, was_cli: entry.was_cli }
}

/// The controls.
#[derive(Debug)]
pub struct NativeSurfaces {
    pub controls: Vec<NativeSurface>,
}

impl View for NativeSurfaces {
    type V = Map<PaneId, Control>;

    open spec fn view(&self) -> Map<PaneId, Control> {
        keyed(self.controls@, control_key(), control_value())
    }
}

/// A session shows in that pane.
pub open spec fn live(panes: Seq<Shown>, pane: PaneId) -> bool {
    exists|i: int|
        0 <= i < panes.len() && (#[trigger] panes[i]).pane == pane && panes[i].session is Some
}

/// The controls of panes that still show a session.
pub open spec fn kept(controls: Map<PaneId, Control>, panes: Seq<Shown>) -> Map<PaneId, Control> {
    controls.restrict(Set::new(|pane: PaneId| live(panes, pane)))
}

/// Whether a pane has the control of a session.
pub open spec fn controls_session(
    controls: Map<PaneId, Control>,
    pane: PaneId,
    chat: Seq<char>,
) -> bool {
    controls.dom().contains(pane) && controls[pane].chat == chat
}

/// A control that has just been made: its session was not seen in its own
/// terminal yet.
pub open spec fn made_for(chat: Seq<char>) -> Control {
    Control { chat, was_cli: false }
}

/// The controls once each pane has the one of its session: a control that is
/// right already stays as it is, any other is made anew.
pub open spec fn provided(controls: Map<PaneId, Control>, panes: Seq<Shown>) -> Map<
    PaneId,
    Control,
>
    decreases panes.len(),
{
    if panes.len() == 0 {
        controls
    } else {
        let before = provided(controls, panes.drop_last());
        match panes.last().session {
            Some(chat) => if controls_session(before, panes.last().pane, chat) {
                before
            } else {
                before.insert(panes.last().pane, made_for(chat))
            },
            None => before,
        }
    }
}

/// The panes that get a new control, in order.
pub open spec fn renewed(controls: Map<PaneId, Control>, panes: Seq<Shown>) -> Seq<PaneId>
    decreases panes.len(),
{
    if panes.len() == 0 {
        Seq::empty()
    } else {
        let before = renewed(controls, panes.drop_last());
        let now = provided(controls, panes.drop_last());
        let last = panes.last();
        if last.session is Some && !controls_session(now, last.pane, last.session->0) {
            before.push(last.pane)
        } else {
            before
        }
    }
}

impl NativeSurfaces {
    /// No pane has two controls.
    pub open spec fn wf(&self) -> bool {
        keys_distinct(self.controls@, control_key())
    }

    pub fn new() -> (r: Self)
        ensures
            r.wf(),
            r@ == Map::<PaneId, Control>::empty(),
    {
        let r: NativeSurfaces = NativeSurfaces { controls: Vec::new() };
        proof {
            assert(r@ =~= Map::<PaneId, Control>::empty());
        }
        r
    }

    /// The place of a pane's control.
    fn find(&self, pane: PaneId) -> (r: Option<usize>)
        requires
            self.wf(),
        ensures
            (match r {
                Some(at) => {
                    &&& at < self.controls@.len()
                    &&& self.controls@[at as int].pane == pane
                    &&& self@.dom().contains(pane)
                    &&& self@[pane] == control_value()(self.controls@[at as int])
                    &&& at == first_place(self.controls@, has_key(control_key(), pane))
                },
                None => !self@.dom().contains(pane),
            }),
    {
        let mut at: usize = 0;
        let ghost holds = has_key(control_key(), pane);
        while at < self.controls.len()
            invariant
                at <= self.controls@.len(),
                self.wf(),
                holds == has_key(control_key(), pane),
                forall|i: int| 0 <= i < at ==> !holds(#[trigger] self.controls@[i]),
            decreases self.controls@.len() - at,
        {
            if self.controls[at].pane == pane {
                proof {
                    keyed_item(self.controls@, control_key(), control_value(), at as int);
                    first_place_at(self.controls@, holds, at as int);
                }
                return Some(at);
            }
            at += 1;
        }
        proof {
            first_place_at(self.controls@, holds, at as int);
        }
        None
    }

    /// Drops the controls of panes that show no session.
    fn retain_live(&mut self, panes: &Vec<PaneSession>)
        requires
            old(self).wf(),
        ensures
            final(self).wf(),
            final(self)@ == kept(old(self)@, panes.deep_view()),
    {
        let ghost start = self@;
        let ghost shown = panes.deep_view();
        let mut at: usize = 0;
        let ghost mut dropped: Set<PaneId> = Set::empty();
        proof {
            assert(start.remove_keys(dropped) =~= start);
        }
        while at < self.controls.len()
            invariant
                at <= self.controls@.len(),
                self.wf(),
                shown == panes.deep_view(),
                self@ == start.remove_keys(dropped),
                forall|pane: PaneId| #[trigger] dropped.contains(pane) ==> !live(shown, pane),
                forall|i: int| 0 <= i < at ==> live(shown, (#[trigger] self.controls@[i]).pane),
            decreases self.controls@.len() - at,
        {
            let pane: PaneId = self.controls[at].pane;
            if is_live(panes, pane) {
                at += 1;
            } else {
                let ghost before = self.controls@;
                proof {
                    keyed_remove(before, control_key(), control_value(), at as int);
                }
                let _gone: NativeSurface = self.controls.remove(at);
                proof {
                    let next = dropped.insert(pane);
                    assert(start.remove_keys(dropped).remove(pane) =~= start.remove_keys(next));
                    dropped = next;
                    assert forall|i: int| 0 <= i < at implies live(
                        shown,
                        (#[trigger] self.controls@[i]).pane,
                    ) by {
                        assert(self.controls@[i] == before[i]);
                    }
                }
            }
        }
        proof {
            assert forall|pane: PaneId| #[trigger] self@.dom().contains(pane) implies live(
                shown,
                pane,
            ) by {
                first_place_bounds(self.controls@, has_key(control_key(), pane));
                let place = first_place(self.controls@, has_key(control_key(), pane));
                assert(self.controls@[place].pane == pane);
            }
            assert forall|pane: PaneId|
                kept(start, shown).dom().contains(pane) == #[trigger] self@.dom().contains(
                    pane,
                ) by {
                if kept(start, shown).dom().contains(pane) {
                    assert(!dropped.contains(pane));
                }
            }
            assert(self@ =~= kept(start, shown));
        }
    }

    /// Gives every pane that shows a session the control of that session, and
    /// drops the others. Returns the panes whose control is new.
    pub fn provide(&mut self, panes: &Vec<PaneSession>) -> (r: Vec<PaneId>)
        requires
            old(self).wf(),
        ensures
            final(self).wf(),
            final(self)@ == provided(kept(old(self)@, panes.deep_view()), panes.deep_view()),
            r@ == renewed(kept(old(self)@, panes.deep_view()), panes.deep_view()),
    {
        self.retain_live(panes);
        let ghost start = self@;
        let ghost all = panes.deep_view();
        let mut made: Vec<PaneId> = Vec::new();
        let mut i: usize = 0;
        proof {
            assert(all.take(0) =~= Seq::<Shown>::empty());
        }
        while i < panes.len()
            invariant
                i <= panes@.len(),
                self.wf(),
                all == panes.deep_view(),
                self@ == provided(start, all.take(i as int)),
                made@ == renewed(start, all.take(i as int)),
            decreases panes@.len() - i,
        {
            let pane: PaneId = panes[i].pane;
            proof {
                let front = all.take(i + 1);
                assert(front.drop_last() =~= all.take(i as int));
                assert(front.last() == panes@[i as int].deep_view());
            }
            match &panes[i].session {
                None => {},
                Some(chat) => {
                    let ghost before = self.controls@;
                    let place: Option<usize> = self.find(pane);
                    let same: bool = match place {
                        Some(at) => same_text(self.controls[at].chat.as_str(), chat.as_str()),
                        None => false,
                    };
                    if !same {
                        let entry: NativeSurface = NativeSurface {
                            pane,
                            chat: chat.clone(),
                            was_cli: false,
                        };
                        match place {
                            Some(at) => {
                                proof {
                                    keyed_update(
                                        before,
                                        control_key(),
                                        control_value(),
                                        at as int,
                                        entry,
                                    );
                                }
                                self.controls.set(at, entry);
                            },
                            None => {
                                proof {
                                    keyed_push(before, control_key(), control_value(), entry);
                                }
                                self.controls.push(entry);
                            },
                        }
                        made.push(pane);
                    }
                },
            }
            i += 1;
        }
        proof {
            assert(all.take(all.len() as int) =~= all);
        }
        made
    }

    /// Takes over whether a pane's session is in its own terminal. Returns
    /// whether the composer gets the keyboard: the session just came back to
    /// the chat of the focused pane.
    pub fn observe(&mut self, pane: PaneId, cli: bool, focused: Option<PaneId>) -> (r: bool)
        requires
            old(self).wf(),
        ensures
            final(self).wf(),
            ({
                let before = old(self)@;
                let there = before.dom().contains(pane);
                &&& r == (there && before[pane].was_cli && !cli && focused == Some(pane))
                &&& final(self)@ == (if there {
                    before.insert(pane, Control { was_cli: cli, ..before[pane] })
                } else {
                    before
                })
            }),
    {
        match self.find(pane) {
            Some(at) => {
                let was: bool = self.controls[at].was_cli;
                let ghost before = self.controls@;
                let entry: NativeSurface = NativeSurface {
                    pane,
                    chat: self.controls[at].chat.clone(),
                    was_cli: cli,
                };
                proof {
                    keyed_update(before, control_key(), control_value(), at as int, entry);
                }
                self.controls.set(at, entry);
                was && !cli && focused == Some(pane)
            },
            None => false,
        }
    }
}

fn is_live(panes: &Vec<PaneSession>, pane: PaneId) -> (r: bool)
    ensures
        r == live(panes.deep_view(), pane),
{
    let mut i: usize = 0;
    while i < panes.len()
        invariant
            i <= panes@.len(),
            forall|k: int|
                0 <= k < i ==> !((#[trigger] panes.deep_view()[k]).pane == pane
                    && panes.deep_view()[k].session is Some),
        decreases panes@.len() - i,
    {
        proof {
            assert(panes.deep_view()[i as int] == panes@[i as int].deep_view());
        }
        if panes[i].pane == pane && panes[i].session.is_some() {
            return true;
        }
        i += 1;
    }
    false
}

/// The panes that get controls: every chat pane of the workspace, or the
/// focused one with the selected session where a single session shows.
pub open spec fn surface_panes(
    panes: Seq<Pane>,
    workspace_mode: bool,
    focused: Option<PaneId>,
    selected: Option<Seq<char>>,
) -> Seq<Shown> {
    match focused {
        Some(pane) if !workspace_mode => seq![Shown { pane, session: selected }],
        _ => chat_sessions(panes),
    }
}

/// Gives the panes that show sessions their controls. Returns the panes whose
/// control is new.
pub fn ensure_session_surfaces(
    surfaces: &mut NativeSurfaces,
    layout: &Layout,
    workspace_mode: bool,
    selected_chat: &Option<String>,
) -> (r: Vec<PaneId>)
    requires
        old(surfaces).wf(),
    ensures
        final(surfaces).wf(),
        ({
            let panes = surface_panes(
                layout@.panes,
                workspace_mode,
                layout@.active_pane(),
                selected_chat.deep_view(),
            );
            &&& final(surfaces)@ == provided(kept(old(surfaces)@, panes), panes)
            &&& r@ == renewed(kept(old(surfaces)@, panes), panes)
        }),
{
    let mut panes: Vec<PaneSession> = chat_pane_sessions(layout);
    if !workspace_mode {
        match layout.active_pane_id() {
            Some(pane) => {
                let only: PaneSession = PaneSession { pane, session: copy_option(selected_chat) };
                let ghost shown = only.deep_view();
                panes = Vec::new();
                panes.push(only);
                proof {
                    assert(panes.deep_view() =~= seq![shown]);
                }
            },
            None => {},
        }
    }
    surfaces.provide(&panes)
}

/// A control of one pane.
pub open spec fn pane_once(panes: Seq<Shown>) -> bool {
    forall|i: int, j: int|
        0 <= i < j < panes.len() ==> (#[trigger] panes[i]).pane != (#[trigger] panes[j]).pane
}

/// What is provided under a pane: nothing new where it shows no session, else
/// the control of its session.
proof fn provided_at(controls: Map<PaneId, Control>, panes: Seq<Shown>, pane: PaneId)
    requires
        pane_once(panes),
    ensures
        provided(controls, panes).dom().contains(pane) <==> controls.dom().contains(pane) || live(
            panes,
            pane,
        ),
        !live(panes, pane) ==> provided(controls, panes)[pane] == controls[pane],
        !live(panes, pane) ==> !renewed(controls, panes).contains(pane),
        forall|i: int|
            0 <= i < panes.len() && (#[trigger] panes[i]).pane == pane && panes[i].session is Some
                ==> provided(controls, panes)[pane] == (if controls_session(
                controls,
                pane,
                panes[i].session->0,
            ) {
                controls[pane]
            } else {
                made_for(panes[i].session->0)
            }) && (renewed(controls, panes).contains(pane) <==> !controls_session(
                controls,
                pane,
                panes[i].session->0,
            )),
    decreases panes.len(),
{
    if panes.len() > 0 {
        let front = panes.drop_last();
        let last = panes.last();
        assert forall|i: int, j: int| 0 <= i < j < front.len() implies (#[trigger] front[i]).pane
            != (#[trigger] front[j]).pane by {
            assert(panes[i].pane != panes[j].pane);
        }
        provided_at(controls, front, pane);
        let before = renewed(controls, front);
        let after = renewed(controls, panes);
        assert(after.contains(pane) <==> before.contains(pane) || (after.len() > before.len()
            && last.pane == pane)) by {
            if after.len() > before.len() {
                assert(after =~= before.push(last.pane));
                if before.contains(pane) {
                    let k = choose|k: int| 0 <= k < before.len() && before[k] == pane;
                    assert(after[k] == pane);
                }
                if last.pane == pane {
                    assert(after[before.len() as int] == pane);
                }
            }
        }
        if last.pane == pane {
            assert(!live(front, pane)) by {
                if live(front, pane) {
                    let i = choose|i: int|
                        0 <= i < front.len() && (#[trigger] front[i]).pane == pane
                            && front[i].session is Some;
                    assert(panes[i].pane != panes[panes.len() - 1].pane);
                }
            }
            if last.session is Some {
                assert(panes[panes.len() - 1] == last);
                assert(live(panes, pane));
            }
        }
        if live(front, pane) {
            let i = choose|i: int|
                0 <= i < front.len() && (#[trigger] front[i]).pane == pane
                    && front[i].session is Some;
            assert(panes[i] == front[i]);
            assert(live(panes, pane));
        }
        if live(panes, pane) && !live(front, pane) {
            let i = choose|i: int|
                0 <= i < panes.len() && (#[trigger] panes[i]).pane == pane
                    && panes[i].session is Some;
            if i < front.len() {
                assert(front[i] == panes[i]);
            }
            assert(last.pane == pane && last.session is Some);
        }
        assert forall|i: int|
            0 <= i < panes.len() && (#[trigger] panes[i]).pane == pane
                && panes[i].session is Some implies provided(controls, panes)[pane] == (
        if controls_session(controls, pane, panes[i].session->0) {
            controls[pane]
        } else {
            made_for(panes[i].session->0)
        }) && (renewed(controls, panes).contains(pane) <==> !controls_session(
            controls,
            pane,
            panes[i].session->0,
        )) by {
            if i < front.len() {
                assert(front[i] == panes[i]);
                assert(panes[i].pane != panes[panes.len() - 1].pane);
            }
        }
    }
}

/// Afterwards exactly the panes that show a session have a control, each that
/// of its own session.
pub proof fn controls_match_the_panes(
    controls: Map<PaneId, Control>,
    panes: Seq<Shown>,
    at: int,
    other: PaneId,
)
    requires
        pane_once(panes),
        0 <= at < panes.len(),
        panes[at].session is Some,
    ensures
        provided(kept(controls, panes), panes).dom().contains(panes[at].pane),
        provided(kept(controls, panes), panes)[panes[at].pane].chat == panes[at].session->0,
        provided(kept(controls, panes), panes).dom().contains(other) <==> live(panes, other),
{
    provided_at(kept(controls, panes), panes, panes[at].pane);
    provided_at(kept(controls, panes), panes, other);
    assert(live(panes, panes[at].pane));
}

/// A pane whose session stays keeps its control, with what was seen of the
/// session; a pane with another session gets one that has seen nothing yet.
/// Exactly those are reported as new.
pub proof fn a_kept_control_forgets_nothing(
    controls: Map<PaneId, Control>,
    panes: Seq<Shown>,
    at: int,
)
    requires
        pane_once(panes),
        0 <= at < panes.len(),
        panes[at].session is Some,
    ensures
        ({
            let pane = panes[at].pane;
            let chat = panes[at].session->0;
            let after = provided(kept(controls, panes), panes);
            let new = renewed(kept(controls, panes), panes).contains(pane);
            &&& new <==> !controls_session(controls, pane, chat)
            &&& !new ==> after[pane] == controls[pane]
            &&& new ==> after[pane] == made_for(chat) && !after[pane].was_cli
        }),
{
    provided_at(kept(controls, panes), panes, panes[at].pane);
    assert(live(panes, panes[at].pane));
}

/// Providing controls again makes none anew: where each pane has the control of
/// its session, nothing changes.
pub proof fn an_unchanged_pane_keeps_its_control(
    controls: Map<PaneId, Control>,
    panes: Seq<Shown>,
)
    requires
        forall|i: int|
            0 <= i < panes.len() && (#[trigger] panes[i]).session is Some ==> controls_session(
                controls,
                panes[i].pane,
                panes[i].session->0,
            ),
    ensures
        renewed(controls, panes) == Seq::<PaneId>::empty(),
        provided(controls, panes) == controls,
    decreases panes.len(),
{
    if panes.len() > 0 {
        let front = panes.drop_last();
        assert forall|i: int|
            0 <= i < front.len() && (#[trigger] front[i]).session is Some implies controls_session(
            controls,
            front[i].pane,
            front[i].session->0,
        ) by {
            assert(front[i] == panes[i]);
        }
        an_unchanged_pane_keeps_its_control(controls, front);
        assert(panes[panes.len() - 1] == panes.last());
    }
}

} // verus!
