//! How the shell moves between the workspace and a single session, follows
//! navigation, and stores the arrangement of each space.
use vstd::prelude::*;
use crate::layout::{is_pane, Arrangement, Direction, Layout, Pane, PaneEntry, PaneId, ViewId};
use crate::list::{first_item, first_place, first_place_bounds};
use crate::pane_drag::{
    bind_sidebar_session, commit_sidebar_split, made_pane, sidebar_drop, DropPlan, LayoutOp, Made,
    SidebarDrop,
};
use crate::pane_header::{chat_of, find_chat, is_chat, ChatRow};
use crate::pane_surfaces::{
    key_of_chat, parked_key, parked_value, ChatTarget, ComposerEntry, Composing, Desk,
    PaneShell, ParkedDraft, Surface, SurfaceEntry, Target,
};
use crate::text::{copy_option, is_text, same_option, same_text};

verus! {

/// What a pane's composer reports.
#[derive(Debug)]
pub enum ComposerEvent {
    /// A first message is on its way.
    TransitionStarted,
    Sent { chat_id: String, message_id: String },
    Queued { chat_id: String, message_id: String },
    /// A worktree was set up for a conversation.
    WorktreeSetup { chat_id: String },
}

/// What a composer's report asks for.
#[derive(Debug)]
pub enum ComposerDeed {
    Nothing,
    Redraw,
    /// The pane's transcript marks the message as its own turn.
    MarkOwnTurn { chat_id: String, message_id: String, queued: bool },
    AttachSetup { chat_id: String },
}

/// What the write of an arrangement takes.
#[derive(Debug, Clone, Copy, PartialEq, Eq, Structural)]
pub struct FlushPlan {
    /// The arrangement goes to the store, under the space it belongs to.
    pub put: bool,
    /// Arrangements of spaces that are gone are dropped.
    pub prune: bool,
}

/// An overlay over the workspace.
#[derive(Debug, Clone, Copy, PartialEq, Eq, Structural)]
pub enum Overlay {
    ToolPicker { view: ViewId },
    PaneMenu { pane: PaneId },
}

/// A row of a pane's menu.
#[derive(Debug)]
pub struct MenuRow {
    pub id: &'static str,
    pub label: &'static str,
    pub chord: &'static str,
    pub deed: MenuDeed,
}

/// What a row of a pane's menu does.
#[derive(Debug, Clone, Copy, PartialEq, Eq, Structural)]
pub enum MenuDeed {
    SplitPane(Direction),
    SplitView(Direction),
    ClosePane,
}

/// The rows of a pane's menu: splits of the pane and of the view, then its
/// end.
pub fn pane_menu_rows() -> (r: Vec<MenuRow>)
    ensures
        r@.len() == 5,
        r@[0].label@ == "Split pane right"@ && r@[0].deed == MenuDeed::SplitPane(Direction::Right),
        r@[0].id@ == "ws-menu-split-right"@ && r@[0].chord@ == "⌘D"@,
        r@[1].label@ == "Split pane down"@ && r@[1].deed == MenuDeed::SplitPane(Direction::Down),
        r@[1].id@ == "ws-menu-split-down"@ && r@[1].chord@ == "⇧⌘D"@,
        r@[2].label@ == "Split view right"@ && r@[2].deed == MenuDeed::SplitView(Direction::Right),
        r@[2].id@ == "ws-menu-view-right"@ && r@[2].chord@ == "⌥⌘D"@,
        r@[3].label@ == "Split view down"@ && r@[3].deed == MenuDeed::SplitView(Direction::Down),
        r@[3].id@ == "ws-menu-view-down"@ && r@[3].chord@ == "⌥⌘⇧D"@,
        r@[4].label@ == "Close pane"@ && r@[4].deed == MenuDeed::ClosePane,
        r@[4].id@ == "ws-menu-close-pane"@ && r@[4].chord@ == ""@,
{
    let mut rows: Vec<MenuRow> = Vec::new();
    rows.push(
        MenuRow {
            id: "ws-menu-split-right",
            label: "Split pane right",
            chord: "⌘D",
            deed: MenuDeed::SplitPane(Direction::Right),
        },
    );
    rows.push(
        MenuRow {
            id: "ws-menu-split-down",
            label: "Split pane down",
            chord: "⇧⌘D",
            deed: MenuDeed::SplitPane(Direction::Down),
        },
    );
    rows.push(
        MenuRow {
            id: "ws-menu-view-right",
            label: "Split view right",
            chord: "⌥⌘D",
            deed: MenuDeed::SplitView(Direction::Right),
        },
    );
    rows.push(
        MenuRow {
            id: "ws-menu-view-down",
            label: "Split view down",
            chord: "⌥⌘⇧D",
            deed: MenuDeed::SplitView(Direction::Down),
        },
    );
    rows.push(
        MenuRow {
            id: "ws-menu-close-pane",
            label: "Close pane",
            chord: "",
            deed: MenuDeed::ClosePane,
        },
    );
    rows
}

/// The space of a conversation.
pub fn native_space(chats: &Vec<ChatRow>, chat_id: &str) -> (r: Option<String>)
    ensures
        r.deep_view() == (match chat_of(chats@, Some(chat_id@)) {
            Some(chat) => chat.space_id.deep_view(),
            None => None,
        }),
{
    match find_chat(chats, chat_id) {
        Some(at) => copy_option(&chats[at].space_id),
        None => None,
    }
}

/// Whether the stored arrangement of a space is kept: the one outside any
/// space always, another while its space lives.
pub fn keeps_space(space: &Option<String>, live: &Vec<String>) -> (r: bool)
    ensures
        r == (space is None || live.deep_view().contains(space->0@)),
{
    match space {
        None => true,
        Some(id) => {
            let mut i: usize = 0;
            while i < live.len()
                invariant
                    i <= live@.len(),
                    space == Some(*id),
                    forall|k: int| 0 <= k < i ==> live.deep_view()[k] != id@,
                decreases live@.len() - i,
            {
                proof {
                    assert(live.deep_view()[i as int] == live@[i as int]@);
                }
                if same_text(live[i].as_str(), id.as_str()) {
                    proof {
                        assert(live.deep_view().contains(id@));
                    }
                    return true;
                }
                i += 1;
            }
            false
        },
    }
}

/// A pane without a session that is gone.
pub open spec fn alive(pane: Pane, chats: Seq<ChatRow>) -> Pane {
    if pane.session is Some && first_item(chats, is_chat(pane.session->0)) is None {
        Pane { session: None, ..pane }
    } else {
        pane
    }
}

/// An arrangement without the sessions that are gone.
pub open spec fn without_dead(layout: Arrangement, chats: Seq<ChatRow>) -> Arrangement {
    Arrangement { panes: Seq::new(layout.panes.len(), |i: int| alive(layout.panes[i], chats)), ..layout }
}

/// Some pane is bound to a session that is gone.
pub open spec fn has_dead(layout: Arrangement, chats: Seq<ChatRow>) -> bool {
    exists|i: int|
        0 <= i < layout.panes.len() && alive(#[trigger] layout.panes[i], chats) != layout.panes[i]
}

impl Desk {
    /// The sessions that show alone, but for one.
    pub open spec fn without_solo(self, session: Option<Seq<char>>) -> Seq<Seq<char>> {
        match session {
            Some(session) => self.solo_chats.filter(|chat: Seq<char>| chat != session),
            None => self.solo_chats,
        }
    }

    /// The shell once the engine answered for a dropped sidebar session.
    pub open spec fn docked(
        self,
        made: Made,
        layout: Arrangement,
        session: Option<Seq<char>>,
    ) -> Desk {
        match made_pane(made, layout) {
            Some(pane) => (Desk {
                layout: layout.with_session(pane, session).focused(pane),
                dirty: true,
                solo_chats: self.without_solo(session),
                ..self
            }).retargeted(),
            None => if made is Refused {
                self
            } else {
                Desk { layout, ..self }
            },
        }
    }

    /// The composer belongs to a pane.
    pub open spec fn in_pane(self, composer: u64) -> bool {
        exists|pane: PaneId| #[trigger]
            self.surfaces.dom().contains(pane) && self.surfaces[pane].composer == composer
    }

    /// No pane's composer asks for the keyboard.
    pub open spec fn unfocused(self) -> Desk {
        Desk {
            composers: Map::new(
                |id: u64| self.composers.dom().contains(id),
                |id: u64|
                    if self.in_pane(id) {
                        Composing { focus_pending: false, ..self.composers[id] }
                    } else {
                        self.composers[id]
                    },
            ),
            ..self
        }
    }

    /// Every surface's unsent state is parked under the space that is left.
    pub open spec fn with_parked(self) -> Desk {
        Desk {
            parked: Map::new(
                |place: (Option<Seq<char>>, PaneId)|
                    self.parked.dom().contains(place) || (place.0 == self.space
                        && self.surfaces.dom().contains(place.1)),
                |place: (Option<Seq<char>>, PaneId)|
                    if place.0 == self.space && self.surfaces.dom().contains(place.1) {
                        self.surfaces[place.1].composer
                    } else {
                        self.parked[place]
                    },
            ),
            ..self
        }
    }

    /// The focused pane is bound to a session.
    pub open spec fn focus_bound(self, session: Option<Seq<char>>) -> Desk {
        match self.layout.active_pane() {
            Some(pane) => if self.layout.pane(pane) is Some && self.layout.focused_session()
                != session {
                Desk { layout: self.layout.with_session(pane, session), dirty: true, ..self }
            } else {
                self
            },
            None => self,
        }
    }

    /// The focused pane goes to another session. Its surface is made at once,
    /// so that the keyboard goes to the composer that stays.
    pub open spec fn navigated(self, target: Option<Seq<char>>) -> Desk {
        let moved = Desk { selected_chat: target, ..self.focus_bound(target) };
        let shown = if moved.workspace_mode() {
            moved.ensured()
        } else {
            moved
        };
        shown.focus_asked().noted()
    }

    /// The arrangement of another space takes over. Where none is stored, the
    /// default one opens on the selected session.
    pub open spec fn restored(
        self,
        space: Option<Seq<char>>,
        saved: bool,
        layout: Arrangement,
        initial: Option<Seq<char>>,
    ) -> Desk {
        let installed = Desk {
            layout,
            surfaces: Map::empty(),
            composers: self.composers.insert(
                self.dock,
                Composing { target: Target::Selected, ..self.composers[self.dock] },
            ),
            dock_key: key_of_chat(self.selected_chat),
            space,
            store_dirty: self.store_dirty || self.dirty,
            dirty: false,
            ..self.with_parked()
        };
        let seeded = if !saved && initial is Some {
            installed.focus_bound(initial)
        } else {
            installed
        };
        seeded.scheduled().retargeted()
    }
}

impl PaneShell {
    /// The transcript underlay fades at its top only where the workspace tree,
    /// whose panes carry their own chrome, does not show.
    pub fn transcript_underlay_fades_top(&self) -> (r: bool)
        ensures
            r == !self@.workspace_mode(),
    {
        !self.workspace_mode()
    }

    /// Pane chrome wins the hits in the titlebar band.
    pub fn pane_chrome_wins_titlebar_band(&self, chat_route: bool) -> (r: bool)
        ensures
            r == (chat_route && self@.workspace_mode()),
    {
        chat_route && self.workspace_mode()
    }

    /// Shows the workspace a session has a pane in: this one, or the stored
    /// one of `stored_owner`. Returns whether there is one, and whether the
    /// space changes.
    pub fn reveal_workspace_session(&mut self, chat_id: &str, stored_owner: Option<Option<String>>) -> (r:
        (bool, bool))
        requires
            old(self).wf(),
        ensures
            final(self).wf(),
            ({
                let before = old(self)@;
                let owner = if before.layout.home_of(chat_id@) is Some {
                    Some(before.space)
                } else {
                    match stored_owner {
                        Some(space) => Some(space.deep_view()),
                        None => None,
                    }
                };
                &&& r.0 == owner is Some
                &&& r.1 == (owner is Some && owner->0 != before.selected_space)
                &&& final(self)@ == (match owner {
                    None => before,
                    Some(space) => Desk {
                        solo: false,
                        solo_chats: before.solo_chats.filter(
                            |chat: Seq<char>| chat != chat_id@,
                        ),
                        selected_space: space,
                        ..before
                    },
                })
            }),
    {
        let owner: Option<String> = if self.layout.find_pane_with_session(chat_id).is_some() {
            copy_option(&self.space)
        } else {
            match stored_owner {
                Some(space) => space,
                None => return (false, false),
            }
        };
        self.remove_solo_chat(chat_id);
        self.solo = false;
        let switches: bool = !same_option(&self.selected_space, &owner);
        self.selected_space = owner;
        (true, switches)
    }

    /// Forgets that a session was shown alone.
    pub fn remove_solo_chat(&mut self, chat_id: &str)
        requires
            old(self).wf(),
        ensures
            final(self).wf(),
            final(self)@ == (Desk {
                solo_chats: old(self)@.solo_chats.filter(|chat: Seq<char>| chat != chat_id@),
                ..old(self)@
            }),
    {
        let mut kept: Vec<String> = Vec::new();
        let mut i: usize = 0;
        let ghost all = self.solo_chats.deep_view();
        let ghost keep = |chat: Seq<char>| chat != chat_id@;
        proof {
            reveal(Seq::filter);
            assert(all.take(0) =~= Seq::<Seq<char>>::empty());
            assert(kept.deep_view() =~= Seq::<Seq<char>>::empty());
        }
        while i < self.solo_chats.len()
            invariant
                i <= self.solo_chats@.len(),
                *self == *old(self),
                all == self.solo_chats.deep_view(),
                keep == (|chat: Seq<char>| chat != chat_id@),
                kept.deep_view() == all.take(i as int).filter(keep),
            decreases self.solo_chats@.len() - i,
        {
            let ghost before = kept.deep_view();
            proof {
                reveal(Seq::filter);
                let front = all.take(i + 1);
                assert(front.drop_last() =~= all.take(i as int));
                assert(front.last() == self.solo_chats@[i as int]@);
            }
            if !same_text(self.solo_chats[i].as_str(), chat_id) {
                let chat: String = self.solo_chats[i].clone();
                kept.push(chat);
                proof {
                    assert(kept.deep_view() =~= before.push(self.solo_chats@[i as int]@));
                }
            }
            i += 1;
        }
        proof {
            assert(all.take(all.len() as int) =~= all);
        }
        self.solo_chats = kept;
    }

    /// Shows the full-width dock over an unchanged workspace. A pane that took
    /// over the dock's composer keeps it; the dock then gets a fresh one,
    /// which starts at `key`.
    pub fn enter_solo_session(&mut self, key: &str)
        requires
            old(self).wf(),
            old(self).next_composer + old(self)@.layout.panes.len() + 1 < u64::MAX,
        ensures
            final(self).wf(),
            ({
                let before = old(self)@;
                let shown = if before.layout.trivial() {
                    before
                } else {
                    before.ensured()
                };
                final(self)@ == (if before.solo {
                    before
                } else if shown.in_pane(shown.dock) {
                    Desk {
                        dock: shown.next_composer,
                        dock_key: key@,
                        next_composer: (shown.next_composer + 1) as u64,
                        composers: shown.composers.insert(
                            shown.next_composer,
                            Composing {
                                target: Target::Selected,
                                focus_pending: false,
                                draft: None,
                            },
                        ),
                        solo: true,
                        ..shown
                    }
                } else {
                    Desk { solo: true, ..shown }
                })
            }),
    {
        if self.solo {
            return;
        }
        if !self.layout.is_trivial() {
            self.ensure_pane_chat_surfaces();
        }
        if self.composer_in_pane(self.dock) {
            let fresh: u64 = self.next_composer;
            self.put_composer(
                ComposerEntry {
                    id: fresh,
                    target: ChatTarget::Selected,
                    focus_pending: false,
                    draft: None,
                },
            );
            self.next_composer = fresh + 1;
            self.dock = fresh;
            self.dock_key = key.to_owned();
            proof {
                assert forall|pane: PaneId| #[trigger]
                    self@.surfaces.dom().contains(pane) implies self@.surfaces[pane].composer
                    != fresh by {
                }
            }
        }
        self.solo = true;
    }

    /// Binds the focused pane to a session.
    fn sync_focused_session(&mut self, session: &Option<String>)
        requires
            old(self).wf(),
        ensures
            final(self).wf(),
            final(self).next_composer == old(self).next_composer,
            final(self)@ == old(self)@.focus_bound(session.deep_view()),
            final(self)@.layout.panes.len() == old(self)@.layout.panes.len(),
    {
        match self.layout.active_pane_id() {
            Some(pane) => {
                if self.layout.find_pane(pane).is_some() {
                    let current: Option<String> = self.layout.focused_session();
                    if !same_option(&current, session) {
                        let next: Option<String> = copy_option(session);
                        let _found: bool = self.layout.set_pane_session(pane, next);
                        self.dirty = true;
                    }
                }
            },
            None => {},
        }
    }

    /// A requested navigation. A session that has a pane only gets its focus,
    /// which is left to the engine; any other replaces the focused pane's.
    pub fn apply_explicit_workspace_navigation(&mut self, target: Option<String>) -> (r: Option<
        LayoutOp,
    >)
        requires
            old(self).wf(),
            old(self).next_composer + old(self)@.layout.panes.len() < u64::MAX,
        ensures
            final(self).wf(),
            ({
                let before = old(self)@;
                let home = match target.deep_view() {
                    Some(chat) => before.layout.home_of(chat),
                    None => None,
                };
                match home {
                    Some(pane) => {
                        &&& r == Some(LayoutOp::FocusPane { pane })
                        &&& final(self)@ == before
                    },
                    None => {
                        &&& r is None
                        &&& final(self)@ == before.navigated(target.deep_view())
                    },
                }
            }),
    {
        match &target {
            Some(chat) => match self.layout.find_pane_with_session(chat.as_str()) {
                Some(pane) => return Some(LayoutOp::FocusPane { pane }),
                None => {},
            },
            None => {},
        }
        self.sync_focused_session(&target);
        self.selected_chat = target;
        if self.workspace_mode() {
            self.ensure_pane_chat_surfaces();
        }
        self.focus_composer();
        self.note_workspace_mutation();
        None
    }

    /// Takes over what the engine made of an operation: where it agreed, the
    /// changed arrangement, and everything follows the focused pane.
    pub fn op_applied(&mut self, layout: Layout, agreed: bool)
        requires
            old(self).wf(),
            old(self).next_composer + layout@.panes.len() < u64::MAX,
        ensures
            final(self).wf(),
            final(self)@ == (if agreed {
                (Desk { layout: layout@, dirty: true, ..old(self)@ }).retargeted()
            } else {
                old(self)@
            }),
    {
        if !agreed {
            return;
        }
        self.layout = layout;
        self.dirty = true;
        self.retarget_to_focused_pane();
    }

    /// A dropped sidebar session: how it enters the workspace. Over a valid
    /// target the full-width dock gives way, so that the destination shows.
    pub fn drop_sidebar_session(&mut self, plan: DropPlan, session_id: &Option<String>) -> (r:
        SidebarDrop)
        requires
            old(self).wf(),
        ensures
            final(self).wf(),
            r == sidebar_drop(plan, session_id.deep_view(), old(self)@.layout),
            final(self)@ == (Desk { solo: old(self)@.solo && plan is Nowhere, ..old(self)@ }),
    {
        let (entry, solo): (SidebarDrop, bool) = commit_sidebar_split(
            plan,
            session_id,
            &self.layout,
            self.solo,
        );
        self.solo = solo;
        entry
    }

    /// Takes over what the engine made for a dropped sidebar session: the
    /// session is bound to the made pane, which gets the focus; the session no
    /// longer counts as one that shows alone; and everything follows the
    /// focused pane. A refused drop leaves all as it was. Returns whether the
    /// session has its pane.
    pub fn sidebar_session_docked(
        &mut self,
        made: Made,
        layout: Layout,
        session_id: Option<String>,
    ) -> (r: bool)
        requires
            old(self).wf(),
            old(self).next_composer + layout@.panes.len() < u64::MAX,
        ensures
            final(self).wf(),
            r == made_pane(made, layout@) is Some,
            final(self)@ == old(self)@.docked(made, layout@, session_id.deep_view()),
    {
        match made {
            Made::Refused => return false,
            _ => {},
        }
        let pane: PaneId = match bind_sidebar_session(made, &layout) {
            Some(pane) => pane,
            None => {
                self.layout = layout;
                return false;
            },
        };
        let ghost before = self@;
        let ghost arranged = layout@.with_session(pane, session_id.deep_view()).focused(pane);
        let mut next: Layout = layout;
        let bound: Option<String> = copy_option(&session_id);
        let _known: bool = next.set_pane_session(pane, bound);
        let _focused: bool = next.focus_pane(pane);
        self.layout = next;
        self.dirty = true;
        proof {
            assert(self@ =~= (Desk { layout: arranged, dirty: true, ..before }));
        }
        match &session_id {
            Some(chat) => {
                self.remove_solo_chat(chat.as_str());
                proof {
                    let session = session_id.deep_view()->0;
                    assert(session == chat@);
                    assert((|other: Seq<char>| other != chat@) =~= (|other: Seq<char>|
                        other != session));
                }
            },
            None => {},
        }
        proof {
            first_place_bounds(layout@.panes, is_pane(pane));
            assert(arranged.panes.len() == layout@.panes.len());
            assert(self@ =~= (Desk {
                layout: arranged,
                dirty: true,
                solo_chats: before.without_solo(session_id.deep_view()),
                ..before
            }));
        }
        self.retarget_to_focused_pane();
        true
    }

    /// A press on a pane: the operation that focuses it, where it is not
    /// focused. Where it is, earlier requests for the keyboard are dropped.
    pub fn pointer_focus_workspace_pane(&mut self, pane: PaneId) -> (r: Option<LayoutOp>)
        requires
            old(self).wf(),
        ensures
            final(self).wf(),
            r == (if old(self)@.layout.active_pane() == Some(pane) {
                None
            } else {
                Some(LayoutOp::FocusPane { pane })
            }),
            final(self)@ == (if r is None {
                old(self)@.unfocused()
            } else {
                old(self)@
            }),
    {
        if self.layout.active_pane_id() == Some(pane) {
            self.clear_focus_requests();
            return None;
        }
        Some(LayoutOp::FocusPane { pane })
    }

    /// Takes over that a press focused a pane: the selection follows, and the
    /// control that was pressed keeps the keyboard.
    pub fn pointer_focus_applied(&mut self, layout: Layout, agreed: bool)
        requires
            old(self).wf(),
        ensures
            final(self).wf(),
            final(self)@ == (if agreed {
                (Desk { layout: layout@, dirty: true, ..old(self)@ }).selection_synced().noted().unfocused()
            } else {
                old(self)@
            }),
    {
        if !agreed {
            return;
        }
        self.layout = layout;
        self.dirty = true;
        let _changed: bool = self.sync_selection_to_focused_pane();
        self.note_workspace_mutation();
        self.clear_focus_requests();
    }

    /// Drops every request of a pane's composer for the keyboard.
    fn clear_focus_requests(&mut self)
        requires
            old(self).wf(),
        ensures
            final(self).wf(),
            final(self)@ == old(self)@.unfocused(),
    {
        let ghost start = self@;
        let mut i: usize = 0;
        while i < self.composers.len()
            invariant
                i <= self.composers@.len(),
                self.wf(),
                self.surfaces == old(self).surfaces,
                self@ == (Desk { composers: self@.composers, ..start }),
                self@.composers.dom() == start.composers.dom(),
                forall|k: int|
                    i <= k < self.composers@.len() ==> {
                        let entry = #[trigger] self.composers@[k];
                        self@.composers[entry.id] == start.composers[entry.id]
                    },
                forall|k: int|
                    0 <= k < i ==> {
                        let id = (#[trigger] self.composers@[k]).id;
                        self@.composers[id] == start.unfocused().composers[id]
                    },
            decreases self.composers@.len() - i,
        {
            let ghost was = self.composers@;
            let id: u64 = self.composers[i].id;
            proof {
                crate::list::keyed_item(
                    was,
                    crate::pane_surfaces::composer_key(),
                    crate::pane_surfaces::composer_value(),
                    i as int,
                );
            }
            if self.composer_in_pane(id) {
                let target: ChatTarget = match &self.composers[i].target {
                    ChatTarget::Selected => ChatTarget::Selected,
                    ChatTarget::Fixed(chat) => ChatTarget::Fixed(copy_option(chat)),
                };
                let entry: ComposerEntry = ComposerEntry {
                    id,
                    target,
                    focus_pending: false,
                    draft: self.composers[i].draft,
                };
                proof {
                    crate::list::keyed_update(
                        was,
                        crate::pane_surfaces::composer_key(),
                        crate::pane_surfaces::composer_value(),
                        i as int,
                        entry,
                    );
                }
                self.composers.set(i, entry);
                proof {
                    assert(self@.composers.dom() =~= start.composers.dom());
                    assert forall|k: int| i + 1 <= k < self.composers@.len() implies ({
                        let entry = #[trigger] self.composers@[k];
                        self@.composers[entry.id] == start.composers[entry.id]
                    }) by {
                        assert(was[k].id != was[i as int].id);
                        assert(self.composers@[k] == was[k]);
                    }
                    assert forall|k: int| 0 <= k < i implies ({
                        let id = (#[trigger] self.composers@[k]).id;
                        self@.composers[id] == start.unfocused().composers[id]
                    }) by {
                        assert(was[k].id != was[i as int].id);
                        assert(self.composers@[k] == was[k]);
                    }
                }
            }
            i += 1;
        }
        proof {
            assert forall|id: u64| self@.composers.dom().contains(id) implies #[trigger]
                self@.composers[id] == start.unfocused().composers[id] by {
                let holds = crate::list::has_key(crate::pane_surfaces::composer_key(), id);
                first_place_bounds(self.composers@, holds);
                let place = first_place(self.composers@, holds);
                assert(self.composers@[place].id == id);
            }
            assert(self@.composers =~= start.unfocused().composers);
        }
    }

    /// Whether a pane owns a composer.
    fn composer_in_pane(&self, id: u64) -> (r: bool)
        requires
            self.wf(),
        ensures
            r == self@.in_pane(id),
    {
        let mut i: usize = 0;
        while i < self.surfaces.len()
            invariant
                i <= self.surfaces@.len(),
                self.wf(),
                forall|k: int| 0 <= k < i ==> (#[trigger] self.surfaces@[k]).composer != id,
            decreases self.surfaces@.len() - i,
        {
            if self.surfaces[i].composer == id {
                proof {
                    crate::list::keyed_item(
                        self.surfaces@,
                        crate::pane_surfaces::surface_key(),
                        crate::pane_surfaces::surface_value(),
                        i as int,
                    );
                    assert(self@.surfaces.dom().contains(self.surfaces@[i as int].pane));
                }
                return true;
            }
            i += 1;
        }
        proof {
            assert forall|pane: PaneId| #[trigger]
                self@.surfaces.dom().contains(pane) implies self@.surfaces[pane].composer
                != id by {
                let holds = crate::list::has_key(crate::pane_surfaces::surface_key(), pane);
                first_place_bounds(self.surfaces@, holds);
                let place = first_place(self.surfaces@, holds);
                assert(self.surfaces@[place].composer != id);
            }
        }
        false
    }

    /// A press on a divider.
    pub fn begin_divider_drag(&mut self)
        requires
            old(self).wf(),
        ensures
            final(self).wf(),
            final(self)@ == (Desk { divider_dragging: true, ..old(self)@ }),
    {
        self.divider_dragging = true;
    }

    /// Whether a divider fades under the pointer: not while one is dragged.
    pub fn note_divider_hover(&self) -> (r: bool)
        ensures
            r == !self@.divider_dragging,
    {
        !self.divider_dragging
    }

    /// The release of a divider arms the write that its samples held back.
    /// Returns whether one was dragged.
    pub fn end_divider_drag(&mut self) -> (r: bool)
        requires
            old(self).wf(),
        ensures
            final(self).wf(),
            r == old(self)@.divider_dragging,
            final(self)@ == (if r {
                (Desk { divider_dragging: false, ..old(self)@ }).scheduled()
            } else {
                old(self)@
            }),
    {
        if !self.divider_dragging {
            return false;
        }
        self.divider_dragging = false;
        self.schedule_workspace_layout_save();
        true
    }

    /// Takes over that the engine set a divider's ratio. While the divider is
    /// dragged the write waits for its release.
    pub fn apply_divider_ratio(&mut self, agreed: bool)
        requires
            old(self).wf(),
        ensures
            final(self).wf(),
            final(self)@ == (if agreed {
                (Desk { dirty: true, ..old(self)@ }).noted()
            } else {
                old(self)@
            }),
    {
        if agreed {
            self.dirty = true;
            self.note_workspace_mutation();
        }
    }

    /// A row of the tool picker was chosen: the picker closes, and a tab with
    /// the tool is asked for.
    pub fn commit_tool_picker(&mut self, view: ViewId, terminal: bool) -> (r: LayoutOp)
        requires
            old(self).wf(),
        ensures
            final(self).wf(),
            r == (LayoutOp::AddTab { view, terminal }),
            final(self)@ == (Desk { picker: None, ..old(self)@ }),
    {
        let _open: bool = self.close_tool_picker();
        LayoutOp::AddTab { view, terminal }
    }

    /// Splits the focused pane, on the chat route and with no overlay in the
    /// way.
    pub fn split_workspace_pane(&mut self, direction: Direction, chat_route: bool, overlay: bool) -> (r:
        Option<LayoutOp>)
        requires
            old(self).wf(),
        ensures
            final(self).wf(),
            r == (if chat_route && !overlay {
                Some(LayoutOp::SplitFocusedPane { direction })
            } else {
                None
            }),
            final(self)@ == (Desk { solo: old(self)@.solo && r is None, ..old(self)@ }),
    {
        if !chat_route || overlay {
            return None;
        }
        self.solo = false;
        Some(LayoutOp::SplitFocusedPane { direction })
    }

    /// Splits the workspace at the focused view.
    pub fn split_workspace_view(&mut self, direction: Direction, chat_route: bool, overlay: bool) -> (r:
        Option<LayoutOp>)
        requires
            old(self).wf(),
        ensures
            final(self).wf(),
            r == (if chat_route && !overlay {
                Some(LayoutOp::SplitFocusedView { direction })
            } else {
                None
            }),
            final(self)@ == (Desk { solo: old(self)@.solo && r is None, ..old(self)@ }),
    {
        if !chat_route || overlay {
            return None;
        }
        self.solo = false;
        Some(LayoutOp::SplitFocusedView { direction })
    }

    /// Closes the focused view.
    pub fn close_workspace_view(&self, chat_route: bool, overlay: bool) -> (r: Option<LayoutOp>)
        ensures
            r == (if chat_route && !overlay {
                Some(LayoutOp::CloseFocusedView)
            } else {
                None
            }),
    {
        if !chat_route || overlay {
            return None;
        }
        Some(LayoutOp::CloseFocusedView)
    }

    /// The tool picker of a view: pressing its trigger again closes it.
    pub fn open_workspace_tool_picker_for_tab(
        &mut self,
        view: ViewId,
        chat_route: bool,
        overlay: bool,
    )
        requires
            old(self).wf(),
        ensures
            final(self).wf(),
            final(self)@ == (Desk {
                picker: if old(self)@.picker == Some(view) {
                    None
                } else if chat_route && !overlay {
                    Some(view)
                } else {
                    old(self)@.picker
                },
                ..old(self)@
            }),
    {
        if self.tool_picker == Some(view) {
            let _closed: bool = self.close_tool_picker();
            return;
        }
        if !chat_route || overlay {
            return;
        }
        self.tool_picker = Some(view);
    }

    /// Closes the tool picker. Returns whether it was open.
    pub fn close_tool_picker(&mut self) -> (r: bool)
        requires
            old(self).wf(),
        ensures
            final(self).wf(),
            r == old(self)@.picker is Some,
            final(self)@ == (Desk { picker: None, ..old(self)@ }),
    {
        self.tool_picker.take().is_some()
    }

    /// The overlays over the workspace: the tool picker, then the menu.
    pub fn render_workspace_overlays(&self, menu: Option<PaneId>) -> (r: Vec<Overlay>)
        ensures
            r@ == (match self@.picker {
                Some(view) => seq![Overlay::ToolPicker { view }],
                None => Seq::empty(),
            }) + (match menu {
                Some(pane) => seq![Overlay::PaneMenu { pane }],
                None => Seq::empty(),
            }),
    {
        let mut out: Vec<Overlay> = Vec::new();
        match self.tool_picker {
            Some(view) => {
                out.push(Overlay::ToolPicker { view });
            },
            None => {},
        }
        let ghost before = out@;
        match menu {
            Some(pane) => {
                out.push(Overlay::PaneMenu { pane });
                proof {
                    assert(before + seq![Overlay::PaneMenu { pane }] =~= before.push(
                        Overlay::PaneMenu { pane },
                    ));
                }
            },
            None => {
                proof {
                    assert(before + Seq::<Overlay>::empty() =~= before);
                }
            },
        }
        proof {
            match self.tool_picker {
                Some(view) => {
                    assert(before =~= seq![Overlay::ToolPicker { view }]);
                },
                None => {
                    assert(before =~= Seq::<Overlay>::empty());
                },
            }
        }
        out
    }

    /// The selection binds the focused pane, unless a single session shows.
    pub fn sync_workspace_selection(&mut self)
        requires
            old(self).wf(),
        ensures
            final(self).wf(),
            final(self)@ == (if old(self)@.solo {
                old(self)@
            } else {
                old(self)@.focus_bound(old(self)@.selected_chat).noted()
            }),
    {
        if self.solo {
            return;
        }
        let selected: Option<String> = copy_option(&self.selected_chat);
        self.sync_focused_session(&selected);
        self.note_workspace_mutation();
    }

    /// Consumes a pending write: what goes to the store.
    pub fn flush_workspace_layout(&mut self, spaces_known: bool) -> (r: FlushPlan)
        requires
            old(self).wf(),
        ensures
            final(self).wf(),
            r == (FlushPlan { put: old(self)@.dirty, prune: spaces_known }),
            final(self)@ == (Desk {
                save_armed: false,
                dirty: false,
                store_dirty: old(self)@.store_dirty || old(self)@.dirty,
                ..old(self)@
            }),
    {
        self.save_armed = false;
        let put: bool = self.dirty;
        if put {
            self.dirty = false;
            self.store_dirty = true;
        }
        FlushPlan { put, prune: spaces_known }
    }

    /// Takes over what became of the store: entries that were dropped, and
    /// whether it was written. A failed write stays pending.
    pub fn store_written(&mut self, dropped: usize, written: bool)
        requires
            old(self).wf(),
        ensures
            final(self).wf(),
            final(self)@ == (Desk {
                store_dirty: (old(self)@.store_dirty || dropped > 0) && !written,
                ..old(self)@
            }),
    {
        self.store_dirty = (self.store_dirty || dropped > 0) && !written;
    }

    /// Parks every surface's unsent state.
    fn park_pane_drafts(&mut self)
        requires
            old(self).wf(),
        ensures
            final(self).wf(),
            final(self).surfaces == old(self).surfaces,
            final(self).composers == old(self).composers,
            final(self)@ == old(self)@.with_parked(),
    {
        let ghost start = self@;
        let mut i: usize = 0;
        while i < self.surfaces.len()
            invariant
                i <= self.surfaces@.len(),
                self.wf(),
                self.surfaces == old(self).surfaces,
                self.composers == old(self).composers,
                self@ == (Desk { parked: self@.parked, ..start }),
                forall|place: (Option<Seq<char>>, PaneId)| #[trigger]
                    self@.parked.dom().contains(place) <==> start.parked.dom().contains(place) || (
                    place.0 == start.space && exists|k: int|
                        0 <= k < i && (#[trigger] self.surfaces@[k]).pane == place.1),
                forall|place: (Option<Seq<char>>, PaneId)|
                    self@.parked.dom().contains(place) ==> #[trigger] self@.parked[place] == (
                    if place.0 == start.space && exists|k: int|
                        0 <= k < i && (#[trigger] self.surfaces@[k]).pane == place.1 {
                        start.surfaces[place.1].composer
                    } else {
                        start.parked[place]
                    }),
            decreases self.surfaces@.len() - i,
        {
            let pane: PaneId = self.surfaces[i].pane;
            let draft: u64 = self.surfaces[i].composer;
            let space: Option<String> = copy_option(&self.space);
            proof {
                crate::list::keyed_item(
                    self.surfaces@,
                    crate::pane_surfaces::surface_key(),
                    crate::pane_surfaces::surface_value(),
                    i as int,
                );
            }
            let ghost before = self@.parked;
            self.put_parked(ParkedDraft { space, pane, draft });
            proof {
                let place = (start.space, pane);
                assert(self@.parked == before.insert(place, draft));
                assert(self.surfaces@[i as int].pane == pane);
                assert forall|other: (Option<Seq<char>>, PaneId)| #[trigger]
                    self@.parked.dom().contains(other) <==> start.parked.dom().contains(other) || (
                    other.0 == start.space && exists|k: int|
                        0 <= k < i + 1 && (#[trigger] self.surfaces@[k]).pane == other.1) by {
                    if before.dom().contains(other) && !start.parked.dom().contains(other) {
                        let k = choose|k: int|
                            0 <= k < i && (#[trigger] self.surfaces@[k]).pane == other.1;
                        assert(0 <= k < i + 1);
                    }
                }
                assert forall|other: (Option<Seq<char>>, PaneId)|
                    self@.parked.dom().contains(other) implies #[trigger] self@.parked[other] == (
                if other.0 == start.space && exists|k: int|
                    0 <= k < i + 1 && (#[trigger] self.surfaces@[k]).pane == other.1 {
                    start.surfaces[other.1].composer
                } else {
                    start.parked[other]
                }) by {
                    if other != place {
                        assert(before.dom().contains(other));
                        if other.0 == start.space && exists|k: int|
                            0 <= k < i + 1 && (#[trigger] self.surfaces@[k]).pane == other.1 {
                            let k = choose|k: int|
                                0 <= k < i + 1 && (#[trigger] self.surfaces@[k]).pane == other.1;
                            assert(k < i);
                        }
                    }
                }
            }
            i += 1;
        }
        proof {
            assert forall|pane: PaneId| #[trigger] start.surfaces.dom().contains(pane) <==> exists|
                k: int,
            |
                0 <= k < self.surfaces@.len() && (#[trigger] self.surfaces@[k]).pane == pane by {
                let holds = crate::list::has_key(crate::pane_surfaces::surface_key(), pane);
                first_place_bounds(self.surfaces@, holds);
                let place = first_place(self.surfaces@, holds);
                if start.surfaces.dom().contains(pane) {
                    assert(self.surfaces@[place].pane == pane);
                }
                if exists|k: int|
                    0 <= k < self.surfaces@.len() && (#[trigger] self.surfaces@[k]).pane == pane {
                    let k = choose|k: int|
                        0 <= k < self.surfaces@.len() && (#[trigger] self.surfaces@[k]).pane
                            == pane;
                    crate::list::keyed_item(
                        self.surfaces@,
                        crate::pane_surfaces::surface_key(),
                        crate::pane_surfaces::surface_value(),
                        k,
                    );
                }
            }
            let target = start.with_parked().parked;
            assert forall|place: (Option<Seq<char>>, PaneId)| #[trigger]
                self@.parked.dom().contains(place) == target.dom().contains(place) by {
                assert(start.surfaces.dom().contains(place.1) == start.surfaces.dom().contains(
                    place.1,
                ));
            }
            assert forall|place: (Option<Seq<char>>, PaneId)|
                self@.parked.dom().contains(place) implies #[trigger] self@.parked[place]
                == target[place] by {
                assert(start.surfaces.dom().contains(place.1) == start.surfaces.dom().contains(
                    place.1,
                ));
            }
            assert(self@.parked =~= target);
        }
    }

    /// Parks one draft.
    fn put_parked(&mut self, entry: ParkedDraft)
        requires
            old(self).wf(),
        ensures
            final(self).wf(),
            final(self).surfaces == old(self).surfaces,
            final(self).composers == old(self).composers,
            final(self)@ == (Desk {
                parked: old(self)@.parked.insert(parked_key()(entry), parked_value()(entry)),
                ..old(self)@
            }),
    {
        let ghost before = self.parked@;
        let ghost holds = crate::list::has_key(parked_key(), parked_key()(entry));
        let mut at: usize = 0;
        while at < self.parked.len()
            invariant
                at <= self.parked@.len(),
                *self == *old(self),
                self.parked@ == before,
                crate::list::keys_distinct(before, parked_key()),
                holds == crate::list::has_key(parked_key(), parked_key()(entry)),
                forall|i: int| 0 <= i < at ==> !holds(#[trigger] before[i]),
                self.wf(),
            decreases self.parked@.len() - at,
        {
            if self.parked[at].pane == entry.pane && same_option(
                &self.parked[at].space,
                &entry.space,
            ) {
                proof {
                    crate::list::keyed_update(
                        before,
                        parked_key(),
                        parked_value(),
                        at as int,
                        entry,
                    );
                }
                self.parked.set(at, entry);
                return;
            }
            at += 1;
        }
        proof {
            crate::list::first_place_at(before, holds, at as int);
            crate::list::keyed_push(before, parked_key(), parked_value(), entry);
        }
        self.parked.push(entry);
    }

    /// Swaps to the arrangement of another space. `saved` is its stored one,
    /// where that is valid; `selected` is the selected conversation with its
    /// space. Returns whether the outgoing arrangement goes to the store,
    /// under the space that is left.
    pub fn restore_workspace_layout(
        &mut self,
        space: Option<String>,
        saved: Option<Layout>,
        fallback: Layout,
        selected: Option<(String, Option<String>)>,
    ) -> (r: bool)
        requires
            old(self).wf(),
            saved is Some ==> old(self).next_composer + saved->0@.panes.len() < u64::MAX,
            old(self).next_composer + fallback@.panes.len() < u64::MAX,
        ensures
            final(self).wf(),
            r == old(self)@.dirty,
            final(self)@ == old(self)@.restored(
                space.deep_view(),
                saved is Some,
                match saved {
                    Some(layout) => layout@,
                    None => fallback@,
                },
                match selected {
                    Some(row) => if row.1.deep_view() == space.deep_view() {
                        Some(row.0@)
                    } else {
                        None
                    },
                    None => None,
                },
            ),
    {
        let ghost start = self@;
        self.park_pane_drafts();
        let put: bool = self.dirty;
        self.dirty = false;
        self.store_dirty = self.store_dirty || put;
        let initial: Option<String> = match selected {
            Some((id, owner)) => {
                if same_option(&owner, &space) {
                    Some(id)
                } else {
                    None
                }
            },
            None => None,
        };
        self.space = space;
        let dock: u64 = self.dock;
        self.surfaces = Vec::new();
        proof {
            assert(self@.surfaces =~= Map::<PaneId, Surface>::empty());
        }
        self.set_target(dock, ChatTarget::Selected);
        self.dock_key = match &self.selected_chat {
            Some(chat) => chat.clone(),
            None => {
                let empty: String = String::new();
                proof {
                    assert(empty@ =~= Seq::<char>::empty());
                }
                empty
            },
        };
        match saved {
            Some(layout) => {
                self.layout = layout;
            },
            None => {
                self.layout = fallback;
                match &initial {
                    Some(_) => {
                        self.sync_focused_session(&initial);
                    },
                    None => {},
                }
            },
        }
        self.schedule_workspace_layout_save();
        self.retarget_to_focused_pane();
        put
    }

    /// Clears bindings to sessions that are gone. A pane that loses its
    /// session stays; where it was focused, the selection follows it off the
    /// session. Returns whether anything was cleared.
    pub fn prune_dead_workspace_sessions(&mut self, chats: &Vec<ChatRow>) -> (r: bool)
        requires
            old(self).wf(),
        ensures
            final(self).wf(),
            r == has_dead(old(self)@.layout, chats@),
            final(self)@ == (if !r {
                old(self)@
            } else {
                let cleared = Desk {
                    layout: without_dead(old(self)@.layout, chats@),
                    dirty: true,
                    ..old(self)@
                };
                (if cleared.solo {
                    cleared
                } else {
                    cleared.selection_synced()
                }).noted()
            }),
    {
        let any: bool = self.clear_dead(chats);
        if !any {
            return false;
        }
        self.dirty = true;
        if !self.solo {
            let _changed: bool = self.sync_selection_to_focused_pane();
        }
        self.note_workspace_mutation();
        true
    }

    /// Clears the sessions that are gone.
    fn clear_dead(&mut self, chats: &Vec<ChatRow>) -> (r: bool)
        requires
            old(self).wf(),
        ensures
            final(self).wf(),
            r == has_dead(old(self)@.layout, chats@),
            final(self)@ == (if r {
                Desk { layout: without_dead(old(self)@.layout, chats@), ..old(self)@ }
            } else {
                old(self)@
            }),
    {
        let ghost start = self@;
        let ghost target = without_dead(start.layout, chats@).panes;
        let mut any: bool = false;
        let mut i: usize = 0;
        while i < self.layout.panes.len()
            invariant
                i <= self.layout.panes@.len(),
                self.wf(),
                target == without_dead(start.layout, chats@).panes,
                self.layout.panes@.len() == start.layout.panes.len(),
                self@ == (Desk {
                    layout: Arrangement { panes: self@.layout.panes, ..start.layout },
                    ..start
                }),
                forall|k: int| 0 <= k < i ==> #[trigger] self@.layout.panes[k] == target[k],
                forall|k: int|
                    i <= k < self.layout.panes@.len() ==> #[trigger] self@.layout.panes[k]
                        == start.layout.panes[k],
                any == exists|k: int|
                    0 <= k < i && alive(#[trigger] start.layout.panes[k], chats@)
                        != start.layout.panes[k],
            decreases self.layout.panes@.len() - i,
        {
            let ghost before = self@.layout.panes;
            proof {
                assert(before[i as int] == self.layout.panes@[i as int].deep_view());
                assert(before[i as int] == start.layout.panes[i as int]);
            }
            let dead: bool = match &self.layout.panes[i].session {
                Some(id) => find_chat(chats, id.as_str()).is_none(),
                None => false,
            };
            if dead {
                let mut entry: PaneEntry = self.layout.panes.remove(i);
                entry.session = None;
                self.layout.panes.insert(i, entry);
                any = true;
                proof {
                    assert(self@.layout.panes =~= before.update(
                        i as int,
                        alive(start.layout.panes[i as int], chats@),
                    ));
                    assert(alive(start.layout.panes[i as int], chats@)
                        != start.layout.panes[i as int]);
                }
            }
            i += 1;
        }
        proof {
            assert(self@.layout.panes =~= target);
            if !any {
                assert(target =~= start.layout.panes);
            }
        }
        any
    }

    /// Takes over what a pane's composer reports. A report about a message of
    /// a conversation the pane has since left is ignored.
    pub fn on_pane_composer_event(&mut self, pane: PaneId, event: ComposerEvent) -> (r: ComposerDeed)
        requires
            old(self).wf(),
        ensures
            final(self).wf(),
            ({
                let before = old(self)@;
                match event {
                    ComposerEvent::TransitionStarted => r is Redraw && final(self)@ == before,
                    ComposerEvent::WorktreeSetup { chat_id } => {
                        &&& r is AttachSetup && r->AttachSetup_chat_id@ == chat_id@
                        &&& final(self)@ == before
                    },
                    ComposerEvent::Sent { chat_id, message_id } => own_turn(
                        before,
                        final(self)@,
                        pane,
                        chat_id@,
                        message_id@,
                        false,
                        r,
                    ),
                    ComposerEvent::Queued { chat_id, message_id } => own_turn(
                        before,
                        final(self)@,
                        pane,
                        chat_id@,
                        message_id@,
                        true,
                        r,
                    ),
                }
            }),
    {
        match event {
            ComposerEvent::TransitionStarted => ComposerDeed::Redraw,
            ComposerEvent::WorktreeSetup { chat_id } => ComposerDeed::AttachSetup { chat_id },
            ComposerEvent::Sent { chat_id, message_id } => {
                self.mark_own_turn(pane, chat_id, message_id, false)
            },
            ComposerEvent::Queued { chat_id, message_id } => {
                self.mark_own_turn(pane, chat_id, message_id, true)
            },
        }
    }

    fn mark_own_turn(
        &mut self,
        pane: PaneId,
        chat_id: String,
        message_id: String,
        queued: bool,
    ) -> (r: ComposerDeed)
        requires
            old(self).wf(),
        ensures
            final(self).wf(),
            own_turn(old(self)@, final(self)@, pane, chat_id@, message_id@, queued, r),
    {
        let bound: bool = match self.layout.find_pane(pane) {
            Some(at) => is_text(&self.layout.panes[at].session, chat_id.as_str()),
            None => false,
        };
        if !bound {
            return ComposerDeed::Nothing;
        }
        let (current, composer): (bool, u64) = self.surface_shows(pane, chat_id.as_str());
        if !current {
            return ComposerDeed::Nothing;
        }
        self.dirty = true;
        self.note_workspace_mutation();
        let chat: Option<String> = Some(chat_id.clone());
        let transcript: Option<String> = Some(chat_id.clone());
        self.put_surface(SurfaceEntry { pane, chat, transcript, composer });
        ComposerDeed::MarkOwnTurn { chat_id, message_id, queued }
    }

    /// Whether a pane's surface shows a conversation, and its composer.
    fn surface_shows(&self, pane: PaneId, chat_id: &str) -> (r: (bool, u64))
        requires
            self.wf(),
        ensures
            r.0 == (self@.surfaces.dom().contains(pane) && self@.surfaces[pane].chat == Some(
                chat_id@,
            )),
            r.0 ==> r.1 == self@.surfaces[pane].composer,
    {
        let mut i: usize = 0;
        let ghost holds = crate::list::has_key(crate::pane_surfaces::surface_key(), pane);
        while i < self.surfaces.len()
            invariant
                i <= self.surfaces@.len(),
                self.wf(),
                holds == crate::list::has_key(crate::pane_surfaces::surface_key(), pane),
                forall|k: int| 0 <= k < i ==> !holds(#[trigger] self.surfaces@[k]),
            decreases self.surfaces@.len() - i,
        {
            if self.surfaces[i].pane == pane {
                proof {
                    crate::list::keyed_item(
                        self.surfaces@,
                        crate::pane_surfaces::surface_key(),
                        crate::pane_surfaces::surface_value(),
                        i as int,
                    );
                }
                return (is_text(&self.surfaces[i].chat, chat_id), self.surfaces[i].composer);
            }
            i += 1;
        }
        proof {
            crate::list::first_place_at(self.surfaces@, holds, i as int);
        }
        (false, 0)
    }
}

/// A report of an own message: ignored where the pane or its surface has left
/// the conversation; else the transcript is there and marks the turn.
pub open spec fn own_turn(
    before: Desk,
    after: Desk,
    pane: PaneId,
    chat: Seq<char>,
    message: Seq<char>,
    queued: bool,
    deed: ComposerDeed,
) -> bool {
    if before.session_of(pane) == Some(chat) && before.surfaces.dom().contains(pane)
        && before.surfaces[pane].chat == Some(chat) {
        let noted = (Desk { dirty: true, ..before }).noted();
        &&& after == (Desk {
            surfaces: before.surfaces.insert(
                pane,
                Surface {
                    chat: Some(chat),
                    transcript: Some(chat),
                    composer: before.surfaces[pane].composer,
                },
            ),
            ..noted
        })
        &&& deed is MarkOwnTurn
        &&& deed->MarkOwnTurn_chat_id@ == chat
        &&& deed->message_id@ == message
        &&& deed->queued == queued
    } else {
        &&& after == before
        &&& deed is Nothing
    }
}

/// The workspace of a trivial arrangement never shows, so that a single
/// session always takes the dock.
pub proof fn a_single_session_takes_the_dock(desk: Desk)
    requires
        desk.layout.trivial(),
    ensures
        !desk.workspace_mode(),
        !desk.promoted().workspace_mode(),
        desk.promoted().surfaces.dom() =~= Set::<PaneId>::empty(),
{
}

/// A swap of spaces keeps what was unsent: every surface's draft is parked
/// under the space that is left.
pub proof fn a_swap_parks_every_draft(desk: Desk, pane: PaneId)
    requires
        desk.surfaces.dom().contains(pane),
    ensures
        desk.with_parked().parked.dom().contains((desk.space, pane)),
        desk.with_parked().parked[(desk.space, pane)] == desk.surfaces[pane].composer,
{
}

/// A late acknowledgement never rebinds a pane that has moved on.
pub proof fn a_late_acknowledgement_is_ignored(
    before: Desk,
    after: Desk,
    pane: PaneId,
    chat: Seq<char>,
    message: Seq<char>,
    queued: bool,
    deed: ComposerDeed,
)
    requires
        own_turn(before, after, pane, chat, message, queued, deed),
        before.session_of(pane) != Some(chat),
    ensures
        after == before,
        deed is Nothing,
{
}

/// A drop of a sidebar session that the engine refused leaves everything as it
/// was, whatever it was to be bound to.
pub proof fn a_refused_drop_changes_nothing(
    desk: Desk,
    layout: Arrangement,
    session: Option<Seq<char>>,
)
    ensures
        desk.docked(Made::Refused, layout, session) == desk,
{
}

} // verus!
