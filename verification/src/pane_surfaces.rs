//! The conversation surfaces of panes: which composer and transcript each
//! pane owns, and how they survive splits, navigation and collapse.
use vstd::prelude::*;
use crate::layout::{Arrangement, Layout, Pane, PaneId, PaneMode, ViewId};
use crate::list::{
    first_place, first_place_at, first_place_bounds, has_key, keyed, keyed_item, keyed_push, keyed_remove,
    keyed_update, keys_distinct,
};
use crate::pane_drag::{Drag, DragSplit};
use crate::text::{copy_option, same_option, same_text};

verus! {

/// Which conversation a composer writes to.
#[derive(Debug)]
pub enum ChatTarget {
    /// The selected one.
    Selected,
    /// One of its own; none yet on a fresh canvas.
    Fixed(Option<String>),
}

/// What a target is.
pub enum Target {
    Selected,
    Fixed(Option<Seq<char>>),
}

impl View for ChatTarget {
    type V = Target;

    open spec fn view(&self) -> Target {
        match self {
            ChatTarget::Selected => Target::Selected,
            ChatTarget::Fixed(chat) => Target::Fixed(chat.deep_view()),
        }
    }
}

/// The key of a conversation; a fresh canvas has the empty one.
pub open spec fn key_of_chat(chat: Option<Seq<char>>) -> Seq<char> {
    match chat {
        Some(chat) => chat,
        None => Seq::empty(),
    }
}

fn is_key_of(key: &str, chat: &Option<String>) -> (r: bool)
    ensures
        r == (key@ == key_of_chat(chat.deep_view())),
{
    match chat {
        Some(chat) => same_text(key, chat.as_str()),
        None => {
            let empty: bool = key.is_empty();
            proof {
                if empty {
                    assert(key@ =~= Seq::<char>::empty());
                }
            }
            empty
        },
    }
}

fn key_of_option(chat: &Option<String>) -> (r: String)
    ensures
        r@ == key_of_chat(chat.deep_view()),
{
    match chat {
        Some(chat) => chat.clone(),
        None => {
            let empty: String = String::new();
            proof {
                assert(empty@ =~= Seq::<char>::empty());
            }
            empty
        },
    }
}

/// A composer.
#[derive(Debug)]
pub struct ComposerEntry {
    pub id: u64,
    pub target: ChatTarget,
    /// It takes the keyboard when it is next painted.
    pub focus_pending: bool,
    /// A parked draft it takes over.
    pub draft: Option<u64>,
}

/// What a composer is.
#[verifier::ext_equal]
pub struct Composing {
    pub target: Target,
    pub focus_pending: bool,
    pub draft: Option<u64>,
}

/// What a pane owns.
#[derive(Debug)]
pub struct SurfaceEntry {
    pub pane: PaneId,
    pub chat: Option<String>,
    /// The conversation its transcript follows.
    pub transcript: Option<String>,
    pub composer: u64,
}

/// What a pane's surface is.
#[verifier::ext_equal]
pub struct Surface {
    pub chat: Option<Seq<char>>,
    pub transcript: Option<Seq<char>>,
    pub composer: u64,
}

/// Unsent state of a pane's composer, kept while another space shows.
#[derive(Debug)]
pub struct ParkedDraft {
    pub space: Option<String>,
    pub pane: PaneId,
    /// The composer it was taken from.
    pub draft: u64,
}

/// The pane of a surface.
pub open spec fn surface_key() -> spec_fn(SurfaceEntry) -> PaneId {
    |entry: SurfaceEntry| entry.pane
}

/// What a surface entry holds.
pub open spec fn surface_value() -> spec_fn(SurfaceEntry) -> Surface {
    |entry: SurfaceEntry|
        Surface {
            chat: entry.chat.deep_view(),
            transcript: entry.transcript.deep_view(),
            composer: entry.composer,
        }
}

/// The id of a composer.
pub open spec fn composer_key() -> spec_fn(ComposerEntry) -> u64 {
    |entry: ComposerEntry| entry.id
}

/// What a composer entry holds.
pub open spec fn composer_value() -> spec_fn(ComposerEntry) -> Composing {
    |entry: ComposerEntry|
        Composing {
            target: entry.target@,
            focus_pending: entry.focus_pending,
            draft: entry.draft,
        }
}

/// The space and pane of a parked draft.
pub open spec fn parked_key() -> spec_fn(ParkedDraft) -> (Option<Seq<char>>, PaneId) {
    |entry: ParkedDraft| (entry.space.deep_view(), entry.pane)
}

/// What a parked entry holds.
pub open spec fn parked_value() -> spec_fn(ParkedDraft) -> u64 {
    |entry: ParkedDraft| entry.draft
}

/// The shell around the panes.
#[derive(Debug)]
pub struct PaneShell {
    pub layout: Layout,
    pub surfaces: Vec<SurfaceEntry>,
    pub composers: Vec<ComposerEntry>,
    pub parked: Vec<ParkedDraft>,
    /// The composer of the full-width dock.
    pub dock: u64,
    /// The conversation the dock composer was last routed to.
    pub dock_key: String,
    pub next_composer: u64,
    /// The dock shows over an unchanged workspace.
    pub solo: bool,
    pub solo_chats: Vec<String>,
    /// The space the arrangement belongs to.
    pub space: Option<String>,
    pub selected_chat: Option<String>,
    pub selected_space: Option<String>,
    /// The arrangement changed since it was last stored.
    pub dirty: bool,
    /// The store changed since it was last written.
    pub store_dirty: bool,
    /// A write of the store is due.
    pub save_armed: bool,
    pub divider_dragging: bool,
    pub split_drag: Option<DragSplit>,
    pub tool_picker: Option<ViewId>,
}

/// What the shell is.
#[verifier::ext_equal]
pub struct Desk {
    pub layout: Arrangement,
    pub surfaces: Map<PaneId, Surface>,
    pub composers: Map<u64, Composing>,
    pub parked: Map<(Option<Seq<char>>, PaneId), u64>,
    pub dock: u64,
    pub dock_key: Seq<char>,
    pub next_composer: u64,
    pub solo: bool,
    pub solo_chats: Seq<Seq<char>>,
    pub space: Option<Seq<char>>,
    pub selected_chat: Option<Seq<char>>,
    pub selected_space: Option<Seq<char>>,
    pub dirty: bool,
    pub store_dirty: bool,
    pub save_armed: bool,
    pub divider_dragging: bool,
    pub drag: Option<Drag>,
    pub picker: Option<ViewId>,
}

impl View for PaneShell {
    type V = Desk;

    open spec fn view(&self) -> Desk {
        Desk {
            layout: self.layout@,
            surfaces: keyed(self.surfaces@, surface_key(), surface_value()),
            composers: keyed(self.composers@, composer_key(), composer_value()),
            parked: keyed(self.parked@, parked_key(), parked_value()),
            dock: self.dock,
            dock_key: self.dock_key@,
            next_composer: self.next_composer,
            solo: self.solo,
            solo_chats: self.solo_chats.deep_view(),
            space: self.space.deep_view(),
            selected_chat: self.selected_chat.deep_view(),
            selected_space: self.selected_space.deep_view(),
            dirty: self.dirty,
            store_dirty: self.store_dirty,
            save_armed: self.save_armed,
            divider_dragging: self.divider_dragging,
            drag: self.split_drag.deep_view(),
            picker: self.tool_picker,
        }
    }
}

/// The chat panes, in order.
pub open spec fn chat_panes(panes: Seq<Pane>) -> Seq<PaneId>
    decreases panes.len(),
{
    if panes.len() == 0 {
        Seq::empty()
    } else if panes.last().mode is Chat {
        chat_panes(panes.drop_last()).push(panes.last().pane)
    } else {
        chat_panes(panes.drop_last())
    }
}

impl Desk {
    /// Every surface has a composer of its own and a transcript of its own
    /// conversation, composers are numbered below the next one, and a dock
    /// that follows the selection belongs to no pane.
    pub open spec fn sound(self) -> bool {
        &&& self.composers.dom().contains(self.dock)
        &&& forall|pane: PaneId| #[trigger]
            self.surfaces.dom().contains(pane) ==> self.composers.dom().contains(
                self.surfaces[pane].composer,
            ) && (self.surfaces[pane].transcript is None || self.surfaces[pane].transcript
                == self.surfaces[pane].chat)
        &&& forall|id: u64| #[trigger]
            self.composers.dom().contains(id) ==> id < self.next_composer
        &&& forall|a: PaneId, b: PaneId|
            #![trigger self.surfaces.dom().contains(a), self.surfaces.dom().contains(b)]
            self.surfaces.dom().contains(a) && self.surfaces.dom().contains(b) && a != b
                ==> self.surfaces[a].composer != self.surfaces[b].composer
        &&& self.composers[self.dock].target is Selected ==> forall|pane: PaneId| #[trigger]
            self.surfaces.dom().contains(pane) ==> self.surfaces[pane].composer != self.dock
    }

    /// The workspace tree shows: it is not trivial, and not hidden behind the
    /// dock.
    pub open spec fn workspace_mode(self) -> bool {
        !self.solo && !self.layout.trivial()
    }

    /// A gesture is underway.
    pub open spec fn mid_gesture(self) -> bool {
        self.divider_dragging || self.drag is Some
    }

    /// A write is armed, unless a gesture is underway or nothing changed.
    pub open spec fn scheduled(self) -> Desk {
        if !self.mid_gesture() && (self.dirty || self.store_dirty) {
            Desk { save_armed: true, ..self }
        } else {
            self
        }
    }

    /// A write is armed where the arrangement changed.
    pub open spec fn noted(self) -> Desk {
        if self.dirty {
            self.scheduled()
        } else {
            self
        }
    }

    /// The session bound to a pane.
    pub open spec fn session_of(self, pane: PaneId) -> Option<Seq<char>> {
        match self.layout.pane(pane) {
            Some(pane) => pane.session,
            None => None,
        }
    }

    /// The surfaces of panes that are still there.
    pub open spec fn pruned(self) -> Desk {
        Desk {
            surfaces: self.surfaces.restrict(
                Set::new(|pane: PaneId| self.layout.pane(pane) is Some),
            ),
            ..self
        }
    }

    /// The dock's composer is the one a fresh surface takes over: it follows
    /// the selection and was last routed to that very conversation.
    pub open spec fn adopts(self, session: Option<Seq<char>>) -> bool {
        &&& !self.solo
        &&& self.composers[self.dock].target is Selected
        &&& self.dock_key == key_of_chat(session)
    }

    /// A fresh surface for a pane. It takes over the dock's composer or gets a
    /// new one, together with the draft parked for it.
    pub open spec fn created(self, pane: PaneId) -> Desk {
        let session = self.session_of(pane);
        let adopt = self.adopts(session);
        let composer = if adopt {
            self.dock
        } else {
            self.next_composer
        };
        let place = (self.space, pane);
        Desk {
            surfaces: self.surfaces.insert(
                pane,
                Surface { chat: session, transcript: session, composer },
            ),
            composers: self.composers.insert(
                composer,
                Composing {
                    target: Target::Fixed(session),
                    focus_pending: self.layout.active_pane() == Some(pane),
                    draft: if self.parked.dom().contains(place) {
                        Some(self.parked[place])
                    } else {
                        None
                    },
                },
            ),
            parked: self.parked.remove(place),
            next_composer: if adopt {
                self.next_composer
            } else {
                (self.next_composer + 1) as u64
            },
            ..self
        }
    }

    /// The dock's composer was routed to a conversation.
    pub open spec fn routed(self, key: Seq<char>) -> Desk {
        Desk { dock_key: key, ..self }
    }

    /// A composer with a conversation of its own moved to another one. A
    /// composer that follows the selection has none to move.
    pub open spec fn composer_moved(self, id: u64, chat: Option<Seq<char>>) -> Desk {
        if self.composers.dom().contains(id) && self.composers[id].target is Fixed {
            Desk {
                composers: self.composers.insert(
                    id,
                    Composing { target: Target::Fixed(chat), ..self.composers[id] },
                ),
                ..self
            }
        } else {
            self
        }
    }

    /// The conversation a pane's composer moved to on its own.
    pub open spec fn moved_to(self, pane: PaneId) -> Option<Option<Seq<char>>> {
        match self.composers[self.surfaces[pane].composer].target {
            Target::Fixed(chat) if chat != self.surfaces[pane].chat => Some(chat),
            _ => None,
        }
    }

    /// A pane follows its composer: the composer moved, and the pane is still
    /// bound to where it was or already to where it went.
    pub open spec fn follows(self, pane: PaneId) -> bool {
        &&& self.surfaces.dom().contains(pane)
        &&& self.moved_to(pane) is Some
        &&& self.layout.pane(pane) is Some
        &&& self.layout.pane(pane)->0.mode is Chat
        &&& self.layout.pane(pane)->0.session == self.surfaces[pane].chat || self.layout.pane(
            pane,
        )->0.session == self.moved_to(pane)->0
    }

    /// A pane whose composer bound itself to a conversation is bound to it
    /// too.
    pub open spec fn synced(self, pane: PaneId) -> Desk {
        if !self.follows(pane) {
            self
        } else {
            let chat = self.moved_to(pane)->0;
            (Desk {
                layout: self.layout.with_session(pane, chat),
                dirty: self.dirty || self.layout.pane(pane)->0.session != chat,
                surfaces: self.surfaces.insert(
                    pane,
                    Surface { chat, transcript: None, ..self.surfaces[pane] },
                ),
                ..self
            }).noted()
        }
    }

    /// A surface bound to its pane's session, with its composer.
    pub open spec fn rebound(self, pane: PaneId) -> Desk {
        let session = self.session_of(pane);
        let surface = self.surfaces[pane];
        if surface.chat == session {
            Desk {
                surfaces: self.surfaces.insert(
                    pane,
                    Surface {
                        transcript: if surface.transcript is None {
                            session
                        } else {
                            surface.transcript
                        },
                        ..surface
                    },
                ),
                ..self
            }
        } else {
            Desk {
                surfaces: self.surfaces.insert(
                    pane,
                    Surface { chat: session, transcript: session, ..surface },
                ),
                composers: self.composers.insert(
                    surface.composer,
                    Composing {
                        target: Target::Fixed(session),
                        ..self.composers[surface.composer]
                    },
                ),
                ..self
            }
        }
    }

    /// One pane has its surface, bound to its session.
    pub open spec fn ensured_one(self, pane: PaneId) -> Desk {
        let synced = self.synced(pane);
        if synced.surfaces.dom().contains(pane) {
            synced.rebound(pane)
        } else {
            synced.created(pane)
        }
    }

    /// Panes have their surfaces, one after the other.
    pub open spec fn ensured_over(self, panes: Seq<PaneId>) -> Desk
        decreases panes.len(),
    {
        if panes.len() == 0 {
            self
        } else {
            self.ensured_over(panes.drop_last()).ensured_one(panes.last())
        }
    }

    /// Every chat pane has its surface.
    pub open spec fn ensured(self) -> Desk {
        self.pruned().ensured_over(chat_panes(self.layout.panes))
    }

    /// The selection follows the focused pane.
    pub open spec fn selection_synced(self) -> Desk {
        Desk { selected_chat: self.layout.focused_session(), ..self.pruned() }
    }

    /// The collapse to a single session: the surviving pane's composer becomes
    /// the dock's and follows the selection; no surface is kept.
    pub open spec fn promoted(self) -> Desk {
        let focus = self.layout.active_pane();
        let pruned = self.pruned();
        let bare = Desk { surfaces: Map::empty(), ..self };
        if !self.layout.trivial() {
            self
        } else if focus is Some && pruned.surfaces.dom().contains(focus->0) {
            let composer = pruned.surfaces[focus->0].composer;
            Desk {
                dock: composer,
                dock_key: key_of_chat(self.selected_chat),
                composers: self.composers.insert(
                    composer,
                    Composing { target: Target::Selected, ..self.composers[composer] },
                ),
                ..bare
            }
        } else {
            bare
        }
    }

    /// The composer that is typed into: the focused pane's where the workspace
    /// tree shows, else the dock's.
    pub open spec fn active_composer(self) -> u64 {
        let focus = self.layout.active_pane();
        if self.workspace_mode() && focus is Some && self.surfaces.dom().contains(focus->0) {
            self.surfaces[focus->0].composer
        } else {
            self.dock
        }
    }

    /// The composer that is typed into asks for the keyboard, and no other
    /// does.
    pub open spec fn focus_asked(self) -> Desk {
        Desk {
            composers: Map::new(
                |id: u64| self.composers.dom().contains(id),
                |id: u64|
                    Composing {
                        focus_pending: id == self.active_composer(),
                        ..self.composers[id]
                    },
            ),
            ..self
        }
    }

    /// Everything follows the focused pane.
    pub open spec fn retargeted(self) -> Desk {
        let moved = if self.workspace_mode() {
            self.ensured().selection_synced()
        } else {
            self.selection_synced().promoted()
        };
        moved.focus_asked().noted()
    }
}

impl PaneShell {
    /// No pane, composer or parked draft is listed twice, and the surfaces are
    /// sound.
    pub open spec fn wf(&self) -> bool {
        &&& keys_distinct(self.surfaces@, surface_key())
        &&& keys_distinct(self.composers@, composer_key())
        &&& keys_distinct(self.parked@, parked_key())
        &&& self@.sound()
    }

    /// A shell over an arrangement, with a dock that follows the selection.
    pub fn new(layout: Layout, selected_chat: Option<String>, space: Option<String>) -> (r: Self)
        ensures
            r.wf(),
            r@ == (Desk {
                layout: layout@,
                surfaces: Map::empty(),
                composers: Map::empty().insert(
                    0,
                    Composing { target: Target::Selected, focus_pending: false, draft: None },
                ),
                parked: Map::empty(),
                dock: 0,
                dock_key: key_of_chat(selected_chat.deep_view()),
                next_composer: 1,
                solo: false,
                solo_chats: Seq::empty(),
                space: space.deep_view(),
                selected_chat: selected_chat.deep_view(),
                selected_space: space.deep_view(),
                dirty: false,
                store_dirty: false,
                save_armed: false,
                divider_dragging: false,
                drag: None,
                picker: None,
            }),
    {
        let dock_key: String = key_of_option(&selected_chat);
        let selected_space: Option<String> = copy_option(&space);
        let entry: ComposerEntry = ComposerEntry {
            id: 0,
            target: ChatTarget::Selected,
            focus_pending: false,
            draft: None,
        };
        let none: Vec<ComposerEntry> = Vec::new();
        let ghost before = none@;
        let mut composers: Vec<ComposerEntry> = none;
        proof {
            assert(keyed(before, composer_key(), composer_value()) =~= Map::<
                u64,
                Composing,
            >::empty());
            keyed_push(before, composer_key(), composer_value(), entry);
        }
        composers.push(entry);
        let r: PaneShell = PaneShell {
            layout,
            surfaces: Vec::new(),
            composers,
            parked: Vec::new(),
            dock: 0,
            dock_key,
            next_composer: 1,
            solo: false,
            solo_chats: Vec::new(),
            space,
            selected_chat,
            selected_space,
            dirty: false,
            store_dirty: false,
            save_armed: false,
            divider_dragging: false,
            split_drag: None,
            tool_picker: None,
        };
        proof {
            assert(r@.surfaces =~= Map::<PaneId, Surface>::empty());
            assert(r@.parked =~= Map::<(Option<Seq<char>>, PaneId), u64>::empty());
            assert(r.solo_chats.deep_view() =~= Seq::<Seq<char>>::empty());
        }
        r
    }

    /// Takes over that the dock's composer was routed to a conversation; a
    /// fresh canvas has the empty key.
    pub fn dock_routed(&mut self, key: &str)
        requires
            old(self).wf(),
        ensures
            final(self).wf(),
            final(self)@ == old(self)@.routed(key@),
    {
        self.dock_key = key.to_owned();
    }

    /// Takes over that a composer moved to another conversation on its own.
    /// Returns whether it has one of its own to move.
    pub fn composer_moved(&mut self, id: u64, chat: Option<String>) -> (r: bool)
        requires
            old(self).wf(),
        ensures
            final(self).wf(),
            final(self)@ == old(self)@.composer_moved(id, chat.deep_view()),
            r == (old(self)@.composers.dom().contains(id) && old(
                self,
            )@.composers[id].target is Fixed),
    {
        let at: usize = match self.find_composer(id) {
            Some(at) => at,
            None => return false,
        };
        match &self.composers[at].target {
            ChatTarget::Selected => return false,
            ChatTarget::Fixed(_) => {},
        }
        let focus_pending: bool = self.composers[at].focus_pending;
        let draft: Option<u64> = self.composers[at].draft;
        self.put_composer(
            ComposerEntry { id, target: ChatTarget::Fixed(chat), focus_pending, draft },
        );
        true
    }

    /// The place of a pane's surface.
    fn find_surface(&self, pane: PaneId) -> (r: Option<usize>)
        requires
            keys_distinct(self.surfaces@, surface_key()),
        ensures
            (match r {
                Some(at) => {
                    &&& at < self.surfaces@.len()
                    &&& self.surfaces@[at as int].pane == pane
                    &&& self@.surfaces.dom().contains(pane)
                    &&& self@.surfaces[pane] == surface_value()(self.surfaces@[at as int])
                },
                None => !self@.surfaces.dom().contains(pane),
            }),
    {
        let mut at: usize = 0;
        let ghost holds = has_key(surface_key(), pane);
        while at < self.surfaces.len()
            invariant
                at <= self.surfaces@.len(),
                holds == has_key(surface_key(), pane),
                keys_distinct(self.surfaces@, surface_key()),
                forall|i: int| 0 <= i < at ==> !holds(#[trigger] self.surfaces@[i]),
            decreases self.surfaces@.len() - at,
        {
            if self.surfaces[at].pane == pane {
                proof {
                    keyed_item(self.surfaces@, surface_key(), surface_value(), at as int);
                }
                return Some(at);
            }
            at += 1;
        }
        proof {
            first_place_at(self.surfaces@, holds, at as int);
        }
        None
    }

    /// Stores a surface.
    pub(crate) fn put_surface(&mut self, entry: SurfaceEntry)
        requires
            keys_distinct(old(self).surfaces@, surface_key()),
        ensures
            keys_distinct(final(self).surfaces@, surface_key()),
            final(self).composers == old(self).composers,
            final(self).parked == old(self).parked,
            final(self)@ == (Desk {
                surfaces: old(self)@.surfaces.insert(entry.pane, surface_value()(entry)),
                ..old(self)@
            }),
    {
        let ghost before = self.surfaces@;
        match self.find_surface(entry.pane) {
            Some(at) => {
                proof {
                    keyed_update(before, surface_key(), surface_value(), at as int, entry);
                }
                self.surfaces.set(at, entry);
            },
            None => {
                proof {
                    keyed_push(before, surface_key(), surface_value(), entry);
                }
                self.surfaces.push(entry);
            },
        }
    }

    /// The place of a composer.
    fn find_composer(&self, id: u64) -> (r: Option<usize>)
        requires
            keys_distinct(self.composers@, composer_key()),
        ensures
            (match r {
                Some(at) => {
                    &&& at < self.composers@.len()
                    &&& self.composers@[at as int].id == id
                    &&& self@.composers.dom().contains(id)
                    &&& self@.composers[id] == composer_value()(self.composers@[at as int])
                },
                None => !self@.composers.dom().contains(id),
            }),
    {
        let mut at: usize = 0;
        let ghost holds = has_key(composer_key(), id);
        while at < self.composers.len()
            invariant
                at <= self.composers@.len(),
                holds == has_key(composer_key(), id),
                keys_distinct(self.composers@, composer_key()),
                forall|i: int| 0 <= i < at ==> !holds(#[trigger] self.composers@[i]),
            decreases self.composers@.len() - at,
        {
            if self.composers[at].id == id {
                proof {
                    keyed_item(self.composers@, composer_key(), composer_value(), at as int);
                }
                return Some(at);
            }
            at += 1;
        }
        proof {
            first_place_at(self.composers@, holds, at as int);
        }
        None
    }

    /// Stores a composer.
    pub(crate) fn put_composer(&mut self, entry: ComposerEntry)
        requires
            keys_distinct(old(self).composers@, composer_key()),
        ensures
            keys_distinct(final(self).composers@, composer_key()),
            final(self).surfaces == old(self).surfaces,
            final(self).parked == old(self).parked,
            final(self)@ == (Desk {
                composers: old(self)@.composers.insert(entry.id, composer_value()(entry)),
                ..old(self)@
            }),
    {
        let ghost before = self.composers@;
        match self.find_composer(entry.id) {
            Some(at) => {
                proof {
                    keyed_update(before, composer_key(), composer_value(), at as int, entry);
                }
                self.composers.set(at, entry);
            },
            None => {
                proof {
                    keyed_push(before, composer_key(), composer_value(), entry);
                }
                self.composers.push(entry);
            },
        }
    }

    /// Points a composer at a conversation.
    pub(crate) fn set_target(&mut self, id: u64, target: ChatTarget)
        requires
            keys_distinct(old(self).composers@, composer_key()),
            old(self)@.composers.dom().contains(id),
        ensures
            keys_distinct(final(self).composers@, composer_key()),
            final(self).surfaces == old(self).surfaces,
            final(self).parked == old(self).parked,
            final(self)@ == (Desk {
                composers: old(self)@.composers.insert(
                    id,
                    Composing { target: target@, ..old(self)@.composers[id] },
                ),
                ..old(self)@
            }),
    {
        match self.find_composer(id) {
            Some(at) => {
                let entry: ComposerEntry = ComposerEntry {
                    id,
                    target,
                    focus_pending: self.composers[at].focus_pending,
                    draft: self.composers[at].draft,
                };
                self.put_composer(entry);
            },
            None => {},
        }
    }

    /// Takes a parked draft out.
    fn rehydrate_pane_draft(&mut self, pane: PaneId) -> (r: Option<u64>)
        requires
            keys_distinct(old(self).parked@, parked_key()),
        ensures
            keys_distinct(final(self).parked@, parked_key()),
            final(self).surfaces == old(self).surfaces,
            final(self).composers == old(self).composers,
            ({
                let place = (old(self)@.space, pane);
                &&& r == (if old(self)@.parked.dom().contains(place) {
                    Some(old(self)@.parked[place])
                } else {
                    None
                })
                &&& final(self)@ == (Desk {
                    parked: old(self)@.parked.remove(place),
                    ..old(self)@
                })
            }),
    {
        let ghost place = (self@.space, pane);
        let ghost holds = has_key(parked_key(), place);
        let ghost before = self.parked@;
        let mut at: usize = 0;
        while at < self.parked.len()
            invariant
                at <= self.parked@.len(),
                self.parked@ == before,
                *self == *old(self),
                place == (self@.space, pane),
                holds == has_key(parked_key(), place),
                keys_distinct(before, parked_key()),
                forall|i: int| 0 <= i < at ==> !holds(#[trigger] before[i]),
            decreases self.parked@.len() - at,
        {
            if self.parked[at].pane == pane && same_option(&self.parked[at].space, &self.space) {
                proof {
                    keyed_item(before, parked_key(), parked_value(), at as int);
                    keyed_remove(before, parked_key(), parked_value(), at as int);
                }
                let entry: ParkedDraft = self.parked.remove(at);
                return Some(entry.draft);
            }
            at += 1;
        }
        proof {
            first_place_at(before, holds, at as int);
            assert(self@.parked.remove(place) =~= self@.parked);
        }
        None
    }

    /// Drops the surfaces of panes that are gone.
    pub fn prune_caches(&mut self)
        requires
            old(self).wf(),
        ensures
            final(self).wf(),
            final(self)@ == old(self)@.pruned(),
    {
        let ghost start = self@;
        let ghost gone = Set::new(|pane: PaneId| !(start.layout.pane(pane) is Some));
        let mut at: usize = 0;
        proof {
            assert(start.surfaces.remove_keys(Set::<PaneId>::empty()) =~= start.surfaces);
        }
        let ghost mut dropped: Set<PaneId> = Set::empty();
        while at < self.surfaces.len()
            invariant
                at <= self.surfaces@.len(),
                keys_distinct(self.surfaces@, surface_key()),
                self.composers == old(self).composers,
                self.parked == old(self).parked,
                self@ == (Desk { surfaces: start.surfaces.remove_keys(dropped), ..start }),
                forall|pane: PaneId| #[trigger]
                    dropped.contains(pane) ==> start.layout.pane(pane) is None,
                forall|i: int|
                    0 <= i < at ==> start.layout.pane(
                        (#[trigger] self.surfaces@[i]).pane,
                    ) is Some,
            decreases self.surfaces@.len() - at,
        {
            let pane: PaneId = self.surfaces[at].pane;
            if self.layout.find_pane(pane).is_some() {
                at += 1;
            } else {
                let ghost before = self.surfaces@;
                proof {
                    keyed_remove(before, surface_key(), surface_value(), at as int);
                }
                let _entry: SurfaceEntry = self.surfaces.remove(at);
                proof {
                    let next = dropped.insert(pane);
                    assert(start.surfaces.remove_keys(dropped).remove(pane)
                        =~= start.surfaces.remove_keys(next));
                    dropped = next;
                    assert forall|i: int| 0 <= i < at implies start.layout.pane(
                        (#[trigger] self.surfaces@[i]).pane,
                    ) is Some by {
                        assert(self.surfaces@[i] == before[i]);
                    }
                }
            }
        }
        proof {
            let kept = start.surfaces.restrict(
                Set::new(|pane: PaneId| start.layout.pane(pane) is Some),
            );
            assert forall|pane: PaneId| #[trigger]
                self@.surfaces.dom().contains(pane) implies start.layout.pane(pane) is Some by {
                let place = first_place(self.surfaces@, has_key(surface_key(), pane));
                crate::list::first_place_bounds(self.surfaces@, has_key(surface_key(), pane));
                assert(self.surfaces@[place].pane == pane);
            }
            assert forall|pane: PaneId|
                kept.dom().contains(pane) == #[trigger] self@.surfaces.dom().contains(pane) by {
                if kept.dom().contains(pane) {
                    assert(!dropped.contains(pane));
                }
            }
            assert(self@.surfaces =~= kept);
        }
    }

    /// A pane follows its composer where that bound itself to a conversation,
    /// such as by a first send. A newer navigation of the pane is not
    /// overwritten.
    pub fn sync_pane_composer_target(&mut self, pane: PaneId)
        requires
            old(self).wf(),
        ensures
            final(self).wf(),
            final(self)@ == old(self)@.synced(pane),
    {
        let at: usize = match self.find_surface(pane) {
            Some(at) => at,
            None => return,
        };
        let composer: u64 = self.surfaces[at].composer;
        let place: usize = match self.find_composer(composer) {
            Some(place) => place,
            None => return,
        };
        let chat: Option<String> = match &self.composers[place].target {
            ChatTarget::Selected => return,
            ChatTarget::Fixed(chat) => copy_option(chat),
        };
        if same_option(&chat, &self.surfaces[at].chat) {
            return;
        }
        let entry: usize = match self.layout.find_pane(pane) {
            Some(entry) => entry,
            None => return,
        };
        match self.layout.panes[entry].mode {
            PaneMode::Chat => {},
            PaneMode::Terminal => return,
        }
        let already: bool = same_option(&self.layout.panes[entry].session, &chat);
        if !already && !same_option(&self.layout.panes[entry].session, &self.surfaces[at].chat) {
            return;
        }
        let ghost before = self@;
        let bound: Option<String> = copy_option(&chat);
        if !already {
            let _found: bool = self.layout.set_pane_session(pane, bound);
            self.dirty = true;
        } else {
            proof {
                let place = first_place(before.layout.panes, crate::layout::is_pane(pane));
                assert(before.layout.panes.update(place, before.layout.panes[place])
                    =~= before.layout.panes);
                assert(before.layout.with_session(pane, chat.deep_view()) =~= before.layout);
            }
        }
        self.put_surface(SurfaceEntry { pane, chat, transcript: None, composer });
        self.note_workspace_mutation();
    }

    /// Makes a surface for a pane.
    fn create_pane_chat_surface(&mut self, pane: PaneId)
        requires
            old(self).wf(),
            old(self).next_composer < u64::MAX,
            !old(self)@.surfaces.dom().contains(pane),
        ensures
            final(self).wf(),
            final(self)@ == old(self)@.created(pane),
    {
        let ghost before = self@;
        let session: Option<String> = self.layout.session_of(pane);
        let follows: bool = match self.find_composer(self.dock) {
            Some(at) => match &self.composers[at].target {
                ChatTarget::Selected => true,
                ChatTarget::Fixed(_) => false,
            },
            None => false,
        };
        let adopt: bool = !self.solo && follows && is_key_of(self.dock_key.as_str(), &session);
        let composer: u64 = if adopt {
            self.dock
        } else {
            self.next_composer
        };
        if !adopt {
            self.next_composer = self.next_composer + 1;
        }
        let focus_pending: bool = self.layout.active_pane_id() == Some(pane);
        let draft: Option<u64> = self.rehydrate_pane_draft(pane);
        let target: Option<String> = copy_option(&session);
        self.put_composer(
            ComposerEntry { id: composer, target: ChatTarget::Fixed(target), focus_pending, draft },
        );
        let transcript: Option<String> = copy_option(&session);
        self.put_surface(SurfaceEntry { pane, chat: session, transcript, composer });
        proof {
            assert(self@ =~= before.created(pane));
        }
    }

    /// Binds a surface to its pane's session.
    fn rebind_surface(&mut self, pane: PaneId)
        requires
            old(self).wf(),
            old(self)@.surfaces.dom().contains(pane),
        ensures
            final(self).wf(),
            final(self)@ == old(self)@.rebound(pane),
    {
        let ghost before = self@;
        let session: Option<String> = self.layout.session_of(pane);
        match self.find_surface(pane) {
            Some(at) => {
                let composer: u64 = self.surfaces[at].composer;
                if same_option(&self.surfaces[at].chat, &session) {
                    let transcript: Option<String> = if self.surfaces[at].transcript.is_none() {
                        copy_option(&session)
                    } else {
                        copy_option(&self.surfaces[at].transcript)
                    };
                    self.put_surface(SurfaceEntry { pane, chat: session, transcript, composer });
                } else {
                    let transcript: Option<String> = copy_option(&session);
                    let target: Option<String> = copy_option(&session);
                    self.put_surface(SurfaceEntry { pane, chat: session, transcript, composer });
                    self.set_target(composer, ChatTarget::Fixed(target));
                }
                proof {
                    assert(self@ =~= before.rebound(pane));
                }
            },
            None => {},
        }
    }

    /// The chat panes.
    fn list_chat_panes(&self) -> (r: Vec<PaneId>)
        ensures
            r@ == chat_panes(self@.layout.panes),
            r@.len() <= self.layout.panes@.len(),
    {
        let mut out: Vec<PaneId> = Vec::new();
        let mut i: usize = 0;
        let ghost all = self@.layout.panes;
        proof {
            assert(all.take(0) =~= Seq::<Pane>::empty());
        }
        while i < self.layout.panes.len()
            invariant
                i <= self.layout.panes@.len(),
                all == self.layout.panes.deep_view(),
                out@.len() <= i,
                out@ == chat_panes(all.take(i as int)),
            decreases self.layout.panes@.len() - i,
        {
            proof {
                let front = all.take(i + 1);
                assert(front.drop_last() =~= all.take(i as int));
                assert(front.last() == self.layout.panes@[i as int].deep_view());
            }
            match self.layout.panes[i].mode {
                PaneMode::Chat => {
                    out.push(self.layout.panes[i].pane);
                },
                PaneMode::Terminal => {},
            }
            i += 1;
        }
        proof {
            assert(all.take(all.len() as int) =~= all);
        }
        out
    }

    /// Gives every chat pane its surface. A pane's composer is never replaced,
    /// so that its draft and pending send survive.
    pub fn ensure_pane_chat_surfaces(&mut self)
        requires
            old(self).wf(),
            old(self).next_composer + old(self)@.layout.panes.len() < u64::MAX,
        ensures
            final(self).wf(),
            final(self)@ == old(self)@.ensured(),
            final(self).next_composer <= old(self).next_composer + old(self)@.layout.panes.len(),
    {
        self.prune_caches();
        let panes: Vec<PaneId> = self.list_chat_panes();
        let ghost start = self@;
        let ghost first = self.next_composer;
        let mut i: usize = 0;
        proof {
            assert(panes@.take(0) =~= Seq::<PaneId>::empty());
        }
        while i < panes.len()
            invariant
                i <= panes@.len(),
                self.wf(),
                first <= self.next_composer <= first + i,
                first + panes@.len() < u64::MAX,
                self@ == start.ensured_over(panes@.take(i as int)),
            decreases panes@.len() - i,
        {
            let pane: PaneId = panes[i];
            proof {
                let front = panes@.take(i + 1);
                assert(front.drop_last() =~= panes@.take(i as int));
                assert(front.last() == pane);
            }
            self.sync_pane_composer_target(pane);
            if self.find_surface(pane).is_some() {
                self.rebind_surface(pane);
            } else {
                self.create_pane_chat_surface(pane);
            }
            i += 1;
        }
        proof {
            assert(panes@.take(panes@.len() as int) =~= panes@);
        }
    }

    /// Arms a write where the arrangement changed.
    pub fn note_workspace_mutation(&mut self)
        ensures
            final(self)@ == old(self)@.noted(),
            final(self).surfaces == old(self).surfaces,
            final(self).composers == old(self).composers,
            final(self).parked == old(self).parked,
            old(self).wf() ==> final(self).wf(),
    {
        if self.dirty {
            self.schedule_workspace_layout_save();
        }
    }

    /// Arms a write, unless a gesture is underway or there is nothing to
    /// write.
    pub fn schedule_workspace_layout_save(&mut self)
        ensures
            final(self)@ == old(self)@.scheduled(),
            final(self).surfaces == old(self).surfaces,
            final(self).composers == old(self).composers,
            final(self).parked == old(self).parked,
            old(self).wf() ==> final(self).wf(),
    {
        if self.divider_dragging || self.split_drag.is_some() {
            return;
        }
        if self.dirty || self.store_dirty {
            self.save_armed = true;
        }
    }

    /// The selection follows the focused pane. Returns whether it changed.
    pub fn sync_selection_to_focused_pane(&mut self) -> (r: bool)
        requires
            old(self).wf(),
        ensures
            final(self).wf(),
            final(self)@ == old(self)@.selection_synced(),
            r == (old(self)@.selected_chat != old(self)@.layout.focused_session()),
    {
        self.prune_caches();
        let session: Option<String> = self.layout.focused_session();
        let changed: bool = !same_option(&self.selected_chat, &session);
        self.selected_chat = session;
        changed
    }

    /// Hands the surviving pane's composer to the dock once the workspace is
    /// trivial again. Returns the composer that was handed over, and whether
    /// its conversation changes with it.
    pub fn promote_trivial_chat_surface_to_dock(&mut self) -> (r: Option<(u64, bool)>)
        requires
            old(self).wf(),
        ensures
            final(self).wf(),
            final(self)@ == old(self)@.promoted(),
            ({
                let before = old(self)@;
                let focus = before.layout.active_pane();
                let survives = before.layout.trivial() && focus is Some
                    && before.pruned().surfaces.dom().contains(focus->0);
                &&& r is Some <==> survives
                &&& r matches Some(handed) ==> {
                    let composer = before.surfaces[focus->0].composer;
                    &&& handed.0 == composer
                    &&& handed.1 == (match before.composers[composer].target {
                        Target::Selected => false,
                        Target::Fixed(chat) => key_of_chat(chat) != key_of_chat(
                            before.selected_chat,
                        ),
                    })
                }
            }),
    {
        if !self.layout.is_trivial() {
            return None;
        }
        let ghost before = self@;
        self.prune_caches();
        let survivor: Option<u64> = match self.layout.active_pane_id() {
            Some(pane) => match self.find_surface(pane) {
                Some(at) => Some(self.surfaces[at].composer),
                None => None,
            },
            None => None,
        };
        self.surfaces = Vec::new();
        proof {
            assert(self@.surfaces =~= Map::<PaneId, Surface>::empty());
        }
        match survivor {
            None => {
                proof {
                    assert(self@ =~= before.promoted());
                }
                None
            },
            Some(composer) => {
                let key: String = key_of_option(&self.selected_chat);
                let swaps: bool = match self.find_composer(composer) {
                    Some(at) => match &self.composers[at].target {
                        ChatTarget::Selected => false,
                        ChatTarget::Fixed(chat) => !is_key_of(key.as_str(), chat),
                    },
                    None => false,
                };
                self.dock = composer;
                self.dock_key = key;
                self.set_target(composer, ChatTarget::Selected);
                proof {
                    assert(self@ =~= before.promoted());
                }
                Some((composer, swaps))
            },
        }
    }

    /// The composer that is typed into.
    pub fn active_composer(&self) -> (r: u64)
        requires
            self.wf(),
        ensures
            r == self@.active_composer(),
    {
        if self.workspace_mode() {
            match self.layout.active_pane_id() {
                Some(pane) => match self.find_surface(pane) {
                    Some(at) => return self.surfaces[at].composer,
                    None => {},
                },
                None => {},
            }
        }
        self.dock
    }

    /// Asks for the keyboard for the composer that is typed into. Earlier
    /// requests, not painted yet, are dropped.
    pub fn focus_composer(&mut self)
        requires
            old(self).wf(),
        ensures
            final(self).wf(),
            final(self)@ == old(self)@.focus_asked(),
    {
        let active: u64 = self.active_composer();
        let ghost start = self@;
        let mut i: usize = 0;
        while i < self.composers.len()
            invariant
                i <= self.composers@.len(),
                self.wf(),
                active == start.active_composer(),
                self@ == (Desk { composers: self@.composers, ..start }),
                self@.composers.dom() == start.composers.dom(),
                forall|k: int|
                    i <= k < self.composers@.len() ==> {
                        let entry = #[trigger] self.composers@[k];
                        self@.composers[entry.id] == start.composers[entry.id]
                    },
                forall|k: int|
                    0 <= k < i ==> {
                        let id = (#[trigger] self.composers@[k]).id;
                        self@.composers[id] == start.focus_asked().composers[id]
                    },
            decreases self.composers@.len() - i,
        {
            let ghost was = self.composers@;
            let id: u64 = self.composers[i].id;
            let target: ChatTarget = match &self.composers[i].target {
                ChatTarget::Selected => ChatTarget::Selected,
                ChatTarget::Fixed(chat) => ChatTarget::Fixed(copy_option(chat)),
            };
            let entry: ComposerEntry = ComposerEntry {
                id,
                target,
                focus_pending: id == active,
                draft: self.composers[i].draft,
            };
            proof {
                keyed_item(was, composer_key(), composer_value(), i as int);
                keyed_update(was, composer_key(), composer_value(), i as int, entry);
            }
            self.composers.set(i, entry);
            proof {
                assert(self@.composers.dom() =~= start.composers.dom());
                assert forall|k: int| i + 1 <= k < self.composers@.len() implies ({
                    let entry = #[trigger] self.composers@[k];
                    self@.composers[entry.id] == start.composers[entry.id]
                }) by {
                    assert(was[k].id != was[i as int].id);
                    assert(self.composers@[k] == was[k]);
                }
                assert forall|k: int| 0 <= k < i implies ({
                    let id = (#[trigger] self.composers@[k]).id;
                    self@.composers[id] == start.focus_asked().composers[id]
                }) by {
                    assert(was[k].id != was[i as int].id);
                    assert(self.composers@[k] == was[k]);
                }
            }
            i += 1;
        }
        proof {
            assert forall|id: u64| self@.composers.dom().contains(id) implies #[trigger]
                self@.composers[id] == start.focus_asked().composers[id] by {
                let holds = has_key(composer_key(), id);
                first_place_bounds(self.composers@, holds);
                let place = first_place(self.composers@, holds);
                assert(self.composers@[place].id == id);
            }
            assert(self@.composers =~= start.focus_asked().composers);
        }
    }

    /// Everything follows the focused pane: surfaces, selection, the dock, the
    /// keyboard, and the pending write.
    pub fn retarget_to_focused_pane(&mut self)
        requires
            old(self).wf(),
            old(self).next_composer + old(self)@.layout.panes.len() < u64::MAX,
        ensures
            final(self).wf(),
            final(self)@ == old(self)@.retargeted(),
            final(self).next_composer <= old(self).next_composer + old(self)@.layout.panes.len(),
    {
        if self.workspace_mode() {
            self.ensure_pane_chat_surfaces();
            let _changed: bool = self.sync_selection_to_focused_pane();
        } else {
            let _changed: bool = self.sync_selection_to_focused_pane();
            let _handed: Option<(u64, bool)> = self.promote_trivial_chat_surface_to_dock();
        }
        self.focus_composer();
        self.note_workspace_mutation();
    }

    /// Whether the workspace tree shows.
    pub fn workspace_mode(&self) -> (r: bool)
        ensures
            r == self@.workspace_mode(),
    {
        !self.solo && !self.layout.is_trivial()
    }
}

/// A pane's surface shows the session the pane is bound to.
pub open spec fn bound(desk: Desk, pane: PaneId) -> bool {
    &&& desk.surfaces.dom().contains(pane)
    &&& desk.surfaces[pane].chat == desk.session_of(pane)
    &&& desk.surfaces[pane].transcript == desk.session_of(pane)
}

/// The edit of a queued message that a composer holds.
#[derive(Debug)]
pub struct QueueEdit {
    pub queued: Option<String>,
    /// What was drafted before the edit began.
    pub draft: Option<String>,
}

/// The edit a composer holds once it is seated in the dock. A change of its
/// conversation may drop the edit; it is then put back, since the composer
/// itself stays.
pub fn reseat_composer_as_dock(parked: QueueEdit, after: QueueEdit) -> (r: QueueEdit)
    ensures
        r == (if after.queued is None {
            parked
        } else {
            after
        }),
{
    if after.queued.is_none() {
        parked
    } else {
        after
    }
}

/// Giving a pane its surface keeps the composer it has, and leaves every other
/// surface as it is.
pub proof fn a_pane_keeps_its_composer(desk: Desk, pane: PaneId, other: PaneId)
    ensures
        desk.surfaces.dom().contains(pane) ==> desk.ensured_one(pane).surfaces[pane].composer
            == desk.surfaces[pane].composer,
        other != pane ==> desk.ensured_one(pane).surfaces.dom().contains(other)
            == desk.surfaces.dom().contains(other),
        other != pane ==> desk.ensured_one(pane).surfaces[other] == desk.surfaces[other],
{
}

/// Giving a pane its surface binds it, and keeps the other panes bound.
proof fn one_pane_is_bound(desk: Desk, pane: PaneId, other: PaneId)
    requires
        desk.sound(),
        desk.layout.ids_distinct(),
    ensures
        bound(desk.ensured_one(pane), pane),
        other != pane && bound(desk, other) ==> bound(desk.ensured_one(pane), other),
        desk.ensured_one(pane).layout.ids_distinct(),
{
    if desk.follows(pane) {
        crate::layout::a_binding_touches_one_pane(
            desk.layout,
            pane,
            desk.moved_to(pane)->0,
            other,
        );
    }
}

/// Giving panes their surfaces binds them all.
proof fn panes_are_bound(desk: Desk, panes: Seq<PaneId>)
    requires
        desk.sound(),
        desk.layout.ids_distinct(),
        forall|i: int| 0 <= i <= panes.len() ==> #[trigger] desk.ensured_over(
            panes.take(i),
        ).sound(),
    ensures
        desk.ensured_over(panes).layout.ids_distinct(),
        forall|i: int| 0 <= i < panes.len() ==> bound(desk.ensured_over(panes), #[trigger] panes[i]),
    decreases panes.len(),
{
    if panes.len() > 0 {
        let front = panes.drop_last();
        let before = desk.ensured_over(front);
        assert forall|i: int| 0 <= i <= front.len() implies #[trigger] desk.ensured_over(
            front.take(i),
        ).sound() by {
            assert(front.take(i) =~= panes.take(i));
        }
        panes_are_bound(desk, front);
        assert(panes.take(front.len() as int) =~= front);
        assert(before.sound());
        assert forall|i: int| 0 <= i < panes.len() implies bound(
            desk.ensured_over(panes),
            #[trigger] panes[i],
        ) by {
            one_pane_is_bound(before, panes.last(), panes[i]);
            if i < front.len() {
                assert(front[i] == panes[i]);
            }
        }
        one_pane_is_bound(before, panes.last(), panes.last());
    }
}

/// Soundness survives giving a pane its surface.
proof fn one_pane_stays_sound(desk: Desk, pane: PaneId)
    requires
        desk.sound(),
        desk.next_composer < u64::MAX,
    ensures
        desk.ensured_one(pane).sound(),
        desk.next_composer <= desk.ensured_one(pane).next_composer <= desk.next_composer + 1,
{
    let synced = desk.synced(pane);
    assert(synced.sound());
}

/// Soundness survives giving panes their surfaces.
proof fn panes_stay_sound(desk: Desk, panes: Seq<PaneId>)
    requires
        desk.sound(),
        desk.next_composer + panes.len() < u64::MAX,
    ensures
        desk.ensured_over(panes).sound(),
        desk.ensured_over(panes).next_composer <= desk.next_composer + panes.len(),
    decreases panes.len(),
{
    if panes.len() > 0 {
        panes_stay_sound(desk, panes.drop_last());
        one_pane_stays_sound(desk.ensured_over(panes.drop_last()), panes.last());
    }
}

/// Once every chat pane has its surface, each shows the session its pane is
/// bound to, with a transcript exactly where there is a session.
pub proof fn every_chat_pane_is_bound(desk: Desk, at: int)
    requires
        desk.sound(),
        desk.layout.ids_distinct(),
        desk.next_composer + chat_panes(desk.layout.panes).len() < u64::MAX,
        0 <= at < chat_panes(desk.layout.panes).len(),
    ensures
        bound(desk.ensured(), chat_panes(desk.layout.panes)[at]),
        desk.ensured().sound(),
{
    let panes = chat_panes(desk.layout.panes);
    let start = desk.pruned();
    assert(start.sound());
    assert forall|i: int| 0 <= i <= panes.len() implies #[trigger] start.ensured_over(
        panes.take(i),
    ).sound() by {
        panes_stay_sound(start, panes.take(i));
    }
    panes_are_bound(start, panes);
    panes_stay_sound(start, panes);
}

/// The first split keeps the original composer, with its unsent draft, in the
/// pane of the conversation it was written for.
pub proof fn the_first_split_keeps_the_original_composer(desk: Desk, pane: PaneId)
    requires
        desk.sound(),
        !desk.solo,
        desk.composers[desk.dock].target is Selected,
        desk.dock_key == key_of_chat(desk.session_of(pane)),
        !desk.surfaces.dom().contains(pane),
    ensures
        desk.ensured_one(pane).surfaces[pane].composer == desk.dock,
        desk.ensured_one(pane).composers[desk.dock].target == Target::Fixed(desk.session_of(pane)),
        desk.ensured_one(pane).next_composer == desk.next_composer,
{
}

/// A navigation that the dock's composer was routed along leaves it ready for
/// the first split: the pane of the conversation it shows takes it over.
pub proof fn a_routed_dock_is_taken_over(desk: Desk, pane: PaneId)
    requires
        desk.sound(),
        !desk.solo,
        desk.composers[desk.dock].target is Selected,
        !desk.surfaces.dom().contains(pane),
    ensures
        ({
            let routed = desk.routed(key_of_chat(desk.session_of(pane)));
            routed.ensured_one(pane).surfaces[pane].composer == desk.dock
        }),
{
    let routed = desk.routed(key_of_chat(desk.session_of(pane)));
    the_first_split_keeps_the_original_composer(routed, pane);
}

/// A pane follows its composer to another conversation, and keeps it.
pub proof fn a_pane_follows_its_composer(desk: Desk, pane: PaneId, chat: Option<Seq<char>>)
    requires
        desk.sound(),
        desk.surfaces.dom().contains(pane),
        desk.layout.pane(pane) is Some,
        desk.layout.pane(pane)->0.mode is Chat,
        desk.layout.pane(pane)->0.session == desk.surfaces[pane].chat,
        desk.composers[desk.surfaces[pane].composer].target is Fixed,
        chat != desk.surfaces[pane].chat,
    ensures
        ({
            let moved = desk.composer_moved(desk.surfaces[pane].composer, chat).synced(pane);
            &&& moved.surfaces[pane].chat == chat
            &&& moved.surfaces[pane].composer == desk.surfaces[pane].composer
            &&& moved.layout == desk.layout.with_session(pane, chat)
        }),
{
}

/// Collapsing to one pane makes its composer the dock's, which follows the
/// selection again, and keeps no surface behind.
pub proof fn a_collapse_keeps_the_surviving_composer(desk: Desk, pane: PaneId)
    requires
        desk.sound(),
        desk.layout.trivial(),
        desk.layout.active_pane() == Some(pane),
        desk.layout.pane(pane) is Some,
        desk.surfaces.dom().contains(pane),
    ensures
        desk.promoted().dock == desk.surfaces[pane].composer,
        desk.promoted().composers[desk.promoted().dock].target is Selected,
        desk.promoted().surfaces.dom() =~= Set::<PaneId>::empty(),
        desk.promoted().sound(),
{
}

/// Only the latest request for the keyboard survives: once one is made, no
/// other composer still asks.
pub proof fn only_the_latest_focus_request_survives(desk: Desk, id: u64)
    requires
        desk.sound(),
        desk.composers.dom().contains(id),
    ensures
        desk.focus_asked().composers[id].focus_pending <==> id == desk.active_composer(),
        desk.focus_asked().composers[id].target == desk.composers[id].target,
        desk.focus_asked().composers[id].draft == desk.composers[id].draft,
{
}

/// A parked draft goes to the pane it was parked for, in its own space, and
/// only once.
pub proof fn a_parked_draft_is_restored_once(desk: Desk, pane: PaneId, other: PaneId)
    requires
        desk.sound(),
        desk.parked.dom().contains((desk.space, pane)),
    ensures
        desk.created(pane).composers[desk.created(pane).surfaces[pane].composer].draft == Some(
            desk.parked[(desk.space, pane)],
        ),
        !desk.created(pane).parked.dom().contains((desk.space, pane)),
        other != pane && desk.parked.dom().contains((desk.space, other)) ==> desk.created(
            pane,
        ).parked[(desk.space, other)] == desk.parked[(desk.space, other)],
{
}

/// No write is armed while a gesture is underway, and a change outside one
/// always arms a write.
pub proof fn writes_wait_for_gestures(desk: Desk)
    ensures
        desk.mid_gesture() ==> desk.noted() == desk && desk.scheduled() == desk,
        !desk.mid_gesture() && desk.dirty ==> desk.noted().save_armed,
{
}

} // verus!
