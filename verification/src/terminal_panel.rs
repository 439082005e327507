//! The terminal panel's state: the tabs of each chat, the provider's own
//! session view, the queued input and the tab strip.
use vstd::prelude::*;
use vstd::utf8::encode_utf8;
use crate::codec::{decode_base64, frame_bytes, standard_decoded, unpadded_decoded};
use crate::composition::{
    covering, unit_range, units_before, utf16_len, Preedit, Span, TerminalComposition,
};
use crate::terminal_tabs::{
    active_after_close, active_after_reorder, exit_message, exit_text, moved, place_after_close,
    place_after_reorder, reorder_tabs, slide, slide_offset,
};
use crate::text::{
    copy_option, decimal, decimal_text, is_text, join2, join3, same_option, same_text,
    signed_decimal, signed_text, trim, trimmed,
};

verus! {

/// Keystrokes gathered for one write.
pub struct InputCoalescer {
    pub bytes: Vec<u8>,
}

impl InputCoalescer {
    pub fn new() -> (r: Self)
        ensures
            r.bytes@ == Seq::<u8>::empty(),
    {
        InputCoalescer { bytes: Vec::new() }
    }

    pub fn is_empty(&self) -> (r: bool)
        ensures
            r == (self.bytes@.len() == 0),
    {
        self.bytes.len() == 0
    }

    /// Queues bytes; `true` when nothing was queued before, so that a flush
    /// has to be scheduled.
    pub fn push(&mut self, bytes: &[u8]) -> (r: bool)
        ensures
            final(self).bytes@ == old(self).bytes@ + bytes@,
            r == (old(self).bytes@.len() == 0),
    {
        let first: bool = self.bytes.len() == 0;
        let mut more: Vec<u8> = vstd::slice::slice_to_vec(bytes);
        self.bytes.append(&mut more);
        first
    }

    /// Hands out what is queued.
    pub fn take(&mut self) -> (r: Vec<u8>)
        ensures
            r@ == old(self).bytes@,
            final(self).bytes@ == Seq::<u8>::empty(),
    {
        let mut out: Vec<u8> = Vec::new();
        out.append(&mut self.bytes);
        proof {
            assert(Seq::<u8>::empty() + old(self).bytes@ =~= old(self).bytes@);
        }
        out
    }
}

/// One terminal of a chat.
pub struct TerminalTab {
    pub key: u64,
    pub title: String,
    /// The title the running program set for itself.
    pub live_title: Option<String>,
    pub terminal_id: Option<String>,
    pub exited: Option<i32>,
    pub last_seq: u64,
    pub coalescer: InputCoalescer,
    pub cols: usize,
    pub rows: usize,
}

/// What a tab holds.
#[verifier::ext_equal]
pub struct Tab {
    pub key: u64,
    pub title: Seq<char>,
    pub live_title: Option<Seq<char>>,
    pub terminal_id: Option<Seq<char>>,
    pub exited: Option<i32>,
    pub last_seq: u64,
    pub queued: Seq<u8>,
    pub cols: usize,
    pub rows: usize,
}

impl DeepView for TerminalTab {
    type V = Tab;

    open spec fn deep_view(&self) -> Tab {
        Tab {
            key: self.key,
            title: self.title@,
            live_title: self.live_title.deep_view(),
            terminal_id: self.terminal_id.deep_view(),
            exited: self.exited,
            last_seq: self.last_seq,
            queued: self.coalescer.bytes@,
            cols: self.cols,
            rows: self.rows,
        }
    }
}

impl Tab {
    /// A tab whose terminal is being opened.
    pub open spec fn fresh(key: u64, number: nat) -> Tab {
        Tab {
            key,
            title: "Terminal "@ + decimal_text(number),
            live_title: None,
            terminal_id: None,
            exited: None,
            last_seq: 0,
            queued: Seq::empty(),
            cols: 80,
            rows: 24,
        }
    }

    /// The label: what the running program calls itself, else the fixed title.
    pub open spec fn label(self) -> Seq<char> {
        match self.live_title {
            Some(live) if trimmed(live).len() > 0 => trimmed(live),
            _ => self.title,
        }
    }

    /// The queued input may be written: the process runs and its terminal is
    /// known.
    pub open spec fn flushable(self) -> bool {
        self.exited is None && self.terminal_id is Some && self.queued.len() > 0
    }
}

impl TerminalTab {
    /// The queued input together with the terminal it goes to. Input waits
    /// until the terminal is known and is never written after an exit.
    pub fn take_input(&mut self) -> (r: Option<(String, Vec<u8>)>)
        ensures
            r is Some <==> old(self).deep_view().flushable(),
            r matches Some(write) ==> {
                &&& Some(write.0@) == old(self).deep_view().terminal_id
                &&& write.1@ == old(self).deep_view().queued
                &&& final(self).deep_view() == (Tab {
                    queued: Seq::empty(),
                    ..old(self).deep_view()
                })
            },
            r is None ==> *final(self) == *old(self),
    {
        if self.exited.is_some() || self.coalescer.is_empty() {
            return None;
        }
        let id: String = match &self.terminal_id {
            Some(id) => id.clone(),
            None => return None,
        };
        Some((id, self.coalescer.take()))
    }

    /// Drops what is queued.
    pub fn stop_input(&mut self)
        ensures
            final(self).deep_view() == (Tab { queued: Seq::empty(), ..old(self).deep_view() }),
    {
        let _dropped: Vec<u8> = self.coalescer.take();
    }

    /// The tab's label.
    pub fn display_title(&self) -> (r: String)
        ensures
            r@ == self.deep_view().label(),
    {
        match &self.live_title {
            Some(live) => {
                let bare: String = trim(live.as_str());
                if bare.as_str().is_empty() {
                    self.title.clone()
                } else {
                    bare
                }
            },
            None => self.title.clone(),
        }
    }
}

/// The terminals of one chat.
pub struct ChatTabs {
    pub tabs: Vec<TerminalTab>,
    pub active: usize,
}

/// What a chat's terminals are.
#[verifier::ext_equal]
pub struct Tabs {
    pub tabs: Seq<Tab>,
    pub active: nat,
}

impl View for ChatTabs {
    type V = Tabs;

    open spec fn view(&self) -> Tabs {
        Tabs { tabs: self.tabs.deep_view(), active: self.active as nat }
    }
}

impl Tabs {
    /// The active index names a tab wherever there is one.
    pub open spec fn wf(self) -> bool {
        self.tabs.len() > 0 ==> self.active < self.tabs.len()
    }

    /// The tab that shows.
    pub open spec fn shown(self) -> Option<Tab> {
        if self.active < self.tabs.len() {
            Some(self.tabs[self.active as int])
        } else {
            None
        }
    }

    /// The place of a key, or the number of tabs.
    pub open spec fn place(self, key: u64) -> int {
        key_place(self.tabs, key)
    }

    /// One more tab, which shows at once.
    pub open spec fn with_tab(self, key: u64) -> Tabs {
        Tabs {
            tabs: self.tabs.push(Tab::fresh(key, self.tabs.len() + 1)),
            active: self.tabs.len(),
        }
    }

    /// One tab changed.
    pub open spec fn set(self, at: int, tab: Tab) -> Tabs {
        Tabs { tabs: self.tabs.update(at, tab), ..self }
    }

    /// One tab gone.
    pub open spec fn without(self, at: int) -> Tabs {
        Tabs {
            tabs: self.tabs.remove(at),
            active: place_after_close(self.active as int, at, self.tabs.len() - 1) as nat,
        }
    }

    /// One tab moved; the active one stays active.
    pub open spec fn reordered(self, from: int, to: int) -> Tabs {
        Tabs {
            tabs: moved(self.tabs, from, to),
            active: place_after_reorder(self.active as int, from, to) as nat,
        }
    }
}

/// The first place of a key among tabs, or their number.
pub open spec fn key_place(tabs: Seq<Tab>, key: u64) -> int
    decreases tabs.len(),
{
    if tabs.len() == 0 || tabs[0].key == key {
        0
    } else {
        1 + key_place(tabs.subrange(1, tabs.len() as int), key)
    }
}

/// A key's place is the first tab with that key.
proof fn key_place_is_first(tabs: Seq<Tab>, key: u64, at: int)
    requires
        0 <= at <= tabs.len(),
        forall|i: int| 0 <= i < at ==> (#[trigger] tabs[i]).key != key,
        at < tabs.len() ==> tabs[at].key == key,
    ensures
        key_place(tabs, key) == at,
    decreases tabs.len(),
{
    if at > 0 {
        let rest = tabs.subrange(1, tabs.len() as int);
        assert forall|i: int| 0 <= i < at - 1 implies (#[trigger] rest[i]).key != key by {
            assert(rest[i] == tabs[i + 1]);
        }
        if at < tabs.len() {
            assert(rest[at - 1] == tabs[at]);
        }
        assert(tabs[0].key != key);
        key_place_is_first(rest, key, at - 1);
    }
}

/// A key's place is in the list or at its end, with the key found there and
/// nowhere before.
proof fn key_place_bounds(tabs: Seq<Tab>, key: u64)
    ensures
        0 <= key_place(tabs, key) <= tabs.len(),
        key_place(tabs, key) < tabs.len() ==> tabs[key_place(tabs, key)].key == key,
        forall|i: int| 0 <= i < key_place(tabs, key) ==> (#[trigger] tabs[i]).key != key,
    decreases tabs.len(),
{
    if tabs.len() > 0 && tabs[0].key != key {
        let rest = tabs.subrange(1, tabs.len() as int);
        key_place_bounds(rest, key);
        assert forall|i: int| 0 <= i < key_place(tabs, key) implies (#[trigger] tabs[i]).key
            != key by {
            if i > 0 {
                assert(rest[i - 1] == tabs[i]);
            }
        }
    }
}

impl ChatTabs {
    /// The place of a key, if a tab has it.
    fn find(&self, key: u64) -> (r: Option<usize>)
        ensures
            (match r {
                Some(at) => at < self.tabs@.len() && at == self@.place(key)
                    && self.tabs@[at as int].key == key,
                None => self@.place(key) == self.tabs@.len(),
            }),
    {
        let mut at: usize = 0;
        while at < self.tabs.len()
            invariant
                at <= self.tabs@.len(),
                forall|i: int| 0 <= i < at ==> (#[trigger] self.tabs@[i]).key != key,
            decreases self.tabs@.len() - at,
        {
            if self.tabs[at].key == key {
                proof {
                    let views = self.tabs.deep_view();
                    assert forall|i: int| 0 <= i < at implies (#[trigger] views[i]).key != key by {
                        assert(self.tabs@[i].key != key);
                    }
                    key_place_is_first(views, key, at as int);
                }
                return Some(at);
            }
            at += 1;
        }
        proof {
            let views = self.tabs.deep_view();
            assert forall|i: int| 0 <= i < at implies (#[trigger] views[i]).key != key by {
                assert(self.tabs@[i].key != key);
            }
            key_place_is_first(views, key, at as int);
        }
        None
    }

    /// Drops what is queued in every tab.
    fn stop_all(&mut self)
        ensures
            final(self)@ == stopped(old(self)@),
    {
        let ghost before = self@;
        let mut done: Vec<TerminalTab> = Vec::new();
        let mut rest: Vec<TerminalTab> = Vec::new();
        std::mem::swap(&mut rest, &mut self.tabs);
        let ghost all = rest.deep_view();
        for tab in it: rest
            invariant
                it.seq() == rest@,
                all == rest.deep_view(),
                done.deep_view() == stopped_tabs(all).take(it.index() as int),
        {
            let ghost sofar = done.deep_view();
            let mut tab = tab;
            let ghost was = tab.deep_view();
            tab.stop_input();
            done.push(tab);
            proof {
                assert(was == all[it.index() as int]);
                assert(done.deep_view() =~= sofar.push(tab.deep_view()));
                assert(stopped_tabs(all).take(it.index() + 1) =~= sofar.push(tab.deep_view()));
            }
        }
        self.tabs = done;
        proof {
            assert(stopped_tabs(all).take(all.len() as int) =~= stopped_tabs(all));
        }
    }

    /// Whether input is queued in any tab.
    fn any_queued(&self) -> (r: bool)
        ensures
            r == has_queued(self@),
    {
        let mut i: usize = 0;
        while i < self.tabs.len()
            invariant
                i <= self.tabs@.len(),
                forall|k: int| 0 <= k < i ==> (#[trigger] self@.tabs[k]).queued.len() == 0,
            decreases self.tabs@.len() - i,
        {
            proof {
                assert(self@.tabs[i as int] == self.tabs@[i as int].deep_view());
            }
            if !self.tabs[i].coalescer.is_empty() {
                return true;
            }
            i += 1;
        }
        false
    }
}

/// Tabs with nothing queued.
pub open spec fn stopped_tabs(tabs: Seq<Tab>) -> Seq<Tab> {
    Seq::new(tabs.len(), |i: int| Tab { queued: Seq::empty(), ..tabs[i] })
}

/// A chat's terminals with nothing queued.
pub open spec fn stopped(tabs: Tabs) -> Tabs {
    Tabs { tabs: stopped_tabs(tabs.tabs), ..tabs }
}

/// Input is queued in some tab.
pub open spec fn has_queued(tabs: Tabs) -> bool {
    exists|i: int| 0 <= i < tabs.tabs.len() && (#[trigger] tabs.tabs[i]).queued.len() > 0
}

/// Where a provider's own view stands.
#[derive(Debug)]
pub enum SessionViewStatus {
    Idle,
    Opening,
    Ready,
    Closing,
    Failed(String),
}

/// What a status says.
pub enum ViewStatus {
    Idle,
    Opening,
    Ready,
    Closing,
    Failed(Seq<char>),
}

impl View for SessionViewStatus {
    type V = ViewStatus;

    open spec fn view(&self) -> ViewStatus {
        match self {
            SessionViewStatus::Idle => ViewStatus::Idle,
            SessionViewStatus::Opening => ViewStatus::Opening,
            SessionViewStatus::Ready => ViewStatus::Ready,
            SessionViewStatus::Closing => ViewStatus::Closing,
            SessionViewStatus::Failed(error) => ViewStatus::Failed(error@),
        }
    }
}

impl ViewStatus {
    /// Input may be typed: the view is opening or ready.
    pub open spec fn takes_input(self) -> bool {
        self is Opening || self is Ready
    }
}

impl SessionViewStatus {
    pub fn accepts_input(&self) -> (r: bool)
        ensures
            r == self@.takes_input(),
    {
        matches!(self, SessionViewStatus::Opening | SessionViewStatus::Ready)
    }

    /// Whether two statuses say the same.
    pub fn same_as(&self, other: &SessionViewStatus) -> (r: bool)
        ensures
            r == (self@ == other@),
    {
        match (self, other) {
            (SessionViewStatus::Idle, SessionViewStatus::Idle) => true,
            (SessionViewStatus::Opening, SessionViewStatus::Opening) => true,
            (SessionViewStatus::Ready, SessionViewStatus::Ready) => true,
            (SessionViewStatus::Closing, SessionViewStatus::Closing) => true,
            (SessionViewStatus::Failed(a), SessionViewStatus::Failed(b)) => *a == *b,
            _ => false,
        }
    }
}

/// Drag-reorder state; `epoch` restarts the slide animation.
#[derive(Debug, Clone, Copy, PartialEq, Eq, Structural)]
pub struct DragState {
    pub from: usize,
    pub over: usize,
    pub epoch: usize,
    pub prev_over: usize,
}

/// A drag over another place; moving to a new place restarts the slide from
/// where it was.
pub open spec fn dragged_over(drag: Option<DragState>, from: usize, over: usize) -> DragState {
    match drag {
        None => DragState { from, over, epoch: 0, prev_over: from },
        Some(drag) => if drag.over != over {
            DragState { over, prev_over: drag.over, epoch: (drag.epoch + 1) as usize, ..drag }
        } else {
            drag
        },
    }
}

/// A chat and the device that hosts it.
pub struct ChatHost {
    pub id: String,
    pub device_id: String,
}

/// What the panel reads of the application.
pub struct AppView {
    pub selected_chat: Option<String>,
    /// An engine is connected.
    pub engine: bool,
    pub local_device_id: Option<String>,
    pub chats: Vec<ChatHost>,
}

/// The terminal panel.
pub struct TerminalPanel {
    pub chats: Vec<(String, ChatTabs)>,
    pub open: bool,
    /// The shell owns the tab strip; tabs are only created explicitly.
    pub embedded: bool,
    pub session_view: bool,
    pub session_chat: Option<String>,
    pub session_status: SessionViewStatus,
    /// An open request is shared by its callers.
    pub session_open: bool,
    /// A close request is shared by its callers.
    pub session_close: bool,
    pub native_activity: Option<String>,
    pub native_watch: bool,
    pub resize_suspended: bool,
    pub tab_seq: u64,
    pub drag: Option<DragState>,
    pub last_selected: Option<String>,
    pub composition: TerminalComposition,
}

/// What a panel is.
#[verifier::ext_equal]
pub struct Panel {
    pub chats: Map<Seq<char>, Tabs>,
    pub open: bool,
    pub embedded: bool,
    pub session_view: bool,
    pub session_chat: Option<Seq<char>>,
    pub status: ViewStatus,
    pub session_open: bool,
    pub session_close: bool,
    pub activity: Option<Seq<char>>,
    pub watching: bool,
    pub resize_suspended: bool,
    pub tab_seq: u64,
    pub drag: Option<DragState>,
    pub last_selected: Option<Seq<char>>,
    pub preedit: Preedit,
}

/// The first place of a chat in the list, or its length.
pub open spec fn chat_place(chats: Seq<(String, ChatTabs)>, chat: Seq<char>) -> int
    decreases chats.len(),
{
    if chats.len() == 0 || chats[0].0@ == chat {
        0
    } else {
        1 + chat_place(chats.subrange(1, chats.len() as int), chat)
    }
}

/// The terminals by chat.
pub open spec fn chat_map(chats: Seq<(String, ChatTabs)>) -> Map<Seq<char>, Tabs> {
    Map::new(
        |chat: Seq<char>| chat_place(chats, chat) < chats.len(),
        |chat: Seq<char>| chats[chat_place(chats, chat)].1@,
    )
}

/// Each chat is listed once.
pub open spec fn chats_distinct(chats: Seq<(String, ChatTabs)>) -> bool {
    forall|i: int, j: int|
        0 <= i < j < chats.len() ==> (#[trigger] chats[i]).0@ != (#[trigger] chats[j]).0@
}

/// A chat's place is where its name stands.
proof fn chat_place_is_first(chats: Seq<(String, ChatTabs)>, chat: Seq<char>, at: int)
    requires
        0 <= at <= chats.len(),
        forall|i: int| 0 <= i < at ==> (#[trigger] chats[i]).0@ != chat,
        at < chats.len() ==> chats[at].0@ == chat,
    ensures
        chat_place(chats, chat) == at,
    decreases chats.len(),
{
    if at > 0 {
        let rest = chats.subrange(1, chats.len() as int);
        assert forall|i: int| 0 <= i < at - 1 implies (#[trigger] rest[i]).0@ != chat by {
            assert(rest[i] == chats[i + 1]);
        }
        if at < chats.len() {
            assert(rest[at - 1] == chats[at]);
        }
        assert(chats[0].0@ != chat);
        chat_place_is_first(rest, chat, at - 1);
    }
}

/// A chat's place is in the list or at its end, with the name found there and
/// nowhere before.
proof fn chat_place_bounds(chats: Seq<(String, ChatTabs)>, chat: Seq<char>)
    ensures
        0 <= chat_place(chats, chat) <= chats.len(),
        chat_place(chats, chat) < chats.len() ==> chats[chat_place(chats, chat)].0@ == chat,
        forall|i: int| 0 <= i < chat_place(chats, chat) ==> (#[trigger] chats[i]).0@ != chat,
    decreases chats.len(),
{
    if chats.len() > 0 && chats[0].0@ != chat {
        let rest = chats.subrange(1, chats.len() as int);
        chat_place_bounds(rest, chat);
        assert forall|i: int| 0 <= i < chat_place(chats, chat) implies (#[trigger] chats[i]).0@
            != chat by {
            if i > 0 {
                assert(rest[i - 1] == chats[i]);
            }
        }
    }
}

/// Changing one chat's terminals changes them for that chat alone.
proof fn map_after_change(before: Seq<(String, ChatTabs)>, at: int, tabs: ChatTabs)
    requires
        chats_distinct(before),
        0 <= at < before.len(),
    ensures
        ({
            let after = before.update(at, (before[at].0, tabs));
            &&& chats_distinct(after)
            &&& chat_map(after) == chat_map(before).insert(before[at].0@, tabs@)
        }),
{
    let after = before.update(at, (before[at].0, tabs));
    assert forall|chat: Seq<char>| #[trigger] chat_place(after, chat) == chat_place(
        before,
        chat,
    ) by {
        chat_place_bounds(before, chat);
        let place = chat_place(before, chat);
        assert forall|i: int| 0 <= i < place implies (#[trigger] after[i]).0@ != chat by {
            assert(before[i].0@ != chat);
        }
        chat_place_is_first(after, chat, place);
    }
    assert(chat_place(before, before[at].0@) == at) by {
        assert forall|i: int| 0 <= i < at implies (#[trigger] before[i]).0@ != before[at].0@ by {
        }
        chat_place_is_first(before, before[at].0@, at);
    }
    assert forall|chat: Seq<char>| chat_map(after).dom().contains(chat) implies (
    #[trigger] chat_map(after)[chat]) == chat_map(before).insert(before[at].0@, tabs@)[chat] by {
        chat_place_bounds(before, chat);
        chat_place_bounds(after, chat);
        assert(chat_place(after, chat) == chat_place(before, chat));
    }
    assert(chat_map(after) =~= chat_map(before).insert(before[at].0@, tabs@));
}

/// A new chat at the end joins the others.
proof fn map_after_push(before: Seq<(String, ChatTabs)>, entry: (String, ChatTabs))
    requires
        chats_distinct(before),
        chat_place(before, entry.0@) == before.len(),
    ensures
        chats_distinct(before.push(entry)),
        chat_map(before.push(entry)) == chat_map(before).insert(entry.0@, entry.1@),
{
    let after = before.push(entry);
    chat_place_bounds(before, entry.0@);
    assert forall|i: int, j: int| 0 <= i < j < after.len() implies (#[trigger] after[i]).0@ != (
    #[trigger] after[j]).0@ by {
        if j == before.len() {
            assert(before[i].0@ != entry.0@);
        }
    }
    assert forall|chat: Seq<char>| #[trigger] chat_place(after, chat) == chat_place(
        before,
        chat,
    ) || (chat == entry.0@ && chat_place(after, chat) == before.len()) || (chat != entry.0@
        && chat_place(before, chat) == before.len() && chat_place(after, chat) == after.len()) by {
        chat_place_bounds(before, chat);
        let place = chat_place(before, chat);
        assert forall|i: int| 0 <= i < place implies (#[trigger] after[i]).0@ != chat by {
            assert(before[i].0@ != chat);
        }
        if place < before.len() {
            chat_place_is_first(after, chat, place);
        } else if chat == entry.0@ {
            chat_place_is_first(after, chat, place);
        } else {
            assert forall|i: int| 0 <= i < after.len() implies (#[trigger] after[i]).0@ != chat by {
                if i < before.len() {
                    assert(before[i].0@ != chat);
                }
            }
            chat_place_is_first(after, chat, after.len() as int);
        }
    }
    assert forall|chat: Seq<char>|
        chat_map(after).dom().contains(chat) == chat_map(before).insert(
            entry.0@,
            entry.1@,
        ).dom().contains(chat) by {
        chat_place_bounds(before, chat);
        chat_place_bounds(after, chat);
        assert(chat_place(after, chat) == chat_place(after, chat));
    }
    assert forall|chat: Seq<char>| chat_map(after).dom().contains(chat) implies (
    #[trigger] chat_map(after)[chat]) == chat_map(before).insert(entry.0@, entry.1@)[chat] by {
        chat_place_bounds(before, chat);
        chat_place_bounds(after, chat);
        assert(chat_place(after, chat) == chat_place(after, chat));
    }
    assert(chat_map(after) =~= chat_map(before).insert(entry.0@, entry.1@));
}

/// A removed chat leaves the others.
proof fn map_after_remove(before: Seq<(String, ChatTabs)>, at: int)
    requires
        chats_distinct(before),
        0 <= at < before.len(),
    ensures
        chats_distinct(before.remove(at)),
        chat_map(before.remove(at)) == chat_map(before).remove(before[at].0@),
{
    let after = before.remove(at);
    let gone = before[at].0@;
    assert forall|i: int, j: int| 0 <= i < j < after.len() implies (#[trigger] after[i]).0@ != (
    #[trigger] after[j]).0@ by {
        let a = if i < at { i } else { i + 1 };
        let b = if j < at { j } else { j + 1 };
        assert(after[i] == before[a] && after[j] == before[b]);
    }
    assert forall|chat: Seq<char>| #[trigger]
        chat_map(after).dom().contains(chat) <==> chat != gone && chat_map(
            before,
        ).dom().contains(chat) by {
        chat_place_bounds(before, chat);
        chat_place_bounds(after, chat);
        let place = chat_place(after, chat);
        if place < after.len() {
            let a = if place < at { place } else { place + 1 };
            assert(after[place] == before[a]);
            assert(chat != gone) by {
                if a < at {
                    assert(before[a].0@ != before[at].0@);
                } else {
                    assert(before[at].0@ != before[a].0@);
                }
            }
            if chat_place(before, chat) == before.len() {
                assert(before[a].0@ != chat);
            }
        }
        let was = chat_place(before, chat);
        if was < before.len() && chat != gone {
            let b = if was < at { was } else { was - 1 };
            assert(after[b] == before[was]);
            if place == after.len() {
                assert(after[b].0@ != chat);
            }
        }
    }
    assert forall|chat: Seq<char>| chat_map(after).dom().contains(chat) implies (
    #[trigger] chat_map(after)[chat]) == chat_map(before)[chat] by {
        chat_place_bounds(before, chat);
        chat_place_bounds(after, chat);
        let place = chat_place(after, chat);
        let a = if place < at { place } else { place + 1 };
        assert(after[place] == before[a]);
        assert forall|i: int| 0 <= i < a implies (#[trigger] before[i]).0@ != chat by {
        }
        chat_place_is_first(before, chat, a);
    }
    assert(chat_map(after) =~= chat_map(before).remove(gone));
}

impl View for TerminalPanel {
    type V = Panel;

    open spec fn view(&self) -> Panel {
        Panel {
            chats: chat_map(self.chats@),
            open: self.open,
            embedded: self.embedded,
            session_view: self.session_view,
            session_chat: self.session_chat.deep_view(),
            status: self.session_status@,
            session_open: self.session_open,
            session_close: self.session_close,
            activity: self.native_activity.deep_view(),
            watching: self.native_watch,
            resize_suspended: self.resize_suspended,
            tab_seq: self.tab_seq,
            drag: self.drag,
            last_selected: self.last_selected.deep_view(),
            preedit: self.composition@,
        }
    }
}

/// What the panel reads of the application.
#[verifier::ext_equal]
pub struct App {
    pub selected_chat: Option<Seq<char>>,
    pub engine: bool,
    pub local_device_id: Option<Seq<char>>,
}

impl View for AppView {
    type V = App;

    open spec fn view(&self) -> App {
        App {
            selected_chat: self.selected_chat.deep_view(),
            engine: self.engine,
            local_device_id: self.local_device_id.deep_view(),
        }
    }
}

impl Panel {
    /// A closed drawer without terminals.
    pub open spec fn fresh() -> Panel {
        Panel {
            chats: Map::empty(),
            open: false,
            embedded: false,
            session_view: false,
            session_chat: None,
            status: ViewStatus::Idle,
            session_open: false,
            session_close: false,
            activity: None,
            watching: false,
            resize_suspended: false,
            tab_seq: 0,
            drag: None,
            last_selected: None,
            preedit: Preedit::none(),
        }
    }

    /// Nothing is being composed.
    pub open spec fn uncomposed(self) -> Panel {
        Panel { preedit: Preedit::none(), ..self }
    }

    /// The chat whose terminals show: the bound one of a provider's view, else
    /// the selected one.
    pub open spec fn chat(self, app: App) -> Option<Seq<char>> {
        if self.session_view && self.session_chat is Some {
            self.session_chat
        } else {
            app.selected_chat
        }
    }

    /// The terminals that show.
    pub open spec fn chat_tabs(self, app: App) -> Option<Tabs> {
        match self.chat(app) {
            Some(chat) if self.chats.dom().contains(chat) => Some(self.chats[chat]),
            _ => None,
        }
    }

    /// The terminal that shows.
    pub open spec fn active_tab(self, app: App) -> Option<Tab> {
        match self.chat_tabs(app) {
            Some(tabs) => tabs.shown(),
            None => None,
        }
    }

    /// Input may be typed.
    pub open spec fn takes_input(self) -> bool {
        !self.session_view || self.status.takes_input()
    }

    /// Platform text may be composed.
    pub open spec fn takes_text(self, app: App) -> bool {
        &&& self.open
        &&& self.takes_input()
        &&& self.active_tab(app) is Some
        &&& self.active_tab(app)->0.exited is None
    }

    /// The panel at another status. Nothing happens where it is the same; a
    /// status that takes no input drops the composition, readiness begins to
    /// watch the native session, and idling ends the watch.
    pub open spec fn at_status(self, status: ViewStatus, engine: bool) -> Panel {
        if self.status == status {
            self
        } else {
            Panel {
                status,
                preedit: if status.takes_input() {
                    self.preedit
                } else {
                    Preedit::none()
                },
                watching: if status is Idle {
                    false
                } else {
                    self.watching || (status is Ready && self.session_chat is Some && engine)
                },
                activity: if status is Idle {
                    None
                } else {
                    self.activity
                },
                ..self
            }
        }
    }

    /// One more terminal for a chat. Without an engine nothing opens.
    pub open spec fn with_tab(self, chat: Seq<char>, engine: bool) -> Panel {
        if !engine {
            self
        } else {
            let key = (self.tab_seq + 1) as u64;
            let before = if self.chats.dom().contains(chat) {
                self.chats[chat]
            } else {
                Tabs { tabs: Seq::empty(), active: 0 }
            };
            Panel {
                tab_seq: key,
                chats: self.chats.insert(chat, before.with_tab(key)),
                ..self.uncomposed()
            }
        }
    }

    /// The first terminal of the shown chat, where it has none.
    pub open spec fn ensured(self, app: App) -> Panel {
        match self.chat(app) {
            Some(chat) => if self.session_view || (self.chats.dom().contains(chat)
                && self.chats[chat].tabs.len() > 0) {
                self
            } else {
                self.with_tab(chat, app.engine)
            },
            None => self,
        }
    }

    /// The tab of a chat under a key.
    pub open spec fn tab(self, chat: Seq<char>, key: u64) -> Option<Tab> {
        if self.chats.dom().contains(chat) && self.chats[chat].place(key)
            < self.chats[chat].tabs.len() {
            Some(self.chats[chat].tabs[self.chats[chat].place(key)])
        } else {
            None
        }
    }

    /// A terminal's id is known, so that a view that was opening is ready.
    pub open spec fn attached(self, chat: Seq<char>, key: u64, id: Seq<char>, engine: bool) -> Panel {
        let named = self.with_tab_set(
            chat,
            key,
            Tab { terminal_id: Some(id), ..self.tab(chat, key)->0 },
        );
        if self.session_view && self.status is Opening {
            named.at_status(ViewStatus::Ready, engine)
        } else {
            named
        }
    }

    /// One tab changed.
    pub open spec fn with_tab_set(self, chat: Seq<char>, key: u64, tab: Tab) -> Panel {
        let tabs = self.chats[chat];
        Panel { chats: self.chats.insert(chat, tabs.set(tabs.place(key), tab)), ..self }
    }
}

/// What a status change asks for.
#[derive(Debug, Clone, Copy, PartialEq, Eq, Structural)]
pub struct StatusEffect {
    /// Subscribers hear of the new status.
    pub emitted: bool,
    /// The native session has to be watched from now on.
    pub watch: bool,
}

/// How a request to open a provider's view is answered.
pub enum OpenReply {
    Refused(String),
    /// The pending request is shared.
    Shared,
    /// A terminal is being opened for the chat, under the key.
    Opening { chat: String, key: u64 },
}

/// How a request to close a provider's view is answered.
pub enum CloseReply {
    Refused(String),
    /// The pending request is shared.
    Shared,
    /// There is nothing to release.
    Done,
    /// The chat's terminal is to be released, after a pending open.
    Closing { chat: String, after_open: bool },
}

/// What a stream frame says.
pub enum TerminalEvent {
    Data { seq: u64, data: String },
    Exit { seq: u64, exit_code: i32 },
}

/// What a stream frame asks for.
pub struct StreamReply {
    /// Bytes for the emulator.
    pub feed: Vec<u8>,
    /// The stream is over.
    pub stop: bool,
}

/// What queued input asks for.
#[derive(Debug, Clone, Copy, PartialEq, Eq, Structural)]
pub struct QueueEffect {
    /// The tab the bytes went to; its view snaps to the live bottom.
    pub key: u64,
    /// A flush has to be scheduled.
    pub schedule: bool,
    /// A human submitted a line to the provider's own session.
    pub submitted: bool,
}

/// How a request to close a tab is answered.
pub enum CloseTabReply {
    /// A provider's view closes as a whole.
    Session(CloseReply),
    /// There is no such tab.
    Nothing,
    /// The tab is gone: whether the drawer closes with it, and the terminal to
    /// release.
    Closed { toggle_drawer: bool, release: Option<String> },
}

/// How a tab's queued input is handed out: only while input is taken, an
/// engine is connected, the terminal is known and its process runs.
pub open spec fn flushed(
    before: Panel,
    after: Panel,
    chat: Seq<char>,
    key: u64,
    engine: bool,
    write: Option<(String, Vec<u8>)>,
) -> bool {
    let tab = before.tab(chat, key);
    if before.takes_input() && engine && tab is Some && tab->0.flushable() {
        &&& write is Some
        &&& Some((write->Some_0).0@) == tab->0.terminal_id
        &&& (write->Some_0).1@ == tab->0.queued
        &&& after == before.with_tab_set(chat, key, Tab { queued: Seq::empty(), ..tab->0 })
    } else {
        &&& write is None
        &&& after == before
    }
}

/// How a request to close a provider's view ends: what is answered, and what
/// the panel becomes.
pub open spec fn view_closed(before: Panel, after: Panel, app: App, reply: CloseReply) -> bool {
    let chat = before.session_chat;
    if !before.session_view {
        &&& reply is Refused && reply->Refused_0@ == "Not a session terminal view"@
        &&& after == before
    } else if before.status is Closing && before.session_close {
        &&& reply is Shared
        &&& after == before
    } else if chat is None {
        &&& reply is Done
        &&& after == before.at_status(ViewStatus::Idle, app.engine)
    } else if !app.engine {
        let error = "Engine is not connected"@;
        &&& reply is Refused && reply->Refused_0@ == error
        &&& after == before.at_status(ViewStatus::Failed(error), app.engine)
    } else if before.chats.dom().contains(chat->0) && has_queued(before.chats[chat->0]) {
        &&& reply is Refused && reply->Refused_0@
            == "Wait for buffered terminal input before switching views"@
        &&& after == before
    } else {
        let closing = before.at_status(ViewStatus::Closing, true);
        &&& after == (Panel {
            session_close: true,
            chats: if before.chats.dom().contains(chat->0) {
                before.chats.insert(chat->0, stopped(before.chats[chat->0]))
            } else {
                before.chats
            },
            ..closing
        })
        &&& reply is Closing && reply->Closing_chat@ == chat->0
        &&& reply->after_open == before.session_open
    }
}

/// How a request to close a tab ends.
pub open spec fn tab_closed(
    before: Panel,
    after: Panel,
    app: App,
    chat: Seq<char>,
    key: u64,
    reply: CloseTabReply,
) -> bool {
    if before.session_view {
        &&& reply is Session
        &&& view_closed(before, after, app, reply->Session_0)
    } else {
        match before.tab(chat, key) {
            None => reply is Nothing && after == before,
            Some(tab) => {
                let left = before.chats[chat].without(before.chats[chat].place(key));
                &&& after == (Panel {
                    chats: before.chats.insert(chat, left),
                    drag: None,
                    ..before.uncomposed()
                })
                &&& reply is Closed
                &&& reply->toggle_drawer == (left.tabs.len() == 0 && before.open
                    && !before.embedded)
                &&& reply->release.deep_view() == (if app.engine {
                    tab.terminal_id
                } else {
                    None
                })
            },
        }
    }
}

impl TerminalPanel {
    /// Each chat is listed once, and the composition's selection lies in its
    /// text.
    pub open spec fn wf(&self) -> bool {
        &&& chats_distinct(self.chats@)
        &&& self.composition.wf()
    }

    pub fn new() -> (r: Self)
        ensures
            r.wf(),
            r@ == Panel::fresh(),
    {
        let r = TerminalPanel {
            chats: Vec::new(),
            open: false,
            embedded: false,
            session_view: false,
            session_chat: None,
            session_status: SessionViewStatus::Idle,
            session_open: false,
            session_close: false,
            native_activity: None,
            native_watch: false,
            resize_suspended: false,
            tab_seq: 0,
            drag: None,
            last_selected: None,
            composition: TerminalComposition::new(),
        };
        proof {
            assert(r@.chats =~= Map::<Seq<char>, Tabs>::empty());
        }
        r
    }

    /// A panel whose tab strip the shell owns.
    pub fn new_embedded() -> (r: Self)
        ensures
            r.wf(),
            r@ == (Panel { embedded: true, ..Panel::fresh() }),
    {
        let mut panel = Self::new();
        panel.embedded = true;
        panel
    }

    /// One provider terminal, bound to the selected chat without opening a
    /// process.
    pub fn new_session_view(app: &AppView) -> (r: Self)
        ensures
            r.wf(),
            r@ == (Panel {
                embedded: true,
                session_view: true,
                session_chat: app@.selected_chat,
                ..Panel::fresh()
            }),
    {
        let mut panel = Self::new_embedded();
        panel.session_view = true;
        panel.session_chat = copy_option(&app.selected_chat);
        panel
    }

    pub fn session_view_status(&self) -> (r: &SessionViewStatus)
        ensures
            *r == self.session_status,
    {
        &self.session_status
    }

    /// Why the native session cannot be handed over, if it cannot.
    pub fn handoff_unavailable(&self) -> (r: Option<&'static str>)
        ensures
            r.deep_view() == (match self@.activity {
                Some(activity) => if activity == "idle"@ {
                    None
                } else if activity == "busy"@ || activity == "permission"@ {
                    Some("Session is busy"@)
                } else {
                    Some("Native session state is not verified"@)
                },
                None => Some("Native session state is not verified"@),
            }),
    {
        if is_text(&self.native_activity, "idle") {
            None
        } else if is_text(&self.native_activity, "busy") || is_text(
            &self.native_activity,
            "permission",
        ) {
            Some("Session is busy")
        } else {
            Some("Native session state is not verified")
        }
    }

    /// Takes over the reported native activity. Returns whether it changed.
    pub fn note_native_activity(&mut self, activity: Option<String>) -> (r: bool)
        requires
            old(self).wf(),
        ensures
            final(self).wf(),
            r == (old(self)@.activity != activity.deep_view()),
            final(self)@ == (Panel { activity: activity.deep_view(), ..old(self)@ }),
    {
        let changed: bool = !same_option(&self.native_activity, &activity);
        self.native_activity = activity;
        changed
    }

    pub fn cancel_composition(&mut self)
        requires
            old(self).wf(),
        ensures
            final(self).wf(),
            final(self)@ == old(self)@.uncomposed(),
            final(self).chats == old(self).chats,
    {
        self.composition.clear();
    }

    /// Moves to a status; only a transition is emitted.
    pub fn set_session_status(&mut self, status: SessionViewStatus, engine: bool) -> (r:
        StatusEffect)
        requires
            old(self).wf(),
        ensures
            final(self).wf(),
            final(self)@ == old(self)@.at_status(status@, engine),
            final(self).chats == old(self).chats,
            r.emitted == (old(self)@.status != status@),
            r.watch == (final(self)@.watching && !old(self)@.watching),
    {
        if self.session_status.same_as(&status) {
            return StatusEffect { emitted: false, watch: false };
        }
        if !status.accepts_input() {
            self.cancel_composition();
        }
        let mut watch: bool = false;
        match status {
            SessionViewStatus::Ready => {
                if !self.native_watch && self.session_chat.is_some() && engine {
                    self.native_watch = true;
                    watch = true;
                }
            },
            SessionViewStatus::Idle => {
                self.native_watch = false;
                self.native_activity = None;
            },
            _ => {},
        }
        self.session_status = status;
        StatusEffect { emitted: true, watch }
    }

    pub fn accepts_input(&self) -> (r: bool)
        ensures
            r == self@.takes_input(),
    {
        !self.session_view || self.session_status.accepts_input()
    }

    /// The chat whose terminals show.
    pub fn selected_chat(&self, app: &AppView) -> (r: Option<String>)
        ensures
            r.deep_view() == self@.chat(app@),
    {
        if self.session_view && self.session_chat.is_some() {
            return copy_option(&self.session_chat);
        }
        copy_option(&app.selected_chat)
    }

    /// The place of a chat in the list.
    fn find_chat(&self, chat: &str) -> (r: Option<usize>)
        ensures
            (match r {
                Some(at) => {
                    &&& at < self.chats@.len()
                    &&& at == chat_place(self.chats@, chat@)
                    &&& self.chats@[at as int].0@ == chat@
                    &&& self@.chats.dom().contains(chat@)
                    &&& self@.chats[chat@] == self.chats@[at as int].1@
                },
                None => {
                    &&& chat_place(self.chats@, chat@) == self.chats@.len()
                    &&& !self@.chats.dom().contains(chat@)
                },
            }),
    {
        let mut at: usize = 0;
        while at < self.chats.len()
            invariant
                at <= self.chats@.len(),
                forall|i: int| 0 <= i < at ==> (#[trigger] self.chats@[i]).0@ != chat@,
            decreases self.chats@.len() - at,
        {
            if same_text(self.chats[at].0.as_str(), chat) {
                proof {
                    chat_place_is_first(self.chats@, chat@, at as int);
                }
                return Some(at);
            }
            at += 1;
        }
        proof {
            chat_place_is_first(self.chats@, chat@, at as int);
        }
        None
    }

    /// Changes the terminals of the chat at a place.
    fn put_tabs(&mut self, at: usize, tabs: ChatTabs)
        requires
            old(self).wf(),
            at < old(self).chats@.len(),
        ensures
            final(self).wf(),
            final(self)@ == (Panel {
                chats: old(self)@.chats.insert(old(self).chats@[at as int].0@, tabs@),
                ..old(self)@
            }),
    {
        let ghost before = self.chats@;
        let entry: (String, ChatTabs) = self.chats.remove(at);
        self.chats.insert(at, (entry.0, tabs));
        proof {
            map_after_change(before, at as int, tabs);
            assert(self.chats@ =~= before.update(at as int, (before[at as int].0, tabs)));
        }
    }

    /// Takes the terminals of the chat at a place out, leaving none behind.
    fn take_tabs(&mut self, at: usize) -> (r: ChatTabs)
        requires
            old(self).wf(),
            at < old(self).chats@.len(),
        ensures
            final(self).wf(),
            r == old(self).chats@[at as int].1,
            final(self).chats@.len() == old(self).chats@.len(),
            final(self).chats@[at as int].0 == old(self).chats@[at as int].0,
            final(self)@ == (Panel {
                chats: old(self)@.chats.insert(
                    old(self).chats@[at as int].0@,
                    Tabs { tabs: Seq::empty(), active: 0 },
                ),
                ..old(self)@
            }),
    {
        let ghost before = self.chats@;
        let entry: (String, ChatTabs) = self.chats.remove(at);
        let empty: ChatTabs = ChatTabs { tabs: Vec::new(), active: 0 };
        proof {
            assert(empty@ =~= (Tabs { tabs: Seq::empty(), active: 0 }));
            assert forall|i: int| 0 <= i < at implies (#[trigger] before[i]).0@ != before[at as int].0@ by {
            }
            chat_place_is_first(before, before[at as int].0@, at as int);
            assert(chat_map(before)[before[at as int].0@] == before[at as int].1@);
        }
        self.chats.insert(at, (entry.0, empty));
        proof {
            map_after_change(before, at as int, empty);
            assert(self.chats@ =~= before.update(at as int, (before[at as int].0, empty)));
        }
        entry.1
    }

    /// Forgets the terminals of a chat.
    fn forget_chat(&mut self, chat: &str)
        requires
            old(self).wf(),
        ensures
            final(self).wf(),
            final(self)@ == (Panel { chats: old(self)@.chats.remove(chat@), ..old(self)@ }),
    {
        match self.find_chat(chat) {
            Some(at) => {
                let ghost before = self.chats@;
                let _gone: (String, ChatTabs) = self.chats.remove(at);
                proof {
                    map_after_remove(before, at as int);
                }
            },
            None => {
                proof {
                    assert(self@.chats.remove(chat@) =~= self@.chats);
                }
            },
        }
    }

    /// Opens one more terminal for a chat. Returns its key, or `None` without
    /// an engine.
    fn open_tab_with_ready(&mut self, chat: String, engine: bool) -> (r: Option<u64>)
        requires
            old(self).wf(),
            old(self).tab_seq < u64::MAX,
        ensures
            final(self).wf(),
            final(self)@ == old(self)@.with_tab(chat@, engine),
            r == (if engine {
                Some(final(self).tab_seq)
            } else {
                None
            }),
    {
        if !engine {
            return None;
        }
        self.cancel_composition();
        self.tab_seq = self.tab_seq + 1;
        let key: u64 = self.tab_seq;
        let at: usize = match self.find_chat(chat.as_str()) {
            Some(at) => at,
            None => {
                let ghost before = self.chats@;
                let name: String = chat.clone();
                let none: ChatTabs = ChatTabs { tabs: Vec::new(), active: 0 };
                proof {
                    assert(none@ =~= (Tabs { tabs: Seq::empty(), active: 0 }));
                }
                self.chats.push((name, none));
                proof {
                    map_after_push(before, (name, none));
                }
                self.chats.len() - 1
            },
        };
        let ghost mid = self@;
        proof {
            assert(self.chats@[at as int].0@ == chat@);
        }
        let mut tabs: ChatTabs = self.take_tabs(at);
        let ghost was = tabs@;
        let number: String = decimal((tabs.tabs.len() as u128 + 1) as u64);
        let tab: TerminalTab = TerminalTab {
            key,
            title: join2("Terminal ", number.as_str()),
            live_title: None,
            terminal_id: None,
            exited: None,
            last_seq: 0,
            coalescer: InputCoalescer::new(),
            cols: 80,
            rows: 24,
        };
        let ghost fresh = tab.deep_view();
        tabs.tabs.push(tab);
        tabs.active = tabs.tabs.len() - 1;
        proof {
            assert(fresh =~= Tab::fresh(key, was.tabs.len() + 1));
            assert(tabs.tabs.deep_view() =~= was.tabs.push(fresh));
        }
        self.put_tabs(at, tabs);
        proof {
            assert(self@.chats =~= old(self)@.with_tab(chat@, engine).chats);
        }
        Some(key)
    }

    /// Opens one more terminal for a chat, unless the panel is a provider's
    /// own view.
    pub fn open_tab(&mut self, chat: String, engine: bool) -> (r: Option<u64>)
        requires
            old(self).wf(),
            old(self).tab_seq < u64::MAX,
        ensures
            final(self).wf(),
            final(self)@ == (if old(self).session_view {
                old(self)@
            } else {
                old(self)@.with_tab(chat@, engine)
            }),
            r == (if engine && !old(self).session_view {
                Some(final(self).tab_seq)
            } else {
                None
            }),
    {
        if self.session_view {
            return None;
        }
        self.open_tab_with_ready(chat, engine)
    }

    /// Gives the shown chat its first terminal, where it has none.
    pub fn ensure_tab(&mut self, app: &AppView) -> (r: Option<u64>)
        requires
            old(self).wf(),
            old(self).tab_seq < u64::MAX,
        ensures
            final(self).wf(),
            final(self)@ == old(self)@.ensured(app@),
            r is Some ==> r == Some(final(self).tab_seq),
            r is Some <==> final(self).tab_seq != old(self).tab_seq,
    {
        let chat: String = match self.selected_chat(app) {
            Some(chat) => chat,
            None => return None,
        };
        match self.find_chat(chat.as_str()) {
            Some(at) => {
                if self.chats[at].1.tabs.len() > 0 {
                    return None;
                }
            },
            None => {},
        }
        self.open_tab(chat, app.engine)
    }

    /// Opens or reattaches a provider's view; repeated calls share the pending
    /// request.
    pub fn open_session_view(&mut self, app: &AppView) -> (r: OpenReply)
        requires
            old(self).wf(),
            old(self).tab_seq < u64::MAX,
        ensures
            final(self).wf(),
            ({
                let before = old(self)@;
                let chat = before.chat(app@);
                if !before.session_view {
                    &&& r is Refused && r->Refused_0@ == "Not a session terminal view"@
                    &&& final(self)@ == before
                } else if before.status is Closing {
                    &&& r is Refused && r->Refused_0@ == "Session terminal is closing"@
                    &&& final(self)@ == before
                } else if before.status.takes_input() && before.session_open {
                    &&& r is Shared
                    &&& final(self)@ == before
                } else if chat is None {
                    let error = "Select a chat to open its session terminal"@;
                    &&& r is Refused && r->Refused_0@ == error
                    &&& final(self)@ == before.at_status(ViewStatus::Failed(error), app@.engine)
                } else if !app@.engine {
                    let error = "Engine is not connected"@;
                    &&& r is Refused && r->Refused_0@ == error
                    &&& final(self)@ == before.at_status(ViewStatus::Failed(error), app@.engine)
                } else {
                    let opening = (Panel {
                        session_chat: chat,
                        open: true,
                        session_close: false,
                        chats: before.chats.remove(chat->0),
                        ..before
                    }).at_status(ViewStatus::Opening, true);
                    &&& final(self)@ == (Panel {
                        session_open: true,
                        ..opening.with_tab(chat->0, true)
                    })
                    &&& r is Opening && r->Opening_chat@ == chat->0
                    &&& r->Opening_key == final(self).tab_seq
                }
            }),
    {
        if !self.session_view {
            return OpenReply::Refused("Not a session terminal view".to_owned());
        }
        match self.session_status {
            SessionViewStatus::Closing => {
                return OpenReply::Refused("Session terminal is closing".to_owned());
            },
            _ => {},
        }
        if self.session_status.accepts_input() && self.session_open {
            return OpenReply::Shared;
        }
        let chat: String = match self.selected_chat(app) {
            Some(chat) => chat,
            None => {
                let error: String = "Select a chat to open its session terminal".to_owned();
                let copy: String = error.clone();
                let _effect: StatusEffect = self.set_session_status(
                    SessionViewStatus::Failed(copy),
                    app.engine,
                );
                return OpenReply::Refused(error);
            },
        };
        if !app.engine {
            let error: String = "Engine is not connected".to_owned();
            let copy: String = error.clone();
            let _effect: StatusEffect = self.set_session_status(
                SessionViewStatus::Failed(copy),
                app.engine,
            );
            return OpenReply::Refused(error);
        }
        self.session_chat = Some(chat.clone());
        self.open = true;
        self.session_close = false;
        self.forget_chat(chat.as_str());
        let _effect: StatusEffect = self.set_session_status(SessionViewStatus::Opening, true);
        let name: String = chat.clone();
        let _key: Option<u64> = self.open_tab_with_ready(name, true);
        self.session_open = true;
        OpenReply::Opening { chat, key: self.tab_seq }
    }

    /// Stops writes at once and asks for the release of a provider's terminal.
    /// Buffered input has to go out first.
    pub fn close_session_view(&mut self, app: &AppView) -> (r: CloseReply)
        requires
            old(self).wf(),
        ensures
            final(self).wf(),
            view_closed(old(self)@, final(self)@, app@, r),
    {
        if !self.session_view {
            return CloseReply::Refused("Not a session terminal view".to_owned());
        }
        let closing: bool = match self.session_status {
            SessionViewStatus::Closing => true,
            _ => false,
        };
        if closing && self.session_close {
            return CloseReply::Shared;
        }
        let chat: String = match &self.session_chat {
            Some(chat) => chat.clone(),
            None => {
                let _effect: StatusEffect = self.set_session_status(
                    SessionViewStatus::Idle,
                    app.engine,
                );
                return CloseReply::Done;
            },
        };
        if !app.engine {
            let error: String = "Engine is not connected".to_owned();
            let copy: String = error.clone();
            let _effect: StatusEffect = self.set_session_status(
                SessionViewStatus::Failed(copy),
                app.engine,
            );
            return CloseReply::Refused(error);
        }
        let place: Option<usize> = self.find_chat(chat.as_str());
        match place {
            Some(at) => {
                if self.chats[at].1.any_queued() {
                    return CloseReply::Refused(
                        "Wait for buffered terminal input before switching views".to_owned(),
                    );
                }
            },
            None => {},
        }
        let _effect: StatusEffect = self.set_session_status(SessionViewStatus::Closing, true);
        match place {
            Some(at) => {
                let ghost mid = self@;
                let mut tabs: ChatTabs = self.take_tabs(at);
                tabs.stop_all();
                self.put_tabs(at, tabs);
                proof {
                    assert(self@.chats =~= mid.chats.insert(
                        chat@,
                        stopped(mid.chats[chat@]),
                    ));
                }
            },
            None => {},
        }
        self.session_close = true;
        CloseReply::Closing { chat, after_open: self.session_open }
    }

    /// Takes over how the release of a provider's terminal ended. A refused
    /// release restores input only where the daemon still owns the session.
    pub fn session_view_closed(
        &mut self,
        chat: &str,
        result: Result<(), String>,
        still_cli: bool,
        engine: bool,
    )
        requires
            old(self).wf(),
        ensures
            final(self).wf(),
            final(self)@ == (match result {
                Ok(_) => (Panel {
                    chats: old(self)@.chats.remove(chat@),
                    session_chat: None,
                    session_open: false,
                    open: false,
                    ..old(self)@
                }).at_status(ViewStatus::Idle, engine),
                Err(error) => if still_cli {
                    old(self)@.at_status(ViewStatus::Ready, engine)
                } else {
                    old(self)@.at_status(ViewStatus::Failed(error@), engine)
                },
            }),
    {
        match result {
            Ok(_) => {
                self.forget_chat(chat);
                self.session_chat = None;
                self.session_open = false;
                self.open = false;
                let _effect: StatusEffect = self.set_session_status(
                    SessionViewStatus::Idle,
                    engine,
                );
            },
            Err(error) => {
                if still_cli {
                    let _effect: StatusEffect = self.set_session_status(
                        SessionViewStatus::Ready,
                        engine,
                    );
                } else {
                    let _effect: StatusEffect = self.set_session_status(
                        SessionViewStatus::Failed(error),
                        engine,
                    );
                }
            },
        }
    }

    pub fn set_resize_suspended(&mut self, suspended: bool)
        requires
            old(self).wf(),
        ensures
            final(self).wf(),
            final(self)@ == (Panel { resize_suspended: suspended, ..old(self)@ }),
    {
        self.resize_suspended = suspended;
    }

    /// Shows or hides the panel. Opening a drawer gives the shown chat its
    /// first terminal; closing keeps every session alive.
    pub fn set_open(&mut self, open: bool, app: &AppView) -> (r: Option<u64>)
        requires
            old(self).wf(),
            old(self).tab_seq < u64::MAX,
        ensures
            final(self).wf(),
            ({
                let shown = Panel { open, ..old(self)@ };
                final(self)@ == (if !open {
                    shown.uncomposed()
                } else if shown.embedded {
                    shown
                } else {
                    shown.ensured(app@)
                })
            }),
            r is Some <==> final(self).tab_seq != old(self).tab_seq,
            r is Some ==> r == Some(final(self).tab_seq),
    {
        self.open = open;
        if !open {
            self.cancel_composition();
        }
        if open && !self.embedded {
            return self.ensure_tab(app);
        }
        None
    }

    /// Key, label and exit of each tab of the shown chat, in order.
    pub fn tab_summaries(&self, app: &AppView) -> (r: Vec<(u64, String, bool)>)
        ensures
            ({
                let tabs = match self@.chat_tabs(app@) {
                    Some(tabs) => tabs.tabs,
                    None => Seq::empty(),
                };
                &&& r@.len() == tabs.len()
                &&& forall|i: int|
                    0 <= i < tabs.len() ==> {
                        &&& (#[trigger] r@[i]).0 == tabs[i].key
                        &&& r@[i].1@ == tabs[i].label()
                        &&& r@[i].2 == tabs[i].exited is Some
                    }
            }),
    {
        let mut out: Vec<(u64, String, bool)> = Vec::new();
        let chat: String = match self.selected_chat(app) {
            Some(chat) => chat,
            None => return out,
        };
        let at: usize = match self.find_chat(chat.as_str()) {
            Some(at) => at,
            None => return out,
        };
        let tabs: &Vec<TerminalTab> = &self.chats[at].1.tabs;
        let ghost views = tabs.deep_view();
        let mut i: usize = 0;
        while i < tabs.len()
            invariant
                i <= tabs@.len(),
                views == tabs.deep_view(),
                out@.len() == i,
                forall|k: int|
                    0 <= k < i ==> {
                        &&& (#[trigger] out@[k]).0 == views[k].key
                        &&& out@[k].1@ == views[k].label()
                        &&& out@[k].2 == views[k].exited is Some
                    },
            decreases tabs@.len() - i,
        {
            proof {
                assert(views[i as int] == tabs@[i as int].deep_view());
            }
            let tab: &TerminalTab = &tabs[i];
            out.push((tab.key, tab.display_title(), tab.exited.is_some()));
            i += 1;
        }
        out
    }

    /// Opens a fresh tab for the shown chat and returns the newest key; a
    /// provider's view opens none.
    pub fn open_tab_for_selected(&mut self, app: &AppView) -> (r: Option<u64>)
        requires
            old(self).wf(),
            old(self).tab_seq < u64::MAX,
        ensures
            final(self).wf(),
            old(self).session_view || old(self)@.chat(app@) is None ==> r is None && final(self)@
                == old(self)@,
            !old(self).session_view && old(self)@.chat(app@) is Some ==> {
                &&& final(self)@ == old(self)@.with_tab(old(self)@.chat(app@)->0, app@.engine)
                &&& r == Some(final(self).tab_seq)
            },
    {
        if self.session_view {
            return None;
        }
        let chat: String = match self.selected_chat(app) {
            Some(chat) => chat,
            None => return None,
        };
        let _key: Option<u64> = self.open_tab(chat, app.engine);
        Some(self.tab_seq)
    }

    /// Makes a tab the shown one; only a change drops the composition.
    pub fn select_tab(&mut self, chat: &str, ix: usize) -> (r: bool)
        requires
            old(self).wf(),
        ensures
            final(self).wf(),
            r == (old(self)@.chats.dom().contains(chat@) && ix < old(
                self,
            )@.chats[chat@].tabs.len() && old(self)@.chats[chat@].active != ix),
            final(self)@ == (if r {
                Panel {
                    chats: old(self)@.chats.insert(
                        chat@,
                        Tabs { active: ix as nat, ..old(self)@.chats[chat@] },
                    ),
                    ..old(self)@.uncomposed()
                }
            } else {
                old(self)@
            }),
    {
        let at: usize = match self.find_chat(chat) {
            Some(at) => at,
            None => return false,
        };
        if ix >= self.chats[at].1.tabs.len() || self.chats[at].1.active == ix {
            return false;
        }
        let ghost before = self@;
        let mut tabs: ChatTabs = self.take_tabs(at);
        tabs.active = ix;
        self.put_tabs(at, tabs);
        self.cancel_composition();
        proof {
            assert(self@.chats =~= before.chats.insert(
                chat@,
                Tabs { active: ix as nat, ..before.chats[chat@] },
            ));
        }
        true
    }

    /// Makes the tab under a key the shown one of the shown chat.
    pub fn select_tab_by_key(&mut self, key: u64, app: &AppView) -> (r: bool)
        requires
            old(self).wf(),
        ensures
            final(self).wf(),
            ({
                let before = old(self)@;
                let tabs = before.chat_tabs(app@);
                &&& r == (tabs is Some && tabs->0.place(key) < tabs->0.tabs.len()
                    && tabs->0.active != tabs->0.place(key))
                &&& final(self)@ == (if r {
                    Panel {
                        chats: before.chats.insert(
                            before.chat(app@)->0,
                            Tabs { active: tabs->0.place(key) as nat, ..tabs->0 },
                        ),
                        ..before.uncomposed()
                    }
                } else {
                    before
                })
            }),
    {
        let chat: String = match self.selected_chat(app) {
            Some(chat) => chat,
            None => return false,
        };
        let at: usize = match self.find_chat(chat.as_str()) {
            Some(at) => at,
            None => return false,
        };
        match self.chats[at].1.find(key) {
            Some(ix) => self.select_tab(chat.as_str(), ix),
            None => false,
        }
    }

    /// Closes one tab of a chat. The last one of an open drawer closes the
    /// drawer; a provider's view closes as a whole.
    pub fn close_tab(&mut self, chat: &str, key: u64, app: &AppView) -> (r: CloseTabReply)
        requires
            old(self).wf(),
        ensures
            final(self).wf(),
            tab_closed(old(self)@, final(self)@, app@, chat@, key, r),
    {
        if self.session_view {
            return CloseTabReply::Session(self.close_session_view(app));
        }
        let at: usize = match self.find_chat(chat) {
            Some(at) => at,
            None => return CloseTabReply::Nothing,
        };
        let ix: usize = match self.chats[at].1.find(key) {
            Some(ix) => ix,
            None => return CloseTabReply::Nothing,
        };
        let ghost before = self@;
        let mut tabs: ChatTabs = self.take_tabs(at);
        let ghost was = tabs@;
        let tab: TerminalTab = tabs.tabs.remove(ix);
        tabs.active = active_after_close(tabs.active, ix, tabs.tabs.len());
        proof {
            assert(tabs.tabs.deep_view() =~= was.tabs.remove(ix as int));
            assert(tabs@ =~= was.without(ix as int));
            assert(was.tabs[ix as int] == tab.deep_view());
        }
        let now_empty: bool = tabs.tabs.len() == 0;
        self.put_tabs(at, tabs);
        self.cancel_composition();
        self.drag = None;
        proof {
            assert(self@.chats =~= before.chats.insert(chat@, was.without(ix as int)));
        }
        let release: Option<String> = if app.engine {
            copy_option(&tab.terminal_id)
        } else {
            None
        };
        CloseTabReply::Closed { toggle_drawer: now_empty && self.open && !self.embedded, release }
    }

    /// Closes the shown chat's tab under a key.
    pub fn close_tab_by_key(&mut self, key: u64, app: &AppView) -> (r: CloseTabReply)
        requires
            old(self).wf(),
        ensures
            final(self).wf(),
            old(self)@.chat(app@) is None ==> r is Nothing && final(self)@ == old(self)@,
            old(self)@.chat(app@) is Some ==> tab_closed(
                old(self)@,
                final(self)@,
                app@,
                old(self)@.chat(app@)->0,
                key,
                r,
            ),
    {
        let chat: String = match self.selected_chat(app) {
            Some(chat) => chat,
            None => return CloseTabReply::Nothing,
        };
        self.close_tab(chat.as_str(), key, app)
    }

    /// Follows the application's selection. Returns whether it changed.
    pub fn on_state_changed(&mut self, app: &AppView) -> (r: bool)
        requires
            old(self).wf(),
            old(self).tab_seq < u64::MAX,
        ensures
            final(self).wf(),
            r == (old(self)@.last_selected != app@.selected_chat),
            ({
                let followed = if r {
                    Panel {
                        last_selected: app@.selected_chat,
                        drag: None,
                        ..old(self)@.uncomposed()
                    }
                } else {
                    old(self)@
                };
                final(self)@ == (if followed.open && !followed.embedded {
                    followed.ensured(app@)
                } else {
                    followed
                })
            }),
    {
        let switched: bool = !same_option(&app.selected_chat, &self.last_selected);
        if switched {
            self.last_selected = copy_option(&app.selected_chat);
            self.drag = None;
            self.cancel_composition();
        }
        if self.open && !self.embedded {
            let _key: Option<u64> = self.ensure_tab(app);
        }
        switched
    }

    /// Commits a reorder of a chat's tabs.
    pub fn commit_reorder(&mut self, chat: &str, from: usize, to: usize)
        requires
            old(self).wf(),
        ensures
            final(self).wf(),
            final(self)@ == (Panel {
                chats: if old(self)@.chats.dom().contains(chat@) {
                    old(self)@.chats.insert(
                        chat@,
                        old(self)@.chats[chat@].reordered(from as int, to as int),
                    )
                } else {
                    old(self)@.chats
                },
                drag: None,
                ..old(self)@
            }),
    {
        match self.find_chat(chat) {
            Some(at) => {
                let ghost before = self@;
                let mut tabs: ChatTabs = self.take_tabs(at);
                let ghost was = tabs@;
                let ghost raw = tabs.tabs@;
                let active: usize = tabs.active;
                reorder_tabs(&mut tabs.tabs, from, to);
                tabs.active = active_after_reorder(active, from, to);
                proof {
                    assert(tabs.tabs.deep_view() =~= moved(was.tabs, from as int, to as int));
                    assert(tabs@ =~= was.reordered(from as int, to as int));
                }
                self.put_tabs(at, tabs);
                proof {
                    assert(self@.chats =~= before.chats.insert(
                        chat@,
                        was.reordered(from as int, to as int),
                    ));
                }
            },
            None => {},
        }
        self.drag = None;
    }

    /// Follows a dragged tab. Returns whether anything moved.
    pub fn update_drag_over(&mut self, from: usize, over: usize) -> (r: bool)
        requires
            old(self).wf(),
            old(self).drag is Some ==> old(self).drag->0.epoch < usize::MAX,
        ensures
            final(self).wf(),
            r == (old(self).drag is None || old(self).drag->0.over != over),
            final(self)@ == (Panel {
                drag: Some(dragged_over(old(self).drag, from, over)),
                ..old(self)@
            }),
    {
        match self.drag {
            Some(drag) => {
                if drag.over == over {
                    return false;
                }
                self.drag = Some(
                    DragState {
                        from: drag.from,
                        over,
                        epoch: drag.epoch + 1,
                        prev_over: drag.over,
                    },
                );
                true
            },
            None => {
                self.drag = Some(DragState { from, over, epoch: 0, prev_over: from });
                true
            },
        }
    }

    /// Follows a tab that is dragged over a strip; one of another chat is
    /// ignored.
    pub fn drag_moved(&mut self, strip: &str, dragged: &str, from: usize, over: usize) -> (r: bool)
        requires
            old(self).wf(),
            old(self).drag is Some ==> old(self).drag->0.epoch < usize::MAX,
        ensures
            final(self).wf(),
            r == (strip@ == dragged@ && (old(self).drag is None || old(self).drag->0.over != over)),
            final(self)@ == (Panel {
                drag: if strip@ == dragged@ {
                    Some(dragged_over(old(self).drag, from, over))
                } else {
                    old(self).drag
                },
                ..old(self)@
            }),
    {
        if same_text(strip, dragged) {
            self.update_drag_over(from, over)
        } else {
            false
        }
    }

    /// Ends a tab drag: dropped on its own strip it reorders, elsewhere it is
    /// forgotten.
    pub fn drop_tab(&mut self, strip: &str, dragged: &str, from: usize)
        requires
            old(self).wf(),
        ensures
            final(self).wf(),
            ({
                let to = match old(self).drag {
                    Some(drag) => drag.over as int,
                    None => from as int,
                };
                final(self)@ == (Panel {
                    chats: if strip@ == dragged@ && old(self)@.chats.dom().contains(strip@) {
                        old(self)@.chats.insert(
                            strip@,
                            old(self)@.chats[strip@].reordered(from as int, to),
                        )
                    } else {
                        old(self)@.chats
                    },
                    drag: None,
                    ..old(self)@
                })
            }),
    {
        if !same_text(strip, dragged) {
            self.drag = None;
            return;
        }
        let to: usize = match self.drag {
            Some(drag) => drag.over,
            None => from,
        };
        self.commit_reorder(strip, from, to);
    }

    /// A copy of one tab's identity, where the tab is there.
    fn locate(&self, chat: &str, key: u64) -> (r: Option<(usize, usize)>)
        ensures
            (match r {
                Some(place) => {
                    &&& self@.tab(chat@, key) is Some
                    &&& place.0 < self.chats@.len()
                    &&& self.chats@[place.0 as int].0@ == chat@
                    &&& self@.chats.dom().contains(chat@)
                    &&& self@.chats[chat@] == self.chats@[place.0 as int].1@
                    &&& place.1 < self.chats@[place.0 as int].1.tabs@.len()
                    &&& place.1 == self@.chats[chat@].place(key)
                    &&& self@.tab(chat@, key) == Some(
                        self.chats@[place.0 as int].1.tabs@[place.1 as int].deep_view(),
                    )
                },
                None => self@.tab(chat@, key) is None,
            }),
    {
        match self.find_chat(chat) {
            Some(at) => match self.chats[at].1.find(key) {
                Some(ix) => {
                    proof {
                        assert(self@.chats[chat@].tabs[ix as int] == self.chats@[at as int].1.tabs@[ix as int].deep_view());
                    }
                    Some((at, ix))
                },
                None => None,
            },
            None => None,
        }
    }

    /// Takes one tab out for a change.
    fn take_tab(&mut self, place: (usize, usize)) -> (r: (ChatTabs, TerminalTab))
        requires
            old(self).wf(),
            place.0 < old(self).chats@.len(),
            place.1 < old(self).chats@[place.0 as int].1.tabs@.len(),
        ensures
            final(self).wf(),
            r.1 == old(self).chats@[place.0 as int].1.tabs@[place.1 as int],
            r.0.tabs@ == old(self).chats@[place.0 as int].1.tabs@.remove(place.1 as int),
            r.0.active == old(self).chats@[place.0 as int].1.active,
            final(self).chats@.len() == old(self).chats@.len(),
            final(self).chats@[place.0 as int].0 == old(self).chats@[place.0 as int].0,
            final(self)@ == (Panel {
                chats: old(self)@.chats.insert(
                    old(self).chats@[place.0 as int].0@,
                    Tabs { tabs: Seq::empty(), active: 0 },
                ),
                ..old(self)@
            }),
    {
        let mut tabs: ChatTabs = self.take_tabs(place.0);
        let tab: TerminalTab = tabs.tabs.remove(place.1);
        (tabs, tab)
    }

    /// Puts a changed tab back where it was.
    fn put_tab(
        &mut self,
        place: (usize, usize),
        tabs: ChatTabs,
        tab: TerminalTab,
        was: Ghost<Tabs>,
    )
        requires
            old(self).wf(),
            place.0 < old(self).chats@.len(),
            place.1 <= tabs.tabs@.len(),
            was@.tabs.len() == tabs.tabs@.len() + 1,
            tabs.tabs.deep_view() == was@.tabs.remove(place.1 as int),
            tabs.active == was@.active,
        ensures
            final(self).wf(),
            final(self)@ == (Panel {
                chats: old(self)@.chats.insert(
                    old(self).chats@[place.0 as int].0@,
                    was@.set(place.1 as int, tab.deep_view()),
                ),
                ..old(self)@
            }),
    {
        let mut tabs: ChatTabs = tabs;
        let ghost rest = tabs.tabs.deep_view();
        tabs.tabs.insert(place.1, tab);
        proof {
            assert(tabs.tabs.deep_view() =~= rest.insert(place.1 as int, tab.deep_view()));
            assert(tabs.tabs.deep_view() =~= was@.tabs.update(place.1 as int, tab.deep_view()));
            assert(tabs@ =~= was@.set(place.1 as int, tab.deep_view()));
        }
        self.put_tabs(place.0, tabs);
    }

    /// A terminal did not open: its tab counts as exited, and a view that was
    /// opening fails.
    pub fn terminal_open_failed(&mut self, chat: &str, key: u64, error: String, engine: bool) -> (r:
        Option<Vec<u8>>)
        requires
            old(self).wf(),
        ensures
            final(self).wf(),
            ({
                let before = old(self)@;
                let tab = before.tab(chat@, key);
                let marked = match tab {
                    Some(tab) => before.with_tab_set(
                        chat@,
                        key,
                        Tab { exited: Some(-1i32), ..tab },
                    ),
                    None => before,
                };
                &&& final(self)@ == (if before.session_view && before.status is Opening {
                    marked.at_status(ViewStatus::Failed(error@), engine)
                } else {
                    marked
                })
                &&& r is Some <==> tab is Some
                &&& r matches Some(feed) ==> feed@ == encode_utf8(
                    "\x1b[31mfailed to open terminal: "@ + error@ + "\x1b[0m\r\n"@,
                )
            }),
    {
        let mut feed: Option<Vec<u8>> = None;
        match self.locate(chat, key) {
            Some(place) => {
                let ghost before = self@;
                let (tabs, mut tab) = self.take_tab(place);
                tab.exited = Some(-1);
                proof {
                    assert(tabs.tabs.deep_view() =~= before.chats[chat@].tabs.remove(
                        place.1 as int,
                    ));
                }
                self.put_tab(place, tabs, tab, Ghost(before.chats[chat@]));
                proof {
                    assert(self@.chats =~= before.with_tab_set(
                        chat@,
                        key,
                        Tab { exited: Some(-1i32), ..before.tab(chat@, key)->0 },
                    ).chats);
                }
                let text: String = join3(
                    "\x1b[31mfailed to open terminal: ",
                    error.as_str(),
                    "\x1b[0m\r\n",
                );
                feed = Some(vstd::slice::slice_to_vec(text.as_str().as_bytes()));
            },
            None => {},
        }
        let opening: bool = match self.session_status {
            SessionViewStatus::Opening => true,
            _ => false,
        };
        if self.session_view && opening {
            let _effect: StatusEffect = self.set_session_status(
                SessionViewStatus::Failed(error),
                engine,
            );
        }
        feed
    }

    /// A terminal opened: its tab takes the id, a view that was opening is
    /// ready, and input that waited for the id is handed out. Returns `None`
    /// where the tab is gone.
    pub fn terminal_opened(&mut self, chat: &str, key: u64, id: String, engine: bool) -> (r: Option<
        Option<(String, Vec<u8>)>,
    >)
        requires
            old(self).wf(),
        ensures
            final(self).wf(),
            ({
                let before = old(self)@;
                match before.tab(chat@, key) {
                    None => r is None && final(self)@ == before,
                    Some(tab) => {
                        &&& r is Some
                        &&& flushed(
                            before.attached(chat@, key, id@, engine),
                            final(self)@,
                            chat@,
                            key,
                            engine,
                            r->0,
                        )
                    },
                }
            }),
    {
        match self.locate(chat, key) {
            Some(place) => {
                let ghost before = self@;
                let (tabs, mut tab) = self.take_tab(place);
                tab.terminal_id = Some(id);
                proof {
                    assert(tabs.tabs.deep_view() =~= before.chats[chat@].tabs.remove(
                        place.1 as int,
                    ));
                }
                self.put_tab(place, tabs, tab, Ghost(before.chats[chat@]));
                proof {
                    assert(self@.chats =~= before.with_tab_set(
                        chat@,
                        key,
                        Tab { terminal_id: Some(id@), ..before.tab(chat@, key)->0 },
                    ).chats);
                }
                let opening: bool = match self.session_status {
                    SessionViewStatus::Opening => true,
                    _ => false,
                };
                if self.session_view && opening {
                    let _effect: StatusEffect = self.set_session_status(
                        SessionViewStatus::Ready,
                        engine,
                    );
                }
                Some(self.flush_input(chat, key, engine))
            },
            None => None,
        }
    }

    /// Takes over the title the running program set for itself.
    pub fn note_title(&mut self, chat: &str, key: u64, title: Option<String>)
        requires
            old(self).wf(),
        ensures
            final(self).wf(),
            final(self)@ == (match old(self)@.tab(chat@, key) {
                Some(tab) => old(self)@.with_tab_set(
                    chat@,
                    key,
                    Tab { live_title: title.deep_view(), ..tab },
                ),
                None => old(self)@,
            }),
    {
        match self.locate(chat, key) {
            Some(place) => {
                let ghost before = self@;
                let (tabs, mut tab) = self.take_tab(place);
                tab.live_title = title;
                proof {
                    assert(tabs.tabs.deep_view() =~= before.chats[chat@].tabs.remove(
                        place.1 as int,
                    ));
                }
                self.put_tab(place, tabs, tab, Ghost(before.chats[chat@]));
                proof {
                    assert(self@.chats =~= before.with_tab_set(
                        chat@,
                        key,
                        Tab { live_title: title.deep_view(), ..before.tab(chat@, key)->0 },
                    ).chats);
                }
            },
            None => {},
        }
    }

    /// Applies one frame of a terminal's stream. Data goes to the emulator;
    /// an exit is noted once, and fails a provider's view that is not closing.
    pub fn apply_stream_event(&mut self, chat: &str, key: u64, event: TerminalEvent, engine: bool) -> (r:
        StreamReply)
        requires
            old(self).wf(),
        ensures
            final(self).wf(),
            ({
                let before = old(self)@;
                match (before.tab(chat@, key), event) {
                    (None, _) => r.stop && r.feed@.len() == 0 && final(self)@ == before,
                    (Some(tab), TerminalEvent::Data { seq, data }) => {
                        &&& !r.stop
                        &&& r.feed@ == frame_bytes(
                            standard_decoded(data@),
                            unpadded_decoded(data@),
                        )
                        &&& final(self)@ == before.with_tab_set(
                            chat@,
                            key,
                            Tab { last_seq: seq, ..tab },
                        )
                    },
                    (Some(tab), TerminalEvent::Exit { seq, exit_code }) => {
                        let noted = before.with_tab_set(
                            chat@,
                            key,
                            Tab {
                                last_seq: seq,
                                exited: Some(exit_code),
                                queued: if before.session_view {
                                    Seq::empty()
                                } else {
                                    tab.queued
                                },
                                ..tab
                            },
                        );
                        &&& r.stop
                        &&& r.feed@ == encode_utf8(exit_text(exit_code as int))
                        &&& final(self)@ == (if before.session_view && !(before.status is Closing) {
                            noted.at_status(
                                ViewStatus::Failed(
                                    "Session terminal exited with code "@ + signed_text(
                                        exit_code as int,
                                    ) + ". Close it to restore history."@,
                                ),
                                engine,
                            )
                        } else {
                            noted
                        })
                    },
                }
            }),
    {
        let place: (usize, usize) = match self.locate(chat, key) {
            Some(place) => place,
            None => return StreamReply { feed: Vec::new(), stop: true },
        };
        let ghost before = self@;
        let (tabs, mut tab) = self.take_tab(place);
        proof {
            assert(tabs.tabs.deep_view() =~= before.chats[chat@].tabs.remove(place.1 as int));
        }
        match event {
            TerminalEvent::Data { seq, data } => {
                tab.last_seq = seq;
                self.put_tab(place, tabs, tab, Ghost(before.chats[chat@]));
                proof {
                    assert(self@.chats =~= before.with_tab_set(
                        chat@,
                        key,
                        Tab { last_seq: seq, ..before.tab(chat@, key)->0 },
                    ).chats);
                }
                StreamReply { feed: decode_base64(data.as_str()), stop: false }
            },
            TerminalEvent::Exit { seq, exit_code } => {
                tab.last_seq = seq;
                tab.exited = Some(exit_code);
                if self.session_view {
                    tab.stop_input();
                }
                let ghost noted = tab.deep_view();
                self.put_tab(place, tabs, tab, Ghost(before.chats[chat@]));
                proof {
                    assert(self@.chats =~= before.with_tab_set(chat@, key, noted).chats);
                }
                let closing: bool = match self.session_status {
                    SessionViewStatus::Closing => true,
                    _ => false,
                };
                if self.session_view && !closing {
                    let number: String = signed_decimal(exit_code as i64);
                    let message: String = join3(
                        "Session terminal exited with code ",
                        number.as_str(),
                        ". Close it to restore history.",
                    );
                    let _effect: StatusEffect = self.set_session_status(
                        SessionViewStatus::Failed(message),
                        engine,
                    );
                }
                StreamReply { feed: exit_message(exit_code), stop: true }
            },
        }
    }

    /// Where the emulator's answers to a frame go: straight back to the
    /// terminal, while input is taken and the terminal is known.
    pub fn answer_to(&self, chat: &str, key: u64, answers: &Vec<u8>) -> (r: Option<String>)
        ensures
            r.deep_view() == (match self@.tab(chat@, key) {
                Some(tab) if self@.takes_input() && answers@.len() > 0 => tab.terminal_id,
                _ => None,
            }),
    {
        if !self.accepts_input() || answers.len() == 0 {
            return None;
        }
        match self.locate(chat, key) {
            Some(place) => copy_option(&self.chats[place.0].1.tabs[place.1].terminal_id),
            None => None,
        }
    }

    /// Whether a write that was queued for a terminal may still go out.
    pub fn still_writable(&self, chat: &str, key: u64, id: &str) -> (r: bool)
        ensures
            r == (match self@.tab(chat@, key) {
                Some(tab) => !self@.session_view || (self@.takes_input() && tab.exited is None
                    && tab.terminal_id == Some(id@)),
                None => !self@.session_view,
            }),
    {
        if !self.session_view {
            return true;
        }
        if !self.accepts_input() {
            return false;
        }
        match self.locate(chat, key) {
            Some(place) => {
                let tab: &TerminalTab = &self.chats[place.0].1.tabs[place.1];
                tab.exited.is_none() && is_text(&tab.terminal_id, id)
            },
            None => false,
        }
    }

    /// Queues keyboard bytes on the shown tab. Nothing is queued where no
    /// input is taken or the process has exited.
    pub fn queue_input(&mut self, bytes: &[u8], app: &AppView) -> (r: Option<QueueEffect>)
        requires
            old(self).wf(),
        ensures
            final(self).wf(),
            ({
                let before = old(self)@;
                let tab = before.active_tab(app@);
                let queued = before.takes_input() && tab is Some && tab->0.exited is None;
                &&& r is Some <==> queued
                &&& !queued ==> final(self)@ == before
                &&& r matches Some(effect) ==> {
                    let tabs = before.chat_tabs(app@)->0;
                    &&& effect.key == tab->0.key
                    &&& effect.schedule == (tab->0.queued.len() == 0)
                    &&& effect.submitted == (before.session_view && bytes@.contains(0x0du8))
                    &&& final(self)@ == (Panel {
                        chats: before.chats.insert(
                            before.chat(app@)->0,
                            tabs.set(
                                tabs.active as int,
                                Tab { queued: tab->0.queued + bytes@, ..tab->0 },
                            ),
                        ),
                        ..before
                    })
                }
            }),
    {
        if !self.accepts_input() {
            return None;
        }
        let chat: String = match self.selected_chat(app) {
            Some(chat) => chat,
            None => return None,
        };
        let at: usize = match self.find_chat(chat.as_str()) {
            Some(at) => at,
            None => return None,
        };
        let active: usize = self.chats[at].1.active;
        if active >= self.chats[at].1.tabs.len() {
            return None;
        }
        proof {
            assert(self@.chats[chat@].tabs[active as int] == self.chats@[at as int].1.tabs@[active as int].deep_view());
        }
        if self.chats[at].1.tabs[active].exited.is_some() {
            return None;
        }
        let ghost before = self@;
        let place: (usize, usize) = (at, active);
        let (tabs, mut tab) = self.take_tab(place);
        proof {
            assert(tabs.tabs.deep_view() =~= before.chats[chat@].tabs.remove(active as int));
        }
        let key: u64 = tab.key;
        let schedule: bool = tab.coalescer.push(bytes);
        self.put_tab(place, tabs, tab, Ghost(before.chats[chat@]));
        proof {
            assert(self@.chats =~= before.chats.insert(
                chat@,
                before.chats[chat@].set(active as int, tab.deep_view()),
            ));
        }
        Some(QueueEffect { key, schedule, submitted: self.session_view && holds_return(bytes) })
    }

    /// Hands out the queued input of a tab for one write.
    pub fn flush_input(&mut self, chat: &str, key: u64, engine: bool) -> (r: Option<
        (String, Vec<u8>),
    >)
        requires
            old(self).wf(),
        ensures
            final(self).wf(),
            flushed(old(self)@, final(self)@, chat@, key, engine, r),
    {
        if !self.accepts_input() || !engine {
            return None;
        }
        let place: (usize, usize) = match self.locate(chat, key) {
            Some(place) => place,
            None => return None,
        };
        let ghost before = self@;
        let (tabs, mut tab) = self.take_tab(place);
        proof {
            assert(tabs.tabs.deep_view() =~= before.chats[chat@].tabs.remove(place.1 as int));
        }
        let write: Option<(String, Vec<u8>)> = tab.take_input();
        self.put_tab(place, tabs, tab, Ghost(before.chats[chat@]));
        proof {
            assert(self@.chats =~= before.with_tab_set(chat@, key, tab.deep_view()).chats);
            if write is None {
                let whole = before.chats[chat@];
                assert(whole.set(place.1 as int, whole.tabs[place.1 as int]) =~= whole);
                assert(self@.chats =~= before.chats);
            }
        }
        write
    }

    /// Takes over a measured grid. The shown tab's emulator resizes at once
    /// when its size differs; returns the tab whose terminal has to hear of it
    /// later, if an engine can tell it.
    pub fn on_grid_metrics(&mut self, cols: u16, rows: u16, app: &AppView) -> (r: Option<(u64, bool)>)
        requires
            old(self).wf(),
        ensures
            final(self).wf(),
            ({
                let before = old(self)@;
                let tab = before.active_tab(app@);
                let resizes = !before.resize_suspended && before.takes_input() && tab is Some && (
                tab->0.cols != cols || tab->0.rows != rows);
                &&& r is Some <==> resizes
                &&& !resizes ==> final(self)@ == before
                &&& r matches Some(resized) ==> {
                    let tabs = before.chat_tabs(app@)->0;
                    &&& resized == (tab->0.key, app@.engine)
                    &&& final(self)@ == (Panel {
                        chats: before.chats.insert(
                            before.chat(app@)->0,
                            tabs.set(
                                tabs.active as int,
                                Tab { cols: cols as usize, rows: rows as usize, ..tab->0 },
                            ),
                        ),
                        ..before
                    })
                }
            }),
    {
        if self.resize_suspended || !self.accepts_input() {
            return None;
        }
        let chat: String = match self.selected_chat(app) {
            Some(chat) => chat,
            None => return None,
        };
        let at: usize = match self.find_chat(chat.as_str()) {
            Some(at) => at,
            None => return None,
        };
        let active: usize = self.chats[at].1.active;
        if active >= self.chats[at].1.tabs.len() {
            return None;
        }
        proof {
            assert(self@.chats[chat@].tabs[active as int] == self.chats@[at as int].1.tabs@[active as int].deep_view());
        }
        if self.chats[at].1.tabs[active].cols == cols as usize
            && self.chats[at].1.tabs[active].rows == rows as usize {
            return None;
        }
        let ghost before = self@;
        let place: (usize, usize) = (at, active);
        let (tabs, mut tab) = self.take_tab(place);
        proof {
            assert(tabs.tabs.deep_view() =~= before.chats[chat@].tabs.remove(active as int));
        }
        let key: u64 = tab.key;
        tab.cols = cols as usize;
        tab.rows = rows as usize;
        self.put_tab(place, tabs, tab, Ghost(before.chats[chat@]));
        proof {
            assert(self@.chats =~= before.chats.insert(
                chat@,
                before.chats[chat@].set(active as int, tab.deep_view()),
            ));
        }
        Some((key, app.engine))
    }

    /// The size a terminal has to be told when its resize is due: the current
    /// one, to the terminal the tab has now or had when it was asked.
    pub fn due_resize(&self, chat: &str, key: u64, asked: &Option<String>) -> (r: Option<
        (String, usize, usize),
    >)
        ensures
            ({
                let tab = self@.tab(chat@, key);
                let id = match tab {
                    Some(tab) => if tab.terminal_id is Some {
                        tab.terminal_id
                    } else {
                        asked.deep_view()
                    },
                    None => None,
                };
                &&& r is Some <==> self@.takes_input() && id is Some
                &&& r matches Some(resize) ==> {
                    &&& Some(resize.0@) == id
                    &&& resize.1 == tab->0.cols
                    &&& resize.2 == tab->0.rows
                }
            }),
    {
        if !self.accepts_input() {
            return None;
        }
        match self.locate(chat, key) {
            Some(place) => {
                let tab: &TerminalTab = &self.chats[place.0].1.tabs[place.1];
                let id: Option<String> = if tab.terminal_id.is_some() {
                    copy_option(&tab.terminal_id)
                } else {
                    copy_option(asked)
                };
                match id {
                    Some(id) => Some((id, tab.cols, tab.rows)),
                    None => None,
                }
            },
            None => None,
        }
    }

    /// Whether platform text may be composed.
    pub fn accepts_text_input(&self, app: &AppView) -> (r: bool)
        ensures
            r == self@.takes_text(app@),
    {
        if !self.open || !self.accepts_input() {
            return false;
        }
        let chat: String = match self.selected_chat(app) {
            Some(chat) => chat,
            None => return false,
        };
        match self.find_chat(chat.as_str()) {
            Some(at) => {
                let active: usize = self.chats[at].1.active;
                if active >= self.chats[at].1.tabs.len() {
                    return false;
                }
                proof {
                    assert(self@.chats[chat@].tabs[active as int] == self.chats@[at as int].1.tabs@[active as int].deep_view());
                }
                self.chats[at].1.tabs[active].exited.is_none()
            },
            None => false,
        }
    }

    /// The composed text, where any is being composed.
    pub fn marked_text(&self, app: &AppView) -> (r: Option<String>)
        ensures
            r.deep_view() == (if self@.takes_text(app@) && self@.preedit.text.len() > 0 {
                Some(self@.preedit.text)
            } else {
                None
            }),
    {
        if self.accepts_text_input(app) && self.composition.text.len() > 0 {
            Some(self.composition.committed())
        } else {
            None
        }
    }

    /// The composed text in a platform range, with the range it covers.
    pub fn text_for_range(&self, start: usize, end: usize, app: &AppView) -> (r: Option<
        (String, Span),
    >)
        requires
            utf16_len(self@.preedit.text) <= usize::MAX,
        ensures
            r is Some <==> self@.takes_text(app@),
            r matches Some(found) ==> {
                let text = self@.preedit.text;
                let (from, to) = covering(text, start as int, end as int);
                &&& found.0@ == text.subrange(from as int, to as int)
                &&& found.1.start == units_before(text, from as int)
                &&& found.1.end == units_before(text, to as int)
            },
    {
        if self.accepts_text_input(app) {
            Some(self.composition.text_for_range(start, end))
        } else {
            None
        }
    }

    /// The selected platform range.
    pub fn selected_text_range(&self, app: &AppView) -> (r: Option<Span>)
        requires
            self.wf(),
            utf16_len(self@.preedit.text) <= usize::MAX,
        ensures
            r is Some <==> self@.takes_text(app@),
            r matches Some(range) ==> {
                &&& range.start == units_before(self@.preedit.text, self@.preedit.start as int)
                &&& range.end == units_before(self@.preedit.text, self@.preedit.end as int)
            },
    {
        if self.accepts_text_input(app) {
            Some(self.composition.selected_units())
        } else {
            None
        }
    }

    /// The platform range of the composed text, where any is being composed.
    pub fn marked_text_range(&self, app: &AppView) -> (r: Option<Span>)
        requires
            utf16_len(self@.preedit.text) <= usize::MAX,
        ensures
            r is Some <==> self@.takes_text(app@) && self@.preedit.text.len() > 0,
            r matches Some(range) ==> {
                &&& range.start == 0
                &&& range.end == utf16_len(self@.preedit.text)
            },
    {
        if self.accepts_text_input(app) && self.composition.text.len() > 0 {
            Some(Span { start: 0, end: self.composition.length_units() })
        } else {
            None
        }
    }

    /// Drops the composition.
    pub fn unmark_text(&mut self)
        requires
            old(self).wf(),
        ensures
            final(self).wf(),
            final(self)@ == old(self)@.uncomposed(),
    {
        self.cancel_composition();
    }

    /// Selects a platform range of the composed text.
    pub fn set_selected_text_range(&mut self, start: usize, end: usize, app: &AppView)
        requires
            old(self).wf(),
        ensures
            final(self).wf(),
            final(self)@ == (if old(self)@.takes_text(app@) {
                let (from, to) = covering(old(self)@.preedit.text, start as int, end as int);
                Panel {
                    preedit: Preedit { start: from, end: to, ..old(self)@.preedit },
                    ..old(self)@
                }
            } else {
                old(self)@
            }),
    {
        if self.accepts_text_input(app) {
            self.composition.select(start, end);
        }
    }

    /// The length of the composed text in platform units.
    pub fn text_length_utf16(&self, app: &AppView) -> (r: Option<usize>)
        requires
            utf16_len(self@.preedit.text) <= usize::MAX,
        ensures
            r is Some <==> self@.takes_text(app@),
            r matches Some(n) ==> n == utf16_len(self@.preedit.text),
    {
        if self.accepts_text_input(app) {
            Some(self.composition.length_units())
        } else {
            None
        }
    }

    /// Commits platform text: it replaces the composition and is queued as one
    /// piece. An empty text cancels the composition; text that was already
    /// sent is never deleted.
    pub fn replace_text_in_range(&mut self, range: Option<Span>, text: &str, app: &AppView) -> (r:
        Option<QueueEffect>)
        requires
            old(self).wf(),
            old(self)@.preedit.text.len() + text@.len() <= usize::MAX,
        ensures
            final(self).wf(),
            ({
                let before = old(self)@;
                let commits = before.takes_text(app@) && text@.len() > 0;
                &&& r is Some <==> commits
                &&& !commits ==> final(self)@ == before.uncomposed()
                &&& commits ==> {
                    let tabs = before.chat_tabs(app@)->0;
                    let tab = before.active_tab(app@)->0;
                    let committed = before.preedit.replaced(unit_range(range), text@, None).text;
                    &&& r->0.key == tab.key
                    &&& r->0.schedule == (tab.queued.len() == 0)
                    &&& r->0.submitted == (before.session_view && encode_utf8(
                        committed,
                    ).contains(0x0du8))
                    &&& final(self)@ == (Panel {
                        chats: before.chats.insert(
                            before.chat(app@)->0,
                            tabs.set(
                                tabs.active as int,
                                Tab { queued: tab.queued + encode_utf8(committed), ..tab },
                            ),
                        ),
                        ..before.uncomposed()
                    })
                }
            }),
    {
        if !self.accepts_text_input(app) {
            self.cancel_composition();
            return None;
        }
        let mut effect: Option<QueueEffect> = None;
        if !text.is_empty() {
            self.composition.replace(range, text, None);
            let committed: String = self.composition.committed();
            self.composition.clear();
            effect = self.queue_input(committed.as_str().as_bytes(), app);
        }
        self.cancel_composition();
        effect
    }

    /// Composes platform text. Returns whether a composition shows, so that
    /// the view snaps to the live bottom.
    pub fn replace_and_mark_text_in_range(
        &mut self,
        range: Option<Span>,
        text: &str,
        selection: Option<Span>,
        app: &AppView,
    ) -> (r: bool)
        requires
            old(self).wf(),
            old(self)@.preedit.text.len() + text@.len() <= usize::MAX,
        ensures
            final(self).wf(),
            r == (old(self)@.takes_text(app@) && text@.len() > 0),
            final(self)@ == (if r {
                Panel {
                    preedit: old(self)@.preedit.replaced(
                        unit_range(range),
                        text@,
                        unit_range(selection),
                    ),
                    ..old(self)@
                }
            } else {
                old(self)@.uncomposed()
            }),
    {
        if !self.accepts_text_input(app) || text.is_empty() {
            self.cancel_composition();
            return false;
        }
        self.composition.replace(range, text, selection);
        true
    }
}

fn holds_return(bytes: &[u8]) -> (r: bool)
    ensures
        r == bytes@.contains(0x0du8),
{
    let mut i: usize = 0;
    while i < bytes.len()
        invariant
            i <= bytes@.len(),
            forall|k: int| 0 <= k < i ==> bytes@[k] != 0x0du8,
        decreases bytes@.len() - i,
    {
        if bytes[i] == 0x0d {
            return true;
        }
        i += 1;
    }
    false
}

/// The device a chat's terminal requests are meant for: its host, unless that
/// is the engine's own device.
pub open spec fn host_of(app: AppView, chat: Seq<char>) -> Option<Seq<char>> {
    match first_host(app.chats@, chat) {
        Some(device) if app.local_device_id.deep_view() != Some(device) => Some(device),
        _ => None,
    }
}

/// The host of the first chat of that name.
pub open spec fn first_host(chats: Seq<ChatHost>, chat: Seq<char>) -> Option<Seq<char>>
    decreases chats.len(),
{
    if chats.len() == 0 {
        None
    } else if chats[0].id@ == chat {
        Some(chats[0].device_id@)
    } else {
        first_host(chats.subrange(1, chats.len() as int), chat)
    }
}

pub fn chat_target(app: &AppView, chat: &str) -> (r: Option<String>)
    ensures
        r.deep_view() == host_of(*app, chat@),
{
    let mut i: usize = 0;
    proof {
        assert(app.chats@.subrange(0, app.chats@.len() as int) =~= app.chats@);
    }
    while i < app.chats.len()
        invariant
            i <= app.chats@.len(),
            first_host(app.chats@, chat@) == first_host(
                app.chats@.subrange(i as int, app.chats@.len() as int),
                chat@,
            ),
        decreases app.chats@.len() - i,
    {
        let ghost rest = app.chats@.subrange(i as int, app.chats@.len() as int);
        if same_text(app.chats[i].id.as_str(), chat) {
            let device: &String = &app.chats[i].device_id;
            return if is_text(&app.local_device_id, device.as_str()) {
                None
            } else {
                Some(device.clone())
            };
        }
        proof {
            assert(rest.subrange(1, rest.len() as int) =~= app.chats@.subrange(
                i + 1,
                app.chats@.len() as int,
            ));
        }
        i += 1;
    }
    None
}

/// How a tab is drawn while a sibling is dragged.
#[derive(Debug, Clone, Copy, PartialEq, Eq, Structural)]
pub enum TabSlot {
    /// At its place.
    Plain,
    /// The dragged tab itself: only its room is kept.
    Spacer,
    /// Sliding, in tab widths, from one offset to another.
    Sliding { start: i8, target: i8, epoch: usize },
}

/// One tab of the strip.
pub struct TabCell {
    pub key: u64,
    pub title: String,
    pub selected: bool,
    pub exited: bool,
    pub slot: TabSlot,
}

/// The slot of a tab under a drag.
pub open spec fn slot_of(ix: int, drag: Option<DragState>) -> TabSlot {
    match drag {
        None => TabSlot::Plain,
        Some(drag) => if ix == drag.from {
            TabSlot::Spacer
        } else {
            TabSlot::Sliding {
                start: slide(ix, drag.from as int, drag.prev_over as int) as i8,
                target: slide(ix, drag.from as int, drag.over as int) as i8,
                epoch: drag.epoch,
            }
        },
    }
}

/// The strip of a chat: each tab in order, the shown one selected, and while
/// one is dragged the others sliding toward the gap.
pub open spec fn strip_of(panel: Panel, chat: Seq<char>, cells: Seq<TabCell>) -> bool {
    let tabs = if panel.chats.dom().contains(chat) {
        panel.chats[chat]
    } else {
        Tabs { tabs: Seq::empty(), active: 0 }
    };
    &&& cells.len() == tabs.tabs.len()
    &&& forall|i: int|
        0 <= i < cells.len() ==> {
            let cell = #[trigger] cells[i];
            &&& cell.key == tabs.tabs[i].key
            &&& cell.title@ == tabs.tabs[i].label()
            &&& cell.selected == (i == tabs.active)
            &&& cell.exited == tabs.tabs[i].exited is Some
            &&& cell.slot == slot_of(i, panel.drag)
        }
}

/// What the panel shows.
pub struct PanelModel {
    /// The panel fills its own background.
    pub filled: bool,
    /// Shown in place of a terminal.
    pub message: Option<&'static str>,
    pub tab_bar: Option<Vec<TabCell>>,
}

impl TerminalPanel {
    /// What the panel shows. A drag that ended elsewhere is forgotten; an
    /// embedded panel has neither a background nor a tab strip of its own.
    pub fn render(&mut self, app: &AppView, dragging: bool) -> (r: PanelModel)
        requires
            old(self).wf(),
        ensures
            final(self).wf(),
            final(self)@ == (Panel {
                drag: if dragging {
                    old(self)@.drag
                } else {
                    None
                },
                ..old(self)@
            }),
            r.filled == !old(self)@.embedded,
            r.message.deep_view() == (if old(self)@.chat(app@) is None {
                Some("Select a chat to open a terminal"@)
            } else {
                None
            }),
            r.tab_bar is Some <==> old(self)@.chat(app@) is Some && !old(self)@.embedded,
            r.tab_bar matches Some(cells) ==> strip_of(
                final(self)@,
                old(self)@.chat(app@)->0,
                cells@,
            ),
    {
        if self.drag.is_some() && !dragging {
            self.drag = None;
        }
        let filled: bool = !self.embedded;
        match self.selected_chat(app) {
            None => PanelModel {
                filled,
                message: Some("Select a chat to open a terminal"),
                tab_bar: None,
            },
            Some(chat) => {
                let tab_bar: Option<Vec<TabCell>> = if self.embedded {
                    None
                } else {
                    Some(self.render_tab_bar(chat.as_str()))
                };
                PanelModel { filled, message: None, tab_bar }
            },
        }
    }

    /// The tab strip of a chat: each tab in order, the shown one selected, and
    /// while one is dragged the others sliding toward the gap.
    pub fn render_tab_bar(&self, chat: &str) -> (r: Vec<TabCell>)
        ensures
            strip_of(self@, chat@, r@),
    {
        let mut out: Vec<TabCell> = Vec::new();
        let at: usize = match self.find_chat(chat) {
            Some(at) => at,
            None => return out,
        };
        let tabs: &ChatTabs = &self.chats[at].1;
        let ghost views = tabs.tabs.deep_view();
        let mut i: usize = 0;
        while i < tabs.tabs.len()
            invariant
                i <= tabs.tabs@.len(),
                views == tabs.tabs.deep_view(),
                out@.len() == i,
                forall|k: int|
                    0 <= k < i ==> {
                        let cell = #[trigger] out@[k];
                        &&& cell.key == views[k].key
                        &&& cell.title@ == views[k].label()
                        &&& cell.selected == (k == tabs.active)
                        &&& cell.exited == views[k].exited is Some
                        &&& cell.slot == slot_of(k, self.drag)
                    },
            decreases tabs.tabs@.len() - i,
        {
            proof {
                assert(views[i as int] == tabs.tabs@[i as int].deep_view());
            }
            let tab: &TerminalTab = &tabs.tabs[i];
            let slot: TabSlot = match self.drag {
                None => TabSlot::Plain,
                Some(drag) => {
                    if i == drag.from {
                        TabSlot::Spacer
                    } else {
                        TabSlot::Sliding {
                            start: slide_offset(i, drag.from, drag.prev_over),
                            target: slide_offset(i, drag.from, drag.over),
                            epoch: drag.epoch,
                        }
                    }
                },
            };
            out.push(
                TabCell {
                    key: tab.key,
                    title: tab.display_title(),
                    selected: i == tabs.active,
                    exited: tab.exited.is_some(),
                    slot,
                },
            );
            i += 1;
        }
        out
    }
}

/// Opening, changing, closing and moving tabs keep the active index on a tab.
pub proof fn the_active_index_names_a_tab(tabs: Tabs, key: u64, at: int, tab: Tab, to: int)
    requires
        tabs.wf(),
        0 <= at < tabs.tabs.len(),
        0 <= to < tabs.tabs.len(),
    ensures
        tabs.with_tab(key).wf(),
        tabs.set(at, tab).wf(),
        tabs.without(at).wf(),
        tabs.reordered(at, to).wf(),
        stopped(tabs).wf(),
{
}

/// A fresh tab shows at once, under a key no tab of the panel had before it
/// where keys stay below the counter.
pub proof fn a_fresh_tab_shows(panel: Panel, chat: Seq<char>)
    requires
        panel.tab_seq < u64::MAX,
    ensures
        panel.with_tab(chat, true).chats[chat].shown() is Some,
        panel.with_tab(chat, true).chats[chat].shown()->0.key == panel.tab_seq + 1,
        panel.with_tab(chat, true).tab_seq == panel.tab_seq + 1,
{
}

/// Once a tab was flushed nothing is left to write, so that no keystroke is
/// written twice.
pub proof fn input_is_written_once(
    before: Panel,
    after: Panel,
    again: Panel,
    chat: Seq<char>,
    key: u64,
    engine: bool,
    first: Option<(String, Vec<u8>)>,
    second: Option<(String, Vec<u8>)>,
)
    requires
        flushed(before, after, chat, key, engine, first),
        flushed(after, again, chat, key, engine, second),
    ensures
        second is None,
        again == after,
{
    if first is Some {
        let tabs = before.chats[chat];
        let at = tabs.place(key);
        key_place_bounds(tabs.tabs, key);
        let tab = Tab { queued: Seq::empty(), ..tabs.tabs[at] };
        let changed = tabs.tabs.update(at, tab);
        assert forall|i: int| 0 <= i < at implies (#[trigger] changed[i]).key != key by {
            assert(tabs.tabs[i].key != key);
        }
        key_place_is_first(changed, key, at);
        assert(after.tab(chat, key) == Some(tab));
    }
}

/// Only transitions are heard of: moving to the same status changes nothing.
pub proof fn a_repeated_status_is_silent(panel: Panel, engine: bool)
    ensures
        panel.at_status(panel.status, engine) == panel,
{
}

/// A provider's view that is closing, failed or idle takes no input and holds
/// no composition.
pub proof fn a_view_that_is_not_open_takes_no_input(
    panel: Panel,
    status: ViewStatus,
    engine: bool,
    app: App,
)
    requires
        panel.session_view,
        !status.takes_input(),
        panel.status != status,
    ensures
        !panel.at_status(status, engine).takes_input(),
        !panel.at_status(status, engine).takes_text(app),
        panel.at_status(status, engine).preedit == Preedit::none(),
{
}

/// A provider's view stays with the chat it is bound to, whatever is selected.
pub proof fn a_bound_view_keeps_its_chat(panel: Panel, one: App, other: App)
    requires
        panel.session_view,
        panel.session_chat is Some,
    ensures
        panel.chat(one) == panel.chat(other),
{
}

} // verus!
