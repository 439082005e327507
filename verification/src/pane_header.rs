//! What pane headers and tab chips show, and the snapshot of the workspace
//! that a frame is drawn from.
use vstd::prelude::*;
use crate::layout::{Arrangement, Layout, Pane, PaneEntry, PaneId, PaneMode, Region, TabId, ViewId};
use crate::list::{first_item, first_place_at};
use crate::status_palette::{resolved, ChatIndicator, SessionState};
use crate::text::{
    copy_option, is_text, join3, one_line_of, same_text, single_line, trim, trimmed,
};

verus! {

/// A conversation, as the headers read it.
#[derive(Debug)]
pub struct ChatRow {
    pub id: String,
    pub title: Option<String>,
    pub device_id: String,
    pub space_id: Option<String>,
    /// The branch the engine stamped.
    pub branch: Option<String>,
    pub harness: Option<String>,
    pub status: ChatIndicator,
    /// A send waits on a degraded delivery path.
    pub queued: bool,
    /// A send was never adopted.
    pub undelivered: bool,
}

/// Something known by an id and shown by a name.
#[derive(Debug)]
pub struct Named {
    pub id: String,
    pub name: String,
}

/// What the headers read of the application.
#[derive(Debug)]
pub struct Rows {
    pub chats: Vec<ChatRow>,
    pub spaces: Vec<Named>,
    pub devices: Vec<Named>,
    pub local_device_id: Option<String>,
}

/// It is the conversation of that id.
pub open spec fn is_chat(id: Seq<char>) -> spec_fn(ChatRow) -> bool {
    |row: ChatRow| row.id@ == id
}

/// It is known by that id.
pub open spec fn is_named(id: Seq<char>) -> spec_fn(Named) -> bool {
    |row: Named| row.id@ == id
}

/// The name of an id.
pub open spec fn name_of(rows: Seq<Named>, id: Seq<char>) -> Option<Seq<char>> {
    match first_item(rows, is_named(id)) {
        Some(row) => Some(row.name@),
        None => None,
    }
}

fn find_name(rows: &Vec<Named>, id: &str) -> (r: Option<usize>)
    ensures
        (match r {
            Some(at) => at < rows@.len() && name_of(rows@, id@) == Some(rows@[at as int].name@),
            None => name_of(rows@, id@) is None,
        }),
{
    let mut at: usize = 0;
    while at < rows.len()
        invariant
            at <= rows@.len(),
            forall|i: int| 0 <= i < at ==> !is_named(id@)(#[trigger] rows@[i]),
        decreases rows@.len() - at,
    {
        if same_text(rows[at].id.as_str(), id) {
            proof {
                first_place_at(rows@, is_named(id@), at as int);
            }
            return Some(at);
        }
        at += 1;
    }
    proof {
        first_place_at(rows@, is_named(id@), at as int);
    }
    None
}

/// The place of a conversation.
pub fn find_chat(chats: &Vec<ChatRow>, id: &str) -> (r: Option<usize>)
    ensures
        (match r {
            Some(at) => at < chats@.len() && first_item(chats@, is_chat(id@)) == Some(
                chats@[at as int],
            ),
            None => first_item(chats@, is_chat(id@)) is None,
        }),
{
    let mut at: usize = 0;
    while at < chats.len()
        invariant
            at <= chats@.len(),
            forall|i: int| 0 <= i < at ==> !is_chat(id@)(#[trigger] chats@[i]),
        decreases chats@.len() - at,
    {
        if same_text(chats[at].id.as_str(), id) {
            proof {
                first_place_at(chats@, is_chat(id@), at as int);
            }
            return Some(at);
        }
        at += 1;
    }
    proof {
        first_place_at(chats@, is_chat(id@), at as int);
    }
    None
}

/// The conversation of a session, where it is known.
pub open spec fn chat_of(chats: Seq<ChatRow>, session: Option<Seq<char>>) -> Option<ChatRow> {
    match session {
        Some(id) => first_item(chats, is_chat(id)),
        None => None,
    }
}

/// The project of a conversation: its name, `~` outside any project, and `?`
/// for one that is not known.
pub open spec fn project_of(chat: ChatRow, spaces: Seq<Named>) -> Seq<char> {
    match chat.space_id {
        None => "~"@,
        Some(id) => match name_of(spaces, id@) {
            Some(name) => name,
            None => "?"@,
        },
    }
}

/// The context line: the project, the branch where one is stamped, and the
/// device where it is not this one and its name is known.
pub open spec fn context_of(chat: ChatRow, rows: Rows) -> Seq<char> {
    let project = project_of(chat, rows.spaces@);
    let with_branch = match chat.branch {
        Some(branch) if trimmed(branch@).len() > 0 => project + ":"@ + trimmed(branch@),
        _ => project,
    };
    if rows.local_device_id.deep_view() == Some(chat.device_id@) {
        with_branch
    } else {
        match name_of(rows.devices@, chat.device_id@) {
            Some(device) => with_branch + " · "@ + device,
            None => with_branch,
        }
    }
}

/// A pane header's line and state.
#[derive(Debug)]
pub struct PaneMeta {
    pub context: Option<String>,
    pub state: SessionState,
}

/// What a header says.
#[verifier::ext_equal]
pub struct Meta {
    pub context: Option<Seq<char>>,
    pub state: SessionState,
}

impl DeepView for PaneMeta {
    type V = Meta;

    open spec fn deep_view(&self) -> Meta {
        Meta { context: self.context.deep_view(), state: self.state }
    }
}

/// The metadata of a pane: none without a known session.
pub open spec fn meta_of(session: Option<Seq<char>>, rows: Rows) -> Meta {
    match chat_of(rows.chats@, session) {
        None => Meta { context: None, state: SessionState::Idle },
        Some(chat) => Meta {
            context: Some(context_of(chat, rows)),
            state: resolved(chat.status, chat.queued && !chat.undelivered, chat.undelivered),
        },
    }
}

impl PaneMeta {
    /// No metadata.
    pub fn empty() -> (r: Self)
        ensures
            r.deep_view() == (Meta { context: None, state: SessionState::Idle }),
    {
        PaneMeta { context: None, state: SessionState::Idle }
    }
}

pub fn pane_meta(session: Option<&str>, rows: &Rows) -> (r: PaneMeta)
    ensures
        r.deep_view() == meta_of(session.deep_view(), *rows),
{
    let id: &str = match session {
        Some(id) => id,
        None => return PaneMeta::empty(),
    };
    let at: usize = match find_chat(&rows.chats, id) {
        Some(at) => at,
        None => return PaneMeta::empty(),
    };
    let chat: &ChatRow = &rows.chats[at];
    let mut context: String = match &chat.space_id {
        None => "~".to_owned(),
        Some(id) => match find_name(&rows.spaces, id.as_str()) {
            Some(at) => rows.spaces[at].name.clone(),
            None => "?".to_owned(),
        },
    };
    match &chat.branch {
        Some(branch) => {
            let branch: String = trim(branch.as_str());
            if !branch.as_str().is_empty() {
                context = join3(context.as_str(), ":", branch.as_str());
            }
        },
        None => {},
    }
    if !is_text(&rows.local_device_id, chat.device_id.as_str()) {
        match find_name(&rows.devices, chat.device_id.as_str()) {
            Some(at) => {
                context = join3(context.as_str(), " · ", rows.devices[at].name.as_str());
            },
            None => {},
        }
    }
    PaneMeta {
        context: Some(context),
        state: SessionState::resolve(
            chat.status,
            chat.queued && !chat.undelivered,
            chat.undelivered,
        ),
    }
}

/// A pane's identity mark.
#[derive(Debug)]
pub enum HeaderMark {
    /// The brand of a harness.
    Brand(String),
    /// The mark of a provider and mode.
    Plain(TabMark),
}

/// The mark of a provider and mode.
#[derive(Debug)]
pub struct TabMark {
    pub mode: PaneMode,
    pub provider: Option<String>,
}

/// What a tab's mark is.
#[verifier::ext_equal]
pub struct Mark {
    pub mode: PaneMode,
    pub provider: Option<Seq<char>>,
}

impl DeepView for TabMark {
    type V = Mark;

    open spec fn deep_view(&self) -> Mark {
        Mark { mode: self.mode, provider: self.provider.deep_view() }
    }
}

/// What a header's mark is.
pub enum Identity {
    Brand(Seq<char>),
    Plain(Mark),
}

impl DeepView for HeaderMark {
    type V = Identity;

    open spec fn deep_view(&self) -> Identity {
        match self {
            HeaderMark::Brand(harness) => Identity::Brand(harness@),
            HeaderMark::Plain(mark) => Identity::Plain(mark.deep_view()),
        }
    }
}

/// The identity of a pane: the harness of its conversation, else the one
/// picked in its composer, else the provider and mode.
pub open spec fn identity_of(
    chat: Option<ChatRow>,
    mode: PaneMode,
    provider: Option<Seq<char>>,
    composer_harness: Option<Seq<char>>,
) -> Identity {
    if chat is Some && chat->0.harness is Some {
        Identity::Brand(chat->0.harness->0@)
    } else {
        match composer_harness {
            Some(harness) => Identity::Brand(harness),
            None => Identity::Plain(Mark { mode, provider }),
        }
    }
}

/// A row without the reference around it.
pub open spec fn row_of(chat: Option<&ChatRow>) -> Option<ChatRow> {
    match chat {
        Some(chat) => Some(*chat),
        None => None,
    }
}

pub fn header_mark(
    chat: Option<&ChatRow>,
    mode: PaneMode,
    provider: &Option<String>,
    composer_harness: &Option<String>,
) -> (r: HeaderMark)
    ensures
        r.deep_view() == identity_of(
            row_of(chat),
            mode,
            provider.deep_view(),
            composer_harness.deep_view(),
        ),
{
    match chat {
        Some(chat) => match &chat.harness {
            Some(harness) => return HeaderMark::Brand(harness.clone()),
            None => {},
        },
        None => {},
    }
    match composer_harness {
        Some(harness) => HeaderMark::Brand(harness.clone()),
        None => HeaderMark::Plain(TabMark { mode, provider: copy_option(provider) }),
    }
}

/// A pane's title: its label, else its conversation's title on one line, else
/// what it is.
pub open spec fn title_of(
    session: Option<Seq<char>>,
    mode: PaneMode,
    label: Option<Seq<char>>,
    chats: Seq<ChatRow>,
) -> Seq<char> {
    let chat = chat_of(chats, session);
    if label is Some {
        label->0
    } else if chat is Some && chat->0.title is Some {
        one_line_of(chat->0.title->0@)
    } else if mode is Terminal {
        "Terminal"@
    } else if session is Some {
        "Session"@
    } else {
        "New session"@
    }
}

pub fn pane_title(
    session: &Option<String>,
    mode: PaneMode,
    label: &Option<String>,
    chats: &Vec<ChatRow>,
) -> (r: String)
    ensures
        r@ == title_of(session.deep_view(), mode, label.deep_view(), chats@),
{
    match label {
        Some(label) => return label.clone(),
        None => {},
    }
    match session {
        Some(id) => match find_chat(chats, id.as_str()) {
            Some(at) => match &chats[at].title {
                Some(title) => return single_line(title.as_str()),
                None => {},
            },
            None => {},
        },
        None => {},
    }
    match mode {
        PaneMode::Terminal => "Terminal".to_owned(),
        PaneMode::Chat => {
            if session.is_some() {
                "Session".to_owned()
            } else {
                "New session".to_owned()
            }
        },
    }
}

/// The title above the only pane: the selected conversation's.
pub fn primary_title(chat: Option<&ChatRow>) -> (r: String)
    ensures
        r@ == (match row_of(chat) {
            Some(chat) if chat.title is Some => one_line_of(chat.title->0@),
            _ => "New session"@,
        }),
{
    match chat {
        Some(chat) => match &chat.title {
            Some(title) => return single_line(title.as_str()),
            None => {},
        },
        None => {},
    }
    "New session".to_owned()
}

/// A tab in a strip.
#[derive(Debug)]
pub struct TabChip {
    pub tab: TabId,
    pub label: String,
    pub active: bool,
    pub mark: TabMark,
}

/// What a chip shows.
#[verifier::ext_equal]
pub struct Chip {
    pub tab: TabId,
    pub label: Seq<char>,
    pub active: bool,
    pub mark: Mark,
}

impl DeepView for TabChip {
    type V = Chip;

    open spec fn deep_view(&self) -> Chip {
        Chip {
            tab: self.tab,
            label: self.label@,
            active: self.active,
            mark: self.mark.deep_view(),
        }
    }
}

/// The pane of a tab, by its id.
pub open spec fn is_pane_of(view: ViewId, tab: TabId, pane: PaneId) -> spec_fn(Pane) -> bool {
    |entry: Pane| entry.view == view && entry.tab == tab && entry.pane == pane
}

/// The chip of a tab: the title and mark of its active pane.
pub open spec fn chip_of(
    layout: Arrangement,
    chats: Seq<ChatRow>,
    view: ViewId,
    tab: TabId,
    active_pane: PaneId,
    active: bool,
) -> Chip {
    match first_item(layout.panes, is_pane_of(view, tab, active_pane)) {
        Some(pane) => Chip {
            tab,
            label: title_of(pane.session, pane.mode, pane.label, chats),
            active,
            mark: Mark { mode: pane.mode, provider: pane.provider },
        },
        None => Chip {
            tab,
            label: "Tab"@,
            active,
            mark: Mark { mode: PaneMode::Chat, provider: None },
        },
    }
}

fn make_chip(
    layout: &Layout,
    chats: &Vec<ChatRow>,
    view: ViewId,
    tab: TabId,
    active_pane: PaneId,
    active: bool,
) -> (r: TabChip)
    ensures
        r.deep_view() == chip_of(layout@, chats@, view, tab, active_pane, active),
{
    let mut at: usize = 0;
    let ghost holds = is_pane_of(view, tab, active_pane);
    while at < layout.panes.len()
        invariant
            at <= layout.panes@.len(),
            holds == is_pane_of(view, tab, active_pane),
            forall|i: int| 0 <= i < at ==> !holds(#[trigger] layout@.panes[i]),
        decreases layout.panes@.len() - at,
    {
        proof {
            assert(layout@.panes[at as int] == layout.panes@[at as int].deep_view());
        }
        let entry: &PaneEntry = &layout.panes[at];
        if entry.view == view && entry.tab == tab && entry.pane == active_pane {
            proof {
                first_place_at(layout@.panes, holds, at as int);
            }
            return TabChip {
                tab,
                label: pane_title(&entry.session, entry.mode, &entry.label, chats),
                active,
                mark: TabMark { mode: entry.mode, provider: copy_option(&entry.provider) },
            };
        }
        at += 1;
    }
    proof {
        first_place_at(layout@.panes, holds, at as int);
    }
    TabChip {
        tab,
        label: "Tab".to_owned(),
        active,
        mark: TabMark { mode: PaneMode::Chat, provider: None },
    }
}

/// The chips of a strip, in its order; a tab that is gone has none.
pub open spec fn chips_of(
    layout: Arrangement,
    chats: Seq<ChatRow>,
    region: Region,
    order: Seq<TabId>,
) -> Seq<Chip>
    decreases order.len(),
{
    if order.len() == 0 {
        Seq::empty()
    } else {
        let before = chips_of(layout, chats, region, order.drop_last());
        let tab = order.last();
        match layout.tab(region.view, tab) {
            Some(entry) => before.push(
                chip_of(
                    layout,
                    chats,
                    region.view,
                    tab,
                    entry.active_pane,
                    tab == region.active_tab,
                ),
            ),
            None => before,
        }
    }
}

fn make_chips(layout: &Layout, chats: &Vec<ChatRow>, at: usize) -> (r: Vec<TabChip>)
    requires
        at < layout.views@.len(),
    ensures
        r.deep_view() == chips_of(
            layout@,
            chats@,
            layout@.views[at as int],
            layout@.views[at as int].order,
        ),
{
    let view: ViewId = layout.views[at].view;
    let active: TabId = layout.views[at].active_tab;
    let order: &Vec<TabId> = &layout.views[at].order;
    let ghost region = layout@.views[at as int];
    let mut out: Vec<TabChip> = Vec::new();
    let mut i: usize = 0;
    proof {
        assert(region == layout.views@[at as int].deep_view());
        assert(order@.take(0) =~= Seq::<TabId>::empty());
        assert(out.deep_view() =~= Seq::<Chip>::empty());
    }
    while i < order.len()
        invariant
            i <= order@.len(),
            region.view == view,
            region.active_tab == active,
            region.order == order@,
            out.deep_view() == chips_of(layout@, chats@, region, order@.take(i as int)),
        decreases order@.len() - i,
    {
        let tab: TabId = order[i];
        let ghost before = out.deep_view();
        proof {
            let front = order@.take(i + 1);
            assert(front.drop_last() =~= order@.take(i as int));
            assert(front.last() == tab);
        }
        match layout.find_tab(view, tab) {
            Some(entry) => {
                let chip: TabChip = make_chip(
                    layout,
                    chats,
                    view,
                    tab,
                    entry.active_pane,
                    tab == active,
                );
                let ghost shown = chip.deep_view();
                out.push(chip);
                proof {
                    assert(out.deep_view() =~= before.push(shown));
                }
            },
            None => {},
        }
        i += 1;
    }
    proof {
        assert(order@.take(order@.len() as int) =~= order@);
    }
    out
}

/// A pane in a frame.
#[derive(Debug)]
pub struct PaneSnap {
    pub pane: PaneId,
    pub mode: PaneMode,
    pub title: String,
    pub mark: HeaderMark,
    pub meta: PaneMeta,
    pub has_session: bool,
    pub focused: bool,
    /// It keeps clear of the window's controls.
    pub leads: bool,
}

/// What a pane shows in a frame.
#[verifier::ext_equal]
pub struct PaneFrame {
    pub pane: PaneId,
    pub mode: PaneMode,
    pub title: Seq<char>,
    pub mark: Identity,
    pub meta: Meta,
    pub has_session: bool,
    pub focused: bool,
    pub leads: bool,
}

impl DeepView for PaneSnap {
    type V = PaneFrame;

    open spec fn deep_view(&self) -> PaneFrame {
        PaneFrame {
            pane: self.pane,
            mode: self.mode,
            title: self.title@,
            mark: self.mark.deep_view(),
            meta: self.meta.deep_view(),
            has_session: self.has_session,
            focused: self.focused,
            leads: self.leads,
        }
    }
}

/// The harness picked in each pane's composer.
#[derive(Debug)]
pub struct Picks {
    pub picks: Vec<(PaneId, Option<String>)>,
}

/// The pick of that pane.
pub open spec fn is_pick(pane: PaneId) -> spec_fn((PaneId, Option<String>)) -> bool {
    |pick: (PaneId, Option<String>)| pick.0 == pane
}

impl Picks {
    /// The harness picked in a pane's composer.
    pub open spec fn of(self, pane: PaneId) -> Option<Seq<char>> {
        match first_item(self.picks@, is_pick(pane)) {
            Some(pick) => pick.1.deep_view(),
            None => None,
        }
    }

    fn get(&self, pane: PaneId) -> (r: Option<String>)
        ensures
            r.deep_view() == self.of(pane),
    {
        let mut at: usize = 0;
        while at < self.picks.len()
            invariant
                at <= self.picks@.len(),
                forall|i: int| 0 <= i < at ==> !is_pick(pane)(#[trigger] self.picks@[i]),
            decreases self.picks@.len() - at,
        {
            if self.picks[at].0 == pane {
                proof {
                    first_place_at(self.picks@, is_pick(pane), at as int);
                }
                return copy_option(&self.picks[at].1);
            }
            at += 1;
        }
        proof {
            first_place_at(self.picks@, is_pick(pane), at as int);
        }
        None
    }
}

/// A pane as a frame shows it. `corner` is the pane at the window's top left.
pub open spec fn frame_of(
    pane: Pane,
    layout: Arrangement,
    rows: Rows,
    picks: Picks,
    corner: Option<PaneId>,
) -> PaneFrame {
    PaneFrame {
        pane: pane.pane,
        mode: pane.mode,
        title: title_of(pane.session, pane.mode, pane.label, rows.chats@),
        mark: identity_of(
            chat_of(rows.chats@, pane.session),
            pane.mode,
            pane.provider,
            picks.of(pane.pane),
        ),
        meta: meta_of(pane.session, rows),
        has_session: pane.session is Some,
        focused: layout.active_pane() == Some(pane.pane),
        leads: corner == Some(pane.pane),
    }
}

/// The panes of a tab, in order, as a frame shows them.
pub open spec fn frames_of(
    panes: Seq<Pane>,
    view: ViewId,
    tab: TabId,
    layout: Arrangement,
    rows: Rows,
    picks: Picks,
    corner: Option<PaneId>,
) -> Seq<PaneFrame>
    decreases panes.len(),
{
    if panes.len() == 0 {
        Seq::empty()
    } else {
        let before = frames_of(panes.drop_last(), view, tab, layout, rows, picks, corner);
        let pane = panes.last();
        if pane.view == view && pane.tab == tab {
            before.push(frame_of(pane, layout, rows, picks, corner))
        } else {
            before
        }
    }
}

fn make_frame(
    entry: &PaneEntry,
    focus: Option<PaneId>,
    rows: &Rows,
    picks: &Picks,
    corner: Option<PaneId>,
    Ghost(layout): Ghost<Arrangement>,
) -> (r: PaneSnap)
    requires
        focus == layout.active_pane(),
    ensures
        r.deep_view() == frame_of(entry.deep_view(), layout, *rows, *picks, corner),
{
    let session: Option<&str> = match &entry.session {
        Some(id) => Some(id.as_str()),
        None => None,
    };
    let chat: Option<&ChatRow> = match &entry.session {
        Some(id) => match find_chat(&rows.chats, id.as_str()) {
            Some(at) => Some(&rows.chats[at]),
            None => None,
        },
        None => None,
    };
    let pick: Option<String> = picks.get(entry.pane);
    PaneSnap {
        pane: entry.pane,
        mode: entry.mode,
        title: pane_title(&entry.session, entry.mode, &entry.label, &rows.chats),
        mark: header_mark(chat, entry.mode, &entry.provider, &pick),
        meta: pane_meta(session, rows),
        has_session: entry.session.is_some(),
        focused: focus == Some(entry.pane),
        leads: corner == Some(entry.pane),
    }
}

fn make_frames(
    layout: &Layout,
    view: ViewId,
    tab: TabId,
    rows: &Rows,
    picks: &Picks,
    corner: Option<PaneId>,
) -> (r: Vec<PaneSnap>)
    ensures
        r.deep_view() == frames_of(layout@.panes, view, tab, layout@, *rows, *picks, corner),
{
    let focus: Option<PaneId> = layout.active_pane_id();
    let mut out: Vec<PaneSnap> = Vec::new();
    let mut i: usize = 0;
    let ghost all = layout@.panes;
    proof {
        assert(all.take(0) =~= Seq::<Pane>::empty());
        assert(out.deep_view() =~= Seq::<PaneFrame>::empty());
    }
    while i < layout.panes.len()
        invariant
            i <= layout.panes@.len(),
            all == layout@.panes,
            focus == layout@.active_pane(),
            out.deep_view() == frames_of(
                all.take(i as int),
                view,
                tab,
                layout@,
                *rows,
                *picks,
                corner,
            ),
        decreases layout.panes@.len() - i,
    {
        let entry: &PaneEntry = &layout.panes[i];
        let ghost before = out.deep_view();
        proof {
            let front = all.take(i + 1);
            assert(front.drop_last() =~= all.take(i as int));
            assert(front.last() == entry.deep_view());
        }
        if entry.view == view && entry.tab == tab {
            let snap: PaneSnap = make_frame(entry, focus, rows, picks, corner, Ghost(layout@));
            let ghost shown = snap.deep_view();
            out.push(snap);
            proof {
                assert(out.deep_view() =~= before.push(shown));
            }
        }
        i += 1;
    }
    proof {
        assert(all.take(all.len() as int) =~= all);
    }
    out
}

/// A view in a frame.
#[derive(Debug)]
pub struct ViewSnap {
    pub view: ViewId,
    pub closable: bool,
    pub active_tab: TabId,
    pub chips: Vec<TabChip>,
    /// It keeps clear of the window's controls.
    pub leads: bool,
    /// The only leaf drawn, where the active tab is gone.
    pub fallback: Option<PaneId>,
    pub panes: Vec<PaneSnap>,
}

/// What a view shows in a frame.
#[verifier::ext_equal]
pub struct ViewFrame {
    pub view: ViewId,
    pub closable: bool,
    pub active_tab: TabId,
    pub chips: Seq<Chip>,
    pub leads: bool,
    pub fallback: Option<PaneId>,
    pub panes: Seq<PaneFrame>,
}

impl DeepView for ViewSnap {
    type V = ViewFrame;

    open spec fn deep_view(&self) -> ViewFrame {
        ViewFrame {
            view: self.view,
            closable: self.closable,
            active_tab: self.active_tab,
            chips: self.chips.deep_view(),
            leads: self.leads,
            fallback: self.fallback,
            panes: self.panes.deep_view(),
        }
    }
}

/// A tab of that view.
pub open spec fn is_tab_of(view: ViewId) -> spec_fn(crate::layout::TabEntry) -> bool {
    |entry: crate::layout::TabEntry| entry.view == view
}

/// The leaf drawn where a view's active tab is gone: the active pane of its
/// first tab, else the pane numbered zero.
pub open spec fn fallback_leaf(layout: Arrangement, view: ViewId) -> PaneId {
    match first_item(layout.tabs, is_tab_of(view)) {
        Some(tab) => tab.active_pane,
        None => PaneId(0),
    }
}

fn find_fallback(layout: &Layout, view: ViewId) -> (r: PaneId)
    ensures
        r == fallback_leaf(layout@, view),
{
    let mut at: usize = 0;
    while at < layout.tabs.len()
        invariant
            at <= layout.tabs@.len(),
            forall|i: int| 0 <= i < at ==> !is_tab_of(view)(#[trigger] layout@.tabs[i]),
        decreases layout.tabs@.len() - at,
    {
        if layout.tabs[at].view == view {
            proof {
                first_place_at(layout@.tabs, is_tab_of(view), at as int);
            }
            return layout.tabs[at].active_pane;
        }
        at += 1;
    }
    proof {
        first_place_at(layout@.tabs, is_tab_of(view), at as int);
    }
    PaneId(0)
}

/// A view as a frame shows it: its chips, and the panes of its active tab.
pub open spec fn view_frame(
    region: Region,
    layout: Arrangement,
    rows: Rows,
    picks: Picks,
) -> ViewFrame {
    let leads = region.view == layout.first_view;
    let tab = layout.tab(region.view, region.active_tab);
    ViewFrame {
        view: region.view,
        closable: layout.views.len() > 1,
        active_tab: region.active_tab,
        chips: chips_of(layout, rows.chats@, region, region.order),
        leads,
        fallback: if tab is Some {
            None
        } else {
            Some(fallback_leaf(layout, region.view))
        },
        panes: match tab {
            Some(tab) => frames_of(
                layout.panes,
                region.view,
                region.active_tab,
                layout,
                rows,
                picks,
                if leads {
                    Some(tab.first_pane)
                } else {
                    None
                },
            ),
            None => Seq::empty(),
        },
    }
}

/// The views of a frame, in order.
pub open spec fn view_frames(
    views: Seq<Region>,
    layout: Arrangement,
    rows: Rows,
    picks: Picks,
) -> Seq<ViewFrame> {
    Seq::new(views.len(), |i: int| view_frame(views[i], layout, rows, picks))
}

/// The snapshot a frame is drawn from.
pub fn workspace_snapshot(layout: &Layout, rows: &Rows, picks: &Picks) -> (r: Vec<ViewSnap>)
    ensures
        r.deep_view() == view_frames(layout@.views, layout@, *rows, *picks),
{
    let mut out: Vec<ViewSnap> = Vec::new();
    let mut i: usize = 0;
    let ghost target = view_frames(layout@.views, layout@, *rows, *picks);
    proof {
        assert(out.deep_view() =~= target.take(0));
    }
    while i < layout.views.len()
        invariant
            i <= layout.views@.len(),
            target == view_frames(layout@.views, layout@, *rows, *picks),
            out.deep_view() == target.take(i as int),
        decreases layout.views@.len() - i,
    {
        let view: ViewId = layout.views[i].view;
        let active_tab: TabId = layout.views[i].active_tab;
        let leads: bool = view == layout.first_view;
        let ghost before = out.deep_view();
        proof {
            assert(layout@.views[i as int] == layout.views@[i as int].deep_view());
        }
        let chips: Vec<TabChip> = make_chips(layout, &rows.chats, i);
        let mut panes: Vec<PaneSnap> = Vec::new();
        proof {
            assert(panes.deep_view() =~= Seq::<PaneFrame>::empty());
        }
        let fallback: Option<PaneId> = match layout.find_tab(view, active_tab) {
            Some(tab) => {
                let corner: Option<PaneId> = if leads {
                    Some(tab.first_pane)
                } else {
                    None
                };
                panes = make_frames(layout, view, active_tab, rows, picks, corner);
                None
            },
            None => Some(find_fallback(layout, view)),
        };
        let snap: ViewSnap = ViewSnap {
            view,
            closable: layout.views.len() > 1,
            active_tab,
            chips,
            leads,
            fallback,
            panes,
        };
        let ghost shown = snap.deep_view();
        proof {
            assert(shown == target[i as int]);
        }
        out.push(snap);
        proof {
            assert(out.deep_view() =~= before.push(shown));
            assert(target.take(i + 1) =~= before.push(shown));
        }
        i += 1;
    }
    proof {
        assert(target.take(target.len() as int) =~= target);
    }
    out
}

/// The badge of a pane's session.
#[derive(Debug)]
pub struct PaneBadge {
    pub pane: PaneId,
    pub chat_id: String,
    /// The conversation is known; else a monogram of home stands in.
    pub known: bool,
}

/// What a badge is for.
#[verifier::ext_equal]
pub struct BadgeSlot {
    pub pane: PaneId,
    pub chat_id: Seq<char>,
    pub known: bool,
}

impl DeepView for PaneBadge {
    type V = BadgeSlot;

    open spec fn deep_view(&self) -> BadgeSlot {
        BadgeSlot { pane: self.pane, chat_id: self.chat_id@, known: self.known }
    }
}

/// One badge for each chat pane with a session.
pub open spec fn badges_of(panes: Seq<Pane>, chats: Seq<ChatRow>) -> Seq<BadgeSlot>
    decreases panes.len(),
{
    if panes.len() == 0 {
        Seq::empty()
    } else {
        let before = badges_of(panes.drop_last(), chats);
        let pane = panes.last();
        if pane.mode is Chat && pane.session is Some {
            before.push(
                BadgeSlot {
                    pane: pane.pane,
                    chat_id: pane.session->0,
                    known: chat_of(chats, pane.session) is Some,
                },
            )
        } else {
            before
        }
    }
}

pub fn pane_project_badges(layout: &Layout, chats: &Vec<ChatRow>) -> (r: Vec<PaneBadge>)
    ensures
        r.deep_view() == badges_of(layout@.panes, chats@),
{
    let mut out: Vec<PaneBadge> = Vec::new();
    let mut i: usize = 0;
    let ghost all = layout@.panes;
    proof {
        assert(all.take(0) =~= Seq::<Pane>::empty());
        assert(out.deep_view() =~= Seq::<BadgeSlot>::empty());
    }
    while i < layout.panes.len()
        invariant
            i <= layout.panes@.len(),
            all == layout@.panes,
            out.deep_view() == badges_of(all.take(i as int), chats@),
        decreases layout.panes@.len() - i,
    {
        let entry: &PaneEntry = &layout.panes[i];
        let ghost before = out.deep_view();
        proof {
            let front = all.take(i + 1);
            assert(front.drop_last() =~= all.take(i as int));
            assert(front.last() == entry.deep_view());
        }
        match (&entry.mode, &entry.session) {
            (PaneMode::Chat, Some(id)) => {
                let badge: PaneBadge = PaneBadge {
                    pane: entry.pane,
                    chat_id: id.clone(),
                    known: find_chat(chats, id.as_str()).is_some(),
                };
                let ghost shown = badge.deep_view();
                out.push(badge);
                proof {
                    assert(out.deep_view() =~= before.push(shown));
                }
            },
            _ => {},
        }
        i += 1;
    }
    proof {
        assert(all.take(all.len() as int) =~= all);
    }
    out
}

/// The header above the only pane.
#[derive(Debug)]
pub struct PrimaryHeader {
    pub pane: PaneId,
    pub title: String,
    /// The selected conversation.
    pub chat_id: Option<String>,
    pub meta: PaneMeta,
    pub mark: HeaderMark,
}

/// The header above the only pane, where one is focused: that of the selected
/// conversation, which also has a project badge.
pub fn render_primary_pane_header(
    focused: Option<PaneId>,
    selected: Option<&ChatRow>,
    rows: &Rows,
    composer_harness: &Option<String>,
) -> (r: Option<PrimaryHeader>)
    ensures
        r is Some <==> focused is Some,
        r matches Some(header) ==> {
            let chat_id = match row_of(selected) {
                Some(chat) => Some(chat.id@),
                None => None,
            };
            &&& header.pane == focused->0
            &&& header.title@ == (match row_of(selected) {
                Some(chat) if chat.title is Some => one_line_of(chat.title->0@),
                _ => "New session"@,
            })
            &&& header.chat_id.deep_view() == chat_id
            &&& header.meta.deep_view() == meta_of(chat_id, *rows)
            &&& header.mark.deep_view() == identity_of(
                row_of(selected),
                PaneMode::Chat,
                None,
                composer_harness.deep_view(),
            )
        },
{
    let pane: PaneId = match focused {
        Some(pane) => pane,
        None => return None,
    };
    let chat_id: Option<String> = match selected {
        Some(chat) => Some(chat.id.clone()),
        None => None,
    };
    let meta: PaneMeta = match selected {
        Some(chat) => pane_meta(Some(chat.id.as_str()), rows),
        None => pane_meta(None, rows),
    };
    let provider: Option<String> = None;
    Some(
        PrimaryHeader {
            pane,
            title: primary_title(selected),
            chat_id,
            meta,
            mark: header_mark(selected, PaneMode::Chat, &provider, composer_harness),
        },
    )
}

/// At most one pane of a frame is focused, where ids are not shared.
pub proof fn one_pane_is_focused(
    one: Pane,
    other: Pane,
    layout: Arrangement,
    rows: Rows,
    picks: Picks,
    corner: Option<PaneId>,
)
    requires
        frame_of(one, layout, rows, picks, corner).focused,
        frame_of(other, layout, rows, picks, corner).focused,
    ensures
        one.pane == other.pane,
{
}

/// A session that is not known carries no context, and an unbound pane never
/// does.
pub proof fn unknown_sessions_carry_no_metadata(session: Option<Seq<char>>, rows: Rows)
    requires
        chat_of(rows.chats@, session) is None,
    ensures
        meta_of(session, rows).context is None,
        meta_of(session, rows).state is Idle,
        meta_of(None, rows).context is None,
{
}

} // verus!
