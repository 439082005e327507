//! How an agent's request reaches the browser tabs of its conversation.
use vstd::prelude::*;
use crate::json::{add_item, add_member, all_items, all_members, text, value_of, Json, Value};
use crate::terminal_panel::ChatHost;
use crate::text::{is_text, same_text};

verus! {

/// How many browser tabs a conversation may have.
pub const MAX_BROWSER_TABS: usize = 16;

/// A tab of the right pane.
#[derive(Debug, Clone, Copy, PartialEq, Eq, Structural)]
pub enum RightSurface {
    /// The choice of what to open.
    Picker,
    Browser(u64),
    /// Anything else, by its key.
    Other(u64),
}

/// The page a browser tab shows.
#[derive(Debug)]
pub struct PageState {
    pub url: String,
    pub title: String,
    pub loading: bool,
    pub error: Option<String>,
    pub can_back: bool,
    pub can_forward: bool,
}

/// What an agent asks of the browser.
#[derive(Debug)]
pub enum BrowserAction {
    /// A list of the tabs.
    Tabs,
    /// A new tab, at a normalized address where the given one is valid.
    Open { address: Result<String, String> },
    Close { tab: u64 },
    /// Something inside a tab.
    Page { tab: u64 },
}

impl BrowserAction {
    /// The tab an action is about.
    pub open spec fn about(self) -> Option<u64> {
        match self {
            BrowserAction::Close { tab } => Some(tab),
            BrowserAction::Page { tab } => Some(tab),
            _ => None,
        }
    }

    pub fn tab(&self) -> (r: Option<u64>)
        ensures
            r == self.about(),
    {
        match self {
            BrowserAction::Close { tab } => Some(*tab),
            BrowserAction::Page { tab } => Some(*tab),
            _ => None,
        }
    }
}

/// What the routing reads of the application.
#[derive(Debug)]
pub struct BrowserHost {
    /// This desktop controls an engine elsewhere.
    pub remote: bool,
    pub local_device_id: Option<String>,
    pub active_chat: String,
    pub right_pane_open: bool,
    /// The right pane's tabs of the conversation the request is for.
    pub surfaces: Vec<RightSurface>,
    /// Every live browser tab, with its page.
    pub pages: Vec<(u64, PageState)>,
}

/// What a request leads to.
#[derive(Debug)]
pub enum BrowserPlan {
    Refuse(String),
    Answer(Json),
    /// A tab is opened, and the right pane with it where asked.
    Open { url: String, show_pane: bool },
    /// The tab is closed in the right pane that shows.
    CloseShown { tab: u64 },
    /// The tab is closed in a conversation that does not show.
    CloseHidden { tab: u64 },
    /// The tab's own page handles it.
    Forward { tab: u64 },
}

/// A conversation can be served: it lives on this desktop.
pub open spec fn served_here(
    remote: bool,
    local_device_id: Option<Seq<char>>,
    chats: Seq<ChatHost>,
    session: Seq<char>,
) -> bool {
    &&& !remote
    &&& exists|i: int|
        0 <= i < chats.len() && (#[trigger] chats[i]).id@ == session && local_device_id == Some(
            chats[i].device_id@,
        )
}

fn is_served_here(host: &BrowserHost, chats: &Vec<ChatHost>, session: &str) -> (r: bool)
    ensures
        r == served_here(host.remote, host.local_device_id.deep_view(), chats@, session@),
{
    if host.remote {
        return false;
    }
    let mut i: usize = 0;
    while i < chats.len()
        invariant
            i <= chats@.len(),
            !host.remote,
            forall|k: int|
                0 <= k < i ==> !((#[trigger] chats@[k]).id@ == session@
                    && host.local_device_id.deep_view() == Some(chats@[k].device_id@)),
        decreases chats@.len() - i,
    {
        if same_text(chats[i].id.as_str(), session) && is_text(
            &host.local_device_id,
            chats[i].device_id.as_str(),
        ) {
            return true;
        }
        i += 1;
    }
    false
}

/// The browser tabs among the tabs of a right pane, in order.
pub open spec fn browser_tabs(surfaces: Seq<RightSurface>) -> Seq<u64>
    decreases surfaces.len(),
{
    if surfaces.len() == 0 {
        Seq::empty()
    } else {
        match surfaces.last() {
            RightSurface::Browser(tab) => browser_tabs(surfaces.drop_last()).push(tab),
            _ => browser_tabs(surfaces.drop_last()),
        }
    }
}

fn tabs_of(surfaces: &Vec<RightSurface>) -> (r: Vec<u64>)
    ensures
        r@ == browser_tabs(surfaces@),
{
    let mut out: Vec<u64> = Vec::new();
    let mut i: usize = 0;
    proof {
        assert(surfaces@.take(0) =~= Seq::<RightSurface>::empty());
    }
    while i < surfaces.len()
        invariant
            i <= surfaces@.len(),
            out@ == browser_tabs(surfaces@.take(i as int)),
        decreases surfaces@.len() - i,
    {
        proof {
            let front = surfaces@.take(i + 1);
            assert(front.drop_last() =~= surfaces@.take(i as int));
            assert(front.last() == surfaces@[i as int]);
        }
        match surfaces[i] {
            RightSurface::Browser(tab) => {
                out.push(tab);
            },
            _ => {},
        }
        i += 1;
    }
    proof {
        assert(surfaces@.take(surfaces@.len() as int) =~= surfaces@);
    }
    out
}

/// The place of a tab's page, or the number of pages.
pub open spec fn page_place(pages: Seq<(u64, PageState)>, tab: u64) -> int
    decreases pages.len(),
{
    if pages.len() == 0 || pages[0].0 == tab {
        0
    } else {
        1 + page_place(pages.subrange(1, pages.len() as int), tab)
    }
}

proof fn page_place_is_first(pages: Seq<(u64, PageState)>, tab: u64, at: int)
    requires
        0 <= at <= pages.len(),
        forall|i: int| 0 <= i < at ==> (#[trigger] pages[i]).0 != tab,
        at < pages.len() ==> pages[at].0 == tab,
    ensures
        page_place(pages, tab) == at,
    decreases at,
{
    if at > 0 {
        let rest = pages.subrange(1, pages.len() as int);
        assert forall|i: int| 0 <= i < at - 1 implies (#[trigger] rest[i]).0 != tab by {
            assert(rest[i] == pages[i + 1]);
        }
        assert(pages[0].0 != tab);
        page_place_is_first(rest, tab, at - 1);
    }
}

fn find_page(pages: &Vec<(u64, PageState)>, tab: u64) -> (r: Option<usize>)
    ensures
        (match r {
            Some(at) => at < pages@.len() && at == page_place(pages@, tab),
            None => page_place(pages@, tab) == pages@.len(),
        }),
{
    let mut i: usize = 0;
    while i < pages.len()
        invariant
            i <= pages@.len(),
            forall|k: int| 0 <= k < i ==> (#[trigger] pages@[k]).0 != tab,
        decreases pages@.len() - i,
    {
        if pages[i].0 == tab {
            proof {
                page_place_is_first(pages@, tab, i as int);
            }
            return Some(i);
        }
        i += 1;
    }
    proof {
        page_place_is_first(pages@, tab, i as int);
    }
    None
}

/// A tab as an agent sees it.
pub open spec fn state_value(tab: u64, page: PageState) -> Value {
    Value::Object(
        seq![
            ("tab"@, Value::Unsigned(tab)),
            ("url"@, Value::Text(page.url@)),
            ("title"@, Value::Text(page.title@)),
            ("loading"@, Value::Bool(page.loading)),
            (
                "error"@,
                match page.error {
                    Some(error) => Value::Text(error@),
                    None => Value::Null,
                },
            ),
            ("canBack"@, Value::Bool(page.can_back)),
            ("canForward"@, Value::Bool(page.can_forward)),
        ],
    )
}

pub fn browser_state(tab: u64, page: &PageState) -> (r: Json)
    ensures
        value_of(r) == state_value(tab, *page),
{
    let mut members: Vec<(String, Json)> = Vec::new();
    proof {
        assert(all_members(members@) =~= Seq::<(Seq<char>, Value)>::empty());
    }
    add_member(&mut members, "tab", Json::Unsigned(tab));
    add_member(&mut members, "url", text(page.url.as_str()));
    add_member(&mut members, "title", text(page.title.as_str()));
    add_member(&mut members, "loading", Json::Bool(page.loading));
    let error: Json = match &page.error {
        Some(error) => text(error.as_str()),
        None => Json::Null,
    };
    add_member(&mut members, "error", error);
    add_member(&mut members, "canBack", Json::Bool(page.can_back));
    add_member(&mut members, "canForward", Json::Bool(page.can_forward));
    proof {
        assert(all_members(members@) =~= state_value(tab, *page)->Object_0);
    }
    Json::Object(members)
}

/// The tabs that have a page, as an agent sees them.
pub open spec fn listed(tabs: Seq<u64>, pages: Seq<(u64, PageState)>) -> Seq<Value>
    decreases tabs.len(),
{
    if tabs.len() == 0 {
        Seq::empty()
    } else {
        let before = listed(tabs.drop_last(), pages);
        let at = page_place(pages, tabs.last());
        if at < pages.len() {
            before.push(state_value(tabs.last(), pages[at].1))
        } else {
            before
        }
    }
}

/// The list of a conversation's tabs.
pub open spec fn tabs_value(tabs: Seq<u64>, pages: Seq<(u64, PageState)>) -> Value {
    Value::Object(
        seq![
            ("engine"@, Value::Text("chromium"@)),
            ("tabs"@, Value::Array(listed(tabs, pages))),
        ],
    )
}

fn list_tabs(tabs: &Vec<u64>, pages: &Vec<(u64, PageState)>) -> (r: Json)
    ensures
        value_of(r) == tabs_value(tabs@, pages@),
{
    let mut states: Vec<Json> = Vec::new();
    let mut i: usize = 0;
    proof {
        assert(tabs@.take(0) =~= Seq::<u64>::empty());
        assert(all_items(states@) =~= Seq::<Value>::empty());
    }
    while i < tabs.len()
        invariant
            i <= tabs@.len(),
            all_items(states@) == listed(tabs@.take(i as int), pages@),
        decreases tabs@.len() - i,
    {
        proof {
            let front = tabs@.take(i + 1);
            assert(front.drop_last() =~= tabs@.take(i as int));
            assert(front.last() == tabs@[i as int]);
        }
        match find_page(pages, tabs[i]) {
            Some(at) => {
                let state: Json = browser_state(tabs[i], &pages[at].1);
                add_item(&mut states, state);
            },
            None => {},
        }
        i += 1;
    }
    proof {
        assert(tabs@.take(tabs@.len() as int) =~= tabs@);
    }
    let mut members: Vec<(String, Json)> = Vec::new();
    proof {
        assert(all_members(members@) =~= Seq::<(Seq<char>, Value)>::empty());
    }
    add_member(&mut members, "engine", text("chromium"));
    add_member(&mut members, "tabs", Json::Array(states));
    proof {
        assert(all_members(members@) =~= tabs_value(tabs@, pages@)->Object_0);
    }
    Json::Object(members)
}

/// What a request leads to, and what an agent is told where it is refused.
pub open spec fn planned(
    host: BrowserHost,
    chats: Seq<ChatHost>,
    session: Seq<char>,
    action: BrowserAction,
    plan: BrowserPlan,
) -> bool {
    let tabs = browser_tabs(host.surfaces@);
    let tab = action.about();
    if !served_here(host.remote, host.local_device_id.deep_view(), chats, session) {
        &&& plan is Refuse
        &&& plan->Refuse_0@
            == "Conversation is not available on this desktop. Remote browser control is not connected."@
    } else if tab is Some && !(tabs.contains(tab->0) && page_place(host.pages@, tab->0)
        < host.pages@.len()) {
        &&& plan is Refuse
        &&& plan->Refuse_0@ == "Tab does not belong to this conversation or has been closed"@
    } else {
        match action {
            BrowserAction::Tabs => {
                &&& plan is Answer
                &&& value_of(plan->Answer_0) == tabs_value(tabs, host.pages@)
            },
            BrowserAction::Open { address } => match address {
                Err(error) => plan is Refuse && plan->Refuse_0@ == error@,
                Ok(url) => if tabs.len() >= MAX_BROWSER_TABS {
                    &&& plan is Refuse
                    &&& plan->Refuse_0@
                        == "Close an existing browser tab before opening more than 16 in this conversation"@
                } else {
                    &&& plan is Open
                    &&& plan->url@ == url@
                    &&& plan->show_pane == (host.active_chat@ == session && !host.right_pane_open)
                },
            },
            BrowserAction::Close { tab } => if host.active_chat@ == session {
                plan == BrowserPlan::CloseShown { tab }
            } else {
                plan == BrowserPlan::CloseHidden { tab }
            },
            BrowserAction::Page { tab } => plan == BrowserPlan::Forward { tab },
        }
    }
}

/// Routes an agent's request.
pub fn handle_browser_request(
    host: &BrowserHost,
    chats: &Vec<ChatHost>,
    session: &str,
    action: BrowserAction,
) -> (r: BrowserPlan)
    ensures
        planned(*host, chats@, session@, action, r),
{
    if !is_served_here(host, chats, session) {
        return BrowserPlan::Refuse(
            "Conversation is not available on this desktop. Remote browser control is not connected.".to_owned(),
        );
    }
    let tabs: Vec<u64> = tabs_of(&host.surfaces);
    match action.tab() {
        Some(tab) => {
            let mut owned: bool = false;
            let mut i: usize = 0;
            while i < tabs.len()
                invariant
                    i <= tabs@.len(),
                    owned == tabs@.take(i as int).contains(tab),
                decreases tabs@.len() - i,
            {
                proof {
                    let front = tabs@.take(i + 1);
                    assert(front =~= tabs@.take(i as int).push(tabs@[i as int]));
                    assert(front[i as int] == tabs@[i as int]);
                    if tabs@.take(i as int).contains(tab) {
                        let k = choose|k: int|
                            0 <= k < i && #[trigger] tabs@.take(i as int)[k] == tab;
                        assert(front[k] == tab);
                    }
                    if front.contains(tab) && tabs@[i as int] != tab {
                        let k = choose|k: int| 0 <= k < front.len() && #[trigger] front[k] == tab;
                        assert(tabs@.take(i as int)[k] == tab);
                    }
                }
                if tabs[i] == tab {
                    owned = true;
                }
                i += 1;
            }
            proof {
                assert(tabs@.take(tabs@.len() as int) =~= tabs@);
            }
            if !owned || find_page(&host.pages, tab).is_none() {
                return BrowserPlan::Refuse(
                    "Tab does not belong to this conversation or has been closed".to_owned(),
                );
            }
        },
        None => {},
    }
    match action {
        BrowserAction::Tabs => BrowserPlan::Answer(list_tabs(&tabs, &host.pages)),
        BrowserAction::Open { address } => match address {
            Err(error) => BrowserPlan::Refuse(error),
            Ok(url) => {
                if tabs.len() >= MAX_BROWSER_TABS {
                    return BrowserPlan::Refuse(
                        "Close an existing browser tab before opening more than 16 in this conversation".to_owned(),
                    );
                }
                let shown: bool = same_text(host.active_chat.as_str(), session);
                BrowserPlan::Open { url, show_pane: shown && !host.right_pane_open }
            },
        },
        BrowserAction::Close { tab } => {
            if same_text(host.active_chat.as_str(), session) {
                BrowserPlan::CloseShown { tab }
            } else {
                BrowserPlan::CloseHidden { tab }
            }
        },
        BrowserAction::Page { tab } => BrowserPlan::Forward { tab },
    }
}

/// What an agent is told of a tab that was opened: its state, or why its page
/// failed.
pub fn opened_reply(tab: u64, page: &PageState) -> (r: Result<Json, String>)
    ensures
        (match r {
            Ok(state) => page.error is None && value_of(state) == state_value(tab, *page),
            Err(error) => page.error is Some && error@ == page.error->0@,
        }),
{
    match &page.error {
        Some(error) => Err(error.clone()),
        None => Ok(browser_state(tab, page)),
    }
}

/// What an agent is told of a tab that was closed.
pub fn closed_reply(tab: u64) -> (r: Json)
    ensures
        value_of(r) == Value::Object(seq![("closed"@, Value::Unsigned(tab))]),
{
    let mut members: Vec<(String, Json)> = Vec::new();
    proof {
        assert(all_members(members@) =~= Seq::<(Seq<char>, Value)>::empty());
    }
    add_member(&mut members, "closed", Json::Unsigned(tab));
    proof {
        assert(all_members(members@) =~= seq![("closed"@, Value::Unsigned(tab))]);
    }
    Json::Object(members)
}

/// The tabs of a right pane without one of them.
pub open spec fn without_tab(surfaces: Seq<RightSurface>, tab: u64) -> Seq<RightSurface> {
    surfaces.filter(|surface: RightSurface| surface != RightSurface::Browser(tab))
}

/// Takes a closed tab out of a right pane that does not show; where it was the
/// active one, the choice of what to open takes its place.
pub fn close_hidden_tab(surfaces: &mut Vec<RightSurface>, active: RightSurface, tab: u64) -> (r:
    RightSurface)
    ensures
        final(surfaces)@ == without_tab(old(surfaces)@, tab),
        r == (if active == RightSurface::Browser(tab) {
            RightSurface::Picker
        } else {
            active
        }),
{
    let mut kept: Vec<RightSurface> = Vec::new();
    let mut i: usize = 0;
    let ghost all = surfaces@;
    let ghost keep = |surface: RightSurface| surface != RightSurface::Browser(tab);
    proof {
        reveal(Seq::filter);
        assert(all.take(0) =~= Seq::<RightSurface>::empty());
    }
    while i < surfaces.len()
        invariant
            i <= surfaces@.len(),
            surfaces@ == all,
            keep == (|surface: RightSurface| surface != RightSurface::Browser(tab)),
            kept@ == all.take(i as int).filter(keep),
        decreases surfaces@.len() - i,
    {
        proof {
            reveal(Seq::filter);
            let front = all.take(i + 1);
            assert(front.drop_last() =~= all.take(i as int));
            assert(front.last() == all[i as int]);
        }
        if surfaces[i] != RightSurface::Browser(tab) {
            kept.push(surfaces[i]);
        }
        i += 1;
    }
    proof {
        assert(all.take(all.len() as int) =~= all);
    }
    *surfaces = kept;
    if active == RightSurface::Browser(tab) {
        RightSurface::Picker
    } else {
        active
    }
}

/// Whether the control channel is opened: once, and never while an engine
/// elsewhere is controlled.
pub fn starts_browser_control(started: bool, remote: bool) -> (r: bool)
    ensures
        r == (!started && !remote),
{
    !started && !remote
}

/// A request for a conversation that lives elsewhere never touches a tab, and
/// neither does one about a tab of another conversation.
pub proof fn foreign_tabs_are_out_of_reach(
    host: BrowserHost,
    chats: Seq<ChatHost>,
    session: Seq<char>,
    action: BrowserAction,
    plan: BrowserPlan,
)
    requires
        planned(host, chats, session, action, plan),
        !served_here(host.remote, host.local_device_id.deep_view(), chats, session) || (
        action.about() is Some && !browser_tabs(host.surfaces@).contains(action.about()->0)),
    ensures
        plan is Refuse,
{
}

/// A conversation never gets more browser tabs than it may have.
pub proof fn tabs_stay_bounded(
    host: BrowserHost,
    chats: Seq<ChatHost>,
    session: Seq<char>,
    action: BrowserAction,
    plan: BrowserPlan,
)
    requires
        planned(host, chats, session, action, plan),
        plan is Open,
    ensures
        browser_tabs(host.surfaces@).len() + 1 <= MAX_BROWSER_TABS,
{
}

} // verus!
