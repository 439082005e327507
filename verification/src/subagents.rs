//! Subagent inventory: a selector over a chat's transcript (spawn tool parts).
use vstd::prelude::*;
use crate::clock::{elapsed_between, elapsed_text, instant, millis, seconds_between};
use crate::entry::{
    input_member, input_of, member, spawn_input, MessagePart, MessageRole, MessageStatus,
    SessionMessageEntry, SubagentStatus, Tool, ToolPart,
};
use crate::json::Json;
use crate::text::{
    copy_option, eq_ignore_ascii_case, first_chars, first_meaningful_line, is_text, join3,
    meaningful_line, one_line_of, rest_after, same_ignoring_ascii_case, same_text, single_line,
    starts_with, take_chars, trim, trimmed,
};

verus! {

/// Display lifecycle of one spawned subagent. `Started` is the honest neutral
/// state for a spawn that returned without lifecycle proof.
#[derive(Debug, Clone, Copy, PartialEq, Eq, Structural)]
pub enum SubagentPhase {
    Running,
    Started,
    Done,
    Failed,
}

impl SubagentPhase {
    /// Still owed a report.
    pub open spec fn is_active(self) -> bool {
        self is Running || self is Started
    }

    pub fn active(self) -> (r: bool)
        ensures
            r == self.is_active(),
    {
        matches!(self, Self::Running | Self::Started)
    }
}

/// One spawned subagent, reduced to what the tray, panel and sidebar draw.
/// Instants in milliseconds.
#[derive(Debug)]
pub struct SubagentSummary {
    /// The spawn tool part id.
    pub id: String,
    pub title: String,
    pub agent_type: Option<String>,
    pub model: Option<String>,
    pub status: SubagentPhase,
    pub started: Option<i64>,
    pub finished: Option<i64>,
    /// First line of the result text, or the live tail.
    pub summary: Option<String>,
    /// The spawned transcript's document; none for harnesses without one.
    pub doc_ref: Option<String>,
    /// Sits in the chat's latest turn.
    pub latest_turn: bool,
}

/// What a summary holds.
#[verifier::ext_equal]
pub struct Summary {
    pub id: Seq<char>,
    pub title: Seq<char>,
    pub agent_type: Option<Seq<char>>,
    pub model: Option<Seq<char>>,
    pub status: SubagentPhase,
    pub started: Option<i64>,
    pub finished: Option<i64>,
    pub summary: Option<Seq<char>>,
    pub doc_ref: Option<Seq<char>>,
    pub latest_turn: bool,
}

impl DeepView for SubagentSummary {
    type V = Summary;

    open spec fn deep_view(&self) -> Summary {
        Summary {
            id: self.id@,
            title: self.title@,
            agent_type: self.agent_type.deep_view(),
            model: self.model.deep_view(),
            status: self.status,
            started: self.started,
            finished: self.finished,
            summary: self.summary.deep_view(),
            doc_ref: self.doc_ref.deep_view(),
            latest_turn: self.latest_turn,
        }
    }
}

impl Summary {
    /// The running time in words: live while the agent is active, frozen at
    /// its finish afterwards, nothing where either end is unknown.
    pub open spec fn elapsed(self, now: i64) -> Option<Seq<char>> {
        let end = if self.status.is_active() {
            Some(now)
        } else {
            self.finished
        };
        match (self.started, end) {
            (Some(start), Some(end)) => Some(
                elapsed_text(seconds_between(start as int, end as int)),
            ),
            _ => None,
        }
    }
}

impl SubagentSummary {
    /// `45s` / `2m` / `1h 4m` — live for active phases, frozen at finish.
    /// Settled agents with no observed finish time show nothing.
    pub fn elapsed(&self, now: i64) -> (r: Option<String>)
        ensures
            r.deep_view() == self.deep_view().elapsed(now),
    {
        let start: i64 = match self.started {
            Some(start) => start,
            None => return None,
        };
        if self.status.active() {
            return Some(elapsed_between(start, now));
        }
        match self.finished {
            Some(end) => Some(elapsed_between(start, end)),
            None => None,
        }
    }

    /// The same summary once more.
    pub fn copied(&self) -> (r: Self)
        ensures
            r.deep_view() == self.deep_view(),
    {
        SubagentSummary {
            id: self.id.clone(),
            title: self.title.clone(),
            agent_type: copy_option(&self.agent_type),
            model: copy_option(&self.model),
            status: self.status,
            started: self.started,
            finished: self.finished,
            summary: copy_option(&self.summary),
            doc_ref: copy_option(&self.doc_ref),
            latest_turn: self.latest_turn,
        }
    }
}

/// A text member that holds more than white space, trimmed.
pub open spec fn input_text(input: Option<Json>, key: Seq<char>) -> Option<Seq<char>> {
    match input_member(input, key) {
        Some(Json::Text(content)) if trimmed(content@).len() > 0 => Some(trimmed(content@)),
        _ => None,
    }
}

fn input_str(input: Option<&Json>, key: &str) -> (r: Option<String>)
    ensures
        ({
            let whole = match input {
                Some(value) => Some(*value),
                None => None,
            };
            r.deep_view() == input_text(whole, key@)
        }),
{
    match member(input, key) {
        Some(Json::Text(content)) => {
            let bare: String = trim(content.as_str());
            if bare.as_str().is_empty() {
                None
            } else {
                Some(bare)
            }
        },
        _ => None,
    }
}

/// A spawn that returns at once and keeps running detached. Harnesses send the
/// flag as a boolean; a text saying "true" counts too.
pub open spec fn background(input: Option<Json>) -> bool {
    match input_member(input, "run_in_background"@) {
        Some(Json::Bool(flag)) => flag,
        Some(Json::Text(flag)) => same_ignoring_ascii_case(trimmed(flag@), "true"@),
        _ => false,
    }
}

fn is_background_spawn(input: Option<&Json>) -> (r: bool)
    ensures
        ({
            let whole = match input {
                Some(value) => Some(*value),
                None => None,
            };
            r == background(whole)
        }),
{
    match member(input, "run_in_background") {
        Some(Json::Bool(flag)) => *flag,
        Some(Json::Text(flag)) => {
            let bare: String = trim(flag.as_str());
            eq_ignore_ascii_case(bare.as_str(), "true")
        },
        _ => false,
    }
}

/// The name a spawn was called by, if its kind carries one.
pub open spec fn spawn_name(tool: Tool) -> Option<Seq<char>> {
    match tool {
        Tool::Unknown { name, input } => Some(name@),
        Tool::Mcp { tool, input } => Some(tool@),
        _ => None,
    }
}

/// A spawn's name without its leading genus.
pub open spec fn without_genus(name: Seq<char>) -> Seq<char> {
    if "Agent: "@.is_prefix_of(name) {
        name.subrange("Agent: "@.len() as int, name.len() as int)
    } else if "Task: "@.is_prefix_of(name) {
        name.subrange("Task: "@.len() as int, name.len() as int)
    } else {
        name
    }
}

/// What a candidate gives as a title: its one line, capped, unless it is empty
/// or only says "agent".
pub open spec fn title_from(candidate: Seq<char>) -> Option<Seq<char>> {
    let line = one_line_of(candidate);
    if line.len() > 0 && !same_ignoring_ascii_case(line, "agent"@) {
        Some(first_chars(line, 40))
    } else {
        None
    }
}

/// A spawn's title: from its name, else from its description, else "Agent".
pub open spec fn title_of(tool: Tool) -> Seq<char> {
    let described = match input_member(input_of(tool), "description"@) {
        Some(Json::Text(content)) => title_from(content@),
        _ => None,
    };
    match spawn_name(tool) {
        None => "Agent"@,
        Some(name) => match (title_from(without_genus(name)), described) {
            (Some(title), _) => title,
            (None, Some(title)) => title,
            (None, None) => "Agent"@,
        },
    }
}

fn title_candidate(candidate: &str) -> (r: Option<String>)
    ensures
        r.deep_view() == title_from(candidate@),
{
    let line: String = single_line(candidate);
    if !line.as_str().is_empty() && !eq_ignore_ascii_case(line.as_str(), "agent") {
        Some(take_chars(line.as_str(), 40))
    } else {
        None
    }
}

fn bare_name(name: &str) -> (r: String)
    ensures
        r@ == without_genus(name@),
{
    proof {
        reveal_strlit("Agent: ");
        reveal_strlit("Task: ");
    }
    if starts_with(name, "Agent: ") {
        rest_after(name, 7)
    } else if starts_with(name, "Task: ") {
        rest_after(name, 6)
    } else {
        name.to_owned()
    }
}

/// Strips a leading genus from a spawn's name, then takes the first line that
/// says something.
pub fn spawn_title(tool: &Tool) -> (r: String)
    ensures
        r@ == title_of(*tool),
{
    let name: &str = match tool {
        Tool::Unknown { name, input: _ } => name.as_str(),
        Tool::Mcp { tool: name, input: _ } => name.as_str(),
        _ => return "Agent".to_owned(),
    };
    let bare: String = bare_name(name);
    match title_candidate(bare.as_str()) {
        Some(title) => return title,
        None => {},
    }
    match member(spawn_input(tool), "description") {
        Some(Json::Text(content)) => match title_candidate(content.as_str()) {
            Some(title) => return title,
            None => {},
        },
        _ => {},
    }
    "Agent".to_owned()
}

/// The first meaningful line of a result, capped at 120 characters: a longer
/// one ends in an ellipsis, which is the last of them.
pub open spec fn result_line(text: Seq<char>) -> Option<Seq<char>> {
    match meaningful_line(text) {
        None => None,
        Some(line) => if line.len() > 120 {
            Some(first_chars(line, 119).push('…'))
        } else {
            Some(line)
        },
    }
}

pub fn one_line(text: &str) -> (r: Option<String>)
    ensures
        r.deep_view() == result_line(text@),
{
    match first_meaningful_line(text) {
        None => None,
        Some(line) => {
            if line.as_str().unicode_len() > 120 {
                let mut out: String = take_chars(line.as_str(), 119);
                out.push('…');
                Some(out)
            } else {
                Some(line)
            }
        },
    }
}

/// How many characters of a result line are sure to be those of its text.
pub open spec fn uncut(line: Seq<char>) -> int {
    if line.len() < 120 {
        line.len() as int
    } else {
        119
    }
}

/// A result line never passes its cap, and begins like the line it is made
/// from.
pub proof fn a_result_line_keeps_its_cap(text: Seq<char>)
    ensures
        result_line(text) is Some <==> meaningful_line(text) is Some,
        result_line(text) matches Some(line) ==> {
            &&& line.len() <= 120
            &&& line.take(uncut(line)) == meaningful_line(text)->0.take(
                uncut(line),
            )
        },
{
    if let Some(line) = meaningful_line(text) {
        if line.len() > 120 {
            let cut = first_chars(line, 119);
            assert(cut.push('…').take(119) =~= line.take(119));
        }
    }
}

fn one_line_option(text: &Option<String>) -> (r: Option<String>)
    ensures
        r.deep_view() == line_option(*text),
{
    match text {
        Some(text) => one_line(text.as_str()),
        None => None,
    }
}

/// The result line of an optional text.
pub open spec fn line_option(text: Option<String>) -> Option<Seq<char>> {
    match text {
        Some(text) => result_line(text@),
        None => None,
    }
}

/// The key a subagent is observed under.
pub open spec fn observation_key(chat: Seq<char>, part: Seq<char>) -> Seq<char> {
    chat + "/"@ + part
}

pub fn part_key(chat_id: &str, part_id: &str) -> (r: String)
    ensures
        r@ == observation_key(chat_id@, part_id@),
{
    join3(chat_id, "/", part_id)
}

/// Document id for the result snapshot of a subagent without a document.
pub fn result_doc_id(chat_id: &str, part_id: &str) -> (r: String)
    ensures
        r@ == chat_id@ + "--sub--result:"@ + part_id@,
{
    join3(chat_id, "--sub--result:", part_id)
}

/// What the selector reads: the selected chat's transcript, the loaded
/// documents, and what this session has observed of its subagents.
pub struct SubagentState {
    pub selected_chat: Option<String>,
    pub transcript: Vec<SessionMessageEntry>,
    pub sub_transcripts: Vec<(String, Vec<SessionMessageEntry>)>,
    /// First-observed finish times, in milliseconds.
    pub finished_obs: Vec<(String, i64)>,
    /// Keys seen active in this session.
    pub active_obs: Vec<String>,
}

/// The loaded document of that name, or no entries.
pub open spec fn document(
    docs: Seq<(String, Vec<SessionMessageEntry>)>,
    id: Seq<char>,
) -> Seq<SessionMessageEntry>
    decreases docs.len(),
{
    if docs.len() == 0 {
        Seq::empty()
    } else if docs[0].0@ == id {
        docs[0].1@
    } else {
        document(docs.subrange(1, docs.len() as int), id)
    }
}

/// The finish time observed under a key.
pub open spec fn observed_finish(obs: Seq<(String, i64)>, key: Seq<char>) -> Option<i64>
    decreases obs.len(),
{
    if obs.len() == 0 {
        None
    } else if obs[0].0@ == key {
        Some(obs[0].1)
    } else {
        observed_finish(obs.subrange(1, obs.len() as int), key)
    }
}

/// Whether a key was seen active.
pub open spec fn observed_active(obs: Seq<String>, key: Seq<char>) -> bool {
    exists|i: int| 0 <= i < obs.len() && (#[trigger] obs[i])@ == key
}

/// The transcript of a chat: the selected one, or a loaded document.
pub open spec fn entries_of(state: SubagentState, chat: Seq<char>) -> Seq<SessionMessageEntry> {
    if state.selected_chat is Some && state.selected_chat->0@ == chat {
        state.transcript@
    } else {
        document(state.sub_transcripts@, chat)
    }
}

/// Where the latest turn begins: at the last user entry, or at the start.
pub open spec fn last_user(entries: Seq<SessionMessageEntry>) -> int
    decreases entries.len(),
{
    if entries.len() == 0 {
        0
    } else if entries.last().role is User {
        entries.len() - 1
    } else {
        last_user(entries.drop_last())
    }
}

/// The phase of one spawn. A reported lifecycle wins; without one, a detached
/// spawn is only started, an unresolved spawn runs while its turn streams and
/// died with it otherwise, a result is the final report, and a call that
/// returned early is only started while its turn streams.
pub open spec fn phase_of(part: ToolPart, streaming: bool) -> SubagentPhase {
    if part.is_error {
        SubagentPhase::Failed
    } else {
        match part.subagent_status {
            Some(SubagentStatus::Running) => SubagentPhase::Running,
            Some(SubagentStatus::Done) => SubagentPhase::Done,
            Some(SubagentStatus::Failed) => SubagentPhase::Failed,
            None => if background(input_of(part.call.tool)) {
                SubagentPhase::Started
            } else if !part.resolved {
                if streaming {
                    SubagentPhase::Running
                } else {
                    SubagentPhase::Failed
                }
            } else if part.output is None && streaming {
                SubagentPhase::Started
            } else {
                SubagentPhase::Done
            },
        }
    }
}

/// The first text of a message that gives a line.
pub open spec fn first_text(parts: Seq<MessagePart>) -> Option<Seq<char>>
    decreases parts.len(),
{
    if parts.len() == 0 {
        None
    } else {
        let here = match parts[0] {
            MessagePart::Text { text } => result_line(text@),
            _ => None,
        };
        if here is Some {
            here
        } else {
            first_text(parts.subrange(1, parts.len() as int))
        }
    }
}

/// The text of the newest message that gives a line.
pub open spec fn newest_text(entries: Seq<SessionMessageEntry>) -> Option<Seq<char>>
    decreases entries.len(),
{
    if entries.len() == 0 {
        None
    } else if first_text(entries.last().parts@) is Some {
        first_text(entries.last().parts@)
    } else {
        newest_text(entries.drop_last())
    }
}

/// The latest creation time in a document.
pub open spec fn newest_time(entries: Seq<SessionMessageEntry>) -> Option<i64>
    decreases entries.len(),
{
    if entries.len() == 0 {
        None
    } else {
        match newest_time(entries.drop_last()) {
            Some(time) if time > entries.last().created_at => Some(time),
            _ => Some(entries.last().created_at),
        }
    }
}

/// The instant of an optional millisecond count.
pub open spec fn instant_option(ms: Option<i64>) -> Option<i64> {
    match ms {
        Some(ms) => instant(ms),
        None => None,
    }
}

/// What the tray shows under a title: the result's first line, else the live
/// tail's, else the newest text of the spawned document.
pub open spec fn summary_of(
    part: ToolPart,
    docs: Seq<(String, Vec<SessionMessageEntry>)>,
) -> Option<Seq<char>> {
    let from_doc = match part.subagent_ref {
        Some(doc) => newest_text(document(docs, doc@)),
        None => None,
    };
    if line_option(part.output) is Some {
        line_option(part.output)
    } else if line_option(part.subagent_tail) is Some {
        line_option(part.subagent_tail)
    } else {
        from_doc
    }
}

/// When a settled agent finished: the newest entry of its document, else what
/// this session observed.
pub open spec fn finish_of(state: SubagentState, chat: Seq<char>, part: ToolPart) -> Option<i64> {
    let from_doc = match part.subagent_ref {
        Some(doc) => instant_option(newest_time(document(state.sub_transcripts@, doc@))),
        None => None,
    };
    if from_doc is Some {
        from_doc
    } else {
        instant_option(observed_finish(state.finished_obs@, observation_key(chat, part.id@)))
    }
}

/// The summary of one spawn.
pub open spec fn summarized(
    state: SubagentState,
    chat: Seq<char>,
    entry: SessionMessageEntry,
    part: ToolPart,
    latest: bool,
) -> Summary {
    let status = phase_of(part, entry.status == Some(MessageStatus::Streaming));
    Summary {
        id: part.id@,
        title: title_of(part.call.tool),
        agent_type: input_text(input_of(part.call.tool), "subagent_type"@),
        model: part.call.model.deep_view(),
        status,
        started: instant(entry.created_at),
        finished: if status.is_active() {
            None
        } else {
            finish_of(state, chat, part)
        },
        summary: summary_of(part, state.sub_transcripts@),
        doc_ref: part.subagent_ref.deep_view(),
        latest_turn: latest,
    }
}

/// The spawns among the first `n` parts of an entry, in order.
pub open spec fn spawns_in(
    state: SubagentState,
    chat: Seq<char>,
    entry: SessionMessageEntry,
    latest: bool,
    n: nat,
) -> Seq<Summary>
    decreases n,
{
    if n == 0 || n > entry.parts@.len() {
        Seq::empty()
    } else {
        let before = spawns_in(state, chat, entry, latest, (n - 1) as nat);
        match entry.parts@[n - 1] {
            MessagePart::Tool(part) => if part.call.spawn {
                before.push(summarized(state, chat, entry, part, latest))
            } else {
                before
            },
            _ => before,
        }
    }
}

/// The spawns among the first `n` entries of a chat, in order. A user's own
/// entries spawn nothing.
pub open spec fn spawns_of(state: SubagentState, chat: Seq<char>, n: nat) -> Seq<Summary>
    decreases n,
{
    let entries = entries_of(state, chat);
    if n == 0 || n > entries.len() {
        Seq::empty()
    } else {
        let before = spawns_of(state, chat, (n - 1) as nat);
        let entry = entries[n - 1];
        if entry.role is User {
            before
        } else {
            before + spawns_in(
                state,
                chat,
                entry,
                n - 1 >= last_user(entries),
                entry.parts@.len(),
            )
        }
    }
}

/// All spawns of a chat, in transcript order.
pub open spec fn all_spawns(state: SubagentState, chat: Seq<char>) -> Seq<Summary> {
    spawns_of(state, chat, entries_of(state, chat).len())
}

/// An optional instant as a number: unknown comes before everything.
pub open spec fn instant_rank(at: Option<i64>) -> int {
    match at {
        Some(ms) => ms as int,
        None => i64::MIN - 1,
    }
}

/// When a settled agent was last heard of: its finish, else its start.
pub open spec fn settled_at(s: Summary) -> Option<i64> {
    if s.finished is Some {
        s.finished
    } else {
        s.started
    }
}

/// The display order: active agents first, oldest first among them; then the
/// settled ones, newest first.
pub open spec fn precedes(a: Summary, b: Summary) -> bool {
    if a.status.is_active() != b.status.is_active() {
        a.status.is_active()
    } else if a.status.is_active() {
        instant_rank(a.started) < instant_rank(b.started)
    } else {
        instant_rank(settled_at(a)) > instant_rank(settled_at(b))
    }
}

/// Whether the item at `i` is shown before the item at `j`: by the display
/// order, and by the transcript's where that does not tell them apart.
pub open spec fn shown_before(items: Seq<Summary>, i: int, j: int) -> bool {
    precedes(items[i], items[j]) || (!precedes(items[j], items[i]) && i < j)
}

/// `order` lists each index of `items` once, in display order.
pub open spec fn display_order(items: Seq<Summary>, order: Seq<int>) -> bool {
    &&& order.len() == items.len()
    &&& forall|k: int| 0 <= k < order.len() ==> 0 <= #[trigger] order[k] < items.len()
    &&& forall|a: int, b: int|
        0 <= a < b < order.len() ==> shown_before(items, #[trigger] order[a], #[trigger] order[b])
}

/// `sorted` is `items` in display order.
pub open spec fn sorted_as(items: Seq<Summary>, sorted: Seq<Summary>) -> bool {
    exists|order: Seq<int>|
        #![trigger display_order(items, order)]
        display_order(items, order) && sorted == order.map_values(|i: int| items[i])
}

/// Whether an optional instant is earlier than another; unknown is earliest.
fn earlier(a: Option<i64>, b: Option<i64>) -> (r: bool)
    ensures
        r == (instant_rank(a) < instant_rank(b)),
{
    match (a, b) {
        (Some(x), Some(y)) => x < y,
        (None, Some(_)) => true,
        _ => false,
    }
}

fn comes_before(a: &SubagentSummary, b: &SubagentSummary) -> (r: bool)
    ensures
        r == precedes(a.deep_view(), b.deep_view()),
{
    if a.status.active() != b.status.active() {
        return a.status.active();
    }
    if a.status.active() {
        return earlier(a.started, b.started);
    }
    let last_a: Option<i64> = if a.finished.is_some() {
        a.finished
    } else {
        a.started
    };
    let last_b: Option<i64> = if b.finished.is_some() {
        b.finished
    } else {
        b.started
    };
    earlier(last_b, last_a)
}

/// Puts summaries in display order, keeping the transcript's order among
/// equals.
fn sort_for_display(items: Vec<SubagentSummary>) -> (r: Vec<SubagentSummary>)
    ensures
        sorted_as(items.deep_view(), r.deep_view()),
{
    let ghost all = items.deep_view();
    let mut out: Vec<SubagentSummary> = Vec::new();
    let ghost mut order: Seq<int> = Seq::empty();
    for item in it: items
        invariant
            it.seq() == items@,
            all == items.deep_view(),
            out@.len() == it.index(),
            order.len() == it.index(),
            forall|k: int|
                0 <= k < order.len() ==> {
                    &&& 0 <= #[trigger] order[k] < it.index()
                    &&& out@[k].deep_view() == all[order[k]]
                },
            forall|a: int, b: int|
                0 <= a < b < order.len() ==> shown_before(
                    all,
                    #[trigger] order[a],
                    #[trigger] order[b],
                ),
    {
        let ghost n = it.index() as int;
        let mut at: usize = out.len();
        proof {
            assert(item.deep_view() == all[n]);
        }
        while at > 0 && comes_before(&item, &out[at - 1])
            invariant
                at <= out@.len() == n == order.len(),
                item.deep_view() == all[n],
                forall|k: int|
                    0 <= k < order.len() ==> {
                        &&& 0 <= #[trigger] order[k] < n
                        &&& out@[k].deep_view() == all[order[k]]
                    },
                forall|k: int| at <= k < order.len() ==> precedes(all[n], all[#[trigger] order[k]]),
            decreases at,
        {
            at -= 1;
        }
        proof {
            assert forall|k: int| 0 <= k < at implies !precedes(
                all[n],
                all[#[trigger] order[k]],
            ) by {
                if k < at - 1 {
                    assert(shown_before(all, order[k], order[at - 1]));
                }
            }
            let next = order.insert(at as int, n);
            assert forall|a: int, b: int| 0 <= a < b < next.len() implies shown_before(
                all,
                #[trigger] next[a],
                #[trigger] next[b],
            ) by {
                if a == at {
                    assert(next[b] == order[b - 1]);
                } else if b == at {
                    assert(next[a] == order[a]);
                } else {
                    let x = if a < at { a } else { a - 1 };
                    let y = if b < at { b } else { b - 1 };
                    assert(next[a] == order[x] && next[b] == order[y]);
                }
            }
            order = next;
        }
        let ghost before = out@;
        out.insert(at, item);
        proof {
            assert(out@ == before.insert(at as int, item));
        }
    }
    proof {
        assert(display_order(all, order));
        assert(out.deep_view() =~= order.map_values(|i: int| all[i]));
    }
    out
}

impl SubagentState {
    /// The loaded document of that name, or no entries.
    fn sub_transcript(&self, id: &str) -> (r: Option<&Vec<SessionMessageEntry>>)
        ensures
            (match r {
                Some(entries) => document(self.sub_transcripts@, id@) == entries@,
                None => document(self.sub_transcripts@, id@) == Seq::<
                    SessionMessageEntry,
                >::empty(),
            }),
    {
        let mut i: usize = 0;
        proof {
            assert(self.sub_transcripts@.subrange(0, self.sub_transcripts@.len() as int)
                =~= self.sub_transcripts@);
        }
        while i < self.sub_transcripts.len()
            invariant
                i <= self.sub_transcripts@.len(),
                document(self.sub_transcripts@, id@) == document(
                    self.sub_transcripts@.subrange(i as int, self.sub_transcripts@.len() as int),
                    id@,
                ),
            decreases self.sub_transcripts@.len() - i,
        {
            let ghost rest = self.sub_transcripts@.subrange(
                i as int,
                self.sub_transcripts@.len() as int,
            );
            if same_text(self.sub_transcripts[i].0.as_str(), id) {
                return Some(&self.sub_transcripts[i].1);
            }
            proof {
                assert(rest.subrange(1, rest.len() as int) =~= self.sub_transcripts@.subrange(
                    i + 1,
                    self.sub_transcripts@.len() as int,
                ));
            }
            i += 1;
        }
        None
    }

    /// The finish time observed under a key.
    fn finish_observed(&self, key: &str) -> (r: Option<i64>)
        ensures
            r == observed_finish(self.finished_obs@, key@),
    {
        let mut i: usize = 0;
        proof {
            assert(self.finished_obs@.subrange(0, self.finished_obs@.len() as int)
                =~= self.finished_obs@);
        }
        while i < self.finished_obs.len()
            invariant
                i <= self.finished_obs@.len(),
                observed_finish(self.finished_obs@, key@) == observed_finish(
                    self.finished_obs@.subrange(i as int, self.finished_obs@.len() as int),
                    key@,
                ),
            decreases self.finished_obs@.len() - i,
        {
            let ghost rest = self.finished_obs@.subrange(
                i as int,
                self.finished_obs@.len() as int,
            );
            if same_text(self.finished_obs[i].0.as_str(), key) {
                return Some(self.finished_obs[i].1);
            }
            proof {
                assert(rest.subrange(1, rest.len() as int) =~= self.finished_obs@.subrange(
                    i + 1,
                    self.finished_obs@.len() as int,
                ));
            }
            i += 1;
        }
        None
    }

    /// Whether a key was seen active.
    fn active_observed(&self, key: &str) -> (r: bool)
        ensures
            r == observed_active(self.active_obs@, key@),
    {
        let mut i: usize = 0;
        while i < self.active_obs.len()
            invariant
                i <= self.active_obs@.len(),
                forall|k: int| 0 <= k < i ==> (#[trigger] self.active_obs@[k])@ != key@,
            decreases self.active_obs@.len() - i,
        {
            if same_text(self.active_obs[i].as_str(), key) {
                return true;
            }
            i += 1;
        }
        false
    }
}

fn phase(part: &ToolPart, streaming: bool) -> (r: SubagentPhase)
    ensures
        r == phase_of(*part, streaming),
{
    if part.is_error {
        return SubagentPhase::Failed;
    }
    match part.subagent_status {
        Some(SubagentStatus::Running) => SubagentPhase::Running,
        Some(SubagentStatus::Done) => SubagentPhase::Done,
        Some(SubagentStatus::Failed) => SubagentPhase::Failed,
        None => {
            if is_background_spawn(spawn_input(&part.call.tool)) {
                SubagentPhase::Started
            } else if !part.resolved {
                if streaming {
                    SubagentPhase::Running
                } else {
                    SubagentPhase::Failed
                }
            } else if part.output.is_some() {
                SubagentPhase::Done
            } else if streaming {
                SubagentPhase::Started
            } else {
                SubagentPhase::Done
            }
        },
    }
}

fn text_of_message(parts: &Vec<MessagePart>) -> (r: Option<String>)
    ensures
        r.deep_view() == first_text(parts@),
{
    let mut i: usize = 0;
    proof {
        assert(parts@.subrange(0, parts@.len() as int) =~= parts@);
    }
    while i < parts.len()
        invariant
            i <= parts@.len(),
            first_text(parts@) == first_text(parts@.subrange(i as int, parts@.len() as int)),
        decreases parts@.len() - i,
    {
        let ghost rest = parts@.subrange(i as int, parts@.len() as int);
        match &parts[i] {
            MessagePart::Text { text } => {
                let line: Option<String> = one_line(text.as_str());
                if line.is_some() {
                    return line;
                }
            },
            _ => {},
        }
        proof {
            assert(rest.subrange(1, rest.len() as int) =~= parts@.subrange(
                i + 1,
                parts@.len() as int,
            ));
        }
        i += 1;
    }
    None
}

fn text_of_document(entries: &Vec<SessionMessageEntry>) -> (r: Option<String>)
    ensures
        r.deep_view() == newest_text(entries@),
{
    let mut n: usize = entries.len();
    proof {
        assert(entries@.take(n as int) =~= entries@);
    }
    while n > 0
        invariant
            n <= entries@.len(),
            newest_text(entries@) == newest_text(entries@.take(n as int)),
        decreases n,
    {
        let ghost front = entries@.take(n as int);
        let line: Option<String> = text_of_message(&entries[n - 1].parts);
        if line.is_some() {
            return line;
        }
        proof {
            assert(front.drop_last() =~= entries@.take(n - 1));
        }
        n -= 1;
    }
    None
}

fn time_of_document(entries: &Vec<SessionMessageEntry>) -> (r: Option<i64>)
    ensures
        r == newest_time(entries@),
{
    let mut newest: Option<i64> = None;
    let mut n: usize = 0;
    while n < entries.len()
        invariant
            n <= entries@.len(),
            newest == newest_time(entries@.take(n as int)),
        decreases entries@.len() - n,
    {
        let at: i64 = entries[n].created_at;
        newest = match newest {
            Some(time) => {
                if time > at {
                    Some(time)
                } else {
                    Some(at)
                }
            },
            None => Some(at),
        };
        n += 1;
        proof {
            let front = entries@.take(n as int);
            assert(front.drop_last() =~= entries@.take(n - 1));
        }
    }
    proof {
        assert(entries@.take(n as int) =~= entries@);
    }
    newest
}

fn summary_line(part: &ToolPart, state: &SubagentState) -> (r: Option<String>)
    ensures
        r.deep_view() == summary_of(*part, state.sub_transcripts@),
{
    let result: Option<String> = one_line_option(&part.output);
    if result.is_some() {
        return result;
    }
    let tail: Option<String> = one_line_option(&part.subagent_tail);
    if tail.is_some() {
        return tail;
    }
    match &part.subagent_ref {
        Some(doc) => match state.sub_transcript(doc.as_str()) {
            Some(entries) => text_of_document(entries),
            None => None,
        },
        None => None,
    }
}

fn finish_time(state: &SubagentState, chat_id: &str, part: &ToolPart) -> (r: Option<i64>)
    ensures
        r == finish_of(*state, chat_id@, *part),
{
    match &part.subagent_ref {
        Some(doc) => match state.sub_transcript(doc.as_str()) {
            Some(entries) => match time_of_document(entries) {
                Some(ms) => {
                    let at: Option<i64> = millis(ms);
                    if at.is_some() {
                        return at;
                    }
                },
                None => {},
            },
            None => {},
        },
        None => {},
    }
    let key: String = part_key(chat_id, part.id.as_str());
    match state.finish_observed(key.as_str()) {
        Some(ms) => millis(ms),
        None => None,
    }
}

fn summarize(
    state: &SubagentState,
    chat_id: &str,
    entry: &SessionMessageEntry,
    part: &ToolPart,
    latest: bool,
) -> (r: SubagentSummary)
    ensures
        r.deep_view() == summarized(*state, chat_id@, *entry, *part, latest),
{
    let streaming: bool = match entry.status {
        Some(MessageStatus::Streaming) => true,
        _ => false,
    };
    let status: SubagentPhase = phase(part, streaming);
    let finished: Option<i64> = if status.active() {
        None
    } else {
        finish_time(state, chat_id, part)
    };
    SubagentSummary {
        id: part.id.clone(),
        title: spawn_title(&part.call.tool),
        agent_type: input_str(spawn_input(&part.call.tool), "subagent_type"),
        model: copy_option(&part.call.model),
        status,
        started: millis(entry.created_at),
        finished,
        summary: summary_line(part, state),
        doc_ref: copy_option(&part.subagent_ref),
        latest_turn: latest,
    }
}

fn collect_entry(
    out: &mut Vec<SubagentSummary>,
    state: &SubagentState,
    chat_id: &str,
    entry: &SessionMessageEntry,
    latest: bool,
)
    ensures
        final(out).deep_view() == old(out).deep_view() + spawns_in(
            *state,
            chat_id@,
            *entry,
            latest,
            entry.parts@.len(),
        ),
{
    let ghost before = out.deep_view();
    let mut i: usize = 0;
    proof {
        assert(out.deep_view() =~= before + spawns_in(*state, chat_id@, *entry, latest, 0));
    }
    while i < entry.parts.len()
        invariant
            i <= entry.parts@.len(),
            out.deep_view() == before + spawns_in(*state, chat_id@, *entry, latest, i as nat),
        decreases entry.parts@.len() - i,
    {
        let ghost sofar = out.deep_view();
        match &entry.parts[i] {
            MessagePart::Tool(part) => {
                if part.call.spawn {
                    let item: SubagentSummary = summarize(state, chat_id, entry, part, latest);
                    let ghost view = item.deep_view();
                    out.push(item);
                    proof {
                        assert(out.deep_view() =~= sofar.push(view));
                        assert(sofar.push(view) =~= before + spawns_in(
                            *state,
                            chat_id@,
                            *entry,
                            latest,
                            i as nat,
                        ).push(view));
                    }
                }
            },
            _ => {},
        }
        i += 1;
    }
}

fn latest_turn_start(entries: &Vec<SessionMessageEntry>) -> (r: usize)
    ensures
        r == last_user(entries@),
{
    let mut n: usize = entries.len();
    proof {
        assert(entries@.take(n as int) =~= entries@);
    }
    while n > 0
        invariant
            n <= entries@.len(),
            last_user(entries@) == last_user(entries@.take(n as int)),
        decreases n,
    {
        let ghost front = entries@.take(n as int);
        if entries[n - 1].role == MessageRole::User {
            return n - 1;
        }
        proof {
            assert(front.drop_last() =~= entries@.take(n - 1));
        }
        n -= 1;
    }
    0
}

fn collect(state: &SubagentState, chat_id: &str) -> (r: Vec<SubagentSummary>)
    ensures
        r.deep_view() == all_spawns(*state, chat_id@),
{
    let mut out: Vec<SubagentSummary> = Vec::new();
    let found: Option<&Vec<SessionMessageEntry>> = if is_text(&state.selected_chat, chat_id) {
        Some(&state.transcript)
    } else {
        state.sub_transcript(chat_id)
    };
    proof {
        assert(out.deep_view() =~= spawns_of(*state, chat_id@, 0));
    }
    let entries: &Vec<SessionMessageEntry> = match found {
        Some(entries) => entries,
        None => return out,
    };
    let start: usize = latest_turn_start(entries);
    let mut n: usize = 0;
    while n < entries.len()
        invariant
            n <= entries@.len(),
            entries@ == entries_of(*state, chat_id@),
            start == last_user(entries@),
            out.deep_view() == spawns_of(*state, chat_id@, n as nat),
        decreases entries@.len() - n,
    {
        if entries[n].role != MessageRole::User {
            collect_entry(&mut out, state, chat_id, &entries[n], n >= start);
        }
        n += 1;
    }
    out
}

/// Whether one of the shown agents is active under that key.
pub open spec fn active_under(shown: Seq<Summary>, chat: Seq<char>, key: Seq<char>) -> bool {
    exists|i: int|
        0 <= i < shown.len() && (#[trigger] shown[i]).status.is_active() && observation_key(
            chat,
            shown[i].id,
        ) == key
}

/// Whether one of the shown agents settled under that key without a known
/// finish.
pub open spec fn unfinished_under(shown: Seq<Summary>, chat: Seq<char>, key: Seq<char>) -> bool {
    exists|i: int|
        0 <= i < shown.len() && !(#[trigger] shown[i]).status.is_active() && shown[i].finished
            is None && observation_key(chat, shown[i].id) == key
}

/// What is remembered of the shown agents: every active one counts as seen
/// active, and a settled one without a finish is stamped once, provided this
/// session has seen it active.
pub open spec fn observed_after(
    before: SubagentState,
    after: SubagentState,
    chat: Seq<char>,
    shown: Seq<Summary>,
    now: i64,
) -> bool {
    &&& after.selected_chat == before.selected_chat
    &&& after.transcript == before.transcript
    &&& after.sub_transcripts == before.sub_transcripts
    &&& forall|key: Seq<char>|
        #![trigger observed_active(after.active_obs@, key)]
        observed_active(after.active_obs@, key) <==> observed_active(before.active_obs@, key)
            || active_under(shown, chat, key)
    &&& forall|key: Seq<char>|
        #![trigger observed_finish(after.finished_obs@, key)]
        observed_finish(after.finished_obs@, key) == (if observed_finish(
            before.finished_obs@,
            key,
        ) is Some {
            observed_finish(before.finished_obs@, key)
        } else if unfinished_under(shown, chat, key) && (observed_active(before.active_obs@, key)
            || active_under(shown, chat, key)) {
            Some(now)
        } else {
            None
        })
}

proof fn finish_appended(obs: Seq<(String, i64)>, last: (String, i64), key: Seq<char>)
    ensures
        observed_finish(obs.push(last), key) == (if observed_finish(obs, key) is Some {
            observed_finish(obs, key)
        } else if last.0@ == key {
            Some(last.1)
        } else {
            None
        }),
    decreases obs.len(),
{
    let all = obs.push(last);
    if obs.len() == 0 {
        assert(all.subrange(1, all.len() as int) =~= Seq::<(String, i64)>::empty());
        assert(observed_finish(Seq::<(String, i64)>::empty(), key) is None);
    } else {
        let rest = obs.subrange(1, obs.len() as int);
        assert(all.subrange(1, all.len() as int) =~= rest.push(last));
        finish_appended(rest, last, key);
    }
}

proof fn active_appended(obs: Seq<String>, last: String, key: Seq<char>)
    ensures
        observed_active(obs.push(last), key) <==> observed_active(obs, key) || last@ == key,
{
    let all = obs.push(last);
    if observed_active(obs, key) {
        let i = choose|i: int| 0 <= i < obs.len() && (#[trigger] obs[i])@ == key;
        assert(all[i]@ == key);
    }
    if last@ == key {
        assert(all[obs.len() as int]@ == key);
    }
    if observed_active(all, key) {
        let i = choose|i: int| 0 <= i < all.len() && (#[trigger] all[i])@ == key;
        if i < obs.len() {
            assert(obs[i]@ == key);
        }
    }
}

/// In display order every active agent stands before every settled one.
pub proof fn active_agents_come_first(items: Seq<Summary>, sorted: Seq<Summary>, i: int, j: int)
    requires
        sorted_as(items, sorted),
        0 <= i < sorted.len(),
        0 <= j < sorted.len(),
        sorted[i].status.is_active(),
        !sorted[j].status.is_active(),
    ensures
        i < j,
{
    let order = choose|order: Seq<int>|
        #![trigger display_order(items, order)]
        display_order(items, order) && sorted == order.map_values(|i: int| items[i]);
    if j <= i {
        assert(shown_before(items, order[j], order[i]));
    }
}

/// The shown agents with an active and unfinished count over the first `n`.
proof fn active_prefix(shown: Seq<Summary>, chat: Seq<char>, key: Seq<char>, n: int)
    requires
        0 <= n < shown.len(),
    ensures
        active_under(shown.take(n + 1), chat, key) <==> active_under(shown.take(n), chat, key) || (
        shown[n].status.is_active() && observation_key(chat, shown[n].id) == key),
        unfinished_under(shown.take(n + 1), chat, key) <==> unfinished_under(
            shown.take(n),
            chat,
            key,
        ) || (!shown[n].status.is_active() && shown[n].finished is None && observation_key(
            chat,
            shown[n].id,
        ) == key),
{
    let small = shown.take(n);
    let big = shown.take(n + 1);
    assert(big[n] == shown[n]);
    if active_under(small, chat, key) {
        let i = choose|i: int|
            0 <= i < small.len() && (#[trigger] small[i]).status.is_active() && observation_key(
                chat,
                small[i].id,
            ) == key;
        assert(big[i] == small[i]);
    }
    if active_under(big, chat, key) {
        let i = choose|i: int|
            0 <= i < big.len() && (#[trigger] big[i]).status.is_active() && observation_key(
                chat,
                big[i].id,
            ) == key;
        if i < n {
            assert(small[i] == big[i]);
        }
    }
    if unfinished_under(small, chat, key) {
        let i = choose|i: int|
            0 <= i < small.len() && !(#[trigger] small[i]).status.is_active() && small[i].finished
                is None && observation_key(chat, small[i].id) == key;
        assert(big[i] == small[i]);
    }
    if unfinished_under(big, chat, key) {
        let i = choose|i: int|
            0 <= i < big.len() && !(#[trigger] big[i]).status.is_active() && big[i].finished
                is None && observation_key(chat, big[i].id) == key;
        if i < n {
            assert(small[i] == big[i]);
        }
    }
}

/// Nothing under a key becomes active behind a settled agent.
proof fn active_is_decided(
    items: Seq<Summary>,
    shown: Seq<Summary>,
    chat: Seq<char>,
    key: Seq<char>,
    n: int,
)
    requires
        sorted_as(items, shown),
        0 <= n < shown.len(),
        !shown[n].status.is_active(),
    ensures
        active_under(shown.take(n), chat, key) == active_under(shown, chat, key),
{
    let small = shown.take(n);
    if active_under(shown, chat, key) {
        let i = choose|i: int|
            0 <= i < shown.len() && (#[trigger] shown[i]).status.is_active() && observation_key(
                chat,
                shown[i].id,
            ) == key;
        active_agents_come_first(items, shown, i, n);
        assert(small[i] == shown[i]);
    }
    if active_under(small, chat, key) {
        let i = choose|i: int|
            0 <= i < small.len() && (#[trigger] small[i]).status.is_active() && observation_key(
                chat,
                small[i].id,
            ) == key;
        assert(shown[i] == small[i]);
    }
}

/// Remembers what the shown agents tell.
fn observe(
    state: &mut SubagentState,
    chat_id: &str,
    shown: &Vec<SubagentSummary>,
    now: i64,
    items: Ghost<Seq<Summary>>,
)
    requires
        sorted_as(items@, shown.deep_view()),
    ensures
        observed_after(*old(state), *final(state), chat_id@, shown.deep_view(), now),
{
    let ghost all = shown.deep_view();
    let ghost before = *state;
    let mut n: usize = 0;
    proof {
        assert(all.take(0) =~= Seq::<Summary>::empty());
    }
    while n < shown.len()
        invariant
            n <= shown@.len(),
            all == shown.deep_view(),
            sorted_as(items@, all),
            state.selected_chat == before.selected_chat,
            state.transcript == before.transcript,
            state.sub_transcripts == before.sub_transcripts,
            forall|key: Seq<char>|
                #![trigger observed_active(state.active_obs@, key)]
                observed_active(state.active_obs@, key) <==> observed_active(
                    before.active_obs@,
                    key,
                ) || active_under(all.take(n as int), chat_id@, key),
            forall|key: Seq<char>|
                #![trigger observed_finish(state.finished_obs@, key)]
                observed_finish(state.finished_obs@, key) == (if observed_finish(
                    before.finished_obs@,
                    key,
                ) is Some {
                    observed_finish(before.finished_obs@, key)
                } else if unfinished_under(all.take(n as int), chat_id@, key) && (observed_active(
                    before.active_obs@,
                    key,
                ) || active_under(all, chat_id@, key)) {
                    Some(now)
                } else {
                    None
                }),
        decreases shown@.len() - n,
    {
        let ghost was = *state;
        let key: String = part_key(chat_id, shown[n].id.as_str());
        let ghost name = key@;
        proof {
            assert(all[n as int] == shown@[n as int].deep_view());
            assert forall|key: Seq<char>|
                #![trigger observed_active(was.active_obs@, key)]
                #![trigger observed_finish(was.finished_obs@, key)]
                true implies (active_under(all.take(n + 1), chat_id@, key) <==> active_under(
                all.take(n as int),
                chat_id@,
                key,
            ) || (all[n as int].status.is_active() && observation_key(
                chat_id@,
                all[n as int].id,
            ) == key)) && (unfinished_under(all.take(n + 1), chat_id@, key) <==> unfinished_under(
                all.take(n as int),
                chat_id@,
                key,
            ) || (!all[n as int].status.is_active() && all[n as int].finished is None
                && observation_key(chat_id@, all[n as int].id) == key)) by {
                active_prefix(all, chat_id@, key, n as int);
            }
        }
        if shown[n].status.active() {
            if !state.active_observed(key.as_str()) {
                state.active_obs.push(key);
            }
            proof {
                assert forall|key: Seq<char>|
                    #![trigger observed_active(state.active_obs@, key)]
                    observed_active(state.active_obs@, key) <==> observed_active(
                        before.active_obs@,
                        key,
                    ) || active_under(all.take(n + 1), chat_id@, key) by {
                    assert(observed_active(was.active_obs@, key) == observed_active(
                        was.active_obs@,
                        key,
                    ));
                    if state.active_obs@ != was.active_obs@ {
                        active_appended(was.active_obs@, state.active_obs@.last(), key);
                        assert(state.active_obs@ =~= was.active_obs@.push(
                            state.active_obs@.last(),
                        ));
                    }
                }
                assert forall|key: Seq<char>|
                    #![trigger observed_finish(state.finished_obs@, key)]
                    unfinished_under(all.take(n + 1), chat_id@, key) == unfinished_under(
                        all.take(n as int),
                        chat_id@,
                        key,
                    ) by {
                    assert(observed_finish(was.finished_obs@, key) == observed_finish(
                        was.finished_obs@,
                        key,
                    ));
                }
            }
        } else {
            proof {
                active_is_decided(items@, all, chat_id@, name, n as int);
            }
            if shown[n].finished.is_none() && state.active_observed(key.as_str()) {
                if state.finish_observed(key.as_str()).is_none() {
                    state.finished_obs.push((key, now));
                }
            }
            proof {
                assert forall|key: Seq<char>|
                    #![trigger observed_active(state.active_obs@, key)]
                    active_under(all.take(n + 1), chat_id@, key) == active_under(
                        all.take(n as int),
                        chat_id@,
                        key,
                    ) by {
                    assert(observed_active(was.active_obs@, key) == observed_active(
                        was.active_obs@,
                        key,
                    ));
                }
                assert(observed_active(was.active_obs@, name) == observed_active(
                    was.active_obs@,
                    name,
                ));
                assert forall|key: Seq<char>|
                    #![trigger observed_finish(state.finished_obs@, key)]
                    observed_finish(state.finished_obs@, key) == (if observed_finish(
                        before.finished_obs@,
                        key,
                    ) is Some {
                        observed_finish(before.finished_obs@, key)
                    } else if unfinished_under(all.take(n + 1), chat_id@, key) && (
                    observed_active(before.active_obs@, key) || active_under(
                        all,
                        chat_id@,
                        key,
                    )) {
                        Some(now)
                    } else {
                        None
                    }) by {
                    assert(observed_finish(was.finished_obs@, key) == observed_finish(
                        was.finished_obs@,
                        key,
                    ));
                    if state.finished_obs@ != was.finished_obs@ {
                        finish_appended(was.finished_obs@, state.finished_obs@.last(), key);
                        assert(state.finished_obs@ =~= was.finished_obs@.push(
                            state.finished_obs@.last(),
                        ));
                    }
                }
            }
        }
        n += 1;
    }
    proof {
        assert(all.take(n as int) =~= all);
    }
}

/// The chat's spawn calls as display summaries, running first (oldest first),
/// then finished (newest first). A chat with no loaded transcript selects
/// nothing. What the summaries tell of running and finished agents is
/// remembered; `now` stamps a finish seen for the first time.
pub fn subagents_for(state: &mut SubagentState, chat_id: &str, now: i64) -> (r: Vec<
    SubagentSummary,
>)
    ensures
        sorted_as(all_spawns(*old(state), chat_id@), r.deep_view()),
        observed_after(*old(state), *final(state), chat_id@, r.deep_view(), now),
{
    let items: Vec<SubagentSummary> = collect(state, chat_id);
    let ghost views = items.deep_view();
    let out: Vec<SubagentSummary> = sort_for_display(items);
    observe(state, chat_id, &out, now, Ghost(views));
    out
}

/// Belongs on the tray: in the latest turn, or known to be running.
pub open spec fn on_strip(s: Summary) -> bool {
    s.latest_turn || s.status is Running
}

/// The tray's visible subset, in order.
pub fn strip_visible(summaries: &Vec<SubagentSummary>) -> (r: Vec<SubagentSummary>)
    ensures
        r.deep_view() == summaries.deep_view().filter(|s: Summary| on_strip(s)),
{
    let ghost all = summaries.deep_view();
    let mut out: Vec<SubagentSummary> = Vec::new();
    let mut i: usize = 0;
    proof {
        assert(all.take(0) =~= Seq::<Summary>::empty());
        reveal(Seq::filter);
        assert(out.deep_view() =~= all.take(0).filter(|s: Summary| on_strip(s)));
    }
    while i < summaries.len()
        invariant
            i <= summaries@.len(),
            all == summaries.deep_view(),
            out.deep_view() == all.take(i as int).filter(|s: Summary| on_strip(s)),
        decreases summaries@.len() - i,
    {
        let ghost sofar = out.deep_view();
        let ghost front = all.take(i + 1);
        proof {
            reveal(Seq::filter);
            assert(front.drop_last() =~= all.take(i as int));
            assert(front.last() == summaries@[i as int].deep_view());
        }
        if summaries[i].latest_turn || summaries[i].status == SubagentPhase::Running {
            let copy: SubagentSummary = summaries[i].copied();
            out.push(copy);
            proof {
                assert(out.deep_view() =~= sofar.push(front.last()));
            }
        }
        i += 1;
    }
    proof {
        assert(all.take(i as int) =~= all);
    }
    out
}

/// A spawn that merely returned is never shown as done: without a report and
/// without a result it is started while its turn streams.
pub proof fn an_eager_return_is_not_done(part: ToolPart)
    requires
        !part.is_error,
        part.subagent_status is None,
        part.output is None,
    ensures
        phase_of(part, true).is_active(),
{
}

/// A finish is only ever stamped for an agent that this session has seen
/// active, and a stamp never changes.
pub proof fn a_stamp_needs_an_active_sighting(
    before: SubagentState,
    after: SubagentState,
    chat: Seq<char>,
    shown: Seq<Summary>,
    now: i64,
    key: Seq<char>,
)
    requires
        observed_after(before, after, chat, shown, now),
    ensures
        observed_finish(before.finished_obs@, key) is Some ==> observed_finish(
            after.finished_obs@,
            key,
        ) == observed_finish(before.finished_obs@, key),
        observed_finish(after.finished_obs@, key) is Some && observed_finish(
            before.finished_obs@,
            key,
        ) is None ==> observed_active(after.active_obs@, key),
{
    assert(observed_active(after.active_obs@, key) == observed_active(after.active_obs@, key));
}

/// A settled agent without an observed finish shows no running time.
pub proof fn no_guessed_duration(s: Summary, now: i64)
    requires
        !s.status.is_active(),
        s.finished is None,
    ensures
        s.elapsed(now) is None,
{
}

} // verus!
